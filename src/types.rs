//! Request and response shapes of the gateway's API.
use vstd::prelude::*;

use crate::assembly::PoolAccounts;
use crate::json::Json;
use crate::key::Key;

verus! {

/// Outcome class of an API response.
#[derive(Clone, Copy, Debug, PartialEq, Eq, Structural)]
pub enum Status {
    Success,
    Error,
    Failure,
}

impl Status {
    /// The status as the API spells it.
    pub fn as_str(&self) -> (r: &'static str)
        ensures
            *self == Status::Success ==> r@ == "ok"@,
            *self == Status::Error ==> r@ == "error"@,
            *self == Status::Failure ==> r@ == "failure"@,
    {
        match self {
            Status::Success => "ok",
            Status::Error => "error",
            Status::Failure => "failure",
        }
    }
}

/// The uniform envelope of every API response.
#[derive(Debug)]
pub struct WebJsonResponse {
    pub status: Status,
    pub message: String,
    pub data: Json,
}

/// A priced swap as the pricing engine reports it.
#[derive(Clone, Copy, Debug)]
pub struct QuoteResponse {
    pub in_amount: u64,
    pub out_amount: u64,
    pub fee_amount: u64,
    pub fee_mint: Key,
}

impl Default for QuoteResponse {
    fn default() -> (r: QuoteResponse)
        ensures
            r.in_amount == 0,
            r.out_amount == 0,
            r.fee_amount == 0,
            r.fee_mint@ == Seq::new(32, |i: int| 0u8),
    {
        let r = QuoteResponse {
            in_amount: 0,
            out_amount: 0,
            fee_amount: 0,
            fee_mint: Key { bytes: [0u8; 32] },
        };
        assert(r.fee_mint@ =~= Seq::new(32, |i: int| 0u8));
        r
    }
}

/// Body of a quote request; mints and pool are base-58 keys.
#[derive(Clone, Debug)]
pub struct QuoteRequest {
    pub pair_address: String,
    pub source_mint: String,
    pub destination_mint: String,
    pub amount_in: u64,
}

/// Symbol and decimals of one of a pool's tokens.
#[derive(Clone, Debug)]
pub struct TokenResponse {
    pub symbol: String,
    pub mint: Key,
    pub decimals: u8,
}

/// The instruction kinds a client may ask for.
#[derive(Clone, Copy, Debug, PartialEq, Eq, Structural)]
pub enum InstructionType {
    Swap,
    AddLiquidity,
    RemoveLiquidity,
    CreatePosition,
    ClosePosition,
}

/// Body of an instruction or simulation request.
#[derive(Clone, Debug)]
pub struct InstructionRequest<T> {
    pub instruction_type: InstructionType,
    pub pair_address: String,
    pub params: T,
}

/// Parameters of a swap instruction.
#[derive(Clone, Debug)]
pub struct SwapInstructionParams {
    pub source_mint: String,
    pub destination_mint: String,
    pub in_amount: u64,
    pub min_out_amount: u64,
    pub signer: String,
}

/// A mint as the pool's state names it.
#[derive(Clone, Copy, Debug)]
pub struct MintAccount {
    pub mint: Key,
    pub decimals: u8,
    pub token_program: Key,
}

/// A pool's decoded state with its two mints.
#[derive(Clone, Debug)]
pub struct State {
    pub pool_state: Option<PoolAccounts>,
    pub mint_accounts: Vec<MintAccount>,
}

} // verus!
