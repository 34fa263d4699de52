//! The decisions of the API's handlers, from request bodies to the queries
//! and payload parameters handed to the pricing engine and the assembler.
use vstd::prelude::*;

use crate::key::Key;
use crate::swap::{mode_for, resolve_mode, SwapMode};
use crate::types::{InstructionRequest, InstructionType, QuoteRequest, SwapInstructionParams};
use solana_sdk::pubkey::Pubkey;

verus! {

/// The key that a base-58 text denotes, where it denotes one.
pub uninterp spec fn decoded_key(text: Seq<char>) -> Option<Seq<u8>>;

/// Relies on `<solana_pubkey::Pubkey as FromStr>::from_str`: the base-58
/// decoding of a 32-byte key, a function of the text alone that fails on
/// anything but exactly 32 bytes of valid base-58.
#[verifier::external_body]
pub(crate) fn decode_key(text: &str) -> (r: Option<Key>)
    ensures
        r matches Some(k) ==> decoded_key(text@) == Some(k@),
        r is None ==> decoded_key(text@) is None,
{
    text.parse::<Pubkey>().ok().map(|p| Key { bytes: p.to_bytes() })
}

/// Which field of a request held a malformed key.
#[derive(Clone, Copy, Debug, PartialEq, Eq, Structural)]
pub enum KeyField {
    Pair,
    SourceMint,
    DestinationMint,
    Signer,
}

/// A request rejected before any remote call.
#[derive(Clone, Copy, Debug, PartialEq, Eq, Structural)]
pub enum RequestError {
    /// The pool address is shorter than any key's text.
    AddressTooShort,
    /// A field is not the base-58 text of a key.
    InvalidKey(KeyField),
}

/// The shortest text accepted as a pool address, in bytes.
pub const MIN_ADDRESS_LEN: usize = 20;

/// Whether an address text is shorter, in UTF-8 bytes, than any key's text.
pub open spec fn address_too_short(text: Seq<char>) -> bool {
    (vstd::utf8::encode_utf8(text).len() as usize) < MIN_ADDRESS_LEN
}

fn parse_field(text: &String, which: KeyField) -> (r: Result<Key, RequestError>)
    ensures
        match decoded_key(text@) {
            Some(k) => r matches Ok(got) && got@ == k,
            None => r == Err::<Key, RequestError>(RequestError::InvalidKey(which)),
        },
{
    match decode_key(text.as_str()) {
        Some(k) => Ok(k),
        None => Err(RequestError::InvalidKey(which)),
    }
}

/// Checks and decodes the pool address of a pair request.
pub fn parse_pair_address(address: &str) -> (r: Result<Key, RequestError>)
    ensures
        address_too_short(address@) ==> r == Err::<Key, RequestError>(
            RequestError::AddressTooShort,
        ),
        !address_too_short(address@) ==> match decoded_key(address@) {
            Some(k) => r matches Ok(got) && got@ == k,
            None => r == Err::<Key, RequestError>(RequestError::InvalidKey(KeyField::Pair)),
        },
{
    if address.len() < MIN_ADDRESS_LEN {
        return Err(RequestError::AddressTooShort);
    }
    match decode_key(address) {
        Some(k) => Ok(k),
        None => Err(RequestError::InvalidKey(KeyField::Pair)),
    }
}

/// The keys of a quote request, decoded.
#[derive(Clone, Copy, Debug)]
pub struct ParsedQuote {
    pub pair: Key,
    pub source_mint: Key,
    pub destination_mint: Key,
    pub amount_in: u64,
}

/// Decodes the keys of a quote request; the first malformed one, in the
/// order pool, source, destination, is reported.
pub fn parse_quote_request(req: &QuoteRequest) -> (r: Result<ParsedQuote, RequestError>)
    ensures
        match (
            decoded_key(req.pair_address@),
            decoded_key(req.source_mint@),
            decoded_key(req.destination_mint@),
        ) {
            (Some(p), Some(s), Some(d)) => r matches Ok(q) && q.pair@ == p && q.source_mint@ == s
                && q.destination_mint@ == d && q.amount_in == req.amount_in,
            (None, _, _) => r == Err::<ParsedQuote, RequestError>(
                RequestError::InvalidKey(KeyField::Pair),
            ),
            (Some(_), None, _) => r == Err::<ParsedQuote, RequestError>(
                RequestError::InvalidKey(KeyField::SourceMint),
            ),
            (Some(_), Some(_), None) => r == Err::<ParsedQuote, RequestError>(
                RequestError::InvalidKey(KeyField::DestinationMint),
            ),
        },
{
    let pair = match parse_field(&req.pair_address, KeyField::Pair) {
        Ok(k) => k,
        Err(e) => return Err(e),
    };
    let source_mint = match parse_field(&req.source_mint, KeyField::SourceMint) {
        Ok(k) => k,
        Err(e) => return Err(e),
    };
    let destination_mint = match parse_field(&req.destination_mint, KeyField::DestinationMint) {
        Ok(k) => k,
        Err(e) => return Err(e),
    };
    Ok(ParsedQuote { pair, source_mint, destination_mint, amount_in: req.amount_in })
}

/// What the pricing engine is asked to price.
#[derive(Clone, Copy, Debug)]
pub struct QuoteQuery {
    pub amount: u64,
    pub input_mint: Key,
    pub output_mint: Key,
    pub swap_mode: SwapMode,
}

/// The engine query of a decoded quote request on a pool whose first mint
/// is `mint_x`; `swap_for_y` is the pool's ordering test on the source mint.
pub fn quote_query(q: &ParsedQuote, swap_for_y: bool, mint_x: &Key) -> (r: QuoteQuery)
    ensures
        r.amount == q.amount_in,
        r.input_mint == q.source_mint,
        r.output_mint == q.destination_mint,
        r.swap_mode == mode_for(swap_for_y, q.source_mint@ == mint_x@),
{
    QuoteQuery {
        amount: q.amount_in,
        input_mint: q.source_mint,
        output_mint: q.destination_mint,
        swap_mode: resolve_mode(swap_for_y, &q.source_mint, mint_x),
    }
}

/// The keys of a swap request, decoded.
#[derive(Clone, Copy, Debug)]
pub struct ParsedSwap {
    pub source_mint: Key,
    pub destination_mint: Key,
    pub in_amount: u64,
    pub min_out_amount: u64,
    pub signer: Key,
}

/// Decodes the keys of a swap request; the first malformed one, in the
/// order source, destination, signer, is reported.
pub fn parse_swap_params(p: &SwapInstructionParams) -> (r: Result<ParsedSwap, RequestError>)
    ensures
        match (decoded_key(p.source_mint@), decoded_key(p.destination_mint@), decoded_key(p.signer@)) {
            (Some(s), Some(d), Some(u)) => r matches Ok(q) && q.source_mint@ == s
                && q.destination_mint@ == d && q.signer@ == u && q.in_amount == p.in_amount
                && q.min_out_amount == p.min_out_amount,
            (None, _, _) => r == Err::<ParsedSwap, RequestError>(
                RequestError::InvalidKey(KeyField::SourceMint),
            ),
            (Some(_), None, _) => r == Err::<ParsedSwap, RequestError>(
                RequestError::InvalidKey(KeyField::DestinationMint),
            ),
            (Some(_), Some(_), None) => r == Err::<ParsedSwap, RequestError>(
                RequestError::InvalidKey(KeyField::Signer),
            ),
        },
{
    let source_mint = match parse_field(&p.source_mint, KeyField::SourceMint) {
        Ok(k) => k,
        Err(e) => return Err(e),
    };
    let destination_mint = match parse_field(&p.destination_mint, KeyField::DestinationMint) {
        Ok(k) => k,
        Err(e) => return Err(e),
    };
    let signer = match parse_field(&p.signer, KeyField::Signer) {
        Ok(k) => k,
        Err(e) => return Err(e),
    };
    Ok(
        ParsedSwap {
            source_mint,
            destination_mint,
            in_amount: p.in_amount,
            min_out_amount: p.min_out_amount,
            signer,
        },
    )
}

/// The inputs of the swap payload's encoding.
#[derive(Clone, Copy, Debug)]
pub struct SwapDataParams {
    pub amount: u64,
    pub other_amount_threshold: u64,
    pub swap_for_y: bool,
    pub swap_mode: SwapMode,
}

/// The payload inputs of a decoded swap on a pool whose first mint is
/// `mint_x`: the input amount, the minimum output as the threshold, the
/// direction, and the mode of the same table that quotes use.
pub fn swap_data_params(s: &ParsedSwap, swap_for_y: bool, mint_x: &Key) -> (r: SwapDataParams)
    ensures
        r.amount == s.in_amount,
        r.other_amount_threshold == s.min_out_amount,
        r.swap_for_y == swap_for_y,
        r.swap_mode == mode_for(swap_for_y, s.source_mint@ == mint_x@),
{
    SwapDataParams {
        amount: s.in_amount,
        other_amount_threshold: s.min_out_amount,
        swap_for_y,
        swap_mode: resolve_mode(swap_for_y, &s.source_mint, mint_x),
    }
}

/// The first malformed key of a swap request, in the order source,
/// destination, signer.
pub open spec fn swap_key_error(p: SwapInstructionParams) -> Option<RequestError> {
    if decoded_key(p.source_mint@) is None {
        Some(RequestError::InvalidKey(KeyField::SourceMint))
    } else if decoded_key(p.destination_mint@) is None {
        Some(RequestError::InvalidKey(KeyField::DestinationMint))
    } else if decoded_key(p.signer@) is None {
        Some(RequestError::InvalidKey(KeyField::Signer))
    } else {
        None
    }
}

/// What a well-formed instruction request yields: a swap on a pool, or
/// nothing for the kinds not served yet.
#[derive(Clone, Copy, Debug)]
pub enum InstructionPlan {
    Swap { pair: Key, swap: ParsedSwap },
    Unsupported,
}

/// Checks an instruction request before any remote call: the pool address
/// always, and every key of a swap's parameters; a malformed one is the
/// error. Kinds other than a swap are accepted and not served.
pub fn instruction_plan(req: &InstructionRequest<SwapInstructionParams>) -> (r: Result<
    InstructionPlan,
    RequestError,
>)
    ensures
        address_too_short(req.pair_address@) ==> r == Err::<InstructionPlan, RequestError>(
            RequestError::AddressTooShort,
        ),
        !address_too_short(req.pair_address@) ==> match decoded_key(
            req.pair_address@,
        ) {
            None => r == Err::<InstructionPlan, RequestError>(
                RequestError::InvalidKey(KeyField::Pair),
            ),
            Some(pair) => {
                &&& req.instruction_type != InstructionType::Swap ==> r
                    is Ok && r->Ok_0 is Unsupported
                &&& req.instruction_type == InstructionType::Swap ==> match swap_key_error(
                    req.params,
                ) {
                    Some(e) => r == Err::<InstructionPlan, RequestError>(e),
                    None => r matches Ok(InstructionPlan::Swap { pair: got, swap }) && got@ == pair
                        && Some(swap.source_mint@) == decoded_key(req.params.source_mint@)
                        && Some(swap.destination_mint@) == decoded_key(
                        req.params.destination_mint@,
                    ) && Some(swap.signer@) == decoded_key(req.params.signer@)
                        && swap.in_amount == req.params.in_amount && swap.min_out_amount
                        == req.params.min_out_amount,
                }
            },
        },
{
    let pair = match parse_pair_address(req.pair_address.as_str()) {
        Ok(k) => k,
        Err(e) => return Err(e),
    };
    match req.instruction_type {
        InstructionType::Swap => match parse_swap_params(&req.params) {
            Ok(swap) => Ok(InstructionPlan::Swap { pair, swap }),
            Err(e) => Err(e),
        },
        _ => Ok(InstructionPlan::Unsupported),
    }
}

} // verus!
