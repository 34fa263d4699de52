//! The transaction envelope that carries an assembled swap to a dry run.
use vstd::prelude::*;

use crate::assembly::{metas_view, AssembledInstruction};
use crate::key::Key;
use base64::engine::general_purpose;
use base64::Engine;
use solana_sdk::instruction::{AccountMeta as LedgerAccountMeta, Instruction};
use solana_sdk::message::Message;
use solana_sdk::pubkey::Pubkey;
use solana_sdk::signature::Signature;

verus! {

/// The most accounts an instruction may list here: with the fee payer and
/// the program, a message then holds at most 255 keys of each kind that its
/// header counts in one byte.
pub const MAX_INSTRUCTION_ACCOUNTS: usize = 254;

/// The most payload bytes a message can carry: its length is a 16-bit
/// compact integer on the wire.
pub const MAX_INSTRUCTION_DATA: usize = 65535;

/// The wire bytes of the legacy message that holds the one instruction
/// (`program`, `accounts`, `data`) with `payer` paying the fee.
pub uninterp spec fn message_wire(
    program: Seq<u8>,
    accounts: Seq<(Seq<u8>, bool, bool)>,
    data: Seq<u8>,
    payer: Seq<u8>,
) -> Seq<u8>;

/// The standard base-64 alphabet.
pub open spec fn base64_alphabet() -> Seq<char> {
    seq![
        'A', 'B', 'C', 'D', 'E', 'F', 'G', 'H', 'I', 'J', 'K', 'L', 'M', 'N', 'O', 'P',
        'Q', 'R', 'S', 'T', 'U', 'V', 'W', 'X', 'Y', 'Z', 'a', 'b', 'c', 'd', 'e', 'f',
        'g', 'h', 'i', 'j', 'k', 'l', 'm', 'n', 'o', 'p', 'q', 'r', 's', 't', 'u', 'v',
        'w', 'x', 'y', 'z', '0', '1', '2', '3', '4', '5', '6', '7', '8', '9', '+', '/',
    ]
}

pub open spec fn sextet(v: u8) -> char {
    base64_alphabet()[(v & 63u8) as int]
}

/// The padded standard base-64 text of `bytes`: each group of three bytes
/// gives four characters of six bits each, and a last group of one or two
/// bytes is filled with zero bits and padded with `=` to four characters.
pub open spec fn base64_text(bytes: Seq<u8>) -> Seq<char>
    decreases bytes.len(),
{
    if bytes.len() == 0 {
        Seq::empty()
    } else if bytes.len() == 1 {
        seq![sextet(bytes[0] >> 2u8), sextet((bytes[0] & 3u8) << 4u8), '=', '=']
    } else if bytes.len() == 2 {
        seq![
            sextet(bytes[0] >> 2u8),
            sextet(((bytes[0] & 3u8) << 4u8) | (bytes[1] >> 4u8)),
            sextet((bytes[1] & 15u8) << 2u8),
            '=',
        ]
    } else {
        seq![
            sextet(bytes[0] >> 2u8),
            sextet(((bytes[0] & 3u8) << 4u8) | (bytes[1] >> 4u8)),
            sextet(((bytes[1] & 15u8) << 2u8) | (bytes[2] >> 6u8)),
            sextet(bytes[2]),
        ] + base64_text(bytes.subrange(3, bytes.len() as int))
    }
}

/// Relies on `solana_message::legacy::Message::new`, which compiles the
/// instruction and payer deterministically (its keys go through a
/// `BTreeMap`) and panics only when more than 255 keys fall in one header
/// class; the message is turned into its wire bytes by `bincode::serialize`,
/// which fails only on a list longer than `u16::MAX`.
#[verifier::external_body]
fn message_bytes(ix: &AssembledInstruction, payer: &Key) -> (r: Option<Vec<u8>>)
    requires
        ix.accounts@.len() <= MAX_INSTRUCTION_ACCOUNTS,
    ensures
        r is Some <==> ix.data@.len() <= MAX_INSTRUCTION_DATA,
        r matches Some(b) ==> b@ == message_wire(
            ix.program_id@,
            metas_view(ix.accounts@),
            ix.data@,
            payer@,
        ),
{
    let accounts = ix.accounts.iter().map(
        |m| LedgerAccountMeta {
            pubkey: Pubkey::new_from_array(m.key.bytes),
            is_signer: m.is_signer,
            is_writable: m.is_writable,
        },
    ).collect();
    let program_id = Pubkey::new_from_array(ix.program_id.bytes);
    let instruction = Instruction { program_id, accounts, data: ix.data.clone() };
    let message = Message::new(&[instruction], Some(&Pubkey::new_from_array(payer.bytes)));
    bincode::serialize(&message).ok()
}

/// Relies on `solana_signature::Signature::new_unique`: a placeholder that
/// signs nothing, so the transaction can only be simulated.
#[verifier::external_body]
fn placeholder_signature() -> (r: [u8; 64]) {
    <[u8; 64]>::from(Signature::new_unique())
}

/// Relies on `base64::engine::general_purpose::STANDARD.encode`: the
/// standard alphabet, with padding.
#[verifier::external_body]
fn encode_base64(bytes: &Vec<u8>) -> (r: String)
    ensures
        r@ == base64_text(bytes@),
{
    general_purpose::STANDARD.encode(bytes)
}

/// The wire form of a transaction with one signature: the compact count 1,
/// the 64 signature bytes, then the message.
pub open spec fn one_signature_wire(signature: Seq<u8>, message: Seq<u8>) -> Seq<u8> {
    seq![1u8] + signature + message
}

/// Wraps an assembled instruction, paid by `payer`, in a transaction whose
/// one signature is a placeholder, and returns its base-64 wire form for a
/// dry run. Such a transaction must never be broadcast. It fails only where
/// the payload is too long for a message.
pub fn simulation_transaction(ix: &AssembledInstruction, payer: &Key) -> (r: Option<String>)
    requires
        ix.accounts@.len() <= MAX_INSTRUCTION_ACCOUNTS,
    ensures
        r is Some <==> ix.data@.len() <= MAX_INSTRUCTION_DATA,
        r matches Some(text) ==> exists|signature: Seq<u8>|
            signature.len() == 64 && text@ == base64_text(
                one_signature_wire(
                    signature,
                    message_wire(ix.program_id@, metas_view(ix.accounts@), ix.data@, payer@),
                ),
            ),
{
    let message = match message_bytes(ix, payer) {
        Some(m) => m,
        None => return None,
    };
    let signature = placeholder_signature();
    let mut wire: Vec<u8> = vec![1u8];
    let mut i: usize = 0;
    while i < 64
        invariant
            i <= 64,
            signature@.len() == 64,
            wire@ == seq![1u8] + signature@.subrange(0, i as int),
        decreases 64 - i,
    {
        wire.push(signature[i]);
        assert(signature@.subrange(0, i + 1) =~= signature@.subrange(0, i as int).push(signature@[i as int]));
        i = i + 1;
    }
    assert(signature@.subrange(0, 64) =~= signature@);
    let mut j: usize = 0;
    while j < message.len()
        invariant
            j <= message@.len(),
            wire@ == seq![1u8] + signature@ + message@.subrange(0, j as int),
        decreases message@.len() - j,
    {
        wire.push(message[j]);
        assert(message@.subrange(0, j + 1) =~= message@.subrange(0, j as int).push(message@[j as int]));
        j = j + 1;
    }
    assert(message@.subrange(0, message@.len() as int) =~= message@);
    assert(wire@ =~= one_signature_wire(signature@, message@));
    Some(encode_base64(&wire))
}

} // verus!
