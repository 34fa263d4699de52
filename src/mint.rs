//! Fields read from a token mint account's bytes.
use vstd::prelude::*;

verus! {

/// Where a mint's decimals stand: after the 36-byte optional mint
/// authority and the 8-byte supply.
pub const MINT_DECIMALS_OFFSET: usize = 44;

/// Where a mint's extensions start: after the base area, padded to the size
/// of a token account (165 bytes), and the one-byte account type.
pub const MINT_EXTENSIONS_OFFSET: usize = 166;

/// The mint's decimals, where the data is long enough to hold them.
pub fn mint_decimals(data: &Vec<u8>) -> (r: Option<u8>)
    ensures
        data@.len() > MINT_DECIMALS_OFFSET ==> r == Some(data@[MINT_DECIMALS_OFFSET as int]),
        data@.len() <= MINT_DECIMALS_OFFSET ==> r is None,
{
    if data.len() > MINT_DECIMALS_OFFSET {
        Some(data[MINT_DECIMALS_OFFSET])
    } else {
        None
    }
}

/// The type-length-value area of a mint's extensions, where the data
/// reaches past the base area.
pub fn mint_extensions(data: &Vec<u8>) -> (r: Option<Vec<u8>>)
    ensures
        data@.len() > MINT_EXTENSIONS_OFFSET ==> (r matches Some(e) && e@ == data@.subrange(
            MINT_EXTENSIONS_OFFSET as int,
            data@.len() as int,
        )),
        data@.len() <= MINT_EXTENSIONS_OFFSET ==> r is None,
{
    if data.len() <= MINT_EXTENSIONS_OFFSET {
        return None;
    }
    let mut out: Vec<u8> = Vec::new();
    let mut i: usize = MINT_EXTENSIONS_OFFSET;
    while i < data.len()
        invariant
            MINT_EXTENSIONS_OFFSET <= i <= data@.len(),
            out@ == data@.subrange(MINT_EXTENSIONS_OFFSET as int, i as int),
        decreases data@.len() - i,
    {
        out.push(data[i]);
        assert(data@.subrange(MINT_EXTENSIONS_OFFSET as int, i + 1) =~= data@.subrange(
            MINT_EXTENSIONS_OFFSET as int,
            i as int,
        ).push(data@[i as int]));
        i = i + 1;
    }
    Some(out)
}

} // verus!
