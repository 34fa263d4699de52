//! Address derivations computed by the ledger's own libraries.
use vstd::prelude::*;

use crate::key::Key;
use solana_sdk::pubkey::Pubkey;

verus! {

/// The program-derived address that the ledger finds for `seeds` under
/// `program`, or `None` where no bump seed yields one.
pub uninterp spec fn program_address(seeds: Seq<Seq<u8>>, program: Seq<u8>) -> Option<Seq<u8>>;

/// The associated-token-account program's identifier.
pub open spec fn associated_token_program() -> Seq<u8> {
    seq![
        140u8, 151, 37, 143, 78, 36, 137, 241, 187, 61, 16, 41, 20, 142, 13, 131,
        11, 90, 19, 153, 218, 255, 16, 132, 4, 142, 123, 216, 219, 233, 248, 89,
    ]
}

/// The associated token account of `wallet` for `mint` under the token
/// program `token_program`: the program-derived address of the seeds
/// wallet, token program, mint under the associated-token-account program.
pub open spec fn associated_token_address(
    wallet: Seq<u8>,
    mint: Seq<u8>,
    token_program: Seq<u8>,
) -> Option<Seq<u8>> {
    program_address(seq![wallet, token_program, mint], associated_token_program())
}

/// Relies on `solana_pubkey::Pubkey::try_find_program_address`: a search over
/// bump seeds whose outcome depends on the seeds and the program alone; it
/// returns `None` instead of panicking when no bump seed works or the seeds
/// break the ledger's length limits.
#[verifier::external_body]
pub(crate) fn find_program_address(seeds: &Vec<Vec<u8>>, program: &Key) -> (r: Option<Key>)
    ensures
        r matches Some(k) ==> program_address(seeds.deep_view(), program@) == Some(k@),
        r is None ==> program_address(seeds.deep_view(), program@) is None,
{
    let refs: Vec<&[u8]> = seeds.iter().map(|s| s.as_slice()).collect();
    Pubkey::try_find_program_address(&refs, &Pubkey::new_from_array(program.bytes)).map(
        |(p, _)| Key { bytes: p.to_bytes() },
    )
}

/// Relies on `spl_associated_token_account::id`: the identifier under which
/// associated token accounts are derived.
#[verifier::external_body]
fn associated_token_program_id() -> (r: Key)
    ensures
        r@ == associated_token_program(),
{
    Key { bytes: spl_associated_token_account::id().to_bytes() }
}

/// The associated token account of `wallet` for `mint` under
/// `token_program`, or `None` where no bump seed yields one.
pub fn associated_token_account(wallet: &Key, mint: &Key, token_program: &Key) -> (r: Option<Key>)
    ensures
        r matches Some(k) ==> associated_token_address(wallet@, mint@, token_program@) == Some(
            k@,
        ),
        r is None ==> associated_token_address(wallet@, mint@, token_program@) is None,
{
    let seeds = vec![wallet.to_bytes(), token_program.to_bytes(), mint.to_bytes()];
    assert forall|i: int| 0 <= i < 3 implies #[trigger] seeds@[i].deep_view() =~= seeds@[i]@ by {}
    assert(seeds.deep_view() =~= seq![wallet@, token_program@, mint@]);
    find_program_address(&seeds, &associated_token_program_id())
}

} // verus!
