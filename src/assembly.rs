//! Account list and instruction assembly for the pool program's swap.
use vstd::prelude::*;

use crate::addresses::{
    associated_token_account, associated_token_address, find_program_address, program_address,
};
use crate::key::Key;

verus! {

/// One entry of an instruction's account list.
#[derive(Clone, Copy, Debug)]
pub struct AccountMeta {
    pub key: Key,
    pub is_writable: bool,
    pub is_signer: bool,
}

impl View for AccountMeta {
    type V = (Seq<u8>, bool, bool);

    open spec fn view(&self) -> (Seq<u8>, bool, bool) {
        (self.key@, self.is_writable, self.is_signer)
    }
}

/// What the assembler reads of a pool's decoded state.
#[derive(Clone, Copy, Debug)]
pub struct PoolAccounts {
    pub key: Key,
    pub mint_x: Key,
    pub mint_y: Key,
    pub token_vault_x: Key,
    pub token_vault_y: Key,
    pub token_program_x: Key,
    pub token_program_y: Key,
    /// The hook account; the pool's own key when no hook is configured.
    pub hook: Key,
    pub event_authority: Key,
    pub program_id: Key,
    /// Index of the bin array that holds the active bin.
    pub bin_array_index: i32,
}

/// The two bin arrays around the active bin that a swap touches.
#[derive(Clone, Copy, Debug)]
pub struct BinArrayPair {
    pub lower: Key,
    pub upper: Key,
}

/// Why a swap instruction could not be assembled.
#[derive(Clone, Copy, Debug, PartialEq, Eq, Structural)]
pub enum AssemblyError {
    /// The pricing engine could not name the bin arrays for the active bin.
    BinArraysUnavailable,
    /// The bin array after the active one has no index.
    HookIndexOverflow,
    /// No program-derived address exists for a hook bin array.
    NoHookAddress,
    /// No program-derived address exists for one of the user's token accounts.
    NoTokenAccountAddress,
}

/// An instruction ready to be wrapped in a transaction.
#[derive(Clone, Debug)]
pub struct AssembledInstruction {
    pub program_id: Key,
    pub accounts: Vec<AccountMeta>,
    pub data: Vec<u8>,
}

pub open spec fn writable(k: Seq<u8>) -> (Seq<u8>, bool, bool) {
    (k, true, false)
}

pub open spec fn readonly(k: Seq<u8>) -> (Seq<u8>, bool, bool) {
    (k, false, false)
}

pub open spec fn metas_view(v: Seq<AccountMeta>) -> Seq<(Seq<u8>, bool, bool)> {
    v.map_values(|m: AccountMeta| m@)
}

/// The memo program's identifier.
pub open spec fn memo_program() -> Seq<u8> {
    seq![
        5u8, 74, 83, 90, 153, 41, 33, 6, 77, 36, 232, 113, 96, 218, 56, 124,
        124, 53, 181, 221, 188, 146, 187, 129, 228, 31, 168, 64, 65, 5, 68, 141,
    ]
}

/// The seed tag of a hook's bin-array accounts: the ASCII text `bin_array`.
pub open spec fn bin_array_tag() -> Seq<u8> {
    seq![98u8, 105, 110, 95, 97, 114, 114, 97, 121]
}

/// The four little-endian bytes of a 32-bit index.
pub open spec fn index_le_bytes(x: i32) -> Seq<u8> {
    let u = x as u32;
    seq![(u & 0xff) as u8, ((u >> 8u32) & 0xff) as u8, ((u >> 16u32) & 0xff) as u8, (u >> 24u32) as u8]
}

pub open spec fn hook_seeds(hook: Seq<u8>, index: i32) -> Seq<Seq<u8>> {
    seq![bin_array_tag(), hook, index_le_bytes(index)]
}

/// The accounts every swap lists, in the program's order.
pub open spec fn fixed_accounts(
    pool: PoolAccounts,
    bins: BinArrayPair,
    user: Key,
    hook_program: Key,
    user_token_x: Seq<u8>,
    user_token_y: Seq<u8>,
) -> Seq<(Seq<u8>, bool, bool)> {
    seq![
        writable(pool.key@),
        readonly(pool.mint_x@),
        readonly(pool.mint_y@),
        writable(bins.lower@),
        writable(bins.upper@),
        writable(pool.token_vault_x@),
        writable(pool.token_vault_y@),
        writable(user_token_x),
        writable(user_token_y),
        (user@, false, true),
        readonly(pool.token_program_x@),
        readonly(pool.token_program_y@),
        readonly(memo_program()),
        writable(pool.hook@),
        readonly(hook_program@),
        readonly(pool.event_authority@),
        readonly(pool.program_id@),
    ]
}

/// The full account list of a swap: the fixed accounts, with the user's
/// associated token accounts for both mints, then, for a pool with a real
/// hook, the hook's bin arrays at the active index and the next.
pub open spec fn swap_accounts(
    pool: PoolAccounts,
    bins: BinArrayPair,
    user: Key,
    hook_program: Key,
) -> Result<Seq<(Seq<u8>, bool, bool)>, AssemblyError> {
    let user_x = associated_token_address(user@, pool.mint_x@, pool.token_program_x@);
    let user_y = associated_token_address(user@, pool.mint_y@, pool.token_program_y@);
    let base = fixed_accounts(pool, bins, user, hook_program, user_x->0, user_y->0);
    if user_x is None || user_y is None {
        Err(AssemblyError::NoTokenAccountAddress)
    } else if pool.hook@ == pool.key@ {
        Ok(base)
    } else if pool.bin_array_index == i32::MAX {
        Err(AssemblyError::HookIndexOverflow)
    } else {
        let lower = program_address(hook_seeds(pool.hook@, pool.bin_array_index), hook_program@);
        let upper = program_address(
            hook_seeds(pool.hook@, (pool.bin_array_index + 1) as i32),
            hook_program@,
        );
        if lower is Some && upper is Some {
            Ok(base.push(writable(lower->0)).push(writable(upper->0)))
        } else {
            Err(AssemblyError::NoHookAddress)
        }
    }
}

fn writable_meta(key: Key) -> (r: AccountMeta)
    ensures
        r@ == writable(key@),
{
    AccountMeta { key, is_writable: true, is_signer: false }
}

fn readonly_meta(key: Key) -> (r: AccountMeta)
    ensures
        r@ == readonly(key@),
{
    AccountMeta { key, is_writable: false, is_signer: false }
}

pub fn memo_program_id() -> (r: Key)
    ensures
        r@ == memo_program(),
{
    let r = Key {
        bytes: [
            5u8, 74, 83, 90, 153, 41, 33, 6, 77, 36, 232, 113, 96, 218, 56, 124,
            124, 53, 181, 221, 188, 146, 187, 129, 228, 31, 168, 64, 65, 5, 68, 141,
        ],
    };
    assert(r@ =~= memo_program());
    r
}

fn bin_array_tag_bytes() -> (r: Vec<u8>)
    ensures
        r@ == bin_array_tag(),
{
    let r = vec![98u8, 105, 110, 95, 97, 114, 114, 97, 121];
    assert(r@ =~= bin_array_tag());
    r
}

pub fn index_to_le_bytes(x: i32) -> (r: Vec<u8>)
    ensures
        r@ == index_le_bytes(x),
{
    let u = x as u32;
    let r = vec![(u & 0xff) as u8, ((u >> 8u32) & 0xff) as u8, ((u >> 16u32) & 0xff) as u8, (u >> 24u32) as u8];
    assert(r@ =~= index_le_bytes(x));
    r
}

fn hook_bin_array(hook: &Key, index: i32, hook_program: &Key) -> (r: Option<Key>)
    ensures
        r matches Some(k) ==> program_address(hook_seeds(hook@, index), hook_program@) == Some(k@),
        r is None ==> program_address(hook_seeds(hook@, index), hook_program@) is None,
{
    let seeds = vec![bin_array_tag_bytes(), hook.to_bytes(), index_to_le_bytes(index)];
    assert forall|i: int| 0 <= i < 3 implies #[trigger] seeds@[i].deep_view() =~= seeds@[i]@ by {}
    assert(seeds.deep_view() =~= hook_seeds(hook@, index));
    find_program_address(&seeds, hook_program)
}

/// Builds the ordered account list of a swap by `user` on `pool`: the
/// fixed accounts, then the hook's two bin arrays when the pool has a hook.
pub fn swap_account_metas(
    pool: &PoolAccounts,
    bins: &BinArrayPair,
    user: &Key,
    hook_program: &Key,
) -> (r: Result<Vec<AccountMeta>, AssemblyError>)
    ensures
        match r {
            Ok(v) => swap_accounts(*pool, *bins, *user, *hook_program) == Ok::<
                Seq<(Seq<u8>, bool, bool)>,
                AssemblyError,
            >(metas_view(v@)),
            Err(e) => swap_accounts(*pool, *bins, *user, *hook_program) == Err::<
                Seq<(Seq<u8>, bool, bool)>,
                AssemblyError,
            >(e),
        },
{
    let user_x = match associated_token_account(user, &pool.mint_x, &pool.token_program_x) {
        Some(k) => k,
        None => return Err(AssemblyError::NoTokenAccountAddress),
    };
    let user_y = match associated_token_account(user, &pool.mint_y, &pool.token_program_y) {
        Some(k) => k,
        None => return Err(AssemblyError::NoTokenAccountAddress),
    };
    let mut metas: Vec<AccountMeta> = Vec::new();
    metas.push(writable_meta(pool.key));
    metas.push(readonly_meta(pool.mint_x));
    metas.push(readonly_meta(pool.mint_y));
    metas.push(writable_meta(bins.lower));
    metas.push(writable_meta(bins.upper));
    metas.push(writable_meta(pool.token_vault_x));
    metas.push(writable_meta(pool.token_vault_y));
    metas.push(writable_meta(user_x));
    metas.push(writable_meta(user_y));
    metas.push(AccountMeta { key: *user, is_writable: false, is_signer: true });
    metas.push(readonly_meta(pool.token_program_x));
    metas.push(readonly_meta(pool.token_program_y));
    metas.push(readonly_meta(memo_program_id()));
    metas.push(writable_meta(pool.hook));
    metas.push(readonly_meta(*hook_program));
    metas.push(readonly_meta(pool.event_authority));
    metas.push(readonly_meta(pool.program_id));
    let ghost base = fixed_accounts(*pool, *bins, *user, *hook_program, user_x@, user_y@);
    assert(metas_view(metas@) =~= base);
    if pool.hook == pool.key {
        return Ok(metas);
    }
    if pool.bin_array_index == i32::MAX {
        return Err(AssemblyError::HookIndexOverflow);
    }
    let lower = hook_bin_array(&pool.hook, pool.bin_array_index, hook_program);
    let upper = hook_bin_array(&pool.hook, pool.bin_array_index + 1, hook_program);
    match (lower, upper) {
        (Some(lo), Some(hi)) => {
            metas.push(writable_meta(lo));
            metas.push(writable_meta(hi));
            assert(metas_view(metas@) =~= base.push(writable(lo@)).push(writable(hi@)));
            Ok(metas)
        },
        _ => Err(AssemblyError::NoHookAddress),
    }
}

/// Assembles the swap instruction of `user` on `pool`. `bins` is what the
/// pricing engine names for the active bin, `None` where it could not;
/// `data` is the encoded swap payload, carried as it is.
pub fn build_swap_instruction(
    pool: &PoolAccounts,
    bins: Option<BinArrayPair>,
    user: &Key,
    hook_program: &Key,
    data: Vec<u8>,
) -> (r: Result<AssembledInstruction, AssemblyError>)
    ensures
        bins is None ==> r == Err::<AssembledInstruction, AssemblyError>(
            AssemblyError::BinArraysUnavailable,
        ),
        bins matches Some(b) ==> match r {
            Ok(ix) => {
                &&& swap_accounts(*pool, b, *user, *hook_program) == Ok::<
                    Seq<(Seq<u8>, bool, bool)>,
                    AssemblyError,
                >(metas_view(ix.accounts@))
                &&& ix.program_id@ == pool.program_id@
                &&& ix.data@ == data@
            },
            Err(e) => swap_accounts(*pool, b, *user, *hook_program) == Err::<
                Seq<(Seq<u8>, bool, bool)>,
                AssemblyError,
            >(e),
        },
{
    match bins {
        None => Err(AssemblyError::BinArraysUnavailable),
        Some(b) => match swap_account_metas(pool, &b, user, hook_program) {
            Ok(accounts) => Ok(AssembledInstruction { program_id: pool.program_id, accounts, data }),
            Err(e) => Err(e),
        },
    }
}

/// Shape of a swap's account list: a pool without a hook lists exactly the
/// seventeen fixed accounts, from the pool account to the owning program,
/// with the user's associated token accounts in the eighth and ninth places;
/// a pool with a hook lists the same seventeen and then, last, the two
/// writable hook bin arrays derived at the active index and at the next one.
pub proof fn lemma_swap_accounts_shape(
    pool: PoolAccounts,
    bins: BinArrayPair,
    user: Key,
    hook_program: Key,
)
    ensures
        match swap_accounts(pool, bins, user, hook_program) {
            Ok(s) => {
                &&& s.subrange(0, 17) == fixed_accounts(pool, bins, user, hook_program, s[7].0, s[8].0)
                &&& associated_token_address(user@, pool.mint_x@, pool.token_program_x@) == Some(s[7].0)
                &&& associated_token_address(user@, pool.mint_y@, pool.token_program_y@) == Some(s[8].0)
                &&& s[0] == writable(pool.key@)
                &&& s[9] == (user@, false, true)
                &&& s[16] == readonly(pool.program_id@)
                &&& pool.hook@ == pool.key@ ==> s.len() == 17
                &&& pool.hook@ != pool.key@ ==> {
                    &&& s.len() == 19
                    &&& program_address(hook_seeds(pool.hook@, pool.bin_array_index), hook_program@)
                        == Some(s[17].0)
                    &&& program_address(
                        hook_seeds(pool.hook@, (pool.bin_array_index + 1) as i32),
                        hook_program@,
                    ) == Some(s[18].0)
                    &&& s[17].1 && !s[17].2 && s[18].1 && !s[18].2
                }
            },
            Err(_) => true,
        },
{
    let user_x = associated_token_address(user@, pool.mint_x@, pool.token_program_x@);
    let user_y = associated_token_address(user@, pool.mint_y@, pool.token_program_y@);
    if let Ok(s) = swap_accounts(pool, bins, user, hook_program) {
        let base = fixed_accounts(pool, bins, user, hook_program, user_x->0, user_y->0);
        assert(s.subrange(0, 17) =~= base);
    }
}

} // verus!
