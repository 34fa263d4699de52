//! Trade direction and exact-in / exact-out classification of a swap.
use vstd::prelude::*;

use crate::key::Key;

verus! {

/// Whether the swap fixes its input amount or its output amount.
#[derive(Clone, Copy, Debug, PartialEq, Eq, Structural)]
pub enum SwapMode {
    ExactIn,
    ExactOut,
}

/// The mode table: a swap toward Y from mint X, or a swap away from Y from
/// the other mint, is exact-in; the two mixed rows are exact-out.
pub open spec fn mode_for(swap_for_y: bool, source_is_x: bool) -> SwapMode {
    if swap_for_y == source_is_x {
        SwapMode::ExactIn
    } else {
        SwapMode::ExactOut
    }
}

/// Classifies a swap from `source_mint` on a pool whose canonical first mint
/// is `mint_x`. `swap_for_y` is the pool's own ordering test on the source
/// mint; quoting and instruction assembly both go through this function.
pub fn resolve_mode(swap_for_y: bool, source_mint: &Key, mint_x: &Key) -> (r: SwapMode)
    ensures
        r == mode_for(swap_for_y, source_mint@ == mint_x@),
{
    let source_is_x = *source_mint == *mint_x;
    if swap_for_y {
        if source_is_x {
            SwapMode::ExactIn
        } else {
            SwapMode::ExactOut
        }
    } else {
        if source_is_x {
            SwapMode::ExactOut
        } else {
            SwapMode::ExactIn
        }
    }
}

/// The mode table is total and fixed: each of its four rows, for any source
/// mint and any canonical mint X.
pub proof fn lemma_mode_table(source: Key, mint_x: Key)
    ensures
        source@ == mint_x@ ==> mode_for(true, source@ == mint_x@) == SwapMode::ExactIn,
        source@ != mint_x@ ==> mode_for(true, source@ == mint_x@) == SwapMode::ExactOut,
        source@ == mint_x@ ==> mode_for(false, source@ == mint_x@) == SwapMode::ExactOut,
        source@ != mint_x@ ==> mode_for(false, source@ == mint_x@) == SwapMode::ExactIn,
{
}

} // verus!
