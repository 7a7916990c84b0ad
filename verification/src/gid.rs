//! The tile identifier convention of a grid cell: a stored value of zero is
//! the empty cell, and any other stored value is a logical tile index plus one.

use vstd::prelude::*;

verus! {

/// The stored value that marks a cell without a tile.
pub const EMPTY: u32 = 0;

/// The logical tile index behind a stored value, if the cell holds a tile.
pub open spec fn logical_of(cell: u32) -> Option<u32> {
    if cell == EMPTY {
        None
    } else {
        Some((cell - 1) as u32)
    }
}

/// The stored value of a logical tile index, if it fits in a cell.
pub open spec fn gid_of(logical: u32) -> Option<u32> {
    if logical < u32::MAX {
        Some((logical + 1) as u32)
    } else {
        None
    }
}

/// Reads a stored value as a logical tile index; the empty cell has none.
pub fn to_logical(cell: u32) -> (r: Option<u32>)
    ensures
        r == logical_of(cell),
{
    if cell == EMPTY {
        None
    } else {
        Some(cell - 1)
    }
}

/// Turns a logical tile index into its stored value; the largest index has
/// none, since zero is taken by the empty cell.
pub fn to_gid(logical: u32) -> (r: Option<u32>)
    ensures
        r == gid_of(logical),
{
    if logical < u32::MAX {
        Some(logical + 1)
    } else {
        None
    }
}

/// Reading back a stored value that was made from a logical index gives that
/// index, and a stored value made from an index is never the empty cell.
pub proof fn lemma_gid_round_trip(logical: u32)
    requires
        logical < u32::MAX,
    ensures
        gid_of(logical) is Some,
        gid_of(logical)->0 != EMPTY,
        logical_of(gid_of(logical)->0) == Some(logical),
{
}

} // verus!
