//! The overlap guard's decision predicate.
//!
//! A copy between a caller buffer and the exchange area is performed with a
//! primitive that demands non-overlapping regions, so every byte-granularity
//! transfer is first held against this predicate.  The decision is a single
//! pure comparison of address ranges, evaluated fresh on every call: the
//! candidate range `[pointer, pointer + length]` is held against the area's
//! own range with both bounds treated inclusively.

use vstd::prelude::*;

use crate::EXCHANGE_AREA_BASE;
use crate::EXCHANGE_AREA_LEN;

verus! {

/// Returned by the overlap guard when the candidate buffer aliases the
/// exchange area.  The refusal is deterministic in the arguments: it marks
/// a caller programming error, never a transient condition.
#[derive(Debug, PartialEq, Eq)]
pub struct OverlapError;

/// First address of the exchange area.
pub open spec fn area_start() -> int {
    EXCHANGE_AREA_BASE as int
}

/// Address one past the last byte of the exchange area.  The guard treats
/// it as part of the area's range: both bounds are inclusive.
pub open spec fn area_end() -> int {
    EXCHANGE_AREA_BASE + EXCHANGE_AREA_LEN
}

/// The candidate buffer `[pointer, pointer + length]` aliases the exchange
/// area.  The three disjuncts name the three configurations a caller can
/// reach independently: the buffer starts inside the area, it ends inside
/// the area, or it contains the area entirely.
pub open spec fn overlaps_area(pointer: int, length: int) -> bool {
    ||| area_start() <= pointer <= area_end()
    ||| area_start() <= pointer + length <= area_end()
    ||| pointer <= area_start() && pointer + length >= area_end()
}

/// The three named rejection configurations together amount exactly to
/// closed-interval intersection of the candidate's address range with the
/// area's.
pub proof fn lemma_overlap_iff_intersection(pointer: int, length: int)
    requires
        0 <= length,
    ensures
        overlaps_area(pointer, length) <==> (pointer <= area_end() && area_start() <= pointer
            + length),
{
}

/// Each of the three aliasing configurations is rejected on its own: a
/// buffer whose start coincides with the area's start, a buffer whose end
/// address falls exactly on the area's end, and a buffer that contains the
/// whole area.
pub proof fn lemma_aliasing_configurations_overlap(pointer: usize, length: usize)
    requires
        pointer == EXCHANGE_AREA_BASE || pointer + length == EXCHANGE_AREA_BASE + EXCHANGE_AREA_LEN
            || (pointer <= EXCHANGE_AREA_BASE && pointer + length >= EXCHANGE_AREA_BASE
            + EXCHANGE_AREA_LEN),
    ensures
        overlaps_area(pointer as int, length as int),
{
}

/// A buffer that lies wholly below or wholly above the area's inclusive
/// range is accepted: under the guard's convention, the closest such
/// neighbours end one byte short of the area's first address or start one
/// byte past its last, and adjacency at that distance is not overlap.
pub proof fn lemma_disjoint_regions_do_not_overlap(pointer: usize, length: usize)
    requires
        pointer + length < EXCHANGE_AREA_BASE || pointer > EXCHANGE_AREA_BASE + EXCHANGE_AREA_LEN,
    ensures
        !overlaps_area(pointer as int, length as int),
{
}

} // verus!
