//! Properties that hold across the copy operations.
//!
//! Each lemma quantifies over the values that the operations' own
//! contracts speak about, so it holds of every execution that those
//! contracts describe: any pair of states related by `vec_to_ens` or
//! `single_to_ens` behaves as stated, whichever handle performed the copy.

use vstd::prelude::*;

use crate::EXCHANGE_AREA_BASE;
use crate::EXCHANGE_AREA_LEN;
use crate::area::Area;
use crate::area::ExhangeArea;
use crate::area::Status;
use crate::area::clipped_len;
use crate::marshal::ShmInfo;
use crate::marshal::lemma_shm_info_round_trip;
use crate::overlap::overlaps_area;

verus! {

/// Round trip for byte vectors: staging a buffer of length at most the
/// capacity and reading it back into a disjoint destination of the same
/// length reproduces the source exactly, and both copies report success.
pub proof fn lemma_vec_round_trip(
    a0: Area,
    a1: Area,
    src: Seq<u8>,
    dst_pre: Seq<u8>,
    dst_post: Seq<u8>,
    src_addr: usize,
    dst_addr: usize,
    length: usize,
    s1: Status,
    s2: Status,
)
    requires
        a0.wf(),
        src.len() == length,
        dst_pre.len() == length,
        length <= EXCHANGE_AREA_LEN,
        !overlaps_area(src_addr as int, length as int),
        !overlaps_area(dst_addr as int, length as int),
        <Area as ExhangeArea<u8>>::vec_to_ens(a0, a1, src, src_addr, length, s1),
        <Area as ExhangeArea<u8>>::vec_from_ens(a1, dst_pre, dst_post, dst_addr, length, s2),
    ensures
        s1 is Okay,
        s2 is Okay,
        dst_post == src,
{
    assert(dst_post =~= src);
}

/// Round trip for the structured record: writing a record and reading it
/// back yields field-wise equality, whatever the destination held before,
/// and both copies report success.
pub proof fn lemma_record_round_trip(
    a0: Area,
    a1: Area,
    rec: ShmInfo,
    dst_pre: ShmInfo,
    dst_post: ShmInfo,
    s1: Status,
    s2: Status,
)
    requires
        a0.wf(),
        <Area as ExhangeArea<ShmInfo>>::single_to_ens(a0, a1, rec, s1),
        <Area as ExhangeArea<ShmInfo>>::single_from_ens(a1, dst_pre, dst_post, s2),
    ensures
        s1 is Okay,
        s2 is Okay,
        dst_post == rec,
{
    lemma_shm_info_round_trip(rec, a0@.skip(crate::marshal::SHM_INFO_BYTES as int));
}

/// Overlap rejection for staging: in each of the three independently
/// reachable aliasing configurations — the candidate starts at the area's
/// start, ends exactly at the area's end, or contains the whole area —
/// `copy_vec_to` returns `Invalid` and leaves the area unchanged.
pub proof fn lemma_vec_to_rejects_aliasing(
    a0: Area,
    a1: Area,
    src: Seq<u8>,
    src_addr: usize,
    length: usize,
    s: Status,
)
    requires
        src_addr == EXCHANGE_AREA_BASE || src_addr + length == EXCHANGE_AREA_BASE
            + EXCHANGE_AREA_LEN || (src_addr <= EXCHANGE_AREA_BASE && src_addr + length
            >= EXCHANGE_AREA_BASE + EXCHANGE_AREA_LEN),
        <Area as ExhangeArea<u8>>::vec_to_ens(a0, a1, src, src_addr, length, s),
    ensures
        s is Invalid,
        a1 == a0,
{
}

/// Overlap rejection for retrieval: in the same three aliasing
/// configurations `copy_vec_from` returns `Invalid` and leaves the
/// destination unchanged.
pub proof fn lemma_vec_from_rejects_aliasing(
    area: Area,
    dst_pre: Seq<u8>,
    dst_post: Seq<u8>,
    dst_addr: usize,
    length: usize,
    s: Status,
)
    requires
        dst_addr == EXCHANGE_AREA_BASE || dst_addr + length == EXCHANGE_AREA_BASE
            + EXCHANGE_AREA_LEN || (dst_addr <= EXCHANGE_AREA_BASE && dst_addr + length
            >= EXCHANGE_AREA_BASE + EXCHANGE_AREA_LEN),
        <Area as ExhangeArea<u8>>::vec_from_ens(area, dst_pre, dst_post, dst_addr, length, s),
    ensures
        s is Invalid,
        dst_post == dst_pre,
{
}

/// Boundary adjacency is not overlap: a candidate buffer wholly below or
/// wholly above the area's inclusive address range — in particular one
/// ending immediately before it or starting immediately after it, at the
/// distance the convention fixes — is accepted and the copy is performed.
pub proof fn lemma_vec_to_accepts_adjacent(
    a0: Area,
    a1: Area,
    src: Seq<u8>,
    src_addr: usize,
    length: usize,
    s: Status,
)
    requires
        src_addr + length < EXCHANGE_AREA_BASE || src_addr > EXCHANGE_AREA_BASE
            + EXCHANGE_AREA_LEN,
        <Area as ExhangeArea<u8>>::vec_to_ens(a0, a1, src, src_addr, length, s),
    ensures
        s is Okay,
        a1@ == src.take(clipped_len(length)) + a0@.skip(clipped_len(length)),
{
}

/// Clipping: a vector copy whose requested length exceeds the capacity
/// transfers exactly the capacity, filling the whole area with the head of
/// the source, and reports success rather than refusing.
pub proof fn lemma_vec_to_clips_to_capacity(
    a0: Area,
    a1: Area,
    src: Seq<u8>,
    src_addr: usize,
    length: usize,
    s: Status,
)
    requires
        a0.wf(),
        length > EXCHANGE_AREA_LEN,
        !overlaps_area(src_addr as int, length as int),
        <Area as ExhangeArea<u8>>::vec_to_ens(a0, a1, src, src_addr, length, s),
    ensures
        s is Okay,
        a1@ == src.take(EXCHANGE_AREA_LEN as int),
{
    assert(a1@ =~= src.take(EXCHANGE_AREA_LEN as int));
}

} // verus!
