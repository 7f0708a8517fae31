//! Exchange-area access layer.
//!
//! A fixed-capacity byte region, placed at a build-time-known address, is
//! used to marshal non-scalar data across the kernel/userspace privilege
//! boundary instead of passing pointers across it.  This crate provides the
//! area handle, the typed copy operations over it, and the overlap guard
//! that refuses a byte-granularity copy whose caller buffer aliases the
//! exchange area itself.

use vstd::prelude::*;

mod area;
mod laws;
mod marshal;
mod overlap;

pub use area::Area;
pub use area::ExhangeArea;
pub use area::Status;
pub use area::clipped_len;
pub use laws::lemma_record_round_trip;
pub use laws::lemma_vec_from_rejects_aliasing;
pub use laws::lemma_vec_round_trip;
pub use laws::lemma_vec_to_accepts_adjacent;
pub use laws::lemma_vec_to_clips_to_capacity;
pub use laws::lemma_vec_to_rejects_aliasing;
pub use marshal::SHM_INFO_BYTES;
pub use marshal::ShmInfo;
pub use marshal::lemma_shm_info_round_trip;
pub use marshal::lemma_u32_le_round_trip;
pub use marshal::lemma_u64_le_round_trip;
pub use marshal::shm_info_bytes;
pub use marshal::shm_info_of;
pub use marshal::u32_le_bytes;
pub use marshal::u32_of_le;
pub use marshal::u64_le_bytes;
pub use marshal::u64_of_le;
pub use overlap::OverlapError;
pub use overlap::area_end;
pub use overlap::area_start;
pub use overlap::lemma_aliasing_configurations_overlap;
pub use overlap::lemma_disjoint_regions_do_not_overlap;
pub use overlap::lemma_overlap_iff_intersection;
pub use overlap::overlaps_area;

verus! {

/// Capacity of the exchange area in bytes, fixed at build time.
pub const EXCHANGE_AREA_LEN: usize = 128;

/// Address at which the exchange area is placed.  The placement is decided
/// at build time so that both sides of the privilege boundary can locate
/// the area by convention; callers state the addresses of their own buffers
/// against this one when the overlap guard is consulted.
pub const EXCHANGE_AREA_BASE: usize = 0x2000_0000;

} // verus!
