//! The exchange area handle and the typed copy operations over it.
//!
//! The handle owns the area's backing bytes; its placement in the process
//! image is the build-time address range `[area_start(), area_end()]`.
//! Copy operations move whole byte ranges between a caller buffer and the
//! area, clipped to the area's capacity, and the byte-granularity vector
//! operations consult the overlap guard with the caller buffer's address
//! before touching anything.

use vstd::prelude::*;

use crate::EXCHANGE_AREA_BASE;
use crate::EXCHANGE_AREA_LEN;
use crate::marshal::SHM_INFO_BYTES;
use crate::marshal::ShmInfo;
use crate::marshal::lemma_shm_info_round_trip;
use crate::marshal::load_u32_le;
use crate::marshal::load_u64_le;
use crate::marshal::shm_info_bytes;
use crate::marshal::shm_info_of;
use crate::marshal::store_u32_le;
use crate::marshal::store_u64_le;
use crate::overlap::OverlapError;
use crate::overlap::overlaps_area;

verus! {

/// Outcome of a copy operation: the transfer was performed (possibly
/// clipped to the area's capacity), or it was refused and no memory was
/// touched.  There is no partial-success outcome.
#[derive(PartialEq, Eq, Structural, Debug)]
pub enum Status {
    Okay,
    Invalid,
}

/// Number of bytes a vector copy actually transfers: the requested length,
/// silently clipped to the area's capacity.
pub open spec fn clipped_len(length: usize) -> int {
    if length <= EXCHANGE_AREA_LEN {
        length as int
    } else {
        EXCHANGE_AREA_LEN as int
    }
}

/// Exchange zone manipulation handle.  It owns the area's backing storage;
/// constructing one is cheap and the constructor never re-initializes an
/// area that a caller already staged data in, since each handle's storage
/// is its own.
pub struct Area {
    buf: Vec<u8>,
}

impl View for Area {
    type V = Seq<u8>;

    closed spec fn view(&self) -> Seq<u8> {
        self.buf@
    }
}

impl Area {
    /// The handle is well formed when its backing storage spans exactly the
    /// build-time capacity.  The constructor establishes this and every
    /// copy operation preserves it.
    pub open spec fn wf(&self) -> bool {
        self@.len() == EXCHANGE_AREA_LEN
    }

    /// Creates a handle over a zero-filled area, mirroring the zeroed state
    /// the area has at load time.
    pub fn new() -> (area: Area)
        ensures
            area.wf(),
            forall|j: int| 0 <= j < EXCHANGE_AREA_LEN ==> area@[j] == 0u8,
    {
        let mut buf: Vec<u8> = Vec::new();
        while buf.len() < EXCHANGE_AREA_LEN
            invariant
                buf@.len() <= EXCHANGE_AREA_LEN,
                forall|j: int| 0 <= j < buf@.len() ==> buf@[j] == 0u8,
            decreases EXCHANGE_AREA_LEN - buf@.len(),
        {
            buf.push(0u8);
        }
        Area { buf }
    }

    /// The overlap guard: decides whether the candidate buffer
    /// `[pointer, pointer + length]` aliases the exchange area, by address
    /// comparison alone.  `length` may be zero; the caller asserts that the
    /// buffer really spans `length` bytes from `pointer`, so the range may
    /// not wrap around the address space.
    pub fn check_overlapping(pointer: usize, length: usize) -> (r: Result<(), OverlapError>)
        requires
            pointer + length <= usize::MAX,
        ensures
            r is Ok <==> !overlaps_area(pointer as int, length as int),
    {
        let area: usize = EXCHANGE_AREA_BASE;
        let area_end: usize = EXCHANGE_AREA_BASE + EXCHANGE_AREA_LEN;

        // candidate buffer starts inside the exchange area
        if pointer >= area && pointer <= area_end {
            return Err(OverlapError);
        }
        // candidate buffer ends inside the exchange area
        let buffer_end = pointer + length;
        if buffer_end >= area && buffer_end <= area_end {
            return Err(OverlapError);
        }
        // exchange area is contained within the candidate buffer
        if pointer <= area && buffer_end >= area_end {
            return Err(OverlapError);
        }
        Ok(())
    }
}

/// Public interface to manipulate the kernel/user exchange zone.
///
/// The exchange zone is the shared memory region through which the kernel
/// and a userspace job pass non-scalar data.  Before a call that takes such
/// data the job stages it in the zone; after a call that returns such data
/// the job reads it back out.  The set of types that may transit through
/// the zone is known at build time, so the trait is implemented once per
/// exchanged type, and each implementation fixes, through the `spec`
/// functions, what its four copy operations demand and guarantee.
pub trait ExhangeArea<T>: Sized {
    /// What `copy_vec_to` demands of its caller.
    spec fn vec_to_req(pre: Self, src: Seq<T>, src_addr: usize, length: usize) -> bool;

    /// What `copy_vec_to` guarantees.
    spec fn vec_to_ens(
        pre: Self,
        post: Self,
        src: Seq<T>,
        src_addr: usize,
        length: usize,
        s: Status,
    ) -> bool;

    /// What `copy_vec_from` demands of its caller.
    spec fn vec_from_req(area: Self, dst: Seq<T>, dst_addr: usize, length: usize) -> bool;

    /// What `copy_vec_from` guarantees.
    spec fn vec_from_ens(
        area: Self,
        dst_pre: Seq<T>,
        dst_post: Seq<T>,
        dst_addr: usize,
        length: usize,
        s: Status,
    ) -> bool;

    /// What `copy_to` demands of its caller.
    spec fn single_to_req(pre: Self, src: T) -> bool;

    /// What `copy_to` guarantees.
    spec fn single_to_ens(pre: Self, post: Self, src: T, s: Status) -> bool;

    /// What `copy_from` demands of its caller.
    spec fn single_from_req(area: Self, dst: T) -> bool;

    /// What `copy_from` guarantees.
    spec fn single_from_ens(area: Self, dst_pre: T, dst_post: T, s: Status) -> bool;

    /// Copies `length` T-typed items from the caller buffer `from`, whose
    /// first byte sits at address `from_addr`, into the area.  Typically
    /// used to stage byte strings for the upper formatting layer.
    fn copy_vec_to(&mut self, from: &Vec<T>, from_addr: usize, length: usize) -> (s: Status)
        requires
            Self::vec_to_req(*old(self), from@, from_addr, length),
        ensures
            Self::vec_to_ens(*old(self), *final(self), from@, from_addr, length, s),
    ;

    /// Copies `length` T-typed items out of the area into the caller
    /// buffer `to`, whose first byte sits at address `to_addr`.
    fn copy_vec_from(&self, to: &mut Vec<T>, to_addr: usize, length: usize) -> (s: Status)
        requires
            Self::vec_from_req(*self, old(to)@, to_addr, length),
        ensures
            Self::vec_from_ens(*self, old(to)@, final(to)@, to_addr, length, s),
    ;

    /// Copies a single T-typed value into the area.  Used when delivering
    /// user structured data to the kernel.
    fn copy_to(&mut self, from: &T) -> (s: Status)
        requires
            Self::single_to_req(*old(self), *from),
        ensures
            Self::single_to_ens(*old(self), *final(self), *from, s),
    ;

    /// Copies a single T-typed value out of the area.  Used when receiving
    /// structured data from the kernel.
    fn copy_from(&self, to: &mut T) -> (s: Status)
        requires
            Self::single_from_req(*self, *old(to)),
        ensures
            Self::single_from_ens(*self, *old(to), *final(to), s),
    ;

    /// Area capacity in bytes.  Lets a caller check that a value is small
    /// enough to be exchanged with the kernel; always the build-time
    /// constant, however many handles exist and whatever was copied before.
    fn area_length(&self) -> (len: usize)
        ensures
            len == EXCHANGE_AREA_LEN,
    ;
}

/// Copy `ShmInfo` from and to the area.
///
/// In real use this record is written by the kernel and only read back by
/// the job, so the single-value copies deliberately skip the overlap
/// guard: the caller-side `copy_to` exists for test and diagnostic
/// staging, and the record is never the aliasing hazard the guard defends
/// against.  Vector copies of records are not provided.
impl ExhangeArea<ShmInfo> for Area {
    open spec fn vec_to_req(pre: Area, src: Seq<ShmInfo>, src_addr: usize, length: usize) -> bool {
        true
    }

    open spec fn vec_to_ens(
        pre: Area,
        post: Area,
        src: Seq<ShmInfo>,
        src_addr: usize,
        length: usize,
        s: Status,
    ) -> bool {
        s is Invalid && post == pre
    }

    open spec fn vec_from_req(area: Area, dst: Seq<ShmInfo>, dst_addr: usize, length: usize) -> bool {
        true
    }

    open spec fn vec_from_ens(
        area: Area,
        dst_pre: Seq<ShmInfo>,
        dst_post: Seq<ShmInfo>,
        dst_addr: usize,
        length: usize,
        s: Status,
    ) -> bool {
        s is Invalid && dst_post == dst_pre
    }

    open spec fn single_to_req(pre: Area, src: ShmInfo) -> bool {
        pre.wf()
    }

    open spec fn single_to_ens(pre: Area, post: Area, src: ShmInfo, s: Status) -> bool {
        &&& post.wf()
        &&& s is Okay
        &&& post@ == shm_info_bytes(src) + pre@.skip(SHM_INFO_BYTES as int)
    }

    open spec fn single_from_req(area: Area, dst: ShmInfo) -> bool {
        area.wf()
    }

    open spec fn single_from_ens(area: Area, dst_pre: ShmInfo, dst_post: ShmInfo, s: Status) -> bool {
        s is Okay && dst_post == shm_info_of(area@)
    }

    /// Vector copies of records are not provided; the request is refused.
    fn copy_vec_to(&mut self, from: &Vec<ShmInfo>, from_addr: usize, length: usize) -> (s: Status) {
        Status::Invalid
    }

    /// Vector copies of records are not provided; the request is refused.
    fn copy_vec_from(&self, to: &mut Vec<ShmInfo>, to_addr: usize, length: usize) -> (s: Status) {
        Status::Invalid
    }

    fn copy_to(&mut self, from: &ShmInfo) -> (s: Status) {
        let ghost pre = self.buf@;
        store_u32_le(&mut self.buf, 0, from.handle);
        store_u32_le(&mut self.buf, 4, from.label);
        store_u64_le(&mut self.buf, 8, from.base as u64);
        store_u64_le(&mut self.buf, 16, from.len as u64);
        store_u32_le(&mut self.buf, 24, from.perms);
        proof {
            assert(self.buf@ =~= shm_info_bytes(*from) + pre.skip(SHM_INFO_BYTES as int));
        }
        Status::Okay
    }

    fn copy_from(&self, to: &mut ShmInfo) -> (s: Status) {
        let handle = load_u32_le(&self.buf, 0);
        let label = load_u32_le(&self.buf, 4);
        let base = load_u64_le(&self.buf, 8);
        let len = load_u64_le(&self.buf, 16);
        let perms = load_u32_le(&self.buf, 24);
        *to = ShmInfo { handle, label, base: base as usize, len: len as usize, perms };
        Status::Okay
    }

    fn area_length(&self) -> (len: usize) {
        EXCHANGE_AREA_LEN
    }
}

/// Copy u8 vectors from and to the area.
///
/// These are the byte-granularity transfers; both consult the overlap
/// guard with the caller buffer's address and refuse, touching nothing,
/// when the buffer aliases the area.  Single u8 copies are not provided,
/// there being no need for them.
impl ExhangeArea<u8> for Area {
    open spec fn vec_to_req(pre: Area, src: Seq<u8>, src_addr: usize, length: usize) -> bool {
        &&& pre.wf()
        &&& src_addr + length <= usize::MAX
        &&& clipped_len(length) <= src.len()
    }

    open spec fn vec_to_ens(
        pre: Area,
        post: Area,
        src: Seq<u8>,
        src_addr: usize,
        length: usize,
        s: Status,
    ) -> bool {
        &&& post.wf()
        &&& if overlaps_area(src_addr as int, length as int) {
            s is Invalid && post == pre
        } else {
            s is Okay && post@ == src.take(clipped_len(length)) + pre@.skip(clipped_len(length))
        }
    }

    open spec fn vec_from_req(area: Area, dst: Seq<u8>, dst_addr: usize, length: usize) -> bool {
        &&& area.wf()
        &&& dst_addr + length <= usize::MAX
        &&& clipped_len(length) <= dst.len()
    }

    open spec fn vec_from_ens(
        area: Area,
        dst_pre: Seq<u8>,
        dst_post: Seq<u8>,
        dst_addr: usize,
        length: usize,
        s: Status,
    ) -> bool {
        if overlaps_area(dst_addr as int, length as int) {
            s is Invalid && dst_post == dst_pre
        } else {
            s is Okay && dst_post == area@.take(clipped_len(length)) + dst_pre.skip(
                clipped_len(length),
            )
        }
    }

    open spec fn single_to_req(pre: Area, src: u8) -> bool {
        true
    }

    open spec fn single_to_ens(pre: Area, post: Area, src: u8, s: Status) -> bool {
        s is Invalid && post == pre
    }

    open spec fn single_from_req(area: Area, dst: u8) -> bool {
        true
    }

    open spec fn single_from_ens(area: Area, dst_pre: u8, dst_post: u8, s: Status) -> bool {
        s is Invalid && dst_post == dst_pre
    }

    fn copy_vec_to(&mut self, from: &Vec<u8>, from_addr: usize, length: usize) -> (s: Status) {
        if Area::check_overlapping(from_addr, length).is_err() {
            return Status::Invalid;
        }
        let n = if length < EXCHANGE_AREA_LEN {
            length
        } else {
            EXCHANGE_AREA_LEN
        };
        let mut i: usize = 0;
        while i < n
            invariant
                i <= n,
                n == clipped_len(length),
                n <= from@.len(),
                self.buf@.len() == EXCHANGE_AREA_LEN,
                forall|j: int| 0 <= j < i ==> self.buf@[j] == from@[j],
                forall|j: int| i <= j < EXCHANGE_AREA_LEN ==> self.buf@[j] == old(self).buf@[j],
            decreases n - i,
        {
            let b = from[i];
            self.buf.set(i, b);
            i += 1;
        }
        proof {
            assert(self.buf@ =~= from@.take(clipped_len(length)) + old(self).buf@.skip(
                clipped_len(length),
            ));
        }
        Status::Okay
    }

    fn copy_vec_from(&self, to: &mut Vec<u8>, to_addr: usize, length: usize) -> (s: Status) {
        if Area::check_overlapping(to_addr, length).is_err() {
            return Status::Invalid;
        }
        let n = if length < EXCHANGE_AREA_LEN {
            length
        } else {
            EXCHANGE_AREA_LEN
        };
        let mut i: usize = 0;
        while i < n
            invariant
                i <= n,
                n == clipped_len(length),
                n <= old(to)@.len(),
                n <= EXCHANGE_AREA_LEN,
                self.buf@.len() == EXCHANGE_AREA_LEN,
                to@.len() == old(to)@.len(),
                forall|j: int| 0 <= j < i ==> to@[j] == self.buf@[j],
                forall|j: int| i <= j < to@.len() ==> to@[j] == old(to)@[j],
            decreases n - i,
        {
            let b = self.buf[i];
            to.set(i, b);
            i += 1;
        }
        proof {
            assert(to@ =~= self.buf@.take(clipped_len(length)) + old(to)@.skip(
                clipped_len(length),
            ));
        }
        Status::Okay
    }

    /// Single u8 copies are not provided; the request is refused.
    fn copy_to(&mut self, from: &u8) -> (s: Status) {
        Status::Invalid
    }

    /// Single u8 copies are not provided; the request is refused.
    fn copy_from(&self, to: &mut u8) -> (s: Status) {
        Status::Invalid
    }

    fn area_length(&self) -> (len: usize) {
        EXCHANGE_AREA_LEN
    }
}

} // verus!
