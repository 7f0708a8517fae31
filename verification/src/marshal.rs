//! Marshalled form of the structured record exchanged with the kernel.
//!
//! The record is staged in the area as a fixed little-endian byte layout:
//! each field in declaration order, 32-bit fields in four bytes, the
//! address-sized fields widened to 64 bits in eight.  The layout is defined
//! here once, as spec functions, and the store/load helpers are proved
//! against it byte by byte.

use vstd::prelude::*;

verus! {

/// Number of bytes a marshalled `ShmInfo` occupies at the start of the
/// exchange area: two 32-bit fields, two 64-bit fields, one 32-bit field.
pub const SHM_INFO_BYTES: usize = 28;

/// Metadata record describing a shared-memory mapping, as exchanged with
/// the kernel across the privilege boundary.  Only its copy semantics
/// matter to this layer; the meaning of the fields is the kernel's.
#[derive(PartialEq, Debug)]
pub struct ShmInfo {
    pub handle: u32,
    pub label: u32,
    pub base: usize,
    pub len: usize,
    pub perms: u32,
}

/// The four little-endian bytes of a 32-bit value.
pub open spec fn u32_le_bytes(x: u32) -> Seq<u8> {
    seq![
        (x & 0xff) as u8,
        ((x >> 8) & 0xff) as u8,
        ((x >> 16) & 0xff) as u8,
        ((x >> 24) & 0xff) as u8,
    ]
}

/// The 32-bit value assembled from four little-endian bytes.
pub open spec fn u32_of_le(b: Seq<u8>) -> u32
    recommends
        b.len() == 4,
{
    (b[0] as u32) | ((b[1] as u32) << 8) | ((b[2] as u32) << 16) | ((b[3] as u32) << 24)
}

/// The eight little-endian bytes of a 64-bit value.
pub open spec fn u64_le_bytes(x: u64) -> Seq<u8> {
    seq![
        (x & 0xff) as u8,
        ((x >> 8) & 0xff) as u8,
        ((x >> 16) & 0xff) as u8,
        ((x >> 24) & 0xff) as u8,
        ((x >> 32) & 0xff) as u8,
        ((x >> 40) & 0xff) as u8,
        ((x >> 48) & 0xff) as u8,
        ((x >> 56) & 0xff) as u8,
    ]
}

/// The 64-bit value assembled from eight little-endian bytes.
pub open spec fn u64_of_le(b: Seq<u8>) -> u64
    recommends
        b.len() == 8,
{
    (b[0] as u64) | ((b[1] as u64) << 8) | ((b[2] as u64) << 16) | ((b[3] as u64) << 24) | (
    (b[4] as u64) << 32) | ((b[5] as u64) << 40) | ((b[6] as u64) << 48) | ((b[7] as u64) << 56)
}

/// Reassembling the four little-endian bytes of a 32-bit value gives the
/// value back.
pub proof fn lemma_u32_le_round_trip(x: u32)
    ensures
        u32_of_le(u32_le_bytes(x)) == x,
{
    let b = u32_le_bytes(x);
    assert(((x & 0xff) as u8 as u32) | ((((x >> 8) & 0xff) as u8 as u32) << 8) | ((((x >> 16)
        & 0xff) as u8 as u32) << 16) | ((((x >> 24) & 0xff) as u8 as u32) << 24) == x)
        by (bit_vector);
    assert(u32_of_le(b) == x);
}

/// Reassembling the eight little-endian bytes of a 64-bit value gives the
/// value back.
pub proof fn lemma_u64_le_round_trip(x: u64)
    ensures
        u64_of_le(u64_le_bytes(x)) == x,
{
    let b = u64_le_bytes(x);
    assert(((x & 0xff) as u8 as u64) | ((((x >> 8) & 0xff) as u8 as u64) << 8) | ((((x >> 16)
        & 0xff) as u8 as u64) << 16) | ((((x >> 24) & 0xff) as u8 as u64) << 24) | ((((x >> 32)
        & 0xff) as u8 as u64) << 32) | ((((x >> 40) & 0xff) as u8 as u64) << 40) | ((((x >> 48)
        & 0xff) as u8 as u64) << 48) | ((((x >> 56) & 0xff) as u8 as u64) << 56) == x)
        by (bit_vector);
    assert(u64_of_le(b) == x);
}

/// The marshalled bytes of a record: every field little-endian, in
/// declaration order, address-sized fields widened to 64 bits.
pub open spec fn shm_info_bytes(info: ShmInfo) -> Seq<u8> {
    u32_le_bytes(info.handle) + u32_le_bytes(info.label) + u64_le_bytes(info.base as u64)
        + u64_le_bytes(info.len as u64) + u32_le_bytes(info.perms)
}

/// The record read back from the first `SHM_INFO_BYTES` bytes of the area.
/// The 64-bit fields are narrowed to the platform's address width.
pub open spec fn shm_info_of(bytes: Seq<u8>) -> ShmInfo
    recommends
        bytes.len() >= SHM_INFO_BYTES,
{
    ShmInfo {
        handle: u32_of_le(bytes.subrange(0, 4)),
        label: u32_of_le(bytes.subrange(4, 8)),
        base: u64_of_le(bytes.subrange(8, 16)) as usize,
        len: u64_of_le(bytes.subrange(16, 24)) as usize,
        perms: u32_of_le(bytes.subrange(24, 28)),
    }
}

/// Reading a marshalled record back out of the area yields the record that
/// was written, whatever bytes follow it.
pub proof fn lemma_shm_info_round_trip(info: ShmInfo, rest: Seq<u8>)
    ensures
        shm_info_of(shm_info_bytes(info) + rest) == info,
{
    let enc = shm_info_bytes(info) + rest;
    assert(enc.subrange(0, 4) =~= u32_le_bytes(info.handle));
    assert(enc.subrange(4, 8) =~= u32_le_bytes(info.label));
    assert(enc.subrange(8, 16) =~= u64_le_bytes(info.base as u64));
    assert(enc.subrange(16, 24) =~= u64_le_bytes(info.len as u64));
    assert(enc.subrange(24, 28) =~= u32_le_bytes(info.perms));
    lemma_u32_le_round_trip(info.handle);
    lemma_u32_le_round_trip(info.label);
    lemma_u64_le_round_trip(info.base as u64);
    lemma_u64_le_round_trip(info.len as u64);
    lemma_u32_le_round_trip(info.perms);
    assert(info.base as u64 as usize == info.base);
    assert(info.len as u64 as usize == info.len);
}

/// Writes the four little-endian bytes of `x` at `off`, leaving every
/// other byte in place.
pub fn store_u32_le(buf: &mut Vec<u8>, off: usize, x: u32)
    requires
        off + 4 <= old(buf)@.len(),
    ensures
        final(buf)@.len() == old(buf)@.len(),
        final(buf)@.subrange(off as int, off + 4) == u32_le_bytes(x),
        forall|j: int|
            0 <= j < old(buf)@.len() && !(off <= j < off + 4) ==> final(buf)@[j] == old(buf)@[j],
{
    proof {
        assert(buf@.len() == buf.len());
    }
    buf.set(off, (x & 0xff) as u8);
    buf.set(off + 1, ((x >> 8) & 0xff) as u8);
    buf.set(off + 2, ((x >> 16) & 0xff) as u8);
    buf.set(off + 3, ((x >> 24) & 0xff) as u8);
    proof {
        assert(buf@.subrange(off as int, off + 4) =~= u32_le_bytes(x));
    }
}

/// Writes the eight little-endian bytes of `x` at `off`, leaving every
/// other byte in place.
pub fn store_u64_le(buf: &mut Vec<u8>, off: usize, x: u64)
    requires
        off + 8 <= old(buf)@.len(),
    ensures
        final(buf)@.len() == old(buf)@.len(),
        final(buf)@.subrange(off as int, off + 8) == u64_le_bytes(x),
        forall|j: int|
            0 <= j < old(buf)@.len() && !(off <= j < off + 8) ==> final(buf)@[j] == old(buf)@[j],
{
    proof {
        assert(buf@.len() == buf.len());
    }
    buf.set(off, (x & 0xff) as u8);
    buf.set(off + 1, ((x >> 8) & 0xff) as u8);
    buf.set(off + 2, ((x >> 16) & 0xff) as u8);
    buf.set(off + 3, ((x >> 24) & 0xff) as u8);
    buf.set(off + 4, ((x >> 32) & 0xff) as u8);
    buf.set(off + 5, ((x >> 40) & 0xff) as u8);
    buf.set(off + 6, ((x >> 48) & 0xff) as u8);
    buf.set(off + 7, ((x >> 56) & 0xff) as u8);
    proof {
        assert(buf@.subrange(off as int, off + 8) =~= u64_le_bytes(x));
    }
}

/// Reads the 32-bit value whose four little-endian bytes sit at `off`.
pub fn load_u32_le(buf: &Vec<u8>, off: usize) -> (x: u32)
    requires
        off + 4 <= buf@.len(),
    ensures
        x == u32_of_le(buf@.subrange(off as int, off + 4)),
{
    proof {
        assert(buf@.len() == buf.len());
    }
    let b0 = buf[off] as u32;
    let b1 = buf[off + 1] as u32;
    let b2 = buf[off + 2] as u32;
    let b3 = buf[off + 3] as u32;
    proof {
        let sub = buf@.subrange(off as int, off + 4);
        assert(sub[0] == buf@[off as int]);
        assert(sub[1] == buf@[off + 1]);
        assert(sub[2] == buf@[off + 2]);
        assert(sub[3] == buf@[off + 3]);
    }
    b0 | (b1 << 8) | (b2 << 16) | (b3 << 24)
}

/// Reads the 64-bit value whose eight little-endian bytes sit at `off`.
pub fn load_u64_le(buf: &Vec<u8>, off: usize) -> (x: u64)
    requires
        off + 8 <= buf@.len(),
    ensures
        x == u64_of_le(buf@.subrange(off as int, off + 8)),
{
    proof {
        assert(buf@.len() == buf.len());
    }
    let b0 = buf[off] as u64;
    let b1 = buf[off + 1] as u64;
    let b2 = buf[off + 2] as u64;
    let b3 = buf[off + 3] as u64;
    let b4 = buf[off + 4] as u64;
    let b5 = buf[off + 5] as u64;
    let b6 = buf[off + 6] as u64;
    let b7 = buf[off + 7] as u64;
    proof {
        let sub = buf@.subrange(off as int, off + 8);
        assert(sub[0] == buf@[off as int]);
        assert(sub[1] == buf@[off + 1]);
        assert(sub[2] == buf@[off + 2]);
        assert(sub[3] == buf@[off + 3]);
        assert(sub[4] == buf@[off + 4]);
        assert(sub[5] == buf@[off + 5]);
        assert(sub[6] == buf@[off + 6]);
        assert(sub[7] == buf@[off + 7]);
    }
    b0 | (b1 << 8) | (b2 << 16) | (b3 << 24) | (b4 << 32) | (b5 << 40) | (b6 << 48) | (b7 << 56)
}

} // verus!
