use svc_exchange::Area;
use svc_exchange::EXCHANGE_AREA_BASE;
use svc_exchange::EXCHANGE_AREA_LEN;
use svc_exchange::ExhangeArea;
use svc_exchange::ShmInfo;
use svc_exchange::Status;

// An address comfortably below the exchange area, for buffers that must
// not alias it.
const FAR_BELOW: usize = 0x1000;

#[test]
fn create_area() {
    let area = Area::new();
    assert_eq!(<Area as ExhangeArea<u8>>::area_length(&area), 128);
}

#[test]
fn back_to_back_copy() {
    let mut area = Area::new();
    let string = vec![b'z'; 100];
    let mut res = vec![b'a'; 100];
    area.copy_vec_to(&string, FAR_BELOW, string.len());
    area.copy_vec_from(&mut res, FAR_BELOW + 0x200, string.len());
    assert_eq!(res, string);
}

#[test]
fn back_to_back_shm_copy() {
    let mut area = Area::new();
    let shminfo = ShmInfo {
        handle: 2,
        label: 42,
        base: 0x123456,
        len: 64,
        perms: 0x1,
    };
    let mut shminfo_copy = ShmInfo {
        handle: 0,
        label: 0,
        base: 0,
        len: 0,
        perms: 0,
    };
    area.copy_to(&shminfo);
    area.copy_from(&mut shminfo_copy);
    assert_eq!(shminfo, shminfo_copy);
}

#[test]
fn area_length_unchanged_by_handles_and_copies() {
    let mut area = Area::new();
    let other = Area::new();
    let data = vec![0x55u8; 16];
    area.copy_vec_to(&data, FAR_BELOW, data.len());
    assert_eq!(<Area as ExhangeArea<u8>>::area_length(&area), 128);
    assert_eq!(<Area as ExhangeArea<u8>>::area_length(&other), 128);
    assert_eq!(<Area as ExhangeArea<ShmInfo>>::area_length(&area), 128);
}

// Stages a known pattern, then reads the whole area back from a
// non-aliasing destination.
fn staged_area_contents(area: &Area) -> Vec<u8> {
    let mut out = vec![0u8; EXCHANGE_AREA_LEN];
    let s = area.copy_vec_from(&mut out, FAR_BELOW + 0x400, EXCHANGE_AREA_LEN);
    assert!(matches!(s, Status::Okay));
    out
}

#[test]
fn overlap_rejected_at_area_start() {
    let mut area = Area::new();
    let pattern = vec![0xA5u8; EXCHANGE_AREA_LEN];
    area.copy_vec_to(&pattern, FAR_BELOW, pattern.len());
    let before = staged_area_contents(&area);

    let src = vec![0x11u8; 8];
    let s = area.copy_vec_to(&src, EXCHANGE_AREA_BASE, src.len());
    assert!(matches!(s, Status::Invalid));
    assert_eq!(staged_area_contents(&area), before);
}

#[test]
fn overlap_rejected_at_area_end() {
    let mut area = Area::new();
    let pattern = vec![0x3Cu8; EXCHANGE_AREA_LEN];
    area.copy_vec_to(&pattern, FAR_BELOW, pattern.len());
    let before = staged_area_contents(&area);

    // The candidate starts below the area and its end address falls
    // exactly on the area's end.
    let src = vec![0x22u8; EXCHANGE_AREA_LEN + 8];
    let end = EXCHANGE_AREA_BASE + EXCHANGE_AREA_LEN;
    let s = area.copy_vec_to(&src, end - src.len(), src.len());
    assert!(matches!(s, Status::Invalid));
    assert_eq!(staged_area_contents(&area), before);
}

#[test]
fn overlap_rejected_when_buffer_contains_area() {
    let mut area = Area::new();
    let pattern = vec![0x7Eu8; EXCHANGE_AREA_LEN];
    area.copy_vec_to(&pattern, FAR_BELOW, pattern.len());
    let before = staged_area_contents(&area);

    // The candidate starts before the area and ends past its end.
    let len = EXCHANGE_AREA_LEN + 64;
    let src = vec![0x33u8; len];
    let s = area.copy_vec_to(&src, EXCHANGE_AREA_BASE - 32, len);
    assert!(matches!(s, Status::Invalid));
    assert_eq!(staged_area_contents(&area), before);

    let mut dst = vec![0u8; len];
    let s = area.copy_vec_from(&mut dst, EXCHANGE_AREA_BASE - 32, len);
    assert!(matches!(s, Status::Invalid));
    assert_eq!(dst, vec![0u8; len]);
}

#[test]
fn adjacent_buffer_below_accepted() {
    let mut area = Area::new();
    let src = vec![0x44u8; 16];
    // The closest accepted neighbour below: its end address lies one byte
    // short of the area's first address.
    let addr = EXCHANGE_AREA_BASE - src.len() - 1;
    let s = area.copy_vec_to(&src, addr, src.len());
    assert!(matches!(s, Status::Okay));
    let contents = staged_area_contents(&area);
    assert_eq!(&contents[..16], &src[..]);
}

#[test]
fn adjacent_buffer_above_accepted() {
    let mut area = Area::new();
    let src = vec![0x66u8; 16];
    // The closest accepted neighbour above: it starts one byte past the
    // area's inclusive end address.
    let addr = EXCHANGE_AREA_BASE + EXCHANGE_AREA_LEN + 1;
    let s = area.copy_vec_to(&src, addr, src.len());
    assert!(matches!(s, Status::Okay));
    let contents = staged_area_contents(&area);
    assert_eq!(&contents[..16], &src[..]);
}

#[test]
fn oversized_copy_clips_to_capacity() {
    let mut area = Area::new();
    let mut src = Vec::new();
    for i in 0..200usize {
        src.push(i as u8);
    }
    let s = area.copy_vec_to(&src, FAR_BELOW, src.len());
    assert!(matches!(s, Status::Okay));
    let contents = staged_area_contents(&area);
    assert_eq!(contents.len(), EXCHANGE_AREA_LEN);
    assert_eq!(&contents[..], &src[..EXCHANGE_AREA_LEN]);
}

#[test]
fn oversized_read_clips_to_capacity() {
    let mut area = Area::new();
    let pattern = vec![0x5Au8; EXCHANGE_AREA_LEN];
    area.copy_vec_to(&pattern, FAR_BELOW, pattern.len());
    let mut dst = vec![0u8; 200];
    let s = area.copy_vec_from(&mut dst, FAR_BELOW + 0x200, 200);
    assert!(matches!(s, Status::Okay));
    assert_eq!(&dst[..EXCHANGE_AREA_LEN], &pattern[..]);
    assert_eq!(&dst[EXCHANGE_AREA_LEN..], &vec![0u8; 72][..]);
}

#[test]
fn record_marshalled_little_endian() {
    // Stage the record's wire form by hand, then read it back typed: this
    // pins the byte layout, field by field.
    let mut area = Area::new();
    let mut wire = vec![0u8; 28];
    wire[0] = 0x02; // handle = 2
    wire[4] = 0x2A; // label = 42
    wire[8] = 0x56; // base  = 0x123456, little-endian over 8 bytes
    wire[9] = 0x34;
    wire[10] = 0x12;
    wire[16] = 0x40; // len   = 64
    wire[24] = 0x01; // perms = 1
    let s = area.copy_vec_to(&wire, FAR_BELOW, wire.len());
    assert!(matches!(s, Status::Okay));

    let mut rec = ShmInfo {
        handle: 0,
        label: 0,
        base: 0,
        len: 0,
        perms: 0,
    };
    area.copy_from(&mut rec);
    assert_eq!(rec.handle, 2);
    assert_eq!(rec.label, 42);
    assert_eq!(rec.base, 0x123456);
    assert_eq!(rec.len, 64);
    assert_eq!(rec.perms, 1);
}

#[test]
fn unsupported_granularities_refused() {
    let mut area = Area::new();
    // Single-byte copies are not provided.
    let b = 9u8;
    assert!(matches!(area.copy_to(&b), Status::Invalid));
    let mut b_out = 0u8;
    assert!(matches!(area.copy_from(&mut b_out), Status::Invalid));
    assert_eq!(b_out, 0);
    // Vector copies of records are not provided.
    let recs = vec![ShmInfo {
        handle: 1,
        label: 2,
        base: 3,
        len: 4,
        perms: 5,
    }];
    assert!(matches!(area.copy_vec_to(&recs, FAR_BELOW, 1), Status::Invalid));
    let mut recs_out: Vec<ShmInfo> = Vec::new();
    assert!(matches!(
        area.copy_vec_from(&mut recs_out, FAR_BELOW, 0),
        Status::Invalid
    ));
}

#[test]
fn guard_examined_directly() {
    let end = EXCHANGE_AREA_BASE + EXCHANGE_AREA_LEN;
    // Zero-length candidates at each inclusive bound are still rejected.
    assert!(Area::check_overlapping(EXCHANGE_AREA_BASE, 0).is_err());
    assert!(Area::check_overlapping(end, 0).is_err());
    // A candidate ending exactly on the area's start address is rejected
    // under the inclusive convention.
    assert!(Area::check_overlapping(EXCHANGE_AREA_BASE - 8, 8).is_err());
    // Wholly below and wholly above are accepted.
    assert!(Area::check_overlapping(EXCHANGE_AREA_BASE - 9, 8).is_ok());
    assert!(Area::check_overlapping(end + 1, 8).is_ok());
}
