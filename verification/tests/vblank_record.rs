use libdrm::vblank::{drmVBlank, drmVBlankSeqType, PointerWidth};

fn put_u32(d: &mut [u8; 24], off: usize, x: u32) {
    d[off..off + 4].copy_from_slice(&x.to_le_bytes());
}

fn put_u64(d: &mut [u8; 24], off: usize, x: u64) {
    d[off..off + 8].copy_from_slice(&x.to_le_bytes());
}

fn put_i64(d: &mut [u8; 24], off: usize, x: i64) {
    d[off..off + 8].copy_from_slice(&x.to_le_bytes());
}

fn put_i32(d: &mut [u8; 24], off: usize, x: i32) {
    d[off..off + 4].copy_from_slice(&x.to_le_bytes());
}

#[test]
fn request_decodes_wide_fields_on_a_wide_build() {
    let mut data = [0u8; 24];
    put_u32(&mut data, 0, 0x4000000);
    put_u32(&mut data, 4, 42);
    put_u64(&mut data, 8, 0x1122_3344_5566_7788);
    let v = drmVBlank::new(data);
    let req = v.request(PointerWidth::Bits64);
    assert_eq!(req.request_type, drmVBlankSeqType::DRM_VBLANK_EVENT);
    assert_eq!(req.sequence, 42);
    assert_eq!(req.signal, 0x1122_3344_5566_7788);
}

#[test]
fn request_decodes_narrow_fields_on_a_narrow_build() {
    let mut data = [0u8; 24];
    put_u32(&mut data, 0, 0x1);
    put_u32(&mut data, 4, 7);
    put_u32(&mut data, 8, 0xDEAD_BEEF);
    // Bytes past the narrow signal word must not leak into it.
    put_u32(&mut data, 12, 0xFFFF_FFFF);
    let v = drmVBlank::new(data);
    let req = v.request(PointerWidth::Bits32);
    assert_eq!(req.request_type, drmVBlankSeqType::DRM_VBLANK_RELATIVE);
    assert_eq!(req.sequence, 7);
    assert_eq!(req.signal, 0xDEAD_BEEF);
}

#[test]
fn reply_decodes_wide_timestamps() {
    let mut data = [0u8; 24];
    put_u32(&mut data, 0, 0x0);
    put_u32(&mut data, 4, 100);
    put_i64(&mut data, 8, -2);
    put_i64(&mut data, 16, 250_000);
    let v = drmVBlank::new(data);
    let reply = v.reply(PointerWidth::Bits64);
    assert_eq!(reply.reply_type, drmVBlankSeqType::DRM_VBLANK_ABSOLUTE);
    assert_eq!(reply.sequence, 100);
    assert_eq!(reply.tval_sec, -2);
    assert_eq!(reply.tval_usec, 250_000);
}

#[test]
fn reply_decodes_narrow_timestamps() {
    let mut data = [0u8; 24];
    put_u32(&mut data, 0, 0x10000000);
    put_u32(&mut data, 4, 9);
    put_i32(&mut data, 8, -5);
    put_i32(&mut data, 12, 750);
    let v = drmVBlank::new(data);
    let reply = v.reply(PointerWidth::Bits32);
    assert_eq!(reply.reply_type, drmVBlankSeqType::DRM_VBLANK_NEXTONMISS);
    assert_eq!(reply.sequence, 9);
    assert_eq!(reply.tval_sec, -5);
    assert_eq!(reply.tval_usec, 750);
}

#[test]
fn wait_kind_codes_map_to_their_kinds() {
    assert_eq!(drmVBlankSeqType::from_u32(0x0), drmVBlankSeqType::DRM_VBLANK_ABSOLUTE);
    assert_eq!(drmVBlankSeqType::from_u32(0x1), drmVBlankSeqType::DRM_VBLANK_RELATIVE);
    assert_eq!(drmVBlankSeqType::from_u32(0x3e), drmVBlankSeqType::DRM_VBLANK_HIGH_CRTC_MASK);
    assert_eq!(drmVBlankSeqType::from_u32(0x4000000), drmVBlankSeqType::DRM_VBLANK_EVENT);
    assert_eq!(drmVBlankSeqType::from_u32(0x8000000), drmVBlankSeqType::DRM_VBLANK_FLIP);
    assert_eq!(
        drmVBlankSeqType::from_u32(0x10000000),
        drmVBlankSeqType::DRM_VBLANK_NEXTONMISS
    );
    assert_eq!(
        drmVBlankSeqType::from_u32(0x20000000),
        drmVBlankSeqType::DRM_VBLANK_SECONDARY
    );
    assert_eq!(drmVBlankSeqType::from_u32(0x40000000), drmVBlankSeqType::DRM_VBLANK_SIGNAL);
    // Codes without a kind of their own fall back to the absolute kind.
    assert_eq!(drmVBlankSeqType::from_u32(0x2), drmVBlankSeqType::DRM_VBLANK_ABSOLUTE);
    assert_eq!(drmVBlankSeqType::from_u32(u32::MAX), drmVBlankSeqType::DRM_VBLANK_ABSOLUTE);
}
