use libdrm::drm::{get_cap, Capability};

#[test]
fn capability_codes_match_the_kernel_table() {
    assert_eq!(Capability::DumbBuffer.code(), 0x1);
    assert_eq!(Capability::VBlankHighCrtc.code(), 0x2);
    assert_eq!(Capability::DumbPreferredDepth.code(), 0x3);
    assert_eq!(Capability::DumbPreferShadow.code(), 0x4);
    assert_eq!(Capability::Prime.code(), 0x5);
    assert_eq!(Capability::TimestampMonotonic.code(), 0x6);
    assert_eq!(Capability::AsyncPageFlip.code(), 0x7);
    assert_eq!(Capability::CursorWidth.code(), 0x8);
    assert_eq!(Capability::CursorHeight.code(), 0x9);
    assert_eq!(Capability::AddFB2Modifiers.code(), 0x10);
}

#[test]
fn supported_capability_yields_its_value() {
    assert_eq!(get_cap(0, 64), Ok(64));
    assert_eq!(get_cap(0, 0), Ok(0));
}

#[test]
fn unsupported_capability_is_an_error_not_a_zero() {
    // The kernel reports absence as a non-zero result code; the value
    // buffer may well hold zero, and that zero must not come back as a
    // success.
    let r = get_cap(-22, 0);
    assert_eq!(r, Err(-22));
    assert!(r.is_err());
}
