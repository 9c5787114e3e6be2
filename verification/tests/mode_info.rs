use libdrm::mode_info::ModeInfo;

fn sample_mode() -> ModeInfo {
    ModeInfo::new(148500, 1920, 2008, 2052, 2200, 0, 1080, 1084, 1089, 1125, 0, 60, 5, 64)
}

#[test]
fn mode_info_getters_return_fields() {
    let m = sample_mode();
    assert_eq!(m.get_clock(), 148500);
    assert_eq!(m.get_hdisplay(), 1920);
    assert_eq!(m.get_hsync_start(), 2008);
    assert_eq!(m.get_hsync_end(), 2052);
    assert_eq!(m.get_htotal(), 2200);
    assert_eq!(m.get_hskew(), 0);
    assert_eq!(m.get_vdisplay(), 1080);
    assert_eq!(m.get_vsync_start(), 1084);
    assert_eq!(m.get_vsync_end(), 1089);
    assert_eq!(m.get_vtotal(), 1125);
    assert_eq!(m.get_vscan(), 0);
    assert_eq!(m.get_vrefresh(), 60);
    assert_eq!(m.get_flags(), 5);
    assert_eq!(m.get_mode_type(), 64);
}

#[test]
fn mode_info_is_a_plain_value() {
    let m = sample_mode();
    let copy = m;
    assert_eq!(m, copy);
    let other = ModeInfo::new(0, 0, 0, 0, 0, 0, 0, 0, 0, 0, 0, 0, 0, 0);
    assert_ne!(m, other);
}
