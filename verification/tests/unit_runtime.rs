use lib::unit::{
    api_is_compat, check_runtime_desc, dev_id_string, param_bitfield, unit_param, unit_string,
    RuntimeDesc, K_UNIT_API_2_0_0, K_UNIT_ERR_API_VERSION, K_UNIT_ERR_GEOMETRY, K_UNIT_ERR_NONE,
    K_UNIT_ERR_SAMPLERATE, K_UNIT_ERR_TARGET, K_UNIT_ERR_UNDEF, K_UNIT_PARAM_TYPE_PERCENT,
    K_UNIT_TARGET_NTS1_MKII_OSC, UNIT_PARAM_NAME_LEN,
};

fn good_desc() -> RuntimeDesc {
    RuntimeDesc {
        target: K_UNIT_TARGET_NTS1_MKII_OSC,
        api: K_UNIT_API_2_0_0,
        samplerate: 48000,
        frames_per_buffer: 64,
        input_channels: 2,
        output_channels: 1,
    }
}

#[test]
fn api_2_0_0_is_compatible_with_itself() {
    assert!(api_is_compat(K_UNIT_API_2_0_0));
}

#[test]
fn api_patch_versions_are_compatible() {
    assert!(api_is_compat(0x0002_0001));
    assert!(api_is_compat(0x0002_007f));
}

#[test]
fn api_other_major_or_higher_minor_is_not_compatible() {
    assert!(!api_is_compat(0x0002_0100));
    assert!(!api_is_compat(0x0003_0000));
    assert!(!api_is_compat(0x0001_0000));
    assert!(!api_is_compat(0));
}

#[test]
fn api_bits_outside_the_masks_are_ignored() {
    assert!(api_is_compat(0x0082_0000));
    assert!(api_is_compat(0xff82_8080));
}

#[test]
fn runtime_desc_accepted() {
    assert_eq!(check_runtime_desc(Some(good_desc()), K_UNIT_TARGET_NTS1_MKII_OSC), K_UNIT_ERR_NONE);
}

#[test]
fn runtime_desc_missing_is_undef() {
    assert_eq!(check_runtime_desc(None, K_UNIT_TARGET_NTS1_MKII_OSC), K_UNIT_ERR_UNDEF);
    assert_eq!(K_UNIT_ERR_UNDEF, -32);
}

#[test]
fn runtime_desc_wrong_target() {
    let d = RuntimeDesc { target: 0x0503, ..good_desc() };
    assert_eq!(check_runtime_desc(Some(d), K_UNIT_TARGET_NTS1_MKII_OSC), K_UNIT_ERR_TARGET);
    assert_eq!(K_UNIT_ERR_TARGET, -1);
}

#[test]
fn runtime_desc_wrong_api() {
    let d = RuntimeDesc { api: 0x0003_0000, ..good_desc() };
    assert_eq!(check_runtime_desc(Some(d), K_UNIT_TARGET_NTS1_MKII_OSC), K_UNIT_ERR_API_VERSION);
    assert_eq!(K_UNIT_ERR_API_VERSION, -2);
}

#[test]
fn runtime_desc_wrong_samplerate() {
    let d = RuntimeDesc { samplerate: 44100, ..good_desc() };
    assert_eq!(check_runtime_desc(Some(d), K_UNIT_TARGET_NTS1_MKII_OSC), K_UNIT_ERR_SAMPLERATE);
    assert_eq!(K_UNIT_ERR_SAMPLERATE, -4);
}

#[test]
fn runtime_desc_wrong_geometry() {
    let d = RuntimeDesc { input_channels: 1, ..good_desc() };
    assert_eq!(check_runtime_desc(Some(d), K_UNIT_TARGET_NTS1_MKII_OSC), K_UNIT_ERR_GEOMETRY);
    let d = RuntimeDesc { output_channels: 2, ..good_desc() };
    assert_eq!(check_runtime_desc(Some(d), K_UNIT_TARGET_NTS1_MKII_OSC), K_UNIT_ERR_GEOMETRY);
    assert_eq!(K_UNIT_ERR_GEOMETRY, -8);
}

#[test]
fn runtime_desc_first_failing_check_wins() {
    let d = RuntimeDesc { target: 0, api: 0, samplerate: 0, input_channels: 0, ..good_desc() };
    assert_eq!(check_runtime_desc(Some(d), K_UNIT_TARGET_NTS1_MKII_OSC), K_UNIT_ERR_TARGET);
    let d = RuntimeDesc { api: 0, samplerate: 0, input_channels: 0, ..good_desc() };
    assert_eq!(check_runtime_desc(Some(d), K_UNIT_TARGET_NTS1_MKII_OSC), K_UNIT_ERR_API_VERSION);
    let d = RuntimeDesc { samplerate: 0, input_channels: 0, ..good_desc() };
    assert_eq!(check_runtime_desc(Some(d), K_UNIT_TARGET_NTS1_MKII_OSC), K_UNIT_ERR_SAMPLERATE);
}

#[test]
fn dev_id_of_h1ro() {
    assert_eq!(dev_id_string(b"H1RO"), 0x4831524f);
}

#[test]
fn dev_id_is_big_endian() {
    assert_eq!(dev_id_string(&[1, 2, 3, 4]), 0x01020304);
    assert_eq!(dev_id_string(&[0xff, 0, 0, 0x80]), 0xff000080);
}

#[test]
fn unit_string_pads_with_zeros() {
    let s = unit_string(b"rWAV", 20);
    assert_eq!(s.len(), 20);
    assert_eq!(&s[..4], &[0x72, 0x57, 0x41, 0x56]);
    assert!(s[4..].iter().all(|c| *c == 0));
}

#[test]
fn unit_string_cuts_to_length() {
    assert_eq!(unit_string(b"ABCDEF", 3), vec![65, 66, 67]);
    assert_eq!(unit_string(b"ABC", 0), Vec::<i8>::new());
}

#[test]
fn unit_string_high_bytes_become_negative_chars() {
    assert_eq!(unit_string(&[0xff, 0x80, 0x7f], 4), vec![-1, -128, 127, 0]);
}

#[test]
fn param_bitfield_doc_example() {
    // frac 4 in bits 0..4, frac_mode 1 in bit 4, reserved 3 in bits 5..8
    assert_eq!(param_bitfield(4, 1, 3), 0b0111_0100);
}

#[test]
fn param_bitfield_percent_with_one_fraction_digit() {
    assert_eq!(param_bitfield(1, 1, 0), 0b0001_0001);
}

#[test]
fn param_bitfield_cuts_each_field() {
    assert_eq!(param_bitfield(0xff, 0xff, 0xff), 0xff);
    assert_eq!(param_bitfield(16, 2, 8), 0);
    assert_eq!(param_bitfield(17, 3, 9), 0b0011_0001);
}

#[test]
fn unit_param_keeps_fields_and_pads_name() {
    let p = unit_param(-5, 100, 3, 7, K_UNIT_PARAM_TYPE_PERCENT, 0x11, b"GAIN");
    assert_eq!((p.min, p.max, p.center, p.init), (-5, 100, 3, 7));
    assert_eq!(p.param_type, K_UNIT_PARAM_TYPE_PERCENT);
    assert_eq!(p.frac_bits, 0x11);
    assert_eq!(p.name.len(), UNIT_PARAM_NAME_LEN);
    assert_eq!(&p.name[..5], &[0x47, 0x41, 0x49, 0x4e, 0]);
}
