use profile_scan::device::{last_nonempty_line, parse_u16, DeviceInfo, DeviceInfoError};

#[test]
fn size_from_wm_output() {
    let info = DeviceInfo::new("Physical size: 1080x2400\n".to_string()).unwrap();
    assert_eq!(info, DeviceInfo { width: 1080, height: 2400 });
}

#[test]
fn size_uses_last_non_empty_line() {
    let out = "Physical size: 1440x3200\nOverride size: 1080x2400\n\n".to_string();
    let info = DeviceInfo::new(out).unwrap();
    assert_eq!(info.width, 1080);
    assert_eq!(info.height, 2400);
}

#[test]
fn size_of_empty_output_is_missing() {
    assert_eq!(DeviceInfo::new(String::new()), Err(DeviceInfoError::NoSize));
    assert_eq!(DeviceInfo::new("\n\n".to_string()), Err(DeviceInfoError::NoSize));
}

#[test]
fn size_without_numbers_has_no_width() {
    assert_eq!(DeviceInfo::new("no size here\n".to_string()), Err(DeviceInfoError::NoWidth));
}

#[test]
fn size_with_one_number_has_no_height() {
    assert_eq!(DeviceInfo::new("width 1080\n".to_string()), Err(DeviceInfoError::NoHeight));
}

#[test]
fn size_too_large_for_sixteen_bits() {
    assert_eq!(DeviceInfo::new("70000x2400".to_string()), Err(DeviceInfoError::NoWidth));
    assert_eq!(DeviceInfo::new("1080x65536".to_string()), Err(DeviceInfoError::NoHeight));
}

#[test]
fn size_from_fields_reads_first_two() {
    let fields = vec!["65535".to_string(), "0".to_string(), "7".to_string()];
    assert_eq!(
        DeviceInfo::from_size_fields(&fields),
        Ok(DeviceInfo { width: 65535, height: 0 })
    );
    assert_eq!(DeviceInfo::from_size_fields(&vec![]), Err(DeviceInfoError::NoWidth));
}

#[test]
fn next_profile_button_position() {
    let info = DeviceInfo { width: 1080, height: 2400 };
    assert_eq!(info.get_next_profile_button_coordinates(), (155, 1931));
    let edge = DeviceInfo { width: 925, height: 469 };
    assert_eq!(edge.get_next_profile_button_coordinates(), (0, 0));
}

#[test]
fn parse_decimal_numbers() {
    assert_eq!(parse_u16("0"), Some(0));
    assert_eq!(parse_u16("+42"), Some(42));
    assert_eq!(parse_u16("65535"), Some(65535));
    assert_eq!(parse_u16("65536"), None);
    assert_eq!(parse_u16(""), None);
    assert_eq!(parse_u16("+"), None);
    assert_eq!(parse_u16("-1"), None);
    assert_eq!(parse_u16("12a"), None);
    assert_eq!(parse_u16("٣"), None);
}

#[test]
fn last_line_skips_trailing_newlines() {
    assert_eq!(last_nonempty_line("a\nbc\n\n"), Some("bc".to_string()));
    assert_eq!(last_nonempty_line("single"), Some("single".to_string()));
    assert_eq!(last_nonempty_line(""), None);
    assert_eq!(last_nonempty_line("\n"), None);
}
