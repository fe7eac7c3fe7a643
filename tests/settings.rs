use whispr::settings::{
    lookup_key, parse_bool, parse_u32, update_setting, Field, SettingValue, Settings, SettingsError,
};

#[test]
fn defaults() {
    let d = Settings::default();
    assert_eq!(f64::from_bits(d.notch_font_size), 20.0);
    assert_eq!(f64::from_bits(d.notch_opacity), 0.92);
    assert_eq!(f64::from_bits(d.target_max_wpm), 170.0);
    assert_eq!(d.notch_line_count, 2);
    assert_eq!(d.countdown_seconds, 3);
    assert_eq!(d.notch_font_family, "System");
    assert_eq!(d.text_color_hex, "#FFFFFF");
    assert!(d.notch_show_timer && !d.mirror_mode && !d.content_protected);
}

#[test]
fn update_one_field_then_unknown_key() {
    let mut doc = Settings::default();
    let value = "18.5".to_string();
    let bits = value.parse::<f64>().ok().map(f64::to_bits);
    assert_eq!(update_setting(&mut doc, "notch_font_size", value, bits), Ok(()));
    assert_eq!(f64::from_bits(doc.notch_font_size), 18.5);
    let mut expected = Settings::default();
    expected.notch_font_size = 18.5f64.to_bits();
    assert_eq!(doc, expected);
    let snapshot = doc.snapshot();
    assert_eq!(
        update_setting(&mut doc, "bogus_key", "x".to_string(), None),
        Err(SettingsError::UnknownKey)
    );
    assert_eq!(doc, snapshot);
}

#[test]
fn invalid_values_leave_document_unchanged() {
    let mut doc = Settings::default();
    let before = doc.snapshot();
    assert_eq!(
        update_setting(&mut doc, "countdown_seconds", "abc".to_string(), None),
        Err(SettingsError::InvalidValue)
    );
    assert_eq!(
        update_setting(&mut doc, "mirror_mode", "yes".to_string(), None),
        Err(SettingsError::InvalidValue)
    );
    assert_eq!(
        update_setting(&mut doc, "notch_height", "tall".to_string(), None),
        Err(SettingsError::InvalidValue)
    );
    assert_eq!(doc, before);
}

#[test]
fn typed_updates() {
    let mut doc = Settings::default();
    update_setting(&mut doc, "countdown_seconds", "+7".to_string(), None).unwrap();
    update_setting(&mut doc, "mirror_mode", "true".to_string(), None).unwrap();
    update_setting(&mut doc, "floating_theme", "light".to_string(), None).unwrap();
    assert_eq!(doc.countdown_seconds, 7);
    assert!(doc.mirror_mode);
    assert_eq!(doc.floating_theme, "light");
    assert_eq!(doc.get(Field::FloatingTheme), SettingValue::Text("light".to_string()));
}

#[test]
fn fields_outside_the_key_table_are_unknown() {
    assert_eq!(lookup_key("target_min_wpm"), None);
    assert_eq!(lookup_key("content_protected"), None);
    assert_eq!(lookup_key("end_action"), Some(Field::EndAction));
    assert_eq!(lookup_key("NOTCH_HEIGHT"), None);
}

#[test]
fn integer_and_boolean_reading() {
    assert_eq!(parse_u32("0"), Some(0));
    assert_eq!(parse_u32("4294967295"), Some(u32::MAX));
    assert_eq!(parse_u32("4294967296"), None);
    assert_eq!(parse_u32("+12"), Some(12));
    assert_eq!(parse_u32("+"), None);
    assert_eq!(parse_u32(""), None);
    assert_eq!(parse_u32("-1"), None);
    assert_eq!(parse_u32("1x"), None);
    assert_eq!(parse_bool("true"), Some(true));
    assert_eq!(parse_bool("false"), Some(false));
    assert_eq!(parse_bool("True"), None);
}
