use leddy_rasp_pi::config::{validate_supported_config, ConfigError, DisplayConfig, PixelOrigin};
use leddy_rasp_pi::settings::{
    config_from_settings, flag_setting, interval_setting, origin_setting, parse_flag,
    parse_origin, parse_unsigned, u16_setting, u64_setting, u8_setting, DisplaySettings,
};

#[test]
fn flags_accept_the_documented_words_in_any_case() {
    for word in ["1", "true", "YES", "On", "tRuE"] {
        assert_eq!(parse_flag(word.as_bytes()), Some(true), "{word}");
    }
    for word in ["0", "false", "No", "OFF"] {
        assert_eq!(parse_flag(word.as_bytes()), Some(false), "{word}");
    }
    for word in ["", "2", "y", "truee", " on"] {
        assert_eq!(parse_flag(word.as_bytes()), None, "{word}");
    }
    assert!(flag_setting(None, true));
    assert!(!flag_setting(Some(b"off"), true));
    assert!(flag_setting(Some(b"maybe"), true));
}

#[test]
fn origins_accept_dashes_and_any_case() {
    assert_eq!(parse_origin(b"top_left"), Ok(PixelOrigin::TopLeft));
    assert_eq!(parse_origin(b"Top-Right"), Ok(PixelOrigin::TopRight));
    assert_eq!(parse_origin(b"BOTTOM-LEFT"), Ok(PixelOrigin::BottomLeft));
    assert_eq!(parse_origin(b"bottom_right"), Ok(PixelOrigin::BottomRight));
    assert_eq!(
        parse_origin(b"Middle-Left"),
        Err(ConfigError::UnsupportedOrigin { value: b"middle-left".to_vec() })
    );
    assert_eq!(origin_setting(None, PixelOrigin::BottomLeft), Ok(PixelOrigin::BottomLeft));
}

#[test]
fn numbers_parse_like_rust_integers() {
    assert_eq!(parse_unsigned(b"300", 65535), Some(300));
    assert_eq!(parse_unsigned(b"+7", 255), Some(7));
    assert_eq!(parse_unsigned(b"007", 255), Some(7));
    assert_eq!(parse_unsigned(b"256", 255), None);
    assert_eq!(parse_unsigned(b"", 255), None);
    assert_eq!(parse_unsigned(b"+", 255), None);
    assert_eq!(parse_unsigned(b"-1", 255), None);
    assert_eq!(parse_unsigned(b"1 ", 255), None);
    assert_eq!(parse_unsigned(b"18446744073709551615", u64::MAX), Some(u64::MAX));
    assert_eq!(parse_unsigned(b"18446744073709551616", u64::MAX), None);
    assert_eq!(u16_setting(Some(b"70000"), 100), 100);
    assert_eq!(u8_setting(Some(b"200"), 96), 200);
    assert_eq!(u64_setting(None, 50), 50);
}

#[test]
fn intervals_are_at_least_one() {
    assert_eq!(interval_setting(Some(b"0"), 50), 1);
    assert_eq!(interval_setting(None, 50), 50);
    assert_eq!(interval_setting(Some(b"20"), 50), 20);
}

#[test]
fn settings_fall_back_to_documented_defaults() {
    let settings = DisplaySettings {
        width: None,
        height: None,
        brightness: None,
        serpentine: None,
        origin: None,
    };
    assert_eq!(
        config_from_settings(&settings),
        Ok(DisplayConfig {
            width: 100,
            height: 10,
            brightness: 96,
            serpentine: true,
            origin: PixelOrigin::TopLeft,
        })
    );
}

#[test]
fn settings_refuse_unknown_origin_before_validation() {
    let settings = DisplaySettings {
        width: Some(b"50"),
        height: Some(b"12"),
        brightness: Some(b"10"),
        serpentine: Some(b"no"),
        origin: Some(b"centre"),
    };
    assert_eq!(
        config_from_settings(&settings),
        Err(ConfigError::UnsupportedOrigin { value: b"centre".to_vec() })
    );
    let settings = DisplaySettings { origin: Some(b"bottom-right"), ..settings };
    let unchecked = config_from_settings(&settings).expect("described");
    assert_eq!(unchecked.width, 50);
    assert_eq!(
        validate_supported_config(&unchecked, Ok(())),
        Err(ConfigError::WidthOutOfRange { width: 50 })
    );
    let settings = DisplaySettings { width: Some(b"120"), ..settings };
    assert_eq!(
        config_from_settings(&settings),
        Ok(DisplayConfig {
            width: 120,
            height: 12,
            brightness: 10,
            serpentine: false,
            origin: PixelOrigin::BottomRight,
        })
    );
}
