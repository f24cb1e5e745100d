use chromaterm::config::{
    convert_to_supported, get_color_support, get_config, get_convert_to_supported, store_config,
    use_color_support, use_default_color_support, Config, Fallback, DEFAULT_CONFIG,
};
use chromaterm::ColorSupport;

#[test]
fn test_config() {
    let mut config = Config::new();
    store_config(&mut config, 0);
    use_color_support(&mut config, ColorSupport::True);
    assert_eq!(
        get_config(&config),
        0b11_0_00000,
        "color support should be set to True"
    );
    convert_to_supported(&mut config, true);
    assert_eq!(
        get_config(&config),
        0b11_1_00000,
        "convert to supported bit should be set"
    );
    convert_to_supported(&mut config, false);
    assert_eq!(
        get_config(&config),
        0b11_0_00000,
        "convert to supported bit should be unset"
    );
}

#[test]
fn new_config_has_no_color_and_converts() {
    let config = Config::new();
    assert_eq!(get_config(&config), 0b00_1_00000);
    assert_eq!(get_config(&config), DEFAULT_CONFIG);
    assert_eq!(get_color_support(&config), ColorSupport::NoColor);
    assert!(get_convert_to_supported(&config));
    assert_eq!(get_config(&Config::default()), DEFAULT_CONFIG);
}

#[test]
fn support_is_read_back_for_every_level() {
    for support in [
        ColorSupport::NoColor,
        ColorSupport::Simple,
        ColorSupport::EightBit,
        ColorSupport::True,
    ] {
        for flag in [false, true] {
            let mut config = Config::new();
            convert_to_supported(&mut config, flag);
            use_color_support(&mut config, support);
            assert_eq!(get_color_support(&config), support);
            assert_eq!(get_convert_to_supported(&config), flag);
        }
    }
}

#[test]
fn setters_keep_the_unused_bits() {
    let mut config = Config::new();
    store_config(&mut config, 0b00_0_11111);
    use_color_support(&mut config, ColorSupport::EightBit);
    assert_eq!(get_config(&config), 0b10_0_11111);
    convert_to_supported(&mut config, true);
    assert_eq!(get_config(&config), 0b10_1_11111);
    use_color_support(&mut config, ColorSupport::NoColor);
    assert_eq!(get_config(&config), 0b00_1_11111);
    convert_to_supported(&mut config, false);
    assert_eq!(get_config(&config), 0b00_0_11111);
}

#[test]
fn packed_fields_of_support() {
    assert_eq!(ColorSupport::NoColor.as_config(), 0b00_000000);
    assert_eq!(ColorSupport::Simple.as_config(), 0b01_000000);
    assert_eq!(ColorSupport::EightBit.as_config(), 0b10_000000);
    assert_eq!(ColorSupport::True.as_config(), 0b11_000000);
    assert_eq!(ColorSupport::from_config(0b00_111111), ColorSupport::NoColor);
    assert_eq!(ColorSupport::from_config(0b01_000000), ColorSupport::Simple);
    assert_eq!(ColorSupport::from_config(0b10_101010), ColorSupport::EightBit);
    assert_eq!(ColorSupport::from_config(0b11_111111), ColorSupport::True);
    assert_eq!(ColorSupport::Simple.set_config(0b11_1_10101), 0b01_1_10101);
}

#[test]
fn packed_field_of_fallback() {
    assert_eq!(Fallback::Yes.as_config(), 0b00_1_00000);
    assert_eq!(Fallback::No.as_config(), 0);
    assert_eq!(Fallback::from_config(0b11_0_11111), Fallback::No);
    assert_eq!(Fallback::from_config(0b00_1_00000), Fallback::Yes);
    assert_eq!(Fallback::No.set_config(0b11_1_10101), 0b11_0_10101);
    assert_eq!(Fallback::Yes.set_config(0b11_0_10101), 0b11_1_10101);
    assert_eq!(Fallback::from(true), Fallback::Yes);
    assert_eq!(Fallback::from(false), Fallback::No);
    assert!(bool::from(Fallback::Yes));
    assert!(!bool::from(Fallback::No));
}

#[test]
fn default_support_comes_from_the_environment() {
    let mut config = Config::new();
    use_default_color_support(&mut config, Some("truecolor"), Some("xterm-256color"), None);
    assert_eq!(get_color_support(&config), ColorSupport::True);
    assert!(get_convert_to_supported(&config));

    use_default_color_support(&mut config, None, Some("xterm-256color"), Some("0"));
    assert_eq!(get_color_support(&config), ColorSupport::EightBit);

    use_default_color_support(&mut config, Some("truecolor"), Some("xterm-256color"), Some("1"));
    assert_eq!(get_color_support(&config), ColorSupport::NoColor);

    use_default_color_support(&mut config, None, None, None);
    assert_eq!(get_color_support(&config), ColorSupport::NoColor);
}
