use oneamp_core::skins::{
    default_active_skin, default_first_run, validate_hex_color, ColorError, Colors, Fonts,
    Metadata,
};

#[test]
fn mod_test_colors_default() {
    let colors = Colors::default();
    assert_eq!(colors.background, "#0a0a0a");
    assert_eq!(colors.text, "#ffffff");
}

#[test]
fn mod_test_fonts_default() {
    let fonts = Fonts::default();
    assert_eq!(fonts.proportional, "Arial");
    assert_eq!(fonts.monospace, "Courier New");
}

#[test]
fn tests_test_colors_default() {
    let colors = Colors::default();
    assert!(colors.dark_mode);
    assert_eq!(colors.background, "#0a0a0a");
    assert_eq!(colors.text, "#ffffff");
    assert!(!colors.accent.is_empty());
}

#[test]
fn tests_test_fonts_default() {
    let fonts = Fonts::default();
    assert_eq!(fonts.proportional, "Arial");
    assert_eq!(fonts.monospace, "Courier New");
}

#[test]
fn test_validate_hex_color_valid() {
    assert!(validate_hex_color("#fff").is_ok());
    assert!(validate_hex_color("#ffffff").is_ok());
    assert!(validate_hex_color("#ffffff80").is_ok());
}

#[test]
fn test_validate_hex_color_invalid() {
    assert!(validate_hex_color("ffffff").is_err());
    assert!(validate_hex_color("#ff").is_err());
    assert!(validate_hex_color("#gggggg").is_err());
}

#[test]
fn hex_color_errors_name_their_cause() {
    assert_eq!(validate_hex_color(""), Err(ColorError::MissingHash));
    assert_eq!(validate_hex_color("ffffff"), Err(ColorError::MissingHash));
    assert_eq!(validate_hex_color("#ff"), Err(ColorError::BadLength));
    assert_eq!(validate_hex_color("#fffff"), Err(ColorError::BadLength));
    assert_eq!(validate_hex_color("#gggggg"), Err(ColorError::BadDigit));
    assert_eq!(validate_hex_color("#00D4Ff"), Ok(()));
}

#[test]
fn default_colors_are_valid_hex() {
    let c = Colors::default();
    for s in [
        &c.background, &c.text, &c.window_fill, &c.window_stroke, &c.panel_fill, &c.widget_bg,
        &c.widget_stroke, &c.hovered_widget_bg, &c.active_widget_bg, &c.inactive_widget_bg,
        &c.accent, &c.error, &c.warning, &c.playlist_current_track, &c.playlist_selected_bg,
    ] {
        assert!(validate_hex_color(s).is_ok());
    }
}

#[test]
fn metadata_and_config_defaults() {
    let m = Metadata::default();
    assert_eq!(m.name, "Default");
    assert_eq!(m.author, "OneAmp");
    assert_eq!(m.version, "1.0");
    assert_eq!(m.description, "Default skin");
    assert_eq!(default_active_skin(), "OneAmp Dark");
    assert!(default_first_run());
}
