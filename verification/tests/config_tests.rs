use seth::color::Color;
use seth::config::{resolve, resolve_style, Config, ConfigSource};

fn assert_is_default(c: &Config) {
    assert_eq!(c.editor_font_family, "JetBrains Mono");
    assert_eq!(c.editor_font_size, "18px");
    assert_eq!(c.editor_font_weight, "300");
    assert_eq!(c.editor_font_color, "#e9e9e9");
    assert_eq!(c.editor_line_num_color, "#525252");
    assert_eq!(c.background_color, "#1e1e1ecd");
}

#[test]
fn default_config_values() {
    assert_is_default(&Config::default());
}

#[test]
fn malformed_config_falls_back_to_default() {
    // A readable file with malformed content degrades to the defaults as
    // a whole; serde reports the parse failure at the I/O boundary.
    let parsed: Result<Config, serde_json::Error> =
        serde_json::from_str("{ not valid json").map(|_v: serde_json::Value| Config::default());
    assert!(parsed.is_err());
    let c = resolve(ConfigSource::Malformed).unwrap();
    assert_is_default(&c);
}

#[test]
fn unreadable_config_is_fatal() {
    assert!(resolve(ConfigSource::Unreadable).is_err());
}

#[test]
fn loaded_config_is_taken_as_is() {
    let mut c = Config::default();
    c.editor_font_weight = "700".to_string();
    let r = resolve(ConfigSource::Loaded(c)).unwrap();
    assert_eq!(r.editor_font_weight, "700");
    assert_eq!(r.editor_font_family, "JetBrains Mono");
}

#[test]
fn style_of_default_config() {
    let style = resolve_style(&Config::default());
    assert_eq!(style.font_family, "JetBrains Mono");
    assert_eq!(style.font_size_text, "18px");
    assert_eq!(style.font_weight, Some(300));
    assert_eq!(style.font_color, Some(Color::Rgb { r: 0xe9, g: 0xe9, b: 0xe9 }));
    assert_eq!(style.line_num_color, Some(Color::Rgb { r: 0x52, g: 0x52, b: 0x52 }));
    assert_eq!(
        style.background_color,
        Some(Color::Argb { a: 0x1e, r: 0x1e, g: 0x1e, b: 0xcd })
    );
}

#[test]
fn bad_fields_are_withheld_individually() {
    let mut c = Config::default();
    c.editor_font_weight = "bold".to_string();
    c.background_color = "#nothex".to_string();
    let style = resolve_style(&c);
    assert_eq!(style.font_weight, None);
    assert_eq!(style.background_color, None);
    // The remaining fields still apply.
    assert_eq!(style.font_color, Some(Color::Rgb { r: 0xe9, g: 0xe9, b: 0xe9 }));
    assert_eq!(style.font_family, "JetBrains Mono");
}
