//! The formatting helpers: byte counts, shortened paths, value rendering,
//! and the color parsing behind the selection color extension.

use tweak_engine::cursor_highlight_plugin::{normalize_to_hex, parse_color, parse_rgb_string, rgb_to_hex};
use tweak_engine::fmt::{format_bytes, format_value, short_path};
use tweak_engine::value::SettingsValue;

fn segments(parts: &[&str]) -> Vec<String> {
    parts.iter().map(|p| p.to_string()).collect()
}

#[test]
fn format_bytes_scales_to_binary_units() {
    assert_eq!(format_bytes(512), "512 B");
    assert_eq!(format_bytes(2048), "2.00 KB");
    assert_eq!(format_bytes(1_073_741_824), "1.00 GB");
}

#[test]
fn format_bytes_edges() {
    assert_eq!(format_bytes(0), "0 B");
    assert_eq!(format_bytes(1023), "1023 B");
    assert_eq!(format_bytes(1024), "1.00 KB");
    assert_eq!(format_bytes(1536), "1.50 KB");
    assert_eq!(format_bytes(1024 * 1024), "1.00 MB");
    assert_eq!(format_bytes(1024 * 1024 * 1024 * 1024), "1.00 TB");
    assert_eq!(format_bytes(5 * 1024 * 1024 + 1024 * 1024 / 4), "5.25 MB");
}

#[test]
fn short_path_collapses_deep_paths() {
    assert_eq!(short_path(&segments(&["a", "b", "c", "d"]), 2), "\u{2026}\\c\\d");
}

#[test]
fn short_path_keeps_shallow_paths_whole() {
    assert_eq!(short_path(&segments(&["a", "b"]), 2), "a\\b");
    assert_eq!(short_path(&segments(&["a"]), 2), "a");
    assert_eq!(short_path(&segments(&[]), 2), "");
}

#[test]
fn short_path_with_no_budget_keeps_only_the_marker() {
    assert_eq!(short_path(&segments(&["a", "b", "c"]), 0), "\u{2026}\\");
}

#[test]
fn format_value_renders_scalars_literally() {
    assert_eq!(format_value(&SettingsValue::Null), "not set");
    assert_eq!(format_value(&SettingsValue::Bool(true)), "true");
    assert_eq!(format_value(&SettingsValue::Bool(false)), "false");
    assert_eq!(format_value(&SettingsValue::Num("60".to_string())), "60");
    assert_eq!(format_value(&SettingsValue::Text("plain".to_string())), "plain");
}

#[test]
fn format_value_renders_structured_values_indented() {
    let arr = SettingsValue::Arr(vec![
        SettingsValue::Num("1".to_string()),
        SettingsValue::Num("2".to_string()),
    ]);
    assert_eq!(format_value(&arr), "[\n  1,\n  2\n]");

    let obj = SettingsValue::Obj(vec![("a".to_string(), SettingsValue::Bool(true))]);
    assert_eq!(format_value(&obj), "{\n  \"a\": true\n}");

    let nested = SettingsValue::Obj(vec![(
        "inner".to_string(),
        SettingsValue::Arr(vec![SettingsValue::Text("a\"b".to_string())]),
    )]);
    assert_eq!(
        format_value(&nested),
        "{\n  \"inner\": [\n    \"a\\\"b\"\n  ]\n}"
    );

    assert_eq!(format_value(&SettingsValue::Arr(vec![])), "[]");
    assert_eq!(format_value(&SettingsValue::Obj(vec![])), "{}");
}

#[test]
fn parse_rgb_string_accepts_three_byte_tokens() {
    assert_eq!(parse_rgb_string("58 163 255"), Some((58, 163, 255)));
    assert_eq!(parse_rgb_string("58,163,255"), Some((58, 163, 255)));
    assert_eq!(parse_rgb_string("  58 , 163 , 255 "), Some((58, 163, 255)));
    assert_eq!(parse_rgb_string("58 163"), None);
    assert_eq!(parse_rgb_string("58 163 256"), None);
    assert_eq!(parse_rgb_string("58 163 blue"), None);
    assert_eq!(parse_rgb_string(""), None);
}

#[test]
fn parse_color_accepts_both_forms() {
    assert_eq!(parse_color("#3aa3ff"), Ok((0x3a, 0xa3, 0xff)));
    assert_eq!(parse_color("3AA3FF"), Ok((0x3a, 0xa3, 0xff)));
    assert_eq!(parse_color("  ##ff0000  "), Ok((255, 0, 0)));
    assert_eq!(parse_color("58 163 255"), Ok((58, 163, 255)));
    assert_eq!(
        parse_color("oops"),
        Err("Color must be HEX (#RRGGBB) or RGB (R G B).".to_string())
    );
    assert_eq!(parse_color("zz0000"), Err("Invalid R".to_string()));
    assert_eq!(parse_color("00zz00"), Err("Invalid G".to_string()));
    assert_eq!(parse_color("0000zz"), Err("Invalid B".to_string()));
}

#[test]
fn rgb_to_hex_renders_lower_case() {
    assert_eq!(rgb_to_hex(58, 163, 255), "#3aa3ff");
    assert_eq!(rgb_to_hex(0, 0, 0), "#000000");
    assert_eq!(rgb_to_hex(255, 255, 255), "#ffffff");
}

#[test]
fn normalize_to_hex_round_trips_every_accepted_form() {
    assert_eq!(normalize_to_hex("#3AA3FF"), Ok("#3aa3ff".to_string()));
    assert_eq!(normalize_to_hex("58 163 255"), Ok("#3aa3ff".to_string()));
    assert_eq!(
        normalize_to_hex("nope"),
        Err("Color must be HEX (#RRGGBB) or RGB (R G B).".to_string())
    );
}
