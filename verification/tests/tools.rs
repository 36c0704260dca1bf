use macpak::state::tools::{push_front_bounded, rgb_triple, ToolsState};
use macpak::tabs::tools::{
    decrement_field, format_version, int_to_version, parse_hex_color, parse_version_input, rgb_to_hex,
    save_color_to_history, version_to_int,
};
use macpak::tabs::uuid_generator::{format_handle, format_uuid, generate_handle, generate_uuid, UuidFormat};

/// The packing the version calculator is meant to match.
fn reference_pack(major: u32, minor: u32, patch: u32, build: u32) -> u64 {
    ((major as u64) << 55) | ((minor as u64) << 47) | ((patch as u64) << 31) | (build as u64)
}

fn reference_unpack(v: u64) -> (u32, u32, u32, u32) {
    (((v >> 55) & 0x1FF) as u32, ((v >> 47) & 0xFF) as u32, ((v >> 31) & 0xFFFF) as u32, (v & 0x7FFFFFFF) as u32)
}

#[test]
fn hex_colors() {
    assert_eq!(parse_hex_color("#FF5500"), Some((255, 85, 0)));
    assert_eq!(parse_hex_color("ff5500"), Some((255, 85, 0)));
    assert_eq!(parse_hex_color("FF550"), None);
    assert_eq!(parse_hex_color("GG5500"), None);
    assert_eq!(parse_hex_color("#FF55001"), None);
    assert_eq!(rgb_to_hex(255, 85, 0), "FF5500");
    assert_eq!(rgb_to_hex(0, 10, 171), "000AAB");
    for (r, g, b) in [(0u8, 0u8, 0u8), (1, 2, 3), (255, 254, 16)] {
        assert_eq!(parse_hex_color(&rgb_to_hex(r, g, b)), Some((r, g, b)));
    }
}

#[test]
fn color_history_is_unique_and_bounded() {
    let mut h: Vec<String> = Vec::new();
    save_color_to_history(&mut h, "#000001".to_string());
    save_color_to_history(&mut h, "#000002".to_string());
    save_color_to_history(&mut h, "#000001".to_string());
    assert_eq!(h, vec!["#000002".to_string(), "#000001".to_string()]);
    for i in 0..60 {
        save_color_to_history(&mut h, format!("#{:06X}", 100 + i));
    }
    assert_eq!(h.len(), 43);
    assert_eq!(h[0], format!("#{:06X}", 159));
}

#[test]
fn versions_pack_and_unpack() {
    assert_eq!(version_to_int(1, 0, 0, 0), 36028797018963968);
    for (a, b, c, d) in [(1u32, 0u32, 0u32, 0u32), (1, 2, 3, 4), (511, 255, 65535, 0x7FFFFFFF), (3, 7, 100, 42)] {
        let v = version_to_int(a, b, c, d);
        assert_eq!(v, reference_pack(a, b, c, d));
        assert_eq!(int_to_version(v), (a, b, c, d));
    }
    for v in [0u64, 1, u64::MAX, 36028797018963968, 123456789012345678] {
        assert_eq!(int_to_version(v), reference_unpack(v));
        let (a, b, c, d) = int_to_version(v);
        assert_eq!(int_to_version(version_to_int(a, b, c, d)), (a, b, c, d));
    }
    assert_eq!(format_version(1, 2, 3, 4), "1.2.3.4");
    assert_eq!(parse_version_input(" 36028797018963968 "), Some((1, 0, 0, 0)));
    assert_eq!(parse_version_input("abc"), None);
    assert_eq!(parse_version_input("18446744073709551616"), None);
    assert_eq!(parse_version_input("+5"), Some((0, 0, 0, 5)));
    assert_eq!(decrement_field(0), 0);
    assert_eq!(decrement_field(5), 4);
}

#[test]
fn tools_state_actions() {
    let mut s = ToolsState::new();
    assert_eq!(s.color_hex, "FF5500");
    assert_eq!((s.color_r, s.color_g, s.color_b, s.color_a), (255, 85, 0, 255));
    s.save_color();
    s.save_color();
    assert_eq!(s.color_history, vec!["#FF5500".to_string()]);
    s.color_hex = "00ff00".to_string();
    s.apply_hex_input();
    assert_eq!((s.color_r, s.color_g, s.color_b), (0, 255, 0));
    s.color_hex = "nope".to_string();
    s.apply_hex_input();
    assert_eq!((s.color_r, s.color_g, s.color_b), (0, 255, 0));
    s.set_rgb(1, 2, 3);
    assert_eq!(s.color_hex, "010203");
    s.version_int = "36028797018963968".to_string();
    s.parse_version();
    assert_eq!(s.status_message, "Parsed: 1.0.0.0");
    s.version_int = "x".to_string();
    s.parse_version();
    assert_eq!(s.status_message, "Invalid number");
    s.version_major = 2;
    assert_eq!(s.copy_int64(), reference_pack(2, 0, 0, 0).to_string());
    assert_eq!(s.status_message, "Copied Int64!");
    for i in 0..25 {
        s.record_uuid(format!("u{}", i));
        s.record_handle(format!("{}", i));
    }
    assert_eq!(s.uuid_history.len(), 20);
    assert_eq!(s.uuid_history[0], "u24");
    assert_eq!(s.generated_handle, "24");
    s.generate_uuid_action();
    assert_eq!(s.generated_uuid.len(), 36);
    assert_eq!(s.uuid_history[0], s.generated_uuid);
    s.generate_handle_action();
    assert!(s.generated_handle.parse::<u64>().is_ok());
    s.finish_export(Err("denied".to_string()));
    assert_eq!(s.status_message, "Export failed: denied");
    s.finish_export(Ok(()));
    assert_eq!(s.status_message, "Exported successfully!");
    s.clear_all();
    assert!(s.uuid_history.is_empty() && s.handle_history.is_empty() && s.color_history.is_empty());
    assert_eq!(s.status_message, "All history cleared");
}

#[test]
fn history_export_json() {
    let mut s = ToolsState::new();
    s.uuid_history = vec!["A-B".to_string()];
    s.handle_history = vec!["42".to_string(), "7".to_string()];
    s.color_history = vec!["#FFFFFF".to_string()];
    let text = s.history_export_text();
    let v: serde_json::Value = serde_json::from_str(&text).unwrap();
    assert_eq!(v["uuids"][0], "A-B");
    assert_eq!(v["handles"][0], "h42");
    assert_eq!(v["handles"][1], "h7");
    assert_eq!(v["colors"][0], "#FFFFFF");
    assert!(text.contains('\n'));
}

#[test]
fn bounded_front_history() {
    let mut h = vec!["b".to_string(), "c".to_string()];
    push_front_bounded(&mut h, "a".to_string(), 2);
    assert_eq!(h, vec!["a".to_string(), "b".to_string()]);
}

#[test]
fn uuid_formats() {
    let b: [u8; 16] = [0x12, 0x34, 0x56, 0x78, 0x9a, 0xbc, 0x4d, 0xef, 0x81, 0x23, 0x45, 0x67, 0x89, 0xab, 0xcd, 0xef];
    assert_eq!(format_uuid(&b, UuidFormat::Standard), "12345678-9ABC-4DEF-8123-456789ABCDEF");
    assert_eq!(format_uuid(&b, UuidFormat::Compact), "123456789ABC4DEF8123456789ABCDEF");
    assert_eq!(format_uuid(&b, UuidFormat::Larian), "h12345678g9abcg4defg8123g456789abcdef");
    let u = uuid::Uuid::from_bytes(b);
    assert_eq!(format_uuid(&b, UuidFormat::Standard), u.to_string().to_uppercase());
    let s = generate_uuid(UuidFormat::Standard);
    let parsed = uuid::Uuid::parse_str(&s).unwrap();
    assert_eq!(parsed.get_version_num(), 4);
    let c = generate_uuid(UuidFormat::Compact);
    assert_eq!(c.len(), 32);
    assert!(c.chars().all(|ch| ch.is_ascii_hexdigit() && !ch.is_ascii_lowercase()));
    let l = generate_uuid(UuidFormat::Larian);
    assert_eq!(l.len(), 37);
    assert!(l.starts_with('h'));
    assert_eq!(l.matches('g').count(), 4);
    assert_ne!(generate_uuid(UuidFormat::Compact), generate_uuid(UuidFormat::Compact));
}

#[test]
fn handles() {
    assert_eq!(format_handle(0), "h0");
    assert_eq!(format_handle(u64::MAX), "h18446744073709551615");
    let h = generate_handle();
    assert!(h.parse::<u64>().is_ok());
}

#[test]
fn history_colour_loads_into_the_picker() {
    let mut t = ToolsState::new();
    t.color_a = 7;
    t.load_history_color("##FF8000");
    assert_eq!(t.color_hex, "FF8000");
    assert_eq!((t.color_r, t.color_g, t.color_b, t.color_a), (255, 128, 0, 7));
    assert_eq!(t.status_message, "Color loaded");
    t.load_history_color("#zz0000");
    assert_eq!(t.color_hex, "zz0000");
    assert_eq!((t.color_r, t.color_g, t.color_b), (128, 128, 128));
}

#[test]
fn picker_copies_and_samples() {
    let mut t = ToolsState::new();
    t.apply_sampled_color(10, 200, 255);
    assert_eq!(t.color_hex, "0AC8FF");
    assert_eq!(t.status_message, "Color sampled!");
    assert_eq!(t.copy_hex(), "#0AC8FF");
    assert_eq!(t.status_message, "Copied hex!");
    assert_eq!(t.copy_rgb(), "10, 200, 255");
    assert_eq!(t.status_message, "Copied RGB!");
    assert_eq!(rgb_triple(0, 0, 0), "0, 0, 0");
}

#[test]
fn copying_generated_identifiers() {
    let mut t = ToolsState::new();
    assert_eq!(t.copy_uuid(), None);
    assert_eq!(t.copy_handle(), None);
    assert_eq!(t.status_message, "");
    t.generated_uuid = "ABC".to_string();
    t.generated_handle = "123".to_string();
    assert_eq!(t.copy_uuid(), Some("ABC".to_string()));
    assert_eq!(t.status_message, "Copied!");
    t.status_message.clear();
    assert_eq!(t.copy_handle(), Some("h123".to_string()));
    assert_eq!(t.status_message, "Copied!");
}

#[test]
fn copied_version_parses_back() {
    let mut t = ToolsState::new();
    t.version_major = 511;
    t.version_minor = 255;
    t.version_patch = 65535;
    t.version_build = 0x7FFF_FFFF;
    let text = t.copy_int64();
    assert_eq!(text, u64::MAX.to_string());
    t.version_major = 0;
    t.version_minor = 0;
    t.version_patch = 0;
    t.version_build = 0;
    t.parse_version();
    assert_eq!((t.version_major, t.version_minor, t.version_patch, t.version_build), (511, 255, 65535, 0x7FFF_FFFF));
    t.version_major = 4;
    t.version_minor = 7;
    t.version_patch = 1;
    t.version_build = 3;
    t.copy_int64();
    t.parse_version();
    assert_eq!((t.version_major, t.version_minor, t.version_patch, t.version_build), (4, 7, 1, 3));
}

#[test]
fn standard_uuid_without_hyphens_is_compact() {
    let b: [u8; 16] = [0x12, 0x34, 0x56, 0x78, 0x9a, 0xbc, 0x4d, 0xef, 0x80, 0x01, 0x23, 0x45, 0x67, 0x89, 0xab, 0xcd];
    let standard = format_uuid(&b, UuidFormat::Standard);
    assert_eq!(standard, "12345678-9ABC-4DEF-8001-23456789ABCD");
    assert_eq!(standard.replace('-', ""), format_uuid(&b, UuidFormat::Compact));
}

#[test]
fn hex_colours_parse_in_any_case_and_with_hashes() {
    for (r, g, b) in [(0u8, 0u8, 0u8), (255, 128, 7), (0x1a, 0xbc, 0xef)] {
        assert_eq!(parse_hex_color(&format!("{:02X}{:02X}{:02X}", r, g, b)), Some((r, g, b)));
        assert_eq!(parse_hex_color(&format!("{:02x}{:02x}{:02x}", r, g, b)), Some((r, g, b)));
        assert_eq!(parse_hex_color(&format!("###{:02x}{:02x}{:02x}", r, g, b)), Some((r, g, b)));
    }
    assert_eq!(parse_hex_color("FFF"), None);
    assert_eq!(parse_hex_color("#FF00001"), None);
}
