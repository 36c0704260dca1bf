use macpak::tabs::asset_browser::format_size;
use macpak::tabs::dyes::hex_to_fvec3;

/// The float computation the size display is meant to match.
fn float_size(bytes: u64) -> String {
    const UNITS: &[&str] = &["B", "KB", "MB", "GB", "TB"];
    let mut size = bytes as f64;
    for unit in UNITS {
        if size < 1024.0 {
            return format!("{:.1} {}", size, unit);
        }
        size /= 1024.0;
    }
    format!("{:.1} PB", size)
}

/// The fvec3 text as the documentation describes it: each channel's
/// single-precision value written with `{}` ("FF0000" gives "1 0 0").
fn float_fvec3(hex: &str) -> String {
    let hex = hex.trim_start_matches('#');
    if hex.len() != 6 {
        return "0.5 0.5 0.5".to_string();
    }
    let r = u8::from_str_radix(&hex[0..2], 16).unwrap_or(128) as f32 / 255.0;
    let g = u8::from_str_radix(&hex[2..4], 16).unwrap_or(128) as f32 / 255.0;
    let b = u8::from_str_radix(&hex[4..6], 16).unwrap_or(128) as f32 / 255.0;
    format!("{} {} {}", r, g, b)
}

#[test]
fn format_size_examples() {
    assert_eq!(format_size(0), "0.0 B");
    assert_eq!(format_size(1023), "1023.0 B");
    assert_eq!(format_size(1024), "1.0 KB");
    assert_eq!(format_size(1536), "1.5 KB");
    assert_eq!(format_size(1048576), "1.0 MB");
}

#[test]
fn format_size_matches_float_rounding() {
    let mut samples: Vec<u64> = Vec::new();
    for b in 0..5000u64 {
        samples.push(b);
    }
    for k in 0..64u32 {
        let p = 1u64 << k;
        samples.push(p);
        samples.push(p - 1);
        samples.push(p.wrapping_add(1));
        samples.push(p | (p >> 1));
    }
    samples.push(u64::MAX);
    samples.push(u64::MAX - 1);
    samples.push((1u64 << 53) + 1);
    samples.push((1u64 << 53) + 3);
    samples.push((1u64 << 60) + (1u64 << 7));
    let mut x: u64 = 0x9E37_79B9_7F4A_7C15;
    for _ in 0..20000 {
        x ^= x << 13;
        x ^= x >> 7;
        x ^= x << 17;
        samples.push(x >> (x % 64));
        samples.push(x);
    }
    for b in samples {
        assert_eq!(format_size(b), float_size(b), "bytes = {}", b);
    }
}

#[test]
fn hex_to_fvec3_examples() {
    assert_eq!(hex_to_fvec3("FF0000"), "1 0 0");
    assert_eq!(hex_to_fvec3("#808080"), "0.5019608 0.5019608 0.5019608");
    assert_eq!(hex_to_fvec3("010203"), "0.003921569 0.007843138 0.011764706");
    assert_eq!(hex_to_fvec3("abc"), "0.5 0.5 0.5");
}

#[test]
fn hex_to_fvec3_matches_float_rounding() {
    for v in 0..=255u32 {
        let hex = format!("{:02X}{:02x}{:02X}", v, 255 - v, (v * 7) % 256);
        assert_eq!(hex_to_fvec3(&hex), float_fvec3(&hex), "hex = {}", hex);
    }
    for s in ["+F+f+0", "##00ff7f", "zz00ff", "é1234", "-10000", "+-0000", "0000000"] {
        assert_eq!(hex_to_fvec3(s), float_fvec3(s), "hex = {}", s);
    }
}

#[test]
fn leading_characters_are_trimmed() {
    assert_eq!(macpak::text::trim_start_of("##abc#", '#'), "abc#");
    assert_eq!(macpak::text::trim_start_of("abc", '#'), "abc");
    assert_eq!(macpak::text::trim_start_of("###", '#'), "");
}

#[test]
fn larger_sizes_never_get_smaller_units() {
    let units = ["B", "KB", "MB", "GB", "TB", "PB"];
    let rank = |s: String| units.iter().position(|u| s.ends_with(&format!(" {}", u))).unwrap();
    let samples = [0u64, 1, 1023, 1024, 1048575, 1048576, 1 << 30, (1 << 40) - 1, 1 << 40, 1 << 50, u64::MAX];
    for w in samples.windows(2) {
        assert!(rank(format_size(w[0])) <= rank(format_size(w[1])));
    }
}
