//! Tools tab: colour picker conversions, colour history and the version
//! calculator for the 64-bit version numbers of mod metadata.
use vstd::prelude::*;
use crate::text::{
    byte_len, byte_len_of, byte_slice, boundary_index, chars_of, decimal, hex_digits_value, hex_field, hex_field_of,
    hex_lower, hex_upper, hex_value, lemma_decimal_parses_back, push_char, push_decimal, skip_leading, str_eq,
    trim_bounds, trim_start_char, trimmed, u64_from_decimal, u64_from_decimal_chars, u8_from_hex, utf8_width,
};

verus! {

// ---------------------------------------------------------------------------
// Colours
// ---------------------------------------------------------------------------

/// The colour a hex string such as "FF5500" or "#FF5500" denotes: after the
/// leading '#'s there must be exactly six bytes, read as three hexadecimal
/// byte fields.
pub open spec fn hex_color_value(hex: Seq<char>) -> Option<(u8, u8, u8)> {
    let t = trim_start_char(hex, '#');
    if byte_len(t) != 6 {
        None
    } else {
        match (hex_field(t, 0), hex_field(t, 1), hex_field(t, 2)) {
            (Some(r), Some(g), Some(b)) => Some((r as u8, g as u8, b as u8)),
            _ => None,
        }
    }
}

/// The fields that parsing reads before it gives up can be sliced out: the
/// red field, the green one if red parsed, the blue one if green parsed.
pub open spec fn hex_color_sliceable(hex: Seq<char>) -> bool {
    let t = trim_start_char(hex, '#');
    byte_len(t) == 6 ==> {
        &&& byte_slice(t, 0, 2) is Some
        &&& (hex_field(t, 0) is Some ==> byte_slice(t, 2, 4) is Some)
        &&& (hex_field(t, 0) is Some && hex_field(t, 1) is Some ==> byte_slice(t, 4, 6) is Some)
    }
}

/// Parses a hex colour ("FF5500" or "#FF5500") into its red, green and blue
/// bytes.
pub fn parse_hex_color(hex: &str) -> (c: Option<(u8, u8, u8)>)
    requires
        hex_color_sliceable(hex@),
    ensures
        c == hex_color_value(hex@),
{
    let v = chars_of(hex);
    let lo = skip_leading(&v, '#');
    if byte_len_of(&v, lo, v.len(), 6) != 6 {
        return None;
    }
    let r = match hex_field_of(&v, lo, v.len(), 0) {
        Some(x) => x,
        None => return None,
    };
    let g = match hex_field_of(&v, lo, v.len(), 1) {
        Some(x) => x,
        None => return None,
    };
    let b = match hex_field_of(&v, lo, v.len(), 2) {
        Some(x) => x,
        None => return None,
    };
    Some((r, g, b))
}

/// A byte as two upper-case hexadecimal digits (`{:02X}`).
pub open spec fn hex_byte_text(b: nat) -> Seq<char> {
    seq![hex_upper(b / 16), hex_upper(b % 16)]
}

/// The six-digit upper-case hex text of a colour (`{:02X}{:02X}{:02X}`).
pub open spec fn rgb_hex_text(r: u8, g: u8, b: u8) -> Seq<char> {
    hex_byte_text(r as nat) + hex_byte_text(g as nat) + hex_byte_text(b as nat)
}

fn hex_digit_upper(d: u8) -> (c: char)
    requires
        d < 16,
    ensures
        c == hex_upper(d as nat),
{
    if d < 10 {
        crate::text::digit_to_char(d as u64)
    } else if d == 10 { 'A' }
    else if d == 11 { 'B' }
    else if d == 12 { 'C' }
    else if d == 13 { 'D' }
    else if d == 14 { 'E' }
    else { 'F' }
}

fn push_hex_byte(out: &mut String, b: u8)
    ensures
        final(out)@ == old(out)@ + hex_byte_text(b as nat),
{
    push_char(out, hex_digit_upper(b / 16));
    push_char(out, hex_digit_upper(b % 16));
    assert(final(out)@ =~= old(out)@ + hex_byte_text(b as nat));
}

/// The hex text of a colour, as the picker shows it ("FF5500").
pub fn rgb_to_hex(r: u8, g: u8, b: u8) -> (s: String)
    ensures
        s@ == rgb_hex_text(r, g, b),
{
    let mut s = String::new();
    push_hex_byte(&mut s, r);
    push_hex_byte(&mut s, g);
    push_hex_byte(&mut s, b);
    assert(s@ =~= rgb_hex_text(r, g, b));
    s
}

proof fn lemma_boundary_ascii(t: Seq<char>, k: nat)
    requires
        k <= t.len(),
        forall|i: int| 0 <= i < t.len() ==> (#[trigger] t[i] as u32) < 0x80,
    ensures
        boundary_index(t, k) == Some(k),
    decreases k,
{
    if k > 0 {
        assert(utf8_width(t[0]) == 1);
        let u = t.drop_first();
        assert forall|i: int| 0 <= i < u.len() implies (#[trigger] u[i] as u32) < 0x80 by {
            assert(u[i] == t[i + 1]);
        }
        lemma_boundary_ascii(u, (k - 1) as nat);
    }
}

proof fn lemma_byte_len_ascii(t: Seq<char>)
    requires
        forall|i: int| 0 <= i < t.len() ==> (#[trigger] t[i] as u32) < 0x80,
    ensures
        byte_len(t) == t.len(),
    decreases t.len(),
{
    if t.len() > 0 {
        let u = t.drop_first();
        assert forall|i: int| 0 <= i < u.len() implies (#[trigger] u[i] as u32) < 0x80 by {
            assert(u[i] == t[i + 1]);
        }
        lemma_byte_len_ascii(u);
    }
}

/// The hex text the colour picker writes for a colour reads back as that
/// colour: parsing the output of `rgb_to_hex` gives the same three bytes.
pub proof fn lemma_rgb_hex_roundtrip(r: u8, g: u8, b: u8)
    ensures
        hex_color_value(rgb_hex_text(r, g, b)) == Some((r, g, b)),
        hex_color_sliceable(rgb_hex_text(r, g, b)),
{
    lemma_hex_color_roundtrip(r, g, b, true, 0, Seq::empty());
    assert(Seq::new(0, |i: int| '#') + rgb_hex_cased(r, g, b, true) =~= rgb_hex_text(r, g, b));
}

/// A hexadecimal digit of `d < 16`, upper-case or lower-case.
pub open spec fn hex_digit(d: nat, upper: bool) -> char {
    if upper { hex_upper(d) } else { hex_lower(d) }
}

/// The two hex digits of a byte in one case.
pub open spec fn hex_byte_cased(b: nat, upper: bool) -> Seq<char> {
    seq![hex_digit(b / 16, upper), hex_digit(b % 16, upper)]
}

/// The six hex digits of a colour in one case.
pub open spec fn rgb_hex_cased(r: u8, g: u8, b: u8, upper: bool) -> Seq<char> {
    hex_byte_cased(r as nat, upper) + hex_byte_cased(g as nat, upper) + hex_byte_cased(b as nat, upper)
}

proof fn lemma_hex_digit_value(d: nat, upper: bool)
    requires
        d < 16,
    ensures
        hex_value(hex_digit(d, upper)) == Some(d),
        hex_digit(d, upper) != '#',
        hex_digit(d, upper) != '+',
        hex_digit(d, upper) != '-',
        (hex_digit(d, upper) as u32) < 0x80,
{
}

proof fn lemma_hex_byte_cased_field(t: Seq<char>, k: nat, b: nat, upper: bool)
    requires
        b < 256,
        k < 3,
        t.len() == 6,
        forall|i: int| 0 <= i < 6 ==> (#[trigger] t[i] as u32) < 0x80,
        t.subrange(2 * k as int, 2 * k as int + 2) == hex_byte_cased(b, upper),
    ensures
        hex_field(t, k) == Some(b),
        byte_slice(t, 2 * k, 2 * k + 2) is Some,
{
    lemma_boundary_ascii(t, 2 * k);
    lemma_boundary_ascii(t, 2 * k + 2);
    let p = t.subrange(2 * k as int, 2 * k as int + 2);
    assert(byte_slice(t, 2 * k, 2 * k + 2) == Some(p));
    lemma_hex_digit_value(b / 16, upper);
    lemma_hex_digit_value(b % 16, upper);
    let q = p.drop_last();
    assert(q =~= seq![hex_digit(b / 16, upper)]);
    assert(q.drop_last() =~= Seq::<char>::empty());
    assert(hex_digits_value(q.drop_last()) == Some(0nat));
    assert(q.last() == hex_digit(b / 16, upper));
    assert(hex_digits_value(q) == Some(b / 16));
    assert(hex_digits_value(p) == Some(16 * (b / 16) + b % 16));
    assert(u8_from_hex(p) == Some(b));
}

/// Leading '#'s in front of a text that does not start with '#' are all
/// trimmed, and nothing more.
proof fn lemma_trim_hashes(n: nat, t: Seq<char>)
    requires
        t.len() > 0 ==> t[0] != '#',
    ensures
        trim_start_char(Seq::new(n, |i: int| '#') + t, '#') == t,
    decreases n,
{
    let s = Seq::new(n, |i: int| '#') + t;
    if n == 0 {
        assert(s =~= t);
        if t.len() > 0 {
            assert(s[0] != '#');
        }
    } else {
        assert(s[0] == '#');
        assert(s.drop_first() =~= Seq::new((n - 1) as nat, |i: int| '#') + t);
        lemma_trim_hashes((n - 1) as nat, t);
    }
}

/// Parsing gives back the colour whose six hex digits are written in
/// either case after any number of '#'s; and whatever does not leave
/// exactly six bytes once the leading '#'s are gone parses to nothing.
pub proof fn lemma_hex_color_roundtrip(r: u8, g: u8, b: u8, upper: bool, hashes: nat, other: Seq<char>)
    ensures
        ({
            let text = Seq::new(hashes, |i: int| '#') + rgb_hex_cased(r, g, b, upper);
            &&& hex_color_value(text) == Some((r, g, b))
            &&& hex_color_sliceable(text)
        }),
        byte_len(trim_start_char(other, '#')) != 6 ==> hex_color_value(other) is None,
{
    let t = rgb_hex_cased(r, g, b, upper);
    lemma_hex_digit_value(r as nat / 16, upper);
    lemma_hex_digit_value(r as nat % 16, upper);
    lemma_hex_digit_value(g as nat / 16, upper);
    lemma_hex_digit_value(g as nat % 16, upper);
    lemma_hex_digit_value(b as nat / 16, upper);
    lemma_hex_digit_value(b as nat % 16, upper);
    assert(t.len() == 6);
    assert forall|i: int| 0 <= i < 6 implies (#[trigger] t[i] as u32) < 0x80 by {}
    lemma_trim_hashes(hashes, t);
    lemma_byte_len_ascii(t);
    assert(t.subrange(0, 2) =~= hex_byte_cased(r as nat, upper));
    assert(t.subrange(2, 4) =~= hex_byte_cased(g as nat, upper));
    assert(t.subrange(4, 6) =~= hex_byte_cased(b as nat, upper));
    lemma_hex_byte_cased_field(t, 0, r as nat, upper);
    lemma_hex_byte_cased_field(t, 1, g as nat, upper);
    lemma_hex_byte_cased_field(t, 2, b as nat, upper);
}

/// The most colours the history keeps.
pub const COLOR_HISTORY_LIMIT: usize = 43;

/// Whether a list of strings holds one equal to `s`.
pub open spec fn holds_text(list: Seq<String>, s: Seq<char>) -> bool {
    exists|i: int| 0 <= i < list.len() && (#[trigger] list[i])@ == s
}

/// Saves a colour ("#FF5500") to the front of the history unless it is
/// already there, keeping at most 43 entries.
pub fn save_color_to_history(history: &mut Vec<String>, color: String)
    ensures
        holds_text(old(history)@, color@) ==> final(history)@ == old(history)@,
        !holds_text(old(history)@, color@) ==> final(history)@ == seq![color].add(old(history)@).take(
            if old(history)@.len() + 1 > 43 { 43int } else { old(history)@.len() + 1int },
        ),
{
    let mut i: usize = 0;
    while i < history.len()
        invariant
            i <= history.len(),
            history@ == old(history)@,
            forall|j: int| 0 <= j < i ==> (#[trigger] history@[j])@ != color@,
        decreases history.len() - i,
    {
        if str_eq(history[i].as_str(), color.as_str()) {
            return;
        }
        i += 1;
    }
    let ghost before = history@;
    history.insert(0, color);
    assert(history@ =~= seq![color].add(before));
    if history.len() > COLOR_HISTORY_LIMIT {
        history.truncate(COLOR_HISTORY_LIMIT);
    }
    assert(history@ =~= seq![color].add(before).take(
        if before.len() + 1 > 43 { 43int } else { before.len() + 1int },
    ));
}

// ---------------------------------------------------------------------------
// Version calculator
// ---------------------------------------------------------------------------

/// Packs major.minor.patch.build into a 64-bit version number: major in the
/// top 9 bits (from bit 55), minor from bit 47, patch from bit 31, build in
/// the low bits; fields are OR-ed together.
pub open spec fn packed_version(major: u32, minor: u32, patch: u32, build: u32) -> u64 {
    ((major as u64) << 55u64) | ((minor as u64) << 47u64) | ((patch as u64) << 31u64) | (build as u64)
}

/// Splits a 64-bit version number into major (9 bits), minor (8 bits),
/// patch (16 bits) and build (31 bits).
pub open spec fn unpacked_version(v: u64) -> (u32, u32, u32, u32) {
    (((v >> 55u64) & 0x1FF) as u32, ((v >> 47u64) & 0xFF) as u32, ((v >> 31u64) & 0xFFFF) as u32,
        (v & 0x7FFFFFFF) as u32)
}

/// Packs a version into its 64-bit form.
pub fn version_to_int(major: u32, minor: u32, patch: u32, build: u32) -> (v: u64)
    ensures
        v == packed_version(major, minor, patch, build),
{
    ((major as u64) << 55u64) | ((minor as u64) << 47u64) | ((patch as u64) << 31u64) | (build as u64)
}

/// Splits a 64-bit version number into its four fields.
pub fn int_to_version(v: u64) -> (r: (u32, u32, u32, u32))
    ensures
        r == unpacked_version(v),
{
    let major = ((v >> 55u64) & 0x1FF) as u32;
    let minor = ((v >> 47u64) & 0xFF) as u32;
    let patch = ((v >> 31u64) & 0xFFFF) as u32;
    let build = (v & 0x7FFFFFFF) as u32;
    (major, minor, patch, build)
}

/// Splitting a version number and packing its fields again gives the same
/// number: the four fields cover all 64 bits.
pub proof fn lemma_version_unpack_pack(v: u64)
    ensures
        ({
            let (a, b, c, d) = unpacked_version(v);
            packed_version(a, b, c, d) == v
        }),
{
    let a = ((v >> 55u64) & 0x1FF) as u32;
    let b = ((v >> 47u64) & 0xFF) as u32;
    let c = ((v >> 31u64) & 0xFFFF) as u32;
    let d = (v & 0x7FFFFFFF) as u32;
    assert(((a as u64) << 55u64) | ((b as u64) << 47u64) | ((c as u64) << 31u64) | (d as u64) == v)
        by (bit_vector)
        requires
            a == ((v >> 55u64) & 0x1FF) as u32,
            b == ((v >> 47u64) & 0xFF) as u32,
            c == ((v >> 31u64) & 0xFFFF) as u32,
            d == (v & 0x7FFFFFFF) as u32,
    ;
}

/// Packing fields that fit their widths (major < 512, minor < 256,
/// patch < 65536, build < 2^31) and splitting the result gives them back.
pub proof fn lemma_version_pack_unpack(major: u32, minor: u32, patch: u32, build: u32)
    requires
        major < 512,
        minor < 256,
        patch < 65536,
        build < 0x80000000,
    ensures
        unpacked_version(packed_version(major, minor, patch, build)) == (major, minor, patch, build),
{
    let v = packed_version(major, minor, patch, build);
    assert(((v >> 55u64) & 0x1FF) as u32 == major && ((v >> 47u64) & 0xFF) as u32 == minor
        && ((v >> 31u64) & 0xFFFF) as u32 == patch && (v & 0x7FFFFFFF) as u32 == build) by (bit_vector)
        requires
            major < 512,
            minor < 256,
            patch < 65536,
            build < 0x80000000,
            v == ((major as u64) << 55u64) | ((minor as u64) << 47u64) | ((patch as u64) << 31u64)
                | (build as u64),
    ;
}

/// The version calculator's "Copy Int64" then "Parse" gives back the four
/// fields, when each fits its width: the Int64 text is the packed number in
/// decimal, it parses back to that number, and unpacking it gives the
/// fields.
pub proof fn lemma_copied_version_parses_back(major: u32, minor: u32, patch: u32, build: u32)
    requires
        major < 512,
        minor < 256,
        patch < 65536,
        build < 0x80000000,
    ensures
        ({
            let v = packed_version(major, minor, patch, build);
            &&& u64_from_decimal(trimmed(decimal(v as nat))) == Some(v as nat)
            &&& unpacked_version(v) == (major, minor, patch, build)
        }),
{
    let v = packed_version(major, minor, patch, build);
    lemma_decimal_parses_back(v as nat);
    lemma_version_pack_unpack(major, minor, patch, build);
}

/// The readable form of a version: "major.minor.patch.build".
pub open spec fn version_text(major: u32, minor: u32, patch: u32, build: u32) -> Seq<char> {
    decimal(major as nat) + seq!['.'] + decimal(minor as nat) + seq!['.'] + decimal(patch as nat)
        + seq!['.'] + decimal(build as nat)
}

/// Writes a version as "major.minor.patch.build".
pub fn format_version(major: u32, minor: u32, patch: u32, build: u32) -> (s: String)
    ensures
        s@ == version_text(major, minor, patch, build),
{
    let mut s = String::new();
    push_decimal(&mut s, major as u128);
    push_char(&mut s, '.');
    push_decimal(&mut s, minor as u128);
    push_char(&mut s, '.');
    push_decimal(&mut s, patch as u128);
    push_char(&mut s, '.');
    push_decimal(&mut s, build as u128);
    assert(s@ =~= version_text(major, minor, patch, build));
    s
}

/// Reads the calculator's Int64 field: the trimmed text as an unsigned
/// decimal, split into its four fields; `None` for anything that is not a
/// 64-bit unsigned number.
pub fn parse_version_input(input: &str) -> (r: Option<(u32, u32, u32, u32)>)
    ensures
        match u64_from_decimal(trimmed(input@)) {
            Some(v) => r == Some(unpacked_version(v as u64)),
            None => r is None,
        },
{
    let v = chars_of(input);
    let (a, b) = trim_bounds(&v);
    match u64_from_decimal_chars(&v, a, b) {
        Some(n) => Some(int_to_version(n)),
        None => None,
    }
}

/// Steps a version field down by one, stopping at zero (the "-" button).
pub fn decrement_field(value: u32) -> (r: u32)
    ensures
        r == if value > 0 { value - 1 } else { 0 },
{
    if value > 0 { value - 1 } else { value }
}

} // verus!
