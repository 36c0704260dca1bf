//! Dye mod export: the icon textures (uncompressed DDS), the colours they
//! show, and the checks and messages of an export.
use vstd::prelude::*;
use vstd::arithmetic::div_mod::lemma_fundamental_div_mod_converse;
use crate::state::dyes::last_value_for;
use crate::text::{
    byte_len, byte_len_of, byte_slice, chars_of, contains_seq, decimal, lemma_contains_between, lemma_contains_middle, hex_field, hex_field_of, join_texts, joined, push_decimal,
    push_str, skip_leading, str_eq, trim_start_char,
};

verus! {

/// The colour of a dye's icon from a hex text such as "FF8800" or
/// "#FF8800": when at least six bytes follow the leading '#'s, the three
/// channels (255, 0 and 255 stand in for a channel that is not hex);
/// magenta otherwise.
pub open spec fn icon_color_of(hex: Seq<char>) -> (u8, u8, u8) {
    let t = trim_start_char(hex, '#');
    if byte_len(t) >= 6 {
        (
            match hex_field(t, 0) { Some(x) => x as u8, None => 255u8 },
            match hex_field(t, 1) { Some(x) => x as u8, None => 0u8 },
            match hex_field(t, 2) { Some(x) => x as u8, None => 255u8 },
        )
    } else {
        (255u8, 0u8, 255u8)
    }
}

/// The three two-byte fields of a colour text can be sliced (the slicing
/// panics otherwise).
pub open spec fn color_fields_sliceable(hex: Seq<char>) -> bool {
    let t = trim_start_char(hex, '#');
    byte_len(t) >= 6 ==> {
        &&& byte_slice(t, 0, 2) is Some
        &&& byte_slice(t, 2, 4) is Some
        &&& byte_slice(t, 4, 6) is Some
    }
}

/// Parses the colour of a dye's icon (see `icon_color_of`).
pub fn parse_hex_color(hex: &str) -> (c: (u8, u8, u8))
    requires
        color_fields_sliceable(hex@),
    ensures
        c == icon_color_of(hex@),
{
    let v = chars_of(hex);
    let lo = skip_leading(&v, '#');
    let n = byte_len_of(&v, lo, v.len(), 6);
    if n < 6 {
        return (255, 0, 255);
    }
    let r = match hex_field_of(&v, lo, v.len(), 0) {
        Some(x) => x,
        None => 255,
    };
    let g = match hex_field_of(&v, lo, v.len(), 1) {
        Some(x) => x,
        None => 0,
    };
    let b = match hex_field_of(&v, lo, v.len(), 2) {
        Some(x) => x,
        None => 255,
    };
    (r, g, b)
}

/// The smallest `k` with `k * k >= n`: how many icons an atlas row holds.
pub open spec fn icons_per_row(n: nat) -> nat
    decreases n,
{
    ceil_sqrt_from(n, 0)
}

/// The smallest `k >= from` with `k * k >= n`.
pub open spec fn ceil_sqrt_from(n: nat, from: nat) -> nat
    decreases n - from,
{
    if from * from >= n || from >= n { from } else { ceil_sqrt_from(n, from + 1) }
}

proof fn lemma_ceil_sqrt_from(n: nat, from: nat)
    requires
        from * from < n ==> from <= n,
        forall|j: nat| j < from ==> #[trigger] (j * j) < n,
    ensures
        ceil_sqrt_from(n, from) * ceil_sqrt_from(n, from) >= n || ceil_sqrt_from(n, from) >= n,
        ceil_sqrt_from(n, from) >= from,
    decreases n - from,
{
    if !(from * from >= n || from >= n) {
        assert forall|j: nat| j < from + 1 implies #[trigger] (j * j) < n by {
            if j < from {
            } else {
                assert(j == from);
            }
        }
        lemma_ceil_sqrt_from(n, from + 1);
    }
}

/// Largest number of dyes whose atlas layout the export computes exactly
/// (beyond it, the single-precision square root it uses can round).
pub const MAX_ATLAS_DYES: u64 = 16777216;

/// The atlas of `n` dyes has a cell for every dye: at least one icon per
/// row, and rows times icons per row at least `n`.
pub proof fn lemma_atlas_holds_all(n: nat)
    requires
        n > 0,
    ensures
        icons_per_row(n) >= 1,
        icons_per_row(n) * ((n + icons_per_row(n) - 1) / (icons_per_row(n) as int)) >= n,
{
    lemma_ceil_sqrt_from(n, 0);
    let k = icons_per_row(n);
    assert(k >= 1) by {
        if k == 0 {
            assert(k * k == 0);
        }
    }
    let q = (n + k - 1) / (k as int);
    let r = (n + k - 1) % (k as int);
    vstd::arithmetic::div_mod::lemma_fundamental_div_mod((n + k - 1) as int, k as int);
    assert(0 <= r < k);
    assert(k * q == n + k - 1 - r);
    assert(k * q >= n) by (nonlinear_arith)
        requires
            k * q == n + k - 1 - r,
            r < k,
    ;
}

/// Executable `icons_per_row`.
pub fn icons_per_row_of(n: u64) -> (k: u64)
    requires
        n <= MAX_ATLAS_DYES,
    ensures
        k as nat == icons_per_row(n as nat),
        k <= 4096,
{
    let mut k: u64 = 0;
    while k < n && k * k < n
        invariant
            n <= MAX_ATLAS_DYES,
            k <= 4096,
            k * k <= 16777216,
            ceil_sqrt_from(n as nat, 0) == ceil_sqrt_from(n as nat, k as nat),
        decreases n - k,
    {
        assert(k < 4096) by (nonlinear_arith)
            requires
                k * k < n,
                n <= 16777216,
        ;
        assert((k + 1) * (k + 1) <= 16777216) by (nonlinear_arith)
            requires
                k < 4096,
        ;
        k += 1;
    }
    k
}

/// Width and height in pixels of the icon atlas of `n` dyes: 64-pixel
/// icons, `icons_per_row(n)` per row, as many rows as needed (none for no
/// dyes).
pub open spec fn atlas_size(n: nat) -> (nat, nat) {
    let k = icons_per_row(n);
    if n == 0 { (0, 0) } else { (k * 64, ((((n + k - 1) as nat) / k) * 64) as nat) }
}

/// The atlas size for `n` dyes.
pub fn atlas_dimensions(n: u64) -> (r: (u32, u32))
    requires
        n <= MAX_ATLAS_DYES,
    ensures
        r.0 as nat == atlas_size(n as nat).0,
        r.1 as nat == atlas_size(n as nat).1,
{
    if n == 0 {
        return (0, 0);
    }
    let k = icons_per_row_of(n);
    proof {
        lemma_ceil_sqrt_from(n as nat, 0);
    }
    assert(k >= 1);
    let rows = (n + k - 1) / k;
    assert(rows <= 16777216) by (nonlinear_arith)
        requires
            k >= 1,
            rows as int == (n + k - 1) as int / k as int,
            n <= 16777216,
    ;
    ((k * 64) as u32, (rows * 64) as u32)
}

/// The four little-endian bytes of a 32-bit word.
pub open spec fn u32_le(v: u32) -> Seq<u8> {
    seq![(v % 256) as u8, ((v / 256) % 256) as u8, ((v / 65536) % 256) as u8, (v / 16777216) as u8]
}

/// `n` zero words.
pub open spec fn zero_words(n: nat) -> Seq<u8> {
    Seq::new(n * 4, |i: int| 0u8)
}

/// The 128-byte header of an uncompressed 32-bit BGRA DDS texture of the
/// given size.
pub open spec fn dds_header(width: u32, height: u32) -> Seq<u8> {
    seq![68u8, 68u8, 83u8, 32u8] + u32_le(124) + u32_le(0x1007) + u32_le(height) + u32_le(width) + u32_le(
        (width * 4) as u32,
    ) + u32_le(0) + u32_le(1) + zero_words(11) + u32_le(32) + u32_le(0x41) + u32_le(0) + u32_le(32) + u32_le(
        0x00FF0000,
    ) + u32_le(0x0000FF00) + u32_le(0x000000FF) + u32_le(0xFF000000) + u32_le(0x1000) + zero_words(4)
}

/// Appends a word in little-endian order.
fn push_u32_le(out: &mut Vec<u8>, v: u32)
    ensures
        final(out)@ == old(out)@ + u32_le(v),
{
    out.push((v % 256) as u8);
    out.push(((v / 256) % 256) as u8);
    out.push(((v / 65536) % 256) as u8);
    out.push((v / 16777216) as u8);
    assert(final(out)@ =~= old(out)@ + u32_le(v));
}

/// Appends `n` zero words.
fn push_zero_words(out: &mut Vec<u8>, n: usize)
    requires
        n <= 16,
    ensures
        final(out)@ == old(out)@ + zero_words(n as nat),
{
    let mut k: usize = 0;
    while k < n
        invariant
            k <= n <= 16,
            out@ == old(out)@ + zero_words(k as nat),
        decreases n - k,
    {
        push_u32_le(out, 0);
        k += 1;
        assert(out@ =~= old(out)@ + zero_words(k as nat));
    }
}

/// Appends the DDS header.
fn push_dds_header(out: &mut Vec<u8>, width: u32, height: u32)
    requires
        width * 4 <= u32::MAX,
    ensures
        final(out)@ == old(out)@ + dds_header(width, height),
{
    out.push(68);
    out.push(68);
    out.push(83);
    out.push(32);
    push_u32_le(out, 124);
    push_u32_le(out, 0x1007);
    push_u32_le(out, height);
    push_u32_le(out, width);
    push_u32_le(out, width * 4);
    push_u32_le(out, 0);
    push_u32_le(out, 1);
    push_zero_words(out, 11);
    push_u32_le(out, 32);
    push_u32_le(out, 0x41);
    push_u32_le(out, 0);
    push_u32_le(out, 32);
    push_u32_le(out, 0x00FF0000);
    push_u32_le(out, 0x0000FF00);
    push_u32_le(out, 0x000000FF);
    push_u32_le(out, 0xFF000000);
    push_u32_le(out, 0x1000);
    push_zero_words(out, 4);
    assert(final(out)@ =~= old(out)@ + dds_header(width, height));
}

/// The colour of the atlas at pixel (x, y): that of the icon the pixel
/// falls in, grey past the last icon.
pub open spec fn atlas_color(colors: Seq<(u8, u8, u8)>, per_row: nat, x: int, y: int) -> (u8, u8, u8) {
    let idx = (y / 64) * per_row + x / 64;
    if idx < colors.len() { colors[idx] } else { (128u8, 128u8, 128u8) }
}

/// Byte `i` of the pixel data of an atlas `width` pixels wide: the pixel's
/// blue, green, red and an opaque alpha.
pub open spec fn atlas_byte(colors: Seq<(u8, u8, u8)>, per_row: nat, width: nat, i: int) -> u8 {
    let p = i / 4;
    let c = atlas_color(colors, per_row, p % (width as int), p / (width as int));
    let ch = i % 4;
    if ch == 0 { c.2 } else if ch == 1 { c.1 } else if ch == 2 { c.0 } else { 255u8 }
}

/// Extending a generated sequence by four elements.
proof fn lemma_seq_new_push4(f: spec_fn(int) -> u8, n: nat)
    ensures
        Seq::new(n + 4, f) == Seq::new(n, f) + seq![f(n as int), f(n as int + 1), f(n as int + 2), f(n as int + 3)],
{
    assert(Seq::new(n + 4, f) =~= Seq::new(n, f) + seq![f(n as int), f(n as int + 1), f(n as int + 2), f(n as int + 3)]);
}

/// The four bytes of pixel `p` = (x, y) of the atlas.
proof fn lemma_atlas_pixel(colors: Seq<(u8, u8, u8)>, per_row: nat, width: nat, x: int, y: int, p: int)
    requires
        0 <= x < width,
        0 <= y,
        p == y * width + x,
    ensures
        ({
            let c = atlas_color(colors, per_row, x, y);
            &&& atlas_byte(colors, per_row, width, p * 4) == c.2
            &&& atlas_byte(colors, per_row, width, p * 4 + 1) == c.1
            &&& atlas_byte(colors, per_row, width, p * 4 + 2) == c.0
            &&& atlas_byte(colors, per_row, width, p * 4 + 3) == 255u8
        }),
{
    lemma_fundamental_div_mod_converse(p, width as int, y, x);
    lemma_fundamental_div_mod_converse(p * 4, 4, p, 0);
    lemma_fundamental_div_mod_converse(p * 4 + 1, 4, p, 1);
    lemma_fundamental_div_mod_converse(p * 4 + 2, 4, p, 2);
    lemma_fundamental_div_mod_converse(p * 4 + 3, 4, p, 3);
}

/// An atlas texture: the header, then every pixel row by row.
pub open spec fn atlas_dds(width: u32, height: u32, colors: Seq<(u8, u8, u8)>) -> Seq<u8> {
    let k = icons_per_row(colors.len());
    dds_header(width, height) + Seq::new(
        (width * height * 4) as nat,
        |i: int| atlas_byte(colors, k, width as nat, i),
    )
}

/// The icon atlas texture of dyes with the given icon colours.
#[verifier::spinoff_prover]
#[verifier::rlimit(40)]
pub fn create_dds_data(width: u32, height: u32, colors: &Vec<(u8, u8, u8)>) -> (data: Vec<u8>)
    requires
        colors.len() <= MAX_ATLAS_DYES,
        width * height * 4 <= u32::MAX,
        width * 4 <= u32::MAX,
        (height / 64) * icons_per_row(colors.len() as nat) + width / 64 <= u32::MAX,
    ensures
        data@ == atlas_dds(width, height, colors@),
{
    let k = icons_per_row_of(colors.len() as u64);
    let ghost kk = k as nat;
    let mut data: Vec<u8> = Vec::new();
    push_dds_header(&mut data, width, height);
    let ghost head = data@;
    let ghost f = |i: int| atlas_byte(colors@, kk, width as nat, i);
    let mut y: u32 = 0;
    assert(Seq::new(0, f) =~= Seq::<u8>::empty());
    assert(data@ =~= head + Seq::new(0, f));
    while y < height
        invariant
            y <= height,
            kk == icons_per_row(colors.len() as nat),
            k as nat == kk,
            k <= 4096,
            width * height * 4 <= u32::MAX,
            (height / 64) * kk + width / 64 <= u32::MAX,
            f == (|i: int| atlas_byte(colors@, kk, width as nat, i)),
            data@ == head + Seq::new((y * width * 4) as nat, f),
        decreases height - y,
    {
        let mut x: u32 = 0;
        assert(y * width * 4 + 0 == (y * width + 0) * 4);
        while x < width
            invariant
                y < height,
                x <= width,
                kk == icons_per_row(colors.len() as nat),
                k as nat == kk,
                k <= 4096,
                width * height * 4 <= u32::MAX,
                (height / 64) * kk + width / 64 <= u32::MAX,
                f == (|i: int| atlas_byte(colors@, kk, width as nat, i)),
                data@ == head + Seq::new(((y * width + x) * 4) as nat, f),
            decreases width - x,
        {
            let icon_col = (x / 64) as u64;
            let icon_row = (y / 64) as u64;
            assert(icon_row * k <= (height / 64) * kk) by (nonlinear_arith)
                requires
                    icon_row == y / 64,
                    y < height,
                    k == kk,
                    k >= 0,
            ;
            let idx = icon_row * k + icon_col;
            let (r, g, b) = if idx < colors.len() as u64 {
                colors[idx as usize]
            } else {
                (128u8, 128u8, 128u8)
            };
            let ghost p: int = (y * width + x) as int;
            data.push(b);
            data.push(g);
            data.push(r);
            data.push(255);
            proof {
                assert(0 <= p);
                assert(y * width + x + 1 == p + 1);
                assert((p + 1) * 4 == p * 4 + 4);
                assert(((y * width + x) * 4) == p * 4);
                lemma_atlas_pixel(colors@, kk, width as nat, x as int, y as int, p);
                assert(atlas_color(colors@, kk, x as int, y as int) == (r, g, b));
                lemma_seq_new_push4(f, (p * 4) as nat);
                assert(data@ =~= head + Seq::new(((y * width + x + 1) * 4) as nat, f));
            }
            x += 1;
        }
        assert((y * width + width) * 4 == (y + 1) * width * 4) by (nonlinear_arith);
        y += 1;
    }
    data
}

/// A single 64 x 64 icon texture, all magenta.
pub open spec fn single_icon_dds() -> Seq<u8> {
    dds_header(64, 64) + Seq::new(64 * 64 * 4, |i: int| if i % 4 == 1 { 0u8 } else { 255u8 })
}

/// The texture written for each dye's own icon.
pub fn create_single_icon_dds() -> (data: Vec<u8>)
    ensures
        data@ == single_icon_dds(),
{
    let mut data: Vec<u8> = Vec::new();
    push_dds_header(&mut data, 64, 64);
    let ghost head = data@;
    let ghost f = |i: int| if i % 4 == 1 { 0u8 } else { 255u8 };
    let mut n: usize = 0;
    assert(data@ =~= head + Seq::new(0, f));
    while n < 64 * 64
        invariant
            n <= 64 * 64,
            f == (|i: int| if i % 4 == 1 { 0u8 } else { 255u8 }),
            data@ == head + Seq::new((n * 4) as nat, f),
        decreases 64 * 64 - n,
    {
        data.push(0xFF);
        data.push(0x00);
        data.push(0xFF);
        data.push(0xFF);
        proof {
            assert forall|c: int| 0 <= c < 4 implies (#[trigger] (n * 4 + c)) % 4 == c by {
                lemma_fundamental_div_mod_converse(n * 4 + c, 4, n as int, c);
            }
            assert(data@ =~= head + Seq::new(((n + 1) * 4) as nat, f)) by {
                assert forall|i: int| 0 <= i < (n + 1) * 4 implies #[trigger] Seq::new(((n + 1) * 4) as nat, f)[i]
                    == data@[head.len() + i] by {
                    if i >= n * 4 {
                        let c = i - n * 4;
                        assert(i == n * 4 + c);
                    }
                }
            }
        }
        n += 1;
    }
    data
}

/// Why an export cannot start: no mod name, or no dye generated yet.
pub open spec fn export_precheck_text(mod_name: Seq<char>, dye_count: nat) -> Option<Seq<char>> {
    if mod_name.len() == 0 {
        Some("Mod name is required"@)
    } else if dye_count == 0 {
        Some("No dyes generated. Use 'Generate Dye' first."@)
    } else {
        None
    }
}

/// The message that stops an export before it starts, if any.
pub fn export_precheck(mod_name: &str, dye_count: usize) -> (m: Option<String>)
    ensures
        match export_precheck_text(mod_name@, dye_count as nat) {
            Some(t) => m matches Some(s) && s@ == t,
            None => m is None,
        },
{
    if mod_name.is_empty() {
        Some(String::from_str("Mod name is required"))
    } else if dye_count == 0 {
        Some(String::from_str("No dyes generated. Use 'Generate Dye' first."))
    } else {
        None
    }
}

/// The message of a completed export: "Exported 1 dye to <dir>" or
/// "Exported N dyes to <dir>".
pub open spec fn export_done_text(count: nat, dir: Seq<char>) -> Seq<char> {
    "Exported "@ + decimal(count) + " dye"@ + (if count == 1 { Seq::<char>::empty() } else { "s"@ }) + " to "@ + dir
}

/// Executable `export_done_text`.
pub fn export_done_message(count: usize, dir: &str) -> (s: String)
    ensures
        s@ == export_done_text(count as nat, dir@),
{
    let mut s = String::from_str("Exported ");
    push_decimal(&mut s, count as u128);
    push_str(&mut s, " dye");
    if count != 1 {
        push_str(&mut s, "s");
    }
    push_str(&mut s, " to ");
    push_str(&mut s, dir);
    proof {
        reveal_strlit("Exported ");
        reveal_strlit(" dye");
        reveal_strlit("s");
        reveal_strlit(" to ");
    }
    s
}

/// A dye made in the lab, as the export writes it.
pub struct GeneratedDyeEntry {
    pub name: String,
    pub name_handle: String,
    pub desc_handle: String,
    pub template_uuid: String,
    pub preset_uuid: String,
    /// The dye's colours as (parameter, hex) pairs, one per parameter.
    pub colors: Vec<(String, String)>,
}

/// No name occurs twice among the pairs: they stand for a map from name to
/// value.
pub open spec fn names_distinct(pairs: Seq<(String, String)>) -> bool {
    forall|a: int, b: int| 0 <= a < b < pairs.len() ==> (#[trigger] pairs[a]).0@ != (#[trigger] pairs[b]).0@
}

impl GeneratedDyeEntry {
    /// A dye gives each parameter at most one colour.
    pub open spec fn wf(&self) -> bool {
        names_distinct(self.colors@)
    }
}

/// The icon colour of a dye: its Cloth_Primary colour, magenta when it has
/// none.
pub open spec fn dye_icon_color(d: GeneratedDyeEntry) -> (u8, u8, u8) {
    match last_value_for(d.colors@, "Cloth_Primary"@) {
        Some(h) => icon_color_of(h),
        None => (255u8, 0u8, 255u8),
    }
}

/// The Cloth_Primary colour of every dye can be parsed without panicking.
pub open spec fn icon_colors_parsable(dyes: Seq<GeneratedDyeEntry>) -> bool {
    forall|k: int| 0 <= k < dyes.len() ==> match last_value_for((#[trigger] dyes[k]).colors@, "Cloth_Primary"@) {
        Some(h) => color_fields_sliceable(h),
        None => true,
    }
}

/// The last value listed for `name` among the pairs.
fn last_value_of(pairs: &Vec<(String, String)>, name: &str) -> (r: Option<String>)
    ensures
        match last_value_for(pairs@, name@) {
            Some(v) => r matches Some(s) && s@ == v,
            None => r is None,
        },
{
    let mut r: Option<String> = None;
    let mut i: usize = 0;
    while i < pairs.len()
        invariant
            i <= pairs.len(),
            match last_value_for(pairs@.take(i as int), name@) {
                Some(v) => r matches Some(s) && s@ == v,
                None => r is None,
            },
        decreases pairs.len() - i,
    {
        if str_eq(pairs[i].0.as_str(), name) {
            r = Some(pairs[i].1.clone());
        }
        proof {
            assert(pairs@.take(i + 1).drop_last() =~= pairs@.take(i as int));
            assert(pairs@.take(i + 1).last() == pairs@[i as int]);
        }
        i += 1;
    }
    assert(pairs@.take(pairs.len() as int) =~= pairs@);
    r
}

/// The icon colours of the dyes, in order.
pub fn icon_colors(dyes: &Vec<GeneratedDyeEntry>) -> (colors: Vec<(u8, u8, u8)>)
    requires
        icon_colors_parsable(dyes@),
    ensures
        colors@ == dyes@.map_values(|d: GeneratedDyeEntry| dye_icon_color(d)),
{
    let mut colors: Vec<(u8, u8, u8)> = Vec::new();
    let mut i: usize = 0;
    proof {
        reveal_strlit("Cloth_Primary");
    }
    while i < dyes.len()
        invariant
            i <= dyes.len(),
            icon_colors_parsable(dyes@),
            colors@ == dyes@.take(i as int).map_values(|d: GeneratedDyeEntry| dye_icon_color(d)),
        decreases dyes.len() - i,
    {
        let c = match last_value_of(&dyes[i].colors, "Cloth_Primary") {
            Some(h) => parse_hex_color(h.as_str()),
            None => (255u8, 0u8, 255u8),
        };
        colors.push(c);
        i += 1;
        assert(colors@ =~= dyes@.take(i as int).map_values(|d: GeneratedDyeEntry| dye_icon_color(d)));
    }
    assert(dyes@.take(dyes.len() as int) =~= dyes@);
    colors
}

/// The Object.txt stats entry of a dye.
pub open spec fn object_entry(d: GeneratedDyeEntry) -> Seq<char> {
    "new entry \""@ + d.name@ + "\"\nusing \"_Dyes\"\ndata \"RootTemplate\" \""@ + d.template_uuid@ + "\""@
}

/// The ItemCombos.txt entry of a dye: the combination with dyable armour and
/// its result.
pub open spec fn item_combo_entry(d: GeneratedDyeEntry) -> Seq<char> {
    "new ItemCombination \""@ + d.name@ + "\"\ndata \"Type 1\" \"Object\"\ndata \"Object 1\" \""@ + d.name@
        + "\"\ndata \"Transform 1\" \"None\"\ndata \"Type 2\" \"Category\"\ndata \"Object 2\" \"DyableArmor\"\ndata \"Transform 2\" \"Dye\"\ndata \"DyeColorPresetResource\" \""@
        + d.preset_uuid@ + "\"\n\nnew ItemCombinationResult \""@ + d.name@ + "_1\"\ndata \"ResultAmount 1\" \"1\""@
}

/// The TreasureTable.txt entry of a dye.
pub open spec fn treasure_entry(d: GeneratedDyeEntry) -> Seq<char> {
    "new treasuretable \""@ + d.name@ + "_TT\"\nCanMerge 1\nnew subtable \"1,1\"\nobject category \"I_"@ + d.name@
        + "\",1,0,0,0,0,0,0,0"@
}

/// Combining a dye with dyable armour dyes the armour with the dye's colour
/// preset: the ItemCombos entry transforms the second object (the armour)
/// with "Dye" and names the dye's preset UUID as the colour preset.
pub proof fn lemma_item_combo_dyes_armour(d: GeneratedDyeEntry)
    ensures
        contains_seq(
            stats_entry(StatsFile::ItemCombos, d),
            "data \"Object 2\" \"DyableArmor\"\ndata \"Transform 2\" \"Dye\"\n"@,
        ),
        contains_seq(
            stats_entry(StatsFile::ItemCombos, d),
            "data \"DyeColorPresetResource\" \""@ + d.preset_uuid@ + "\""@,
        ),
{
    let l0 = "new ItemCombination \""@;
    let l1 = "\"\ndata \"Type 1\" \"Object\"\ndata \"Object 1\" \""@;
    let l2 = "\"\ndata \"Transform 1\" \"None\"\ndata \"Type 2\" \"Category\"\ndata \"Object 2\" \"DyableArmor\"\ndata \"Transform 2\" \"Dye\"\ndata \"DyeColorPresetResource\" \"".view();
    let l3 = "\"\n\nnew ItemCombinationResult \""@;
    let l4 = "_1\"\ndata \"ResultAmount 1\" \"1\""@;
    let a = "\"\ndata \"Transform 1\" \"None\"\ndata \"Type 2\" \"Category\"\n"@;
    let x = "data \"Object 2\" \"DyableArmor\"\ndata \"Transform 2\" \"Dye\"\n"@;
    let p = "data \"DyeColorPresetResource\" \""@;
    let q = "\""@;
    let r = "\n\nnew ItemCombinationResult \""@;
    reveal_strlit("\"\ndata \"Transform 1\" \"None\"\ndata \"Type 2\" \"Category\"\ndata \"Object 2\" \"DyableArmor\"\ndata \"Transform 2\" \"Dye\"\ndata \"DyeColorPresetResource\" \"");
    reveal_strlit("\"\ndata \"Transform 1\" \"None\"\ndata \"Type 2\" \"Category\"\n");
    reveal_strlit("data \"Object 2\" \"DyableArmor\"\ndata \"Transform 2\" \"Dye\"\n");
    reveal_strlit("data \"DyeColorPresetResource\" \"");
    reveal_strlit("\"\n\nnew ItemCombinationResult \"");
    reveal_strlit("\"");
    reveal_strlit("\n\nnew ItemCombinationResult \"");
    assert(l2 =~= a + x + p);
    assert(l3 =~= q + r);
    let s = item_combo_entry(d);
    let before = l0 + d.name@ + l1 + d.name@;
    let tail = d.preset_uuid@ + l3 + d.name@ + l4;
    assert(s =~= (before + a) + x + (p + tail));
    lemma_contains_middle(before + a, x, p + tail);
    let y = p + d.preset_uuid@ + q;
    assert(s =~= (before + a + x) + y + (r + d.name@ + l4));
    lemma_contains_middle(before + a + x, y, r + d.name@ + l4);
}

/// The stats entries are about the dye they are written for: the Object
/// entry is named after the dye and uses its root template; the
/// ItemCombination takes the dye itself as its first object and yields
/// "<name>_1"; the treasure table hands out the dye's item category.
pub proof fn lemma_stats_entries_name_the_dye(d: GeneratedDyeEntry)
    ensures
        contains_seq(stats_entry(StatsFile::Object, d), "new entry \""@ + d.name@ + "\""@),
        contains_seq(stats_entry(StatsFile::Object, d), "data \"RootTemplate\" \""@ + d.template_uuid@ + "\""@),
        contains_seq(stats_entry(StatsFile::ItemCombos, d), "data \"Object 1\" \""@ + d.name@ + "\""@),
        contains_seq(stats_entry(StatsFile::ItemCombos, d), "new ItemCombinationResult \""@ + d.name@ + "_1\""@),
        contains_seq(stats_entry(StatsFile::TreasureTable, d), "object category \"I_"@ + d.name@ + "\""@),
{
    let e = Seq::<char>::empty();
    let q = "\""@;
    reveal_strlit("\"");
    let o0 = "new entry \""@;
    let o1 = "\"\nusing \"_Dyes\"\ndata \"RootTemplate\" \""@;
    reveal_strlit("new entry \"");
    reveal_strlit("\"\nusing \"_Dyes\"\ndata \"RootTemplate\" \"");
    assert(o0.subrange(0, o0.len() as int) =~= o0);
    assert(o1.subrange(0, 1) =~= q);
    assert(object_entry(d) =~= e + o0 + d.name@ + o1 + (d.template_uuid@ + q));
    lemma_contains_between(e, o0, d.name@, o1, d.template_uuid@ + q, o0, q);
    let rt = "data \"RootTemplate\" \""@;
    reveal_strlit("data \"RootTemplate\" \"");
    assert(o1.subrange(o1.len() - rt.len(), o1.len() as int) =~= rt);
    assert(q.subrange(0, 1) =~= q);
    assert(object_entry(d) =~= (o0 + d.name@) + o1 + d.template_uuid@ + q + e);
    lemma_contains_between(o0 + d.name@, o1, d.template_uuid@, q, e, rt, q);

    let l0 = "new ItemCombination \""@;
    let l1 = "\"\ndata \"Type 1\" \"Object\"\ndata \"Object 1\" \""@;
    let l2 = "\"\ndata \"Transform 1\" \"None\"\ndata \"Type 2\" \"Category\"\ndata \"Object 2\" \"DyableArmor\"\ndata \"Transform 2\" \"Dye\"\ndata \"DyeColorPresetResource\" \"".view();
    let l3 = "\"\n\nnew ItemCombinationResult \""@;
    let l4 = "_1\"\ndata \"ResultAmount 1\" \"1\""@;
    reveal_strlit("\"\ndata \"Type 1\" \"Object\"\ndata \"Object 1\" \"");
    reveal_strlit("\"\ndata \"Transform 1\" \"None\"\ndata \"Type 2\" \"Category\"\ndata \"Object 2\" \"DyableArmor\"\ndata \"Transform 2\" \"Dye\"\ndata \"DyeColorPresetResource\" \"");
    reveal_strlit("\"\n\nnew ItemCombinationResult \"");
    reveal_strlit("_1\"\ndata \"ResultAmount 1\" \"1\"");
    let ob = "data \"Object 1\" \""@;
    reveal_strlit("data \"Object 1\" \"");
    assert(l1.subrange(l1.len() - ob.len(), l1.len() as int) =~= ob);
    assert(l2.subrange(0, 1) =~= q);
    assert(item_combo_entry(d) =~= (l0 + d.name@) + l1 + d.name@ + l2 + (d.preset_uuid@ + l3 + d.name@ + l4));
    lemma_contains_between(l0 + d.name@, l1, d.name@, l2, d.preset_uuid@ + l3 + d.name@ + l4, ob, q);
    let rs = "new ItemCombinationResult \""@;
    let one = "_1\""@;
    reveal_strlit("new ItemCombinationResult \"");
    reveal_strlit("_1\"");
    assert(l3.subrange(l3.len() - rs.len(), l3.len() as int) =~= rs);
    assert(l4.subrange(0, one.len() as int) =~= one);
    assert(item_combo_entry(d) =~= (l0 + d.name@ + l1 + d.name@ + l2 + d.preset_uuid@) + l3 + d.name@ + l4 + e);
    lemma_contains_between(l0 + d.name@ + l1 + d.name@ + l2 + d.preset_uuid@, l3, d.name@, l4, e, rs, one);

    let t0 = "new treasuretable \""@;
    let t1 = "_TT\"\nCanMerge 1\nnew subtable \"1,1\"\nobject category \"I_"@;
    let t2 = "\",1,0,0,0,0,0,0,0"@;
    reveal_strlit("new treasuretable \"");
    reveal_strlit("_TT\"\nCanMerge 1\nnew subtable \"1,1\"\nobject category \"I_");
    reveal_strlit("\",1,0,0,0,0,0,0,0");
    let oc = "object category \"I_"@;
    reveal_strlit("object category \"I_");
    assert(t1.subrange(t1.len() - oc.len(), t1.len() as int) =~= oc);
    assert(t2.subrange(0, 1) =~= q);
    assert(treasure_entry(d) =~= (t0 + d.name@) + t1 + d.name@ + t2 + e);
    lemma_contains_between(t0 + d.name@, t1, d.name@, t2, e, oc, q);
}

/// Which stats file an entry is for.
#[derive(Clone, Copy, Debug, PartialEq, Eq, Structural)]
pub enum StatsFile {
    Object,
    ItemCombos,
    TreasureTable,
}

/// The entry of a dye in a stats file.
pub open spec fn stats_entry(file: StatsFile, d: GeneratedDyeEntry) -> Seq<char> {
    match file {
        StatsFile::Object => object_entry(d),
        StatsFile::ItemCombos => item_combo_entry(d),
        StatsFile::TreasureTable => treasure_entry(d),
    }
}

/// The entry of one dye in a stats file.
fn stats_entry_text(file: StatsFile, d: &GeneratedDyeEntry) -> (s: String)
    ensures
        s@ == stats_entry(file, *d),
{
    let mut s = String::new();
    match file {
        StatsFile::Object => {
            push_str(&mut s, "new entry \"");
            push_str(&mut s, d.name.as_str());
            push_str(&mut s, "\"\nusing \"_Dyes\"\ndata \"RootTemplate\" \"");
            push_str(&mut s, d.template_uuid.as_str());
            push_str(&mut s, "\"");
        },
        StatsFile::ItemCombos => {
            push_str(&mut s, "new ItemCombination \"");
            push_str(&mut s, d.name.as_str());
            push_str(&mut s, "\"\ndata \"Type 1\" \"Object\"\ndata \"Object 1\" \"");
            push_str(&mut s, d.name.as_str());
            push_str(
                &mut s,
                "\"\ndata \"Transform 1\" \"None\"\ndata \"Type 2\" \"Category\"\ndata \"Object 2\" \"DyableArmor\"\ndata \"Transform 2\" \"Dye\"\ndata \"DyeColorPresetResource\" \"",
            );
            push_str(&mut s, d.preset_uuid.as_str());
            push_str(&mut s, "\"\n\nnew ItemCombinationResult \"");
            push_str(&mut s, d.name.as_str());
            push_str(&mut s, "_1\"\ndata \"ResultAmount 1\" \"1\"");
        },
        StatsFile::TreasureTable => {
            push_str(&mut s, "new treasuretable \"");
            push_str(&mut s, d.name.as_str());
            push_str(&mut s, "_TT\"\nCanMerge 1\nnew subtable \"1,1\"\nobject category \"I_");
            push_str(&mut s, d.name.as_str());
            push_str(&mut s, "\",1,0,0,0,0,0,0,0");
        },
    }
    s
}

/// A stats file of the mod: the entries of all dyes, separated by a blank
/// line.
pub fn stats_file_content(file: StatsFile, dyes: &Vec<GeneratedDyeEntry>) -> (s: String)
    ensures
        s@ == joined(dyes@.map_values(|d: GeneratedDyeEntry| stats_entry(file, d)), "\n\n"@),
{
    let mut parts: Vec<String> = Vec::new();
    let mut i: usize = 0;
    while i < dyes.len()
        invariant
            i <= dyes.len(),
            parts@.map_values(|p: String| p@) == dyes@.take(i as int).map_values(
                |d: GeneratedDyeEntry| stats_entry(file, d),
            ),
        decreases dyes.len() - i,
    {
        let ghost before = parts@;
        parts.push(stats_entry_text(file, &dyes[i]));
        proof {
            assert(parts@.map_values(|p: String| p@) =~= before.map_values(|p: String| p@).push(
                stats_entry(file, dyes@[i as int]),
            ));
            assert(dyes@.take(i + 1).map_values(|d: GeneratedDyeEntry| stats_entry(file, d)) =~= dyes@.take(
                i as int,
            ).map_values(|d: GeneratedDyeEntry| stats_entry(file, d)).push(stats_entry(file, dyes@[i as int])));
        }
        i += 1;
    }
    assert(dyes@.take(dyes.len() as int) =~= dyes@);
    let s = join_texts(&parts, "\n\n");
    proof {
        reveal_strlit("\n\n");
    }
    s
}

/// The meta.lsx of an exported dye mod, naming the mod (as folder and
/// name) and carrying its UUID.
pub open spec fn meta_lsx_text(mod_name: Seq<char>, mod_uuid: Seq<char>) -> Seq<char> {
    "<?xml version=\"1.0\" encoding=\"UTF-8\"?>\n<save>\n\t<version major=\"4\" minor=\"7\" revision=\"1\" build=\"3\" lslib_meta=\"v1,bswap_guids\" />\n\t<region id=\"Config\">\n\t\t<node id=\"root\">\n\t\t\t<children>\n\t\t\t\t<node id=\"Dependencies\" />\n\t\t\t\t<node id=\"ModuleInfo\">\n\t\t\t\t\t<attribute id=\"Author\" type=\"LSString\" value=\"MacPak\" />\n\t\t\t\t\t<attribute id=\"CharacterCreationLevelName\" type=\"FixedString\" value=\"\" />\n\t\t\t\t\t<attribute id=\"Description\" type=\"LSString\" value=\"Custom dye mod created with MacPak\" />\n\t\t\t\t\t<attribute id=\"Folder\" type=\"LSString\" value=\""@ + mod_name + "\" />\n\t\t\t\t\t<attribute id=\"LobbyLevelName\" type=\"FixedString\" value=\"\" />\n\t\t\t\t\t<attribute id=\"MD5\" type=\"LSString\" value=\"\" />\n\t\t\t\t\t<attribute id=\"MainMenuBackgroundVideo\" type=\"FixedString\" value=\"\" />\n\t\t\t\t\t<attribute id=\"MenuLevelName\" type=\"FixedString\" value=\"\" />\n\t\t\t\t\t<attribute id=\"Name\" type=\"LSString\" value=\""@ + mod_name + "\" />\n\t\t\t\t\t<attribute id=\"NumPlayers\" type=\"uint8\" value=\"4\" />\n\t\t\t\t\t<attribute id=\"PhotoBooth\" type=\"FixedString\" value=\"\" />\n\t\t\t\t\t<attribute id=\"StartupLevelName\" type=\"FixedString\" value=\"\" />\n\t\t\t\t\t<attribute id=\"Tags\" type=\"LSString\" value=\"\" />\n\t\t\t\t\t<attribute id=\"Type\" type=\"FixedString\" value=\"Add-on\" />\n\t\t\t\t\t<attribute id=\"UUID\" type=\"FixedString\" value=\""@ + mod_uuid + "\" />\n\t\t\t\t\t<attribute id=\"Version64\" type=\"int64\" value=\"36028797018963968\" />\n\t\t\t\t\t<children>\n\t\t\t\t\t\t<node id=\"PublishVersion\">\n\t\t\t\t\t\t\t<attribute id=\"Version64\" type=\"int64\" value=\"36028797018963968\" />\n\t\t\t\t\t\t</node>\n\t\t\t\t\t\t<node id=\"TargetModes\">\n\t\t\t\t\t\t\t<children>\n\t\t\t\t\t\t\t\t<node id=\"Target\">\n\t\t\t\t\t\t\t\t\t<attribute id=\"Object\" type=\"FixedString\" value=\"Story\" />\n\t\t\t\t\t\t\t\t</node>\n\t\t\t\t\t\t\t</children>\n\t\t\t\t\t\t</node>\n\t\t\t\t\t</children>\n\t\t\t\t</node>\n\t\t\t</children>\n\t\t</node>\n\t</region>\n</save>\n"@
}

/// An attribute with a plain value: `<attribute id="id" type="ty" value="value" />`.
pub open spec fn value_attribute(id: Seq<char>, ty: Seq<char>, value: Seq<char>) -> Seq<char> {
    "<attribute id=\""@ + id + "\" type=\""@ + ty + "\" value=\""@ + value + "\" />"@
}

/// The meta.lsx of an exported mod names the mod: its folder and its name
/// are the mod name and its UUID is the mod UUID.
pub proof fn lemma_meta_lsx_names_mod(mod_name: Seq<char>, mod_uuid: Seq<char>)
    ensures
        contains_seq(meta_lsx_text(mod_name, mod_uuid), value_attribute("Folder"@, "LSString"@, mod_name)),
        contains_seq(meta_lsx_text(mod_name, mod_uuid), value_attribute("Name"@, "LSString"@, mod_name)),
        contains_seq(meta_lsx_text(mod_name, mod_uuid), value_attribute("UUID"@, "FixedString"@, mod_uuid)),
{
    let m0 = "<?xml version=\"1.0\" encoding=\"UTF-8\"?>\n<save>\n\t<version major=\"4\" minor=\"7\" revision=\"1\" build=\"3\" lslib_meta=\"v1,bswap_guids\" />\n\t<region id=\"Config\">\n\t\t<node id=\"root\">\n\t\t\t<children>\n\t\t\t\t<node id=\"Dependencies\" />\n\t\t\t\t<node id=\"ModuleInfo\">\n\t\t\t\t\t<attribute id=\"Author\" type=\"LSString\" value=\"MacPak\" />\n\t\t\t\t\t<attribute id=\"CharacterCreationLevelName\" type=\"FixedString\" value=\"\" />\n\t\t\t\t\t<attribute id=\"Description\" type=\"LSString\" value=\"Custom dye mod created with MacPak\" />\n\t\t\t\t\t<attribute id=\"Folder\" type=\"LSString\" value=\""@;
    reveal_strlit("<?xml version=\"1.0\" encoding=\"UTF-8\"?>\n<save>\n\t<version major=\"4\" minor=\"7\" revision=\"1\" build=\"3\" lslib_meta=\"v1,bswap_guids\" />\n\t<region id=\"Config\">\n\t\t<node id=\"root\">\n\t\t\t<children>\n\t\t\t\t<node id=\"Dependencies\" />\n\t\t\t\t<node id=\"ModuleInfo\">\n\t\t\t\t\t<attribute id=\"Author\" type=\"LSString\" value=\"MacPak\" />\n\t\t\t\t\t<attribute id=\"CharacterCreationLevelName\" type=\"FixedString\" value=\"\" />\n\t\t\t\t\t<attribute id=\"Description\" type=\"LSString\" value=\"Custom dye mod created with MacPak\" />\n\t\t\t\t\t<attribute id=\"Folder\" type=\"LSString\" value=\"");
    let m1 = "\" />\n\t\t\t\t\t<attribute id=\"LobbyLevelName\" type=\"FixedString\" value=\"\" />\n\t\t\t\t\t<attribute id=\"MD5\" type=\"LSString\" value=\"\" />\n\t\t\t\t\t<attribute id=\"MainMenuBackgroundVideo\" type=\"FixedString\" value=\"\" />\n\t\t\t\t\t<attribute id=\"MenuLevelName\" type=\"FixedString\" value=\"\" />\n\t\t\t\t\t<attribute id=\"Name\" type=\"LSString\" value=\""@;
    reveal_strlit("\" />\n\t\t\t\t\t<attribute id=\"LobbyLevelName\" type=\"FixedString\" value=\"\" />\n\t\t\t\t\t<attribute id=\"MD5\" type=\"LSString\" value=\"\" />\n\t\t\t\t\t<attribute id=\"MainMenuBackgroundVideo\" type=\"FixedString\" value=\"\" />\n\t\t\t\t\t<attribute id=\"MenuLevelName\" type=\"FixedString\" value=\"\" />\n\t\t\t\t\t<attribute id=\"Name\" type=\"LSString\" value=\"");
    let m2 = "\" />\n\t\t\t\t\t<attribute id=\"NumPlayers\" type=\"uint8\" value=\"4\" />\n\t\t\t\t\t<attribute id=\"PhotoBooth\" type=\"FixedString\" value=\"\" />\n\t\t\t\t\t<attribute id=\"StartupLevelName\" type=\"FixedString\" value=\"\" />\n\t\t\t\t\t<attribute id=\"Tags\" type=\"LSString\" value=\"\" />\n\t\t\t\t\t<attribute id=\"Type\" type=\"FixedString\" value=\"Add-on\" />\n\t\t\t\t\t<attribute id=\"UUID\" type=\"FixedString\" value=\""@;
    reveal_strlit("\" />\n\t\t\t\t\t<attribute id=\"NumPlayers\" type=\"uint8\" value=\"4\" />\n\t\t\t\t\t<attribute id=\"PhotoBooth\" type=\"FixedString\" value=\"\" />\n\t\t\t\t\t<attribute id=\"StartupLevelName\" type=\"FixedString\" value=\"\" />\n\t\t\t\t\t<attribute id=\"Tags\" type=\"LSString\" value=\"\" />\n\t\t\t\t\t<attribute id=\"Type\" type=\"FixedString\" value=\"Add-on\" />\n\t\t\t\t\t<attribute id=\"UUID\" type=\"FixedString\" value=\"");
    let m3 = "\" />\n\t\t\t\t\t<attribute id=\"Version64\" type=\"int64\" value=\"36028797018963968\" />\n\t\t\t\t\t<children>\n\t\t\t\t\t\t<node id=\"PublishVersion\">\n\t\t\t\t\t\t\t<attribute id=\"Version64\" type=\"int64\" value=\"36028797018963968\" />\n\t\t\t\t\t\t</node>\n\t\t\t\t\t\t<node id=\"TargetModes\">\n\t\t\t\t\t\t\t<children>\n\t\t\t\t\t\t\t\t<node id=\"Target\">\n\t\t\t\t\t\t\t\t\t<attribute id=\"Object\" type=\"FixedString\" value=\"Story\" />\n\t\t\t\t\t\t\t\t</node>\n\t\t\t\t\t\t\t</children>\n\t\t\t\t\t\t</node>\n\t\t\t\t\t</children>\n\t\t\t\t</node>\n\t\t\t</children>\n\t\t</node>\n\t</region>\n</save>\n"@;
    reveal_strlit("\" />\n\t\t\t\t\t<attribute id=\"Version64\" type=\"int64\" value=\"36028797018963968\" />\n\t\t\t\t\t<children>\n\t\t\t\t\t\t<node id=\"PublishVersion\">\n\t\t\t\t\t\t\t<attribute id=\"Version64\" type=\"int64\" value=\"36028797018963968\" />\n\t\t\t\t\t\t</node>\n\t\t\t\t\t\t<node id=\"TargetModes\">\n\t\t\t\t\t\t\t<children>\n\t\t\t\t\t\t\t\t<node id=\"Target\">\n\t\t\t\t\t\t\t\t\t<attribute id=\"Object\" type=\"FixedString\" value=\"Story\" />\n\t\t\t\t\t\t\t\t</node>\n\t\t\t\t\t\t\t</children>\n\t\t\t\t\t\t</node>\n\t\t\t\t\t</children>\n\t\t\t\t</node>\n\t\t\t</children>\n\t\t</node>\n\t</region>\n</save>\n");
    reveal_strlit("<attribute id=\"");
    reveal_strlit("\" type=\"");
    reveal_strlit("\" value=\"");
    reveal_strlit("\" />");
    reveal_strlit("Folder");
    reveal_strlit("Name");
    reveal_strlit("UUID");
    reveal_strlit("LSString");
    reveal_strlit("FixedString");
    let q = "\" />"@;
    let e = Seq::<char>::empty();
    let s = meta_lsx_text(mod_name, mod_uuid);
    {
        let p = "<attribute id=\"Folder\" type=\"LSString\" value=\""@;
        reveal_strlit("<attribute id=\"Folder\" type=\"LSString\" value=\"");
        assert(m0.subrange(m0.len() - p.len(), m0.len() as int) =~= p);
        assert(m1.subrange(0, q.len() as int) =~= q);
        assert(value_attribute("Folder"@, "LSString"@, mod_name) =~= p + mod_name + q);
        assert(s =~= e + m0 + mod_name + m1 + (mod_name + m2 + mod_uuid + m3));
        lemma_contains_between(e, m0, mod_name, m1, (mod_name + m2 + mod_uuid + m3), p, q);
    }
    {
        let p = "<attribute id=\"Name\" type=\"LSString\" value=\""@;
        reveal_strlit("<attribute id=\"Name\" type=\"LSString\" value=\"");
        assert(m1.subrange(m1.len() - p.len(), m1.len() as int) =~= p);
        assert(m2.subrange(0, q.len() as int) =~= q);
        assert(value_attribute("Name"@, "LSString"@, mod_name) =~= p + mod_name + q);
        assert(s =~= (m0 + mod_name) + m1 + mod_name + m2 + (mod_uuid + m3));
        lemma_contains_between((m0 + mod_name), m1, mod_name, m2, (mod_uuid + m3), p, q);
    }
    {
        let p = "<attribute id=\"UUID\" type=\"FixedString\" value=\""@;
        reveal_strlit("<attribute id=\"UUID\" type=\"FixedString\" value=\"");
        assert(m2.subrange(m2.len() - p.len(), m2.len() as int) =~= p);
        assert(m3.subrange(0, q.len() as int) =~= q);
        assert(value_attribute("UUID"@, "FixedString"@, mod_uuid) =~= p + mod_uuid + q);
        assert(s =~= (m0 + mod_name + m1 + mod_name) + m2 + mod_uuid + m3 + e);
        lemma_contains_between((m0 + mod_name + m1 + mod_name), m2, mod_uuid, m3, e, p, q);
    }
}

/// The meta.lsx text of an exported dye mod.
pub fn meta_lsx_content(mod_name: &str, mod_uuid: &str) -> (s: String)
    ensures
        s@ == meta_lsx_text(mod_name@, mod_uuid@),
{
    let mut s = String::from_str("<?xml version=\"1.0\" encoding=\"UTF-8\"?>\n<save>\n\t<version major=\"4\" minor=\"7\" revision=\"1\" build=\"3\" lslib_meta=\"v1,bswap_guids\" />\n\t<region id=\"Config\">\n\t\t<node id=\"root\">\n\t\t\t<children>\n\t\t\t\t<node id=\"Dependencies\" />\n\t\t\t\t<node id=\"ModuleInfo\">\n\t\t\t\t\t<attribute id=\"Author\" type=\"LSString\" value=\"MacPak\" />\n\t\t\t\t\t<attribute id=\"CharacterCreationLevelName\" type=\"FixedString\" value=\"\" />\n\t\t\t\t\t<attribute id=\"Description\" type=\"LSString\" value=\"Custom dye mod created with MacPak\" />\n\t\t\t\t\t<attribute id=\"Folder\" type=\"LSString\" value=\"");
    push_str(&mut s, mod_name);
    push_str(&mut s, "\" />\n\t\t\t\t\t<attribute id=\"LobbyLevelName\" type=\"FixedString\" value=\"\" />\n\t\t\t\t\t<attribute id=\"MD5\" type=\"LSString\" value=\"\" />\n\t\t\t\t\t<attribute id=\"MainMenuBackgroundVideo\" type=\"FixedString\" value=\"\" />\n\t\t\t\t\t<attribute id=\"MenuLevelName\" type=\"FixedString\" value=\"\" />\n\t\t\t\t\t<attribute id=\"Name\" type=\"LSString\" value=\"");
    push_str(&mut s, mod_name);
    push_str(&mut s, "\" />\n\t\t\t\t\t<attribute id=\"NumPlayers\" type=\"uint8\" value=\"4\" />\n\t\t\t\t\t<attribute id=\"PhotoBooth\" type=\"FixedString\" value=\"\" />\n\t\t\t\t\t<attribute id=\"StartupLevelName\" type=\"FixedString\" value=\"\" />\n\t\t\t\t\t<attribute id=\"Tags\" type=\"LSString\" value=\"\" />\n\t\t\t\t\t<attribute id=\"Type\" type=\"FixedString\" value=\"Add-on\" />\n\t\t\t\t\t<attribute id=\"UUID\" type=\"FixedString\" value=\"");
    push_str(&mut s, mod_uuid);
    push_str(&mut s, "\" />\n\t\t\t\t\t<attribute id=\"Version64\" type=\"int64\" value=\"36028797018963968\" />\n\t\t\t\t\t<children>\n\t\t\t\t\t\t<node id=\"PublishVersion\">\n\t\t\t\t\t\t\t<attribute id=\"Version64\" type=\"int64\" value=\"36028797018963968\" />\n\t\t\t\t\t\t</node>\n\t\t\t\t\t\t<node id=\"TargetModes\">\n\t\t\t\t\t\t\t<children>\n\t\t\t\t\t\t\t\t<node id=\"Target\">\n\t\t\t\t\t\t\t\t\t<attribute id=\"Object\" type=\"FixedString\" value=\"Story\" />\n\t\t\t\t\t\t\t\t</node>\n\t\t\t\t\t\t\t</children>\n\t\t\t\t\t\t</node>\n\t\t\t\t\t</children>\n\t\t\t\t</node>\n\t\t\t</children>\n\t\t</node>\n\t</region>\n</save>\n");
    s
}

/// The folders an exported dye mod is made of, relative to the output
/// folder.
pub open spec fn mod_directories_of(mod_name: Seq<char>) -> Seq<Seq<char>> {
    seq![
        "Localization/English"@,
        "Mods/"@ + mod_name,
        "Public/"@ + mod_name + "/Assets/Textures/Icons"@,
        "Public/"@ + mod_name + "/Content/Assets/Characters/[PAK]_DYE_Colors"@,
        "Public/"@ + mod_name + "/Content/UI/[PAK]_UI"@,
        "Public/"@ + mod_name + "/GUI"@,
        "Public/"@ + mod_name + "/RootTemplates"@,
        "Public/"@ + mod_name + "/Stats/Generated/Data"@,
        "Public/Game/GUI/Assets/Tooltips/ItemIcons"@,
        "Public/Game/GUI/Assets/ControllerUIIcons/items_png"@,
    ]
}

/// One of the mod's folders: `prefix`, the mod name, `suffix`.
fn mod_dir(prefix: &str, mod_name: &str, suffix: &str) -> (s: String)
    ensures
        s@ == prefix@ + mod_name@ + suffix@,
{
    let mut s = String::from_str(prefix);
    push_str(&mut s, mod_name);
    push_str(&mut s, suffix);
    s
}

/// The folders an exported dye mod is made of.
pub fn mod_directories(mod_name: &str) -> (dirs: Vec<String>)
    ensures
        dirs@.map_values(|d: String| d@) == mod_directories_of(mod_name@),
{
    let mut dirs: Vec<String> = Vec::new();
    dirs.push(String::from_str("Localization/English"));
    dirs.push(mod_dir("Mods/", mod_name, ""));
    dirs.push(mod_dir("Public/", mod_name, "/Assets/Textures/Icons"));
    dirs.push(mod_dir("Public/", mod_name, "/Content/Assets/Characters/[PAK]_DYE_Colors"));
    dirs.push(mod_dir("Public/", mod_name, "/Content/UI/[PAK]_UI"));
    dirs.push(mod_dir("Public/", mod_name, "/GUI"));
    dirs.push(mod_dir("Public/", mod_name, "/RootTemplates"));
    dirs.push(mod_dir("Public/", mod_name, "/Stats/Generated/Data"));
    dirs.push(String::from_str("Public/Game/GUI/Assets/Tooltips/ItemIcons"));
    dirs.push(String::from_str("Public/Game/GUI/Assets/ControllerUIIcons/items_png"));
    proof {
        reveal_strlit("");
        assert(""@ =~= Seq::<char>::empty());
    }
    assert(dirs@.map_values(|d: String| d@) =~= mod_directories_of(mod_name@));
    dirs
}

} // verus!
