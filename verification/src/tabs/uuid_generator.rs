//! UUID and handle generator: its events and the identifiers it makes.
use vstd::prelude::*;
use crate::app::{Callback, MacPakApp};
use crate::state::tools::{json_string_lists_pretty, json_string_lists_text, member_views, prefix_handles, prefixed_handles, string_views};
use crate::text::{decimal, hex_lower, hex_upper, push_char, push_decimal, push_str};

verus! {

/// The events the UUID and handle generator tab handles.
pub open spec fn tab_callbacks() -> Set<Callback> {
    set![
        Callback::UuidGenerate,
        Callback::HandleGenerate,
        Callback::CopyToClipboard,
        Callback::UuidExportHistory,
        Callback::UuidClearHistory,
    ]
}

/// Registers all UUID Generator tab callbacks on the application.
/// What each of these events does is the matching method of `GeneratorPanel`.
pub fn register_callbacks(app: &mut MacPakApp)
    requires
        old(app).wf(),
    ensures
        final(app).wf(),
        final(app).tab() == old(app).tab(),
        final(app).handled() == old(app).handled().union(tab_callbacks()),
{
    app.on(Callback::UuidGenerate);
    app.on(Callback::HandleGenerate);
    app.on(Callback::CopyToClipboard);
    app.on(Callback::UuidExportHistory);
    app.on(Callback::UuidClearHistory);
    assert(app.handled() =~= old(app).handled().union(tab_callbacks()));
}


/// The text formats of a generated UUID.
#[derive(Clone, Copy, Debug, PartialEq, Eq, Structural)]
pub enum UuidFormat {
    /// 8-4-4-4-12 upper-case hex groups separated by '-'.
    Standard,
    /// 32 upper-case hex digits.
    Compact,
    /// 'h' and lower-case hex groups 8-4-4-4-12 separated by 'g'.
    Larian,
}

/// The hex digits of some bytes, two per byte, most significant first.
pub open spec fn hex_bytes(b: Seq<u8>, upper: bool) -> Seq<char>
    decreases b.len(),
{
    if b.len() == 0 {
        Seq::empty()
    } else {
        let x = b.last() as nat;
        hex_bytes(b.drop_last(), upper) + if upper {
            seq![hex_upper(x / 16), hex_upper(x % 16)]
        } else {
            seq![hex_lower(x / 16), hex_lower(x % 16)]
        }
    }
}

/// The text of a 16-byte UUID in a format: the groups are bytes 0..4, 4..6,
/// 6..8, 8..10 and 10..16.
pub open spec fn uuid_text(b: Seq<u8>, format: UuidFormat) -> Seq<char> {
    match format {
        UuidFormat::Standard => hex_bytes(b.subrange(0, 4), true) + seq!['-'] + hex_bytes(b.subrange(4, 6), true)
            + seq!['-'] + hex_bytes(b.subrange(6, 8), true) + seq!['-'] + hex_bytes(b.subrange(8, 10), true)
            + seq!['-'] + hex_bytes(b.subrange(10, 16), true),
        UuidFormat::Compact => hex_bytes(b, true),
        UuidFormat::Larian => seq!['h'] + hex_bytes(b.subrange(0, 4), false) + seq!['g'] + hex_bytes(
            b.subrange(4, 6),
            false,
        ) + seq!['g'] + hex_bytes(b.subrange(6, 8), false) + seq!['g'] + hex_bytes(b.subrange(8, 10), false)
            + seq!['g'] + hex_bytes(b.subrange(10, 16), false),
    }
}

/// The hex digits of two byte runs one after the other are the digits of
/// each run one after the other.
proof fn lemma_hex_bytes_concat(a: Seq<u8>, b: Seq<u8>, upper: bool)
    ensures
        hex_bytes(a + b, upper) == hex_bytes(a, upper) + hex_bytes(b, upper),
    decreases b.len(),
{
    if b.len() == 0 {
        assert(a + b =~= a);
        assert(hex_bytes(a, upper) + hex_bytes(b, upper) =~= hex_bytes(a, upper));
    } else {
        lemma_hex_bytes_concat(a, b.drop_last(), upper);
        assert((a + b).drop_last() =~= a + b.drop_last());
        assert((a + b).last() == b.last());
        let tail = if upper {
            seq![hex_upper(b.last() as nat / 16), hex_upper(b.last() as nat % 16)]
        } else {
            seq![hex_lower(b.last() as nat / 16), hex_lower(b.last() as nat % 16)]
        };
        assert(hex_bytes(a, upper) + hex_bytes(b.drop_last(), upper) + tail =~= hex_bytes(a, upper) + (hex_bytes(
            b.drop_last(),
            upper,
        ) + tail));
    }
}

/// Hex digits are never hyphens, so taking the hyphens out of them keeps
/// them all.
proof fn lemma_hex_bytes_keep(b: Seq<u8>, upper: bool)
    ensures
        hex_bytes(b, upper).filter(|c: char| c != '-') == hex_bytes(b, upper),
    decreases b.len(),
{
    reveal(Seq::filter);
    if b.len() == 0 {
        assert(hex_bytes(b, upper).filter(|c: char| c != '-') =~= Seq::<char>::empty());
    } else {
        lemma_hex_bytes_keep(b.drop_last(), upper);
        let x = b.last() as nat;
        let tail = if upper {
            seq![hex_upper(x / 16), hex_upper(x % 16)]
        } else {
            seq![hex_lower(x / 16), hex_lower(x % 16)]
        };
        assert(tail[0] != '-' && tail[1] != '-');
        assert(tail.filter(|c: char| c != '-') =~= tail) by {
            reveal(Seq::filter);
            assert(tail.drop_last() =~= seq![tail[0]]);
            assert(seq![tail[0]].drop_last() =~= Seq::<char>::empty());
            assert(seq![tail[0]].filter(|c: char| c != '-') =~= seq![tail[0]]);
        }
        Seq::filter_distributes_over_add(hex_bytes(b.drop_last(), upper), tail, |c: char| c != '-');
    }
}

/// Five hyphen-free groups joined by hyphens, with the hyphens taken out,
/// are the groups one after the other.
proof fn lemma_unhyphenate(h0: Seq<char>, h1: Seq<char>, h2: Seq<char>, h3: Seq<char>, h4: Seq<char>)
    requires
        h0.filter(|c: char| c != '-') == h0,
        h1.filter(|c: char| c != '-') == h1,
        h2.filter(|c: char| c != '-') == h2,
        h3.filter(|c: char| c != '-') == h3,
        h4.filter(|c: char| c != '-') == h4,
    ensures
        (h0 + seq!['-'] + h1 + seq!['-'] + h2 + seq!['-'] + h3 + seq!['-'] + h4).filter(|c: char| c != '-') == h0 + h1
            + h2 + h3 + h4,
{
    let dash = seq!['-'];
    let f = |c: char| c != '-';
    assert(dash.filter(f) =~= Seq::<char>::empty()) by {
        reveal_with_fuel(Seq::filter, 2);
        assert(dash.drop_last() =~= Seq::<char>::empty());
        assert(dash.last() == '-');
    }
    let s1 = h0 + dash;
    Seq::filter_distributes_over_add(h0, dash, f);
    assert(s1.filter(f) =~= h0);
    let s2 = s1 + h1;
    Seq::filter_distributes_over_add(s1, h1, f);
    let s3 = s2 + dash;
    Seq::filter_distributes_over_add(s2, dash, f);
    assert(s3.filter(f) =~= h0 + h1);
    let s4 = s3 + h2;
    Seq::filter_distributes_over_add(s3, h2, f);
    let s5 = s4 + dash;
    Seq::filter_distributes_over_add(s4, dash, f);
    assert(s5.filter(f) =~= h0 + h1 + h2);
    let s6 = s5 + h3;
    Seq::filter_distributes_over_add(s5, h3, f);
    let s7 = s6 + dash;
    Seq::filter_distributes_over_add(s6, dash, f);
    assert(s7.filter(f) =~= h0 + h1 + h2 + h3);
    let s8 = s7 + h4;
    Seq::filter_distributes_over_add(s7, h4, f);
}

/// The hex digits of 16 bytes are those of its five UUID groups one after
/// the other.
proof fn lemma_hex_bytes_groups(b: Seq<u8>, upper: bool)
    requires
        b.len() == 16,
    ensures
        hex_bytes(b, upper) == hex_bytes(b.subrange(0, 4), upper) + hex_bytes(b.subrange(4, 6), upper) + hex_bytes(
            b.subrange(6, 8),
            upper,
        ) + hex_bytes(b.subrange(8, 10), upper) + hex_bytes(b.subrange(10, 16), upper),
{
    let p0 = b.subrange(0, 4);
    let p1 = b.subrange(4, 6);
    let p2 = b.subrange(6, 8);
    let p3 = b.subrange(8, 10);
    let p4 = b.subrange(10, 16);
    assert(b =~= p0 + p1 + p2 + p3 + p4);
    lemma_hex_bytes_concat(p0, p1, upper);
    lemma_hex_bytes_concat(p0 + p1, p2, upper);
    lemma_hex_bytes_concat(p0 + p1 + p2, p3, upper);
    lemma_hex_bytes_concat(p0 + p1 + p2 + p3, p4, upper);
}

/// The standard text of a UUID with its hyphens taken out is its compact
/// text: the two formats show the same 32 upper-case hex digits in the same
/// order.
pub proof fn lemma_standard_without_hyphens_is_compact(b: Seq<u8>)
    requires
        b.len() == 16,
    ensures
        uuid_text(b, UuidFormat::Standard).filter(|c: char| c != '-') == uuid_text(b, UuidFormat::Compact),
{
    lemma_hex_bytes_groups(b, true);
    lemma_hex_bytes_keep(b.subrange(0, 4), true);
    lemma_hex_bytes_keep(b.subrange(4, 6), true);
    lemma_hex_bytes_keep(b.subrange(6, 8), true);
    lemma_hex_bytes_keep(b.subrange(8, 10), true);
    lemma_hex_bytes_keep(b.subrange(10, 16), true);
    lemma_unhyphenate(
        hex_bytes(b.subrange(0, 4), true),
        hex_bytes(b.subrange(4, 6), true),
        hex_bytes(b.subrange(6, 8), true),
        hex_bytes(b.subrange(8, 10), true),
        hex_bytes(b.subrange(10, 16), true),
    );
}

/// A random (version 4, RFC 4122 variant) UUID: the version nibble is 4 and
/// the variant bits are `10`.
pub open spec fn is_random_uuid(b: Seq<u8>) -> bool {
    &&& b.len() == 16
    &&& b[6] / 16 == 4
    &&& b[8] / 64 == 2
}

/// Sixteen fresh random UUID bytes (`uuid::Uuid::new_v4`). Which bytes come
/// back is chance; every outcome carries the version-4 nibble and the
/// RFC 4122 variant bits, which `new_v4` sets.
#[verifier::external_body]
fn random_uuid_bytes() -> (b: [u8; 16])
    ensures
        is_random_uuid(b@),
{
    *uuid::Uuid::new_v4().as_bytes()
}

/// A random `u64` (`rand::thread_rng().gen()`); any value may come back.
#[verifier::external_body]
fn random_u64() -> (x: u64) {
    rand::random::<u64>()
}

fn push_hex_bytes(out: &mut String, b: &[u8; 16], lo: usize, hi: usize, upper: bool)
    requires
        lo <= hi <= 16,
    ensures
        final(out)@ == old(out)@ + hex_bytes(b@.subrange(lo as int, hi as int), upper),
{
    let mut i = lo;
    assert(b@.subrange(lo as int, lo as int) =~= Seq::<u8>::empty());
    while i < hi
        invariant
            lo <= i <= hi <= 16,
            out@ == old(out)@ + hex_bytes(b@.subrange(lo as int, i as int), upper),
        decreases hi - i,
    {
        let x = b[i];
        let (c1, c2) = if upper {
            (hex_char(x / 16, true), hex_char(x % 16, true))
        } else {
            (hex_char(x / 16, false), hex_char(x % 16, false))
        };
        push_char(out, c1);
        push_char(out, c2);
        assert(b@.subrange(lo as int, i + 1).drop_last() =~= b@.subrange(lo as int, i as int));
        i += 1;
        assert(out@ =~= old(out)@ + hex_bytes(b@.subrange(lo as int, i as int), upper));
    }
}

fn hex_char(d: u8, upper: bool) -> (c: char)
    requires
        d < 16,
    ensures
        upper ==> c == hex_upper(d as nat),
        !upper ==> c == hex_lower(d as nat),
{
    if d < 10 {
        crate::text::digit_to_char(d as u64)
    } else if upper {
        if d == 10 { 'A' } else if d == 11 { 'B' } else if d == 12 { 'C' } else if d == 13 { 'D' } else if d == 14 { 'E' } else { 'F' }
    } else {
        if d == 10 { 'a' } else if d == 11 { 'b' } else if d == 12 { 'c' } else if d == 13 { 'd' } else if d == 14 { 'e' } else { 'f' }
    }
}

/// Writes UUID bytes in the given format.
pub fn format_uuid(b: &[u8; 16], format: UuidFormat) -> (s: String)
    ensures
        s@ == uuid_text(b@, format),
{
    let mut s = String::new();
    match format {
        UuidFormat::Standard => {
            push_hex_bytes(&mut s, b, 0, 4, true);
            push_char(&mut s, '-');
            push_hex_bytes(&mut s, b, 4, 6, true);
            push_char(&mut s, '-');
            push_hex_bytes(&mut s, b, 6, 8, true);
            push_char(&mut s, '-');
            push_hex_bytes(&mut s, b, 8, 10, true);
            push_char(&mut s, '-');
            push_hex_bytes(&mut s, b, 10, 16, true);
        },
        UuidFormat::Compact => {
            push_hex_bytes(&mut s, b, 0, 16, true);
            assert(b@.subrange(0, 16) =~= b@);
        },
        UuidFormat::Larian => {
            push_char(&mut s, 'h');
            push_hex_bytes(&mut s, b, 0, 4, false);
            push_char(&mut s, 'g');
            push_hex_bytes(&mut s, b, 4, 6, false);
            push_char(&mut s, 'g');
            push_hex_bytes(&mut s, b, 6, 8, false);
            push_char(&mut s, 'g');
            push_hex_bytes(&mut s, b, 8, 10, false);
            push_char(&mut s, 'g');
            push_hex_bytes(&mut s, b, 10, 16, false);
        },
    }
    assert(s@ =~= uuid_text(b@, format));
    s
}

/// Generates a new random UUID in the given format.
pub fn generate_uuid(format: UuidFormat) -> (s: String)
    ensures
        exists|b: Seq<u8>| is_random_uuid(b) && s@ == uuid_text(b, format),
{
    let b = random_uuid_bytes();
    format_uuid(&b, format)
}

/// A handle as displayed and copied: 'h' followed by its decimal value.
pub open spec fn handle_text(h: nat) -> Seq<char> {
    seq!['h'] + decimal(h)
}

/// Writes a handle value as "h" followed by its decimal digits.
pub fn format_handle(h: u64) -> (s: String)
    ensures
        s@ == handle_text(h as nat),
{
    let mut s = String::new();
    push_char(&mut s, 'h');
    push_decimal(&mut s, h as u128);
    assert(s@ =~= handle_text(h as nat));
    s
}

/// Generates a new random handle value, as the decimal text it is stored as.
pub fn generate_handle() -> (s: String)
    ensures
        exists|h: u64| s@ == decimal(h as nat),
{
    let h = random_u64();
    crate::text::u64_to_decimal(h)
}

/// The generator panel whose events `register_callbacks` binds: the last
/// UUID and handle shown, both histories (oldest first), the short status
/// beside the buttons and the error dialog's message, if one is open.
pub struct GeneratorPanel {
    pub last_uuid: String,
    pub last_handle: String,
    pub uuid_history: Vec<String>,
    pub handle_history: Vec<String>,
    pub copy_status: String,
    pub error_message: Option<String>,
}

/// The exported identifiers: the UUIDs under "uuids" and the handles, each
/// with its "h", under "handles".
pub open spec fn generator_export_members(uuids: Seq<String>, handles: Seq<String>) -> Seq<
    (Seq<char>, Seq<Seq<char>>),
> {
    seq![("uuids"@, string_views(uuids)), ("handles"@, prefixed_handles(handles))]
}

impl GeneratorPanel {
    /// Nothing generated yet, no status, no error.
    pub fn new() -> (p: Self)
        ensures
            p.last_uuid@.len() == 0,
            p.last_handle@.len() == 0,
            p.uuid_history@.len() == 0,
            p.handle_history@.len() == 0,
            p.copy_status@.len() == 0,
            p.error_message is None,
    {
        GeneratorPanel {
            last_uuid: String::new(),
            last_handle: String::new(),
            uuid_history: Vec::new(),
            handle_history: Vec::new(),
            copy_status: String::new(),
            error_message: None,
        }
    }

    /// `UuidGenerate`: a fresh random UUID in the standard upper-case form
    /// is shown and appended to the history.
    pub fn on_uuid_generate(&mut self)
        ensures
            exists|b: Seq<u8>| is_random_uuid(b) && final(self).last_uuid@ == uuid_text(b, UuidFormat::Standard),
            final(self).uuid_history@ == old(self).uuid_history@.push(final(self).last_uuid),
            final(self).handle_history@ == old(self).handle_history@,
            final(self).last_handle == old(self).last_handle,
            final(self).copy_status == old(self).copy_status,
            final(self).error_message == old(self).error_message,
    {
        let u = generate_uuid(UuidFormat::Standard);
        self.last_uuid = u.clone();
        self.uuid_history.push(u);
    }

    /// `HandleGenerate`: a fresh random `u64` handle, in decimal, is shown
    /// and appended to the history.
    pub fn on_handle_generate(&mut self)
        ensures
            exists|h: u64| final(self).last_handle@ == decimal(h as nat),
            final(self).handle_history@ == old(self).handle_history@.push(final(self).last_handle),
            final(self).uuid_history@ == old(self).uuid_history@,
            final(self).last_uuid == old(self).last_uuid,
            final(self).copy_status == old(self).copy_status,
            final(self).error_message == old(self).error_message,
    {
        let h = generate_handle();
        self.last_handle = h.clone();
        self.handle_history.push(h);
    }

    /// `CopyToClipboard`: once the value is copied the status says so.
    pub fn on_copied(&mut self)
        ensures
            final(self).copy_status@ == "Copied!"@,
            final(self).uuid_history@ == old(self).uuid_history@,
            final(self).handle_history@ == old(self).handle_history@,
            final(self).error_message == old(self).error_message,
    {
        self.copy_status = String::from_str("Copied!");
    }

    /// The status clears a moment after it was set.
    pub fn on_status_timeout(&mut self)
        ensures
            final(self).copy_status@.len() == 0,
            final(self).uuid_history@ == old(self).uuid_history@,
            final(self).handle_history@ == old(self).handle_history@,
            final(self).error_message == old(self).error_message,
    {
        self.copy_status = String::new();
    }

    /// `UuidExportHistory`: the text written to the chosen file, the
    /// identifiers as pretty-printed JSON (see `generator_export_members`).
    pub fn export_text(&self) -> (s: String)
        ensures
            s@ == json_string_lists_pretty(generator_export_members(self.uuid_history@, self.handle_history@)),
    {
        let handles = prefix_handles(&self.handle_history);
        let mut members: Vec<(String, Vec<String>)> = Vec::new();
        members.push((String::from_str("uuids"), self.uuid_history.clone()));
        members.push((String::from_str("handles"), handles));
        assert(member_views(members@) =~= generator_export_members(self.uuid_history@, self.handle_history@));
        json_string_lists_text(&members)
    }

    /// How writing the export went: "Exported!" in the status, or an error
    /// dialog with "Failed to export: " and the reason.
    pub fn on_exported(&mut self, result: Result<(), String>)
        ensures
            match result {
                Ok(_) => final(self).copy_status@ == "Exported!"@ && final(self).error_message
                    == old(self).error_message,
                Err(e) => final(self).copy_status == old(self).copy_status
                    && (final(self).error_message matches Some(m) && m@ == "Failed to export: "@ + e@),
            },
            final(self).uuid_history@ == old(self).uuid_history@,
            final(self).handle_history@ == old(self).handle_history@,
    {
        match result {
            Ok(_) => {
                self.copy_status = String::from_str("Exported!");
            },
            Err(e) => {
                let mut m = String::from_str("Failed to export: ");
                push_str(&mut m, e.as_str());
                proof {
                    reveal_strlit("Failed to export: ");
                }
                self.error_message = Some(m);
            },
        }
    }

    /// `UuidClearHistory`: both histories are emptied.
    pub fn on_clear_history(&mut self)
        ensures
            final(self).uuid_history@.len() == 0,
            final(self).handle_history@.len() == 0,
            final(self).last_uuid == old(self).last_uuid,
            final(self).last_handle == old(self).last_handle,
            final(self).copy_status == old(self).copy_status,
            final(self).error_message == old(self).error_message,
    {
        self.uuid_history = Vec::new();
        self.handle_history = Vec::new();
    }
}

} // verus!
