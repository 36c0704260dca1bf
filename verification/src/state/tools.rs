//! Tools tab state: generated identifiers with their histories, the colour
//! picker and the version calculator, and what each of the tab's buttons
//! does to them.
use vstd::prelude::*;
use crate::tabs::tools::{
    hex_color_sliceable, hex_color_value, holds_text, packed_version, parse_hex_color, parse_version_input,
    rgb_hex_text, rgb_to_hex, save_color_to_history, unpacked_version, version_text, version_to_int,
    format_version,
};
use crate::tabs::uuid_generator::{generate_handle, generate_uuid, UuidFormat};
use crate::text::{
    decimal, lemma_trim_start_char_idempotent, push_char, push_decimal, push_str, trim_start_char, trim_start_of, trimmed,
    u64_from_decimal, u64_to_decimal,
};

verus! {

/// The most generated identifiers each history keeps.
pub const ID_HISTORY_LIMIT: usize = 20;

/// `list` with `item` in front, cut to `limit` entries.
pub open spec fn pushed_front(list: Seq<String>, item: String, limit: nat) -> Seq<String> {
    let l = seq![item].add(list);
    if l.len() > limit { l.take(limit as int) } else { l }
}

/// Puts `item` at the front of `history`, keeping at most `limit` entries.
pub fn push_front_bounded(history: &mut Vec<String>, item: String, limit: usize)
    ensures
        final(history)@ == pushed_front(old(history)@, item, limit as nat),
{
    history.insert(0, item);
    if history.len() > limit {
        history.truncate(limit);
    }
    assert(final(history)@ =~= pushed_front(old(history)@, item, limit as nat));
}

/// What serde_json's `to_string_pretty` writes for a JSON object whose
/// members are the given keys, each with an array of the given strings.
/// serde_json keeps one member per key, the one given last, and writes the
/// members in key order.
pub uninterp spec fn json_string_lists_pretty(members: Seq<(Seq<char>, Seq<Seq<char>>)>) -> Seq<char>;

/// The characters of each string of a list.
pub open spec fn string_views(v: Seq<String>) -> Seq<Seq<char>> {
    v.map_values(|x: String| x@)
}

/// The members of a JSON object of string arrays, by their characters.
pub open spec fn member_views(members: Seq<(String, Vec<String>)>) -> Seq<(Seq<char>, Seq<Seq<char>>)> {
    members.map_values(|m: (String, Vec<String>)| (m.0@, string_views(m.1@)))
}

/// Serialises an object of string arrays, built from `members`, as
/// pretty-printed JSON (serde_json `to_string_pretty` of a `Value::Object`;
/// an object with string keys cannot fail to serialise). The contract names
/// the text.
#[verifier::external_body]
pub(crate) fn json_string_lists_text(members: &Vec<(String, Vec<String>)>) -> (s: String)
    ensures
        s@ == json_string_lists_pretty(member_views(members@)),
{
    let object: serde_json::Map<String, serde_json::Value> =
        members.iter().map(|(k, v)| (k.clone(), serde_json::Value::from(v.clone()))).collect();
    match serde_json::to_string_pretty(&serde_json::Value::Object(object)) {
        Ok(s) => s,
        Err(_) => String::new(),
    }
}

/// Each handle with an "h" in front, in order.
pub fn prefix_handles(history: &Vec<String>) -> (handles: Vec<String>)
    ensures
        string_views(handles@) == prefixed_handles(history@),
{
    let mut handles: Vec<String> = Vec::new();
    let mut i: usize = 0;
    while i < history.len()
        invariant
            i <= history.len(),
            string_views(handles@) == prefixed_handles(history@.take(i as int)),
        decreases history.len() - i,
    {
        let mut h = String::from_str("h");
        push_str(&mut h, history[i].as_str());
        proof {
            reveal_strlit("h");
            assert("h"@ =~= seq!['h']);
            assert(h@ =~= seq!['h'] + history@[i as int]@);
        }
        let ghost before = handles@;
        handles.push(h);
        proof {
            assert(string_views(handles@) =~= string_views(before).push(seq!['h'] + history@[i as int]@));
            assert(prefixed_handles(history@.take(i + 1)) =~= prefixed_handles(
                history@.take(i as int),
            ).push(seq!['h'] + history@[i as int]@));
        }
        i += 1;
    }
    assert(history@.take(history.len() as int) =~= history@);
    handles
}

/// The exported history: an object with the UUIDs under "uuids", the
/// handles (each with its "h") under "handles" and the colours under
/// "colors".
pub open spec fn history_members(uuids: Seq<Seq<char>>, handles: Seq<Seq<char>>, colors: Seq<Seq<char>>) -> Seq<
    (Seq<char>, Seq<Seq<char>>),
> {
    seq![("uuids"@, uuids), ("handles"@, handles), ("colors"@, colors)]
}

/// Each handle as it is written out: with an "h" in front.
pub open spec fn prefixed_handles(handles: Seq<String>) -> Seq<Seq<char>> {
    handles.map_values(|h: String| seq!['h'] + h@)
}

/// State of the tools tab.
pub struct ToolsState {
    pub generated_uuid: String,
    pub uuid_format: UuidFormat,
    pub uuid_history: Vec<String>,
    pub generated_handle: String,
    pub handle_history: Vec<String>,
    pub color_hex: String,
    pub color_r: u8,
    pub color_g: u8,
    pub color_b: u8,
    pub color_a: u8,
    pub color_history: Vec<String>,
    pub version_int: String,
    pub version_major: u32,
    pub version_minor: u32,
    pub version_patch: u32,
    pub version_build: u32,
    pub status_message: String,
}

/// Whether no two entries of a list of strings are equal.
pub open spec fn distinct_texts(list: Seq<String>) -> bool {
    forall|i: int, j: int| 0 <= i < list.len() && 0 <= j < list.len() && i != j ==> (#[trigger] list[i])@
        != (#[trigger] list[j])@
}

/// The channels of a colour as the picker shows them: "r, g, b" in
/// decimal.
pub open spec fn rgb_triple_text(r: u8, g: u8, b: u8) -> Seq<char> {
    decimal(r as nat) + ", "@ + decimal(g as nat) + ", "@ + decimal(b as nat)
}

/// Executable `rgb_triple_text`.
pub fn rgb_triple(r: u8, g: u8, b: u8) -> (s: String)
    ensures
        s@ == rgb_triple_text(r, g, b),
{
    let mut s = String::new();
    push_decimal(&mut s, r as u128);
    push_str(&mut s, ", ");
    push_decimal(&mut s, g as u128);
    push_str(&mut s, ", ");
    push_decimal(&mut s, b as u128);
    s
}

impl ToolsState {
    /// What the tab's buttons keep: the identifier histories hold at most 20
    /// entries, the colour history at most 43 and no colour twice.
    pub open spec fn wf(&self) -> bool {
        &&& self.uuid_history@.len() <= 20
        &&& self.handle_history@.len() <= 20
        &&& self.color_history@.len() <= 43
        &&& distinct_texts(self.color_history@)
    }

    /// Initial state: standard UUIDs, colour FF5500 opaque, version 1.0.0.0,
    /// empty histories and messages.
    pub fn new() -> (s: Self)
        ensures
            s.wf(),
            s.generated_uuid@ == Seq::<char>::empty(),
            s.uuid_format == UuidFormat::Standard,
            s.uuid_history@.len() == 0,
            s.generated_handle@ == Seq::<char>::empty(),
            s.handle_history@.len() == 0,
            s.color_hex@ == "FF5500"@,
            s.color_r == 255 && s.color_g == 85 && s.color_b == 0 && s.color_a == 255,
            s.color_history@.len() == 0,
            s.version_int@ == Seq::<char>::empty(),
            s.version_major == 1 && s.version_minor == 0 && s.version_patch == 0 && s.version_build == 0,
            s.status_message@ == Seq::<char>::empty(),
    {
        ToolsState {
            generated_uuid: String::new(),
            uuid_format: UuidFormat::Standard,
            uuid_history: Vec::new(),
            generated_handle: String::new(),
            handle_history: Vec::new(),
            color_hex: String::from_str("FF5500"),
            color_r: 255,
            color_g: 85,
            color_b: 0,
            color_a: 255,
            color_history: Vec::new(),
            version_int: String::new(),
            version_major: 1,
            version_minor: 0,
            version_patch: 0,
            version_build: 0,
            status_message: String::new(),
        }
    }

    /// Shows a generated UUID and puts it at the front of the UUID history.
    pub fn record_uuid(&mut self, uuid: String)
        requires
            old(self).wf(),
        ensures
            final(self).wf(),
            final(self).generated_uuid == uuid,
            final(self).uuid_history@ == pushed_front(old(self).uuid_history@, uuid, 20),
            final(self).handle_history == old(self).handle_history,
            final(self).color_history == old(self).color_history,
            final(self).generated_handle == old(self).generated_handle,
            final(self).status_message == old(self).status_message,
    {
        self.generated_uuid = uuid.clone();
        push_front_bounded(&mut self.uuid_history, uuid, ID_HISTORY_LIMIT);
    }

    /// The "Generate UUID" button: a fresh UUID in the selected format.
    pub fn generate_uuid_action(&mut self)
        requires
            old(self).wf(),
        ensures
            final(self).wf(),
            final(self).uuid_history@ == pushed_front(old(self).uuid_history@, final(self).generated_uuid, 20),
            exists|b: Seq<u8>|
                crate::tabs::uuid_generator::is_random_uuid(b) && final(self).generated_uuid@
                    == crate::tabs::uuid_generator::uuid_text(b, old(self).uuid_format),
    {
        let u = generate_uuid(self.uuid_format);
        self.record_uuid(u);
    }

    /// Shows a generated handle and puts it at the front of the handle history.
    pub fn record_handle(&mut self, handle: String)
        requires
            old(self).wf(),
        ensures
            final(self).wf(),
            final(self).generated_handle == handle,
            final(self).handle_history@ == pushed_front(old(self).handle_history@, handle, 20),
            final(self).uuid_history == old(self).uuid_history,
            final(self).color_history == old(self).color_history,
            final(self).generated_uuid == old(self).generated_uuid,
            final(self).status_message == old(self).status_message,
    {
        self.generated_handle = handle.clone();
        push_front_bounded(&mut self.handle_history, handle, ID_HISTORY_LIMIT);
    }

    /// The "Generate Handle" button: a fresh random handle.
    pub fn generate_handle_action(&mut self)
        requires
            old(self).wf(),
        ensures
            final(self).wf(),
            final(self).handle_history@ == pushed_front(old(self).handle_history@, final(self).generated_handle, 20),
            exists|h: u64| final(self).generated_handle@ == decimal(h as nat),
    {
        let h = generate_handle();
        self.record_handle(h);
    }

    /// "Save to History": the current colour as "#RRGGBB" at the front of the
    /// colour history, unless it is already there.
    pub fn save_color(&mut self)
        requires
            old(self).wf(),
        ensures
            final(self).wf(),
            holds_text(old(self).color_history@, seq!['#'] + old(self).color_hex@)
                ==> final(self).color_history@ == old(self).color_history@,
            !holds_text(old(self).color_history@, seq!['#'] + old(self).color_hex@) ==> {
                &&& final(self).color_history@.len() == if old(self).color_history@.len() + 1 > 43 {
                    43
                } else {
                    old(self).color_history@.len() + 1
                }
                &&& final(self).color_history@[0]@ == seq!['#'] + old(self).color_hex@
                &&& forall|i: int| 0 < i < final(self).color_history@.len()
                    ==> #[trigger] final(self).color_history@[i] == old(self).color_history@[i - 1]
            },
            final(self).color_hex == old(self).color_hex,
            final(self).uuid_history == old(self).uuid_history,
            final(self).handle_history == old(self).handle_history,
    {
        let mut color = String::new();
        push_char(&mut color, '#');
        push_str(&mut color, self.color_hex.as_str());
        let ghost c = color@;
        assert(c =~= seq!['#'] + self.color_hex@);
        let ghost before = self.color_history@;
        save_color_to_history(&mut self.color_history, color);
        proof {
            let after = self.color_history@;
            if !holds_text(before, c) {
                assert forall|i: int, j: int| 0 <= i < after.len() && 0 <= j < after.len() && i != j
                    implies (#[trigger] after[i])@ != (#[trigger] after[j])@ by {
                    if i == 0 {
                        assert(after[j] == before[j - 1]);
                    } else if j == 0 {
                        assert(after[i] == before[i - 1]);
                    } else {
                        assert(after[i] == before[i - 1]);
                        assert(after[j] == before[j - 1]);
                    }
                }
            }
        }
    }

    /// Clicking a colour of the history loads it into the picker: the hex
    /// field shows it without its leading '#'s, the channels take its bytes
    /// (grey 128 each when it does not parse), and the status says so.
    pub fn load_history_color(&mut self, color: &str)
        requires
            hex_color_sliceable(color@),
        ensures
            final(self).color_hex@ == trim_start_char(color@, '#'),
            match hex_color_value(color@) {
                Some((r, g, b)) => final(self).color_r == r && final(self).color_g == g && final(self).color_b == b,
                None => final(self).color_r == 128 && final(self).color_g == 128 && final(self).color_b == 128,
            },
            final(self).status_message@ == "Color loaded"@,
            final(self).color_a == old(self).color_a,
            final(self).color_history == old(self).color_history,
            final(self).uuid_history == old(self).uuid_history,
            final(self).handle_history == old(self).handle_history,
    {
        let hex = trim_start_of(color, '#');
        proof {
            lemma_trim_start_char_idempotent(color@, '#');
        }
        let (r, g, b) = match parse_hex_color(hex.as_str()) {
            Some(c) => c,
            None => (128u8, 128u8, 128u8),
        };
        self.color_r = r;
        self.color_g = g;
        self.color_b = b;
        self.color_hex = hex;
        self.status_message = String::from_str("Color loaded");
    }

    /// Leaving the hex field: a valid colour there sets the red, green and
    /// blue channels; anything else leaves them.
    pub fn apply_hex_input(&mut self)
        requires
            hex_color_sliceable(old(self).color_hex@),
        ensures
            match hex_color_value(old(self).color_hex@) {
                Some((r, g, b)) => final(self).color_r == r && final(self).color_g == g && final(self).color_b == b,
                None => final(self).color_r == old(self).color_r && final(self).color_g == old(self).color_g
                    && final(self).color_b == old(self).color_b,
            },
            final(self).color_hex == old(self).color_hex,
            final(self).color_a == old(self).color_a,
            final(self).color_history == old(self).color_history,
            final(self).uuid_history == old(self).uuid_history,
            final(self).handle_history == old(self).handle_history,
    {
        match parse_hex_color(self.color_hex.as_str()) {
            Some((r, g, b)) => {
                self.color_r = r;
                self.color_g = g;
                self.color_b = b;
            },
            None => {},
        }
    }

    /// A colour chosen by the slider or the screen sampler: the channels and
    /// the hex text follow it.
    pub fn set_rgb(&mut self, r: u8, g: u8, b: u8)
        ensures
            final(self).color_r == r && final(self).color_g == g && final(self).color_b == b,
            final(self).color_hex@ == rgb_hex_text(r, g, b),
            final(self).color_a == old(self).color_a,
            final(self).color_history == old(self).color_history,
            final(self).uuid_history == old(self).uuid_history,
            final(self).handle_history == old(self).handle_history,
    {
        self.color_r = r;
        self.color_g = g;
        self.color_b = b;
        self.color_hex = rgb_to_hex(r, g, b);
    }

    /// The copy button of the generated UUID: the UUID as shown, and the
    /// status "Copied!"; nothing while none was generated.
    pub fn copy_uuid(&mut self) -> (text: Option<String>)
        ensures
            old(self).generated_uuid@.len() == 0 ==> text is None && final(self).status_message
                == old(self).status_message,
            old(self).generated_uuid@.len() > 0 ==> (text matches Some(t) && t@ == old(self).generated_uuid@)
                && final(self).status_message@ == "Copied!"@,
            final(self).generated_uuid == old(self).generated_uuid,
            final(self).uuid_history == old(self).uuid_history,
            final(self).handle_history == old(self).handle_history,
            final(self).color_history == old(self).color_history,
    {
        if self.generated_uuid.as_str().is_empty() {
            None
        } else {
            self.status_message = String::from_str("Copied!");
            Some(self.generated_uuid.clone())
        }
    }

    /// The copy button of the generated handle: the handle with its "h", and
    /// the status "Copied!"; nothing while none was generated.
    pub fn copy_handle(&mut self) -> (text: Option<String>)
        ensures
            old(self).generated_handle@.len() == 0 ==> text is None && final(self).status_message
                == old(self).status_message,
            old(self).generated_handle@.len() > 0 ==> (text matches Some(t) && t@ == seq!['h']
                + old(self).generated_handle@) && final(self).status_message@ == "Copied!"@,
            final(self).generated_handle == old(self).generated_handle,
            final(self).uuid_history == old(self).uuid_history,
            final(self).handle_history == old(self).handle_history,
            final(self).color_history == old(self).color_history,
    {
        if self.generated_handle.as_str().is_empty() {
            None
        } else {
            let mut t = String::new();
            push_char(&mut t, 'h');
            push_str(&mut t, self.generated_handle.as_str());
            self.status_message = String::from_str("Copied!");
            assert(t@ =~= seq!['h'] + old(self).generated_handle@);
            Some(t)
        }
    }

    /// The screen sampler picked a colour: the picker takes it (see
    /// `set_rgb`) and the status says so.
    pub fn apply_sampled_color(&mut self, r: u8, g: u8, b: u8)
        ensures
            final(self).color_r == r && final(self).color_g == g && final(self).color_b == b,
            final(self).color_hex@ == rgb_hex_text(r, g, b),
            final(self).status_message@ == "Color sampled!"@,
            final(self).color_a == old(self).color_a,
            final(self).color_history == old(self).color_history,
            final(self).uuid_history == old(self).uuid_history,
            final(self).handle_history == old(self).handle_history,
    {
        self.set_rgb(r, g, b);
        self.status_message = String::from_str("Color sampled!");
    }

    /// The copy button beside the hex field: the text copied is the hex
    /// value with a '#' in front; the status says so.
    pub fn copy_hex(&mut self) -> (text: String)
        ensures
            text@ == seq!['#'] + old(self).color_hex@,
            final(self).status_message@ == "Copied hex!"@,
            final(self).color_hex == old(self).color_hex,
            final(self).color_r == old(self).color_r && final(self).color_g == old(self).color_g
                && final(self).color_b == old(self).color_b,
            final(self).color_history == old(self).color_history,
            final(self).uuid_history == old(self).uuid_history,
            final(self).handle_history == old(self).handle_history,
    {
        let mut text = String::new();
        push_char(&mut text, '#');
        push_str(&mut text, self.color_hex.as_str());
        self.status_message = String::from_str("Copied hex!");
        assert(text@ =~= seq!['#'] + old(self).color_hex@);
        text
    }

    /// The copy button beside the RGB values: the text copied is the three
    /// channels as the picker shows them; the status says so.
    pub fn copy_rgb(&mut self) -> (text: String)
        ensures
            text@ == rgb_triple_text(old(self).color_r, old(self).color_g, old(self).color_b),
            final(self).status_message@ == "Copied RGB!"@,
            final(self).color_hex == old(self).color_hex,
            final(self).color_r == old(self).color_r && final(self).color_g == old(self).color_g
                && final(self).color_b == old(self).color_b,
            final(self).color_history == old(self).color_history,
            final(self).uuid_history == old(self).uuid_history,
            final(self).handle_history == old(self).handle_history,
    {
        let text = rgb_triple(self.color_r, self.color_g, self.color_b);
        self.status_message = String::from_str("Copied RGB!");
        text
    }

    /// The "Parse" button of the version calculator: a valid Int64 in the
    /// field sets the four fields and reports them; anything else reports
    /// "Invalid number".
    pub fn parse_version(&mut self)
        ensures
            match u64_from_decimal(trimmed(old(self).version_int@)) {
                Some(v) => {
                    let (a, b, c, d) = unpacked_version(v as u64);
                    &&& final(self).version_major == a
                    &&& final(self).version_minor == b
                    &&& final(self).version_patch == c
                    &&& final(self).version_build == d
                    &&& final(self).status_message@ == "Parsed: "@ + version_text(a, b, c, d)
                },
                None => {
                    &&& final(self).version_major == old(self).version_major
                    &&& final(self).version_minor == old(self).version_minor
                    &&& final(self).version_patch == old(self).version_patch
                    &&& final(self).version_build == old(self).version_build
                    &&& final(self).status_message@ == "Invalid number"@
                },
            },
            final(self).version_int == old(self).version_int,
            final(self).uuid_history == old(self).uuid_history,
            final(self).handle_history == old(self).handle_history,
            final(self).color_history == old(self).color_history,
    {
        match parse_version_input(self.version_int.as_str()) {
            Some((a, b, c, d)) => {
                self.version_major = a;
                self.version_minor = b;
                self.version_patch = c;
                self.version_build = d;
                let mut msg = String::from_str("Parsed: ");
                let text = format_version(a, b, c, d);
                push_str(&mut msg, text.as_str());
                self.status_message = msg;
            },
            None => {
                self.status_message = String::from_str("Invalid number");
            },
        }
    }

    /// The "Copy Int64" button: the packed version number, in decimal, goes to
    /// the Int64 field (and is returned for the clipboard).
    pub fn copy_int64(&mut self) -> (text: String)
        ensures
            text@ == decimal(packed_version(old(self).version_major, old(self).version_minor,
                old(self).version_patch, old(self).version_build) as nat),
            final(self).version_int == text,
            final(self).status_message@ == "Copied Int64!"@,
            final(self).version_major == old(self).version_major,
            final(self).version_minor == old(self).version_minor,
            final(self).version_patch == old(self).version_patch,
            final(self).version_build == old(self).version_build,
            final(self).uuid_history == old(self).uuid_history,
            final(self).handle_history == old(self).handle_history,
            final(self).color_history == old(self).color_history,
    {
        let v = version_to_int(self.version_major, self.version_minor, self.version_patch, self.version_build);
        let text = u64_to_decimal(v);
        self.version_int = text.clone();
        self.status_message = String::from_str("Copied Int64!");
        text
    }

    /// The JSON text "Export History" writes: the UUIDs, the handles (each
    /// with "h" in front) and the colours.
    pub fn history_export_text(&self) -> (s: String)
        ensures
            s@ == json_string_lists_pretty(
                history_members(
                    string_views(self.uuid_history@),
                    prefixed_handles(self.handle_history@),
                    string_views(self.color_history@),
                ),
            ),
    {
        let handles = prefix_handles(&self.handle_history);
        let mut members: Vec<(String, Vec<String>)> = Vec::new();
        members.push((String::from_str("uuids"), self.uuid_history.clone()));
        members.push((String::from_str("handles"), handles));
        members.push((String::from_str("colors"), self.color_history.clone()));
        assert(member_views(members@) =~= history_members(
            string_views(self.uuid_history@),
            prefixed_handles(self.handle_history@),
            string_views(self.color_history@),
        ));
        json_string_lists_text(&members)
    }

    /// Reports how writing the exported history went.
    pub fn finish_export(&mut self, result: Result<(), String>)
        ensures
            match result {
                Ok(_) => final(self).status_message@ == "Exported successfully!"@,
                Err(e) => final(self).status_message@ == "Export failed: "@ + e@,
            },
            final(self).uuid_history == old(self).uuid_history,
            final(self).handle_history == old(self).handle_history,
            final(self).color_history == old(self).color_history,
    {
        match result {
            Ok(_) => {
                self.status_message = String::from_str("Exported successfully!");
            },
            Err(e) => {
                let mut m = String::from_str("Export failed: ");
                push_str(&mut m, e.as_str());
                proof {
                    reveal_strlit("Export failed: ");
                }
                self.status_message = m;
            },
        }
    }

    /// "Clear All": empties the three histories and the generated identifiers.
    pub fn clear_all(&mut self)
        ensures
            final(self).wf(),
            final(self).uuid_history@.len() == 0,
            final(self).handle_history@.len() == 0,
            final(self).color_history@.len() == 0,
            final(self).generated_uuid@ == Seq::<char>::empty(),
            final(self).generated_handle@ == Seq::<char>::empty(),
            final(self).status_message@ == "All history cleared"@,
            final(self).color_hex == old(self).color_hex,
            final(self).version_int == old(self).version_int,
    {
        self.uuid_history = Vec::new();
        self.handle_history = Vec::new();
        self.color_history = Vec::new();
        self.generated_uuid = String::new();
        self.generated_handle = String::new();
        self.status_message = String::from_str("All history cleared");
    }
}

} // verus!
