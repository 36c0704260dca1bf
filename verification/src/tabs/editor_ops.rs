//! Editor file operations: which tab a file opens in, how it is loaded,
//! saved, formatted, validated and converted. Reading, writing and the file
//! dialogs are the caller's part.
use vstd::prelude::*;
use crate::state::browser::{conversion_between, conversion_for, is_text_extension, is_text_file, Conversion};
use crate::state::editor::{has_file, is_fresh_tab, is_generated_tab, path_view, tab_display_name, EditorTab, EditorTabsState};
use crate::state::paths::{extension_of, path_extension};
use crate::text::{lowercase, push_str, str_eq, to_lowercase, to_uppercase, uppercase};

verus! {

/// The tab that receives a file being opened: `None` when a tab already
/// holds it (that tab becomes active); the active tab when it is an empty
/// document; otherwise a new tab at the end.
pub fn load_target(state: &mut EditorTabsState, path: &str) -> (target: Option<usize>)
    requires
        old(state).wf(),
        old(state).next_tab_id < u64::MAX,
    ensures
        final(state).wf(),
        has_file(old(state).tabs@, path@) ==> target is None && final(state).tabs == old(state).tabs && path_view(
            final(state).tabs@[final(state).active_tab_index as int].file_path,
        ) == Some(path@),
        !has_file(old(state).tabs@, path@) ==> ({
            let active = old(state).tabs@[old(state).active_tab_index as int];
            if active.file_path is None && active.content@.len() == 0 && !active.modified {
                &&& target == Some(old(state).active_tab_index)
                &&& final(state).tabs == old(state).tabs
                &&& final(state).active_tab_index == old(state).active_tab_index
            } else {
                &&& target == Some(old(state).tabs@.len() as usize)
                &&& final(state).tabs@.len() == old(state).tabs@.len() + 1
                &&& final(state).tabs@.take(old(state).tabs@.len() as int) == old(state).tabs@
                &&& is_fresh_tab(final(state).tabs@.last(), old(state).next_tab_id)
                &&& final(state).active_tab_index == old(state).tabs@.len()
            }
        }),
{
    if state.switch_to_file(path) {
        return None;
    }
    let use_current = match state.active_tab() {
        Some(t) => t.is_empty_document(),
        None => false,
    };
    if use_current {
        Some(state.active_tab_index)
    } else {
        let _ = state.new_tab();
        assert(state.tabs@.take(old(state).tabs@.len() as int) =~= old(state).tabs@);
        Some(state.tabs.len() - 1)
    }
}

/// How a file is read into the editor, by its upper-case extension.
#[derive(Clone, Copy, Debug, PartialEq, Eq, Structural)]
pub enum LoadKind {
    /// LSX: text, shown as formatted XML.
    Xml,
    /// LSJ: text, shown as formatted JSON.
    Json,
    /// LSF: binary, converted to LSX text and shown as formatted XML.
    Lsf,
    /// Anything else: shown as plain text when it is text.
    Plain,
}

/// The load kind of an upper-case extension.
pub open spec fn load_kind_of(format: Seq<char>) -> LoadKind {
    if format == "LSX"@ {
        LoadKind::Xml
    } else if format == "LSJ"@ {
        LoadKind::Json
    } else if format == "LSF"@ {
        LoadKind::Lsf
    } else {
        LoadKind::Plain
    }
}

/// The upper-cased extension of a path ("" without one).
pub open spec fn format_of_path(path: Seq<char>) -> Seq<char> {
    uppercase(
        match path_extension(path) {
            Some(e) => e,
            None => Seq::empty(),
        },
    )
}

/// Starts loading `path` into `tab`: the tab takes the path and its
/// upper-cased extension as format; the result says how to read the file.
pub fn begin_load(tab: &mut EditorTab, path: &str) -> (kind: LoadKind)
    ensures
        final(tab).file_format@ == format_of_path(path@),
        path_view(final(tab).file_path) == Some(path@),
        kind == load_kind_of(format_of_path(path@)),
        final(tab).content == old(tab).content,
        final(tab).modified == old(tab).modified,
        final(tab).converted_from_lsf == old(tab).converted_from_lsf,
        final(tab).id == old(tab).id,
{
    let ext = match extension_of(path) {
        Some(e) => e,
        None => String::new(),
    };
    let format = to_uppercase(ext.as_str());
    proof {
        reveal_strlit("LSX");
        reveal_strlit("LSJ");
        reveal_strlit("LSF");
    }
    let kind = if str_eq(format.as_str(), "LSX") {
        LoadKind::Xml
    } else if str_eq(format.as_str(), "LSJ") {
        LoadKind::Json
    } else if str_eq(format.as_str(), "LSF") {
        LoadKind::Lsf
    } else {
        LoadKind::Plain
    };
    tab.file_format = format;
    tab.file_path = Some(String::from_str(path));
    kind
}

/// Files larger than this many bytes are shown as read, without formatting.
pub const FORMAT_LIMIT_BYTES: usize = 500000;

/// Whether loaded text of this kind is formatted before it is shown: XML
/// and JSON (LSF included) up to the size limit; plain text never.
pub fn formats_on_load(kind: LoadKind, text: &str) -> (b: bool)
    ensures
        b == (kind != LoadKind::Plain && text.len() <= FORMAT_LIMIT_BYTES),
{
    match kind {
        LoadKind::Plain => false,
        _ => text.len() <= FORMAT_LIMIT_BYTES,
    }
}

/// Ends loading: the text to show (already formatted where
/// `formats_on_load` said so), or `None` when the file could not be read or
/// converted. A shown text leaves the tab unmodified and records whether it
/// came from LSF; a failure empties the content, or, for plain files, says
/// the file is binary.
pub fn finish_load(tab: &mut EditorTab, kind: LoadKind, shown: Option<String>)
    ensures
        match shown {
            Some(t) => final(tab).content@ == t@ && !final(tab).modified && final(tab).converted_from_lsf == (kind
                == LoadKind::Lsf),
            None => final(tab).content@ == (if kind == LoadKind::Plain {
                "[Binary file - cannot display]"@
            } else {
                Seq::<char>::empty()
            }) && final(tab).modified == old(tab).modified && final(tab).converted_from_lsf
                == old(tab).converted_from_lsf,
        },
        final(tab).file_path == old(tab).file_path,
        final(tab).file_format == old(tab).file_format,
        final(tab).id == old(tab).id,
{
    match shown {
        Some(t) => {
            tab.content = t;
            tab.modified = false;
            tab.converted_from_lsf = kind == LoadKind::Lsf;
        },
        None => {
            tab.content = match kind {
                LoadKind::Plain => String::from_str("[Binary file - cannot display]"),
                _ => String::new(),
            };
        },
    }
}

/// Records a save of the tab's content to its path: a successful write
/// leaves the tab unmodified; a failed one changes nothing.
pub fn finish_save(tab: &mut EditorTab, written: bool)
    ensures
        written ==> !final(tab).modified,
        !written ==> final(tab).modified == old(tab).modified,
        final(tab).content == old(tab).content,
        final(tab).file_path == old(tab).file_path,
        final(tab).file_format == old(tab).file_format,
{
    if written {
        tab.modified = false;
    }
}

/// Records "Save As" to `path`: after a successful write the tab holds that
/// path, is unmodified and no longer marked as converted, and takes the
/// path's upper-cased extension as format when it has one.
pub fn finish_save_as(tab: &mut EditorTab, path: &str, written: bool)
    ensures
        written ==> path_view(final(tab).file_path) == Some(path@) && !final(tab).modified
            && !final(tab).converted_from_lsf && final(tab).file_format@ == match path_extension(path@) {
            Some(e) => uppercase(e),
            None => old(tab).file_format@,
        },
        !written ==> final(tab).file_path == old(tab).file_path && final(tab).modified == old(tab).modified
            && final(tab).file_format == old(tab).file_format,
        final(tab).content == old(tab).content,
{
    if written {
        tab.file_path = Some(String::from_str(path));
        tab.modified = false;
        tab.converted_from_lsf = false;
        match extension_of(path) {
            Some(e) => {
                tab.file_format = to_uppercase(e.as_str());
            },
            None => {},
        }
    }
}

/// What "Format" does with the tab's content.
#[derive(Clone, Copy, Debug, PartialEq, Eq, Structural)]
pub enum FormatPlan {
    /// Nothing: the content is empty.
    Nothing,
    /// Format as XML (LSX and LSF).
    Xml,
    /// Format as JSON (LSJ).
    Json,
    /// Keep the text as it is (other formats), still marking the tab modified.
    Unchanged,
}

/// The format plan for content of a format (any case).
pub open spec fn format_plan_of(content: Seq<char>, format: Seq<char>) -> FormatPlan {
    let f = uppercase(format);
    if content.len() == 0 {
        FormatPlan::Nothing
    } else if f == "LSX"@ || f == "LSF"@ {
        FormatPlan::Xml
    } else if f == "LSJ"@ {
        FormatPlan::Json
    } else {
        FormatPlan::Unchanged
    }
}

/// The plan of "Format" for the tab.
pub fn format_plan(tab: &EditorTab) -> (p: FormatPlan)
    ensures
        p == format_plan_of(tab.content@, tab.file_format@),
{
    if tab.content.as_str().is_empty() {
        return FormatPlan::Nothing;
    }
    let f = to_uppercase(tab.file_format.as_str());
    proof {
        reveal_strlit("LSX");
        reveal_strlit("LSJ");
        reveal_strlit("LSF");
    }
    if str_eq(f.as_str(), "LSX") || str_eq(f.as_str(), "LSF") {
        FormatPlan::Xml
    } else if str_eq(f.as_str(), "LSJ") {
        FormatPlan::Json
    } else {
        FormatPlan::Unchanged
    }
}

/// Puts the formatted text in the tab and marks it modified.
pub fn apply_formatted(tab: &mut EditorTab, text: String)
    ensures
        final(tab).content@ == text@,
        final(tab).modified,
        final(tab).file_path == old(tab).file_path,
        final(tab).file_format == old(tab).file_format,
{
    tab.content = text;
    tab.modified = true;
}

/// What the XML parser (roxmltree `Document::parse`) reports for a text:
/// `None` when it parses, otherwise the error's text.
pub uninterp spec fn xml_parse_error(text: Seq<char>) -> Option<Seq<char>>;

/// What the JSON parser (serde_json `from_str::<Value>`) reports for a
/// text: `None` when it parses, otherwise the error's text.
pub uninterp spec fn json_parse_error(text: Seq<char>) -> Option<Seq<char>>;

/// Checks that a text is well-formed XML (roxmltree `Document::parse`); the
/// error is rendered as text. The contract names the outcome: XML's grammar
/// is the parser's.
#[verifier::external_body]
fn check_xml(text: &str) -> (r: Result<(), String>)
    ensures
        match r {
            Ok(_) => xml_parse_error(text@) is None,
            Err(e) => xml_parse_error(text@) == Some(e@),
        },
{
    match roxmltree::Document::parse(text) {
        Ok(_) => Ok(()),
        Err(e) => Err(e.to_string()),
    }
}

/// Checks that a text is well-formed JSON (serde_json `from_str` into a
/// `Value`); the error is rendered as text. The contract names the outcome.
#[verifier::external_body]
fn check_json(text: &str) -> (r: Result<(), String>)
    ensures
        match r {
            Ok(_) => json_parse_error(text@) is None,
            Err(e) => json_parse_error(text@) == Some(e@),
        },
{
    match serde_json::from_str::<serde_json::Value>(text) {
        Ok(_) => Ok(()),
        Err(e) => Err(e.to_string()),
    }
}

/// The status "Validate" reports for content of a format (any case).
pub open spec fn validation_text(content: Seq<char>, format: Seq<char>) -> Seq<char> {
    let f = uppercase(format);
    if content.len() == 0 {
        "No content to validate"@
    } else if f == "LSX"@ || f == "LSF"@ {
        match xml_parse_error(content) {
            None => "Valid XML structure"@,
            Some(e) => "Invalid XML: "@ + e,
        }
    } else if f == "LSJ"@ {
        match json_parse_error(content) {
            None => "Valid JSON structure"@,
            Some(e) => "Invalid JSON: "@ + e,
        }
    } else {
        "Unknown format - skipped validation"@
    }
}

/// Checks the tab's content against its format and returns the status text.
pub fn validate_content(tab: &EditorTab) -> (status: String)
    ensures
        status@ == validation_text(tab.content@, tab.file_format@),
{
    if tab.content.as_str().is_empty() {
        return String::from_str("No content to validate");
    }
    let f = to_uppercase(tab.file_format.as_str());
    proof {
        reveal_strlit("LSX");
        reveal_strlit("LSJ");
        reveal_strlit("LSF");
        reveal_strlit("Invalid XML: ");
        reveal_strlit("Invalid JSON: ");
    }
    if str_eq(f.as_str(), "LSX") || str_eq(f.as_str(), "LSF") {
        match check_xml(tab.content.as_str()) {
            Ok(_) => String::from_str("Valid XML structure"),
            Err(e) => {
                let mut m = String::from_str("Invalid XML: ");
                push_str(&mut m, e.as_str());
                m
            },
        }
    } else if str_eq(f.as_str(), "LSJ") {
        match check_json(tab.content.as_str()) {
            Ok(_) => String::from_str("Valid JSON structure"),
            Err(e) => {
                let mut m = String::from_str("Invalid JSON: ");
                push_str(&mut m, e.as_str());
                m
            },
        }
    } else {
        String::from_str("Unknown format - skipped validation")
    }
}

/// What "Convert" of the tab to a target format needs: the source path, the
/// lower-case target, the title of the save dialog, and the conversion
/// (`None` when the converter has none for the pair: nothing is written).
pub struct ConvertPlan {
    pub source: String,
    pub target: String,
    pub dialog_title: String,
    pub conversion: Option<Conversion>,
}

/// The plan of converting the tab to `target_format` (any case); `None`
/// when the tab has no file.
pub fn convert_plan(tab: &EditorTab, target_format: &str) -> (p: Option<ConvertPlan>)
    ensures
        match tab.file_path {
            None => p is None,
            Some(src) => p matches Some(plan) && plan.source@ == src@ && plan.target@ == lowercase(target_format@)
                && plan.dialog_title@ == "Save as "@ + uppercase(lowercase(target_format@)) + " File"@
                && plan.conversion == conversion_between(lowercase(tab.file_format@), lowercase(target_format@)),
        },
{
    match &tab.file_path {
        None => None,
        Some(src) => {
            let current = to_lowercase(tab.file_format.as_str());
            let target = to_lowercase(target_format);
            let mut title = String::from_str("Save as ");
            let up = to_uppercase(target.as_str());
            push_str(&mut title, up.as_str());
            push_str(&mut title, " File");
            proof {
                reveal_strlit("Save as ");
                reveal_strlit(" File");
            }
            let conversion = conversion_for(current.as_str(), target.as_str());
            Some(ConvertPlan { source: src.clone(), target, dialog_title: title, conversion })
        },
    }
}

/// "Create" of the meta.lsx dialog: a new tab holds the generated text as an
/// unsaved LSX document and becomes active; the dialog closes and the status
/// says so.
pub fn create_meta_tab(state: &mut EditorTabsState, content: String)
    requires
        old(state).wf(),
        old(state).next_tab_id < u64::MAX,
    ensures
        final(state).wf(),
        final(state).tabs@.len() == old(state).tabs@.len() + 1,
        final(state).tabs@.take(old(state).tabs@.len() as int) == old(state).tabs@,
        is_generated_tab(final(state).tabs@.last(), old(state).next_tab_id, content@),
        final(state).active_tab_index == old(state).tabs@.len(),
        final(state).next_tab_id == old(state).next_tab_id + 1,
        final(state).show_line_numbers == old(state).show_line_numbers,
        !final(state).show_meta_dialog,
        final(state).status_message@ == "Created new meta.lsx"@,
{
    state.add_generated_tab(content);
    state.show_meta_dialog = false;
    state.status_message = String::from_str("Created new meta.lsx");
}

/// Whether a dropped file opens in the editor: its extension, in any case,
/// is one of the text formats.
pub open spec fn is_editable_path(path: Seq<char>) -> bool {
    match path_extension(path) {
        Some(e) => is_text_extension(lowercase(e)),
        None => false,
    }
}

/// Executable `is_editable_path`.
pub fn is_editable_file(path: &str) -> (b: bool)
    ensures
        b == is_editable_path(path@),
{
    match extension_of(path) {
        Some(e) => is_text_file(e.as_str()),
        None => false,
    }
}

/// The status-bar texts of a tab: its path ("No file loaded" without one)
/// and the modified mark.
pub fn status_bar_texts(tab: &EditorTab) -> (r: (String, String))
    ensures
        r.0@ == match tab.file_path {
            Some(p) => p@,
            None => "No file loaded"@,
        },
        r.1@ == if tab.modified { "● Modified"@ } else { Seq::<char>::empty() },
{
    let path = match &tab.file_path {
        Some(p) => p.clone(),
        None => String::from_str("No file loaded"),
    };
    let mark = if tab.modified { String::from_str("● Modified") } else { String::new() };
    (path, mark)
}

/// The text of the format badge: "No file" without a format, else
/// "Format: " and the format.
pub open spec fn badge_text(format: Seq<char>) -> Seq<char> {
    if format.len() == 0 { "No file"@ } else { "Format: "@ + format }
}

/// An RGB colour.
pub type Rgb = (u8, u8, u8);

/// The badge's background, border and text colours by format (any case):
/// blue for LSX, purple for LSJ, orange for LSF, grey otherwise.
pub open spec fn badge_colors(format: Seq<char>) -> (Rgb, Rgb, Rgb) {
    let f = uppercase(format);
    if f == "LSX"@ {
        ((227, 242, 253), (33, 150, 243), (25, 118, 210))
    } else if f == "LSJ"@ {
        ((243, 229, 245), (156, 39, 176), (123, 31, 162))
    } else if f == "LSF"@ {
        ((255, 243, 224), (255, 152, 0), (245, 124, 0))
    } else {
        ((240, 240, 240), (200, 200, 200), (100, 100, 100))
    }
}

/// The format badge of a tab's format: its text and colours.
pub fn format_badge(format: &str) -> (r: (String, (Rgb, Rgb, Rgb)))
    ensures
        r.0@ == badge_text(format@),
        r.1 == badge_colors(format@),
{
    let text = if format.is_empty() {
        String::from_str("No file")
    } else {
        let mut t = String::from_str("Format: ");
        push_str(&mut t, format);
        t
    };
    let f = to_uppercase(format);
    proof {
        reveal_strlit("LSX");
        reveal_strlit("LSJ");
        reveal_strlit("LSF");
    }
    let colors = if str_eq(f.as_str(), "LSX") {
        ((227, 242, 253), (33, 150, 243), (25, 118, 210))
    } else if str_eq(f.as_str(), "LSJ") {
        ((243, 229, 245), (156, 39, 176), (123, 31, 162))
    } else if str_eq(f.as_str(), "LSF") {
        ((255, 243, 224), (255, 152, 0), (245, 124, 0))
    } else {
        ((240, 240, 240), (200, 200, 200), (100, 100, 100))
    };
    (text, colors)
}

/// The message beside the editor's toolbar, with its colour: the editor's
/// status message in green when there is one, else, for a tab converted
/// from LSF, the hint to save under another name in grey; nothing without
/// an active tab or when neither applies.
pub open spec fn toolbar_message_of(state: EditorTabsState) -> Option<(Seq<char>, Rgb)> {
    if state.active_tab_index >= state.tabs@.len() {
        None
    } else if state.status_message@.len() > 0 {
        Some((state.status_message@, (76u8, 175u8, 80u8)))
    } else if state.tabs@[state.active_tab_index as int].converted_from_lsf {
        Some(("Converted from LSF - use Save As"@, (100u8, 100u8, 100u8)))
    } else {
        None
    }
}

/// Executable `toolbar_message_of`.
pub fn toolbar_message(state: &EditorTabsState) -> (m: Option<(String, Rgb)>)
    ensures
        match toolbar_message_of(*state) {
            Some((t, c)) => m matches Some((mt, mc)) && mt@ == t && mc == c,
            None => m is None,
        },
{
    match state.active_tab() {
        None => None,
        Some(tab) => {
            if !state.status_message.as_str().is_empty() {
                Some((state.status_message.clone(), (76u8, 175u8, 80u8)))
            } else if tab.converted_from_lsf {
                Some((String::from_str("Converted from LSF - use Save As"), (100u8, 100u8, 100u8)))
            } else {
                None
            }
        },
    }
}

/// The label of a tab in the tab bar: its display name, after "● " when it
/// has unsaved changes.
pub open spec fn tab_label_text(tab: EditorTab) -> Seq<char> {
    let name = tab_display_name(path_view(tab.file_path));
    if tab.modified { "● "@ + name } else { name }
}

/// Executable `tab_label_text`.
pub fn tab_label(tab: &EditorTab) -> (s: String)
    ensures
        s@ == tab_label_text(*tab),
{
    let name = tab.display_name();
    if tab.modified {
        let mut s = String::from_str("● ");
        push_str(&mut s, name.as_str());
        s
    } else {
        name
    }
}

/// An entry of a tab's context menu.
#[derive(Clone, Copy, Debug, PartialEq, Eq, Structural)]
pub enum TabMenuEntry {
    Rename,
    CopyPath,
    Separator,
    CloseTab,
    CloseOthers,
    CloseAll,
}

/// A tab's context menu: renaming and copying the path for a tab with a
/// file, then the three ways of closing tabs.
pub open spec fn tab_menu_entries(has_path: bool) -> Seq<TabMenuEntry> {
    (if has_path {
        seq![TabMenuEntry::Rename, TabMenuEntry::CopyPath, TabMenuEntry::Separator]
    } else {
        seq![]
    }) + seq![TabMenuEntry::CloseTab, TabMenuEntry::CloseOthers, TabMenuEntry::CloseAll]
}

/// The context menu of a tab.
pub fn tab_menu(tab: &EditorTab) -> (m: Vec<TabMenuEntry>)
    ensures
        m@ == tab_menu_entries(tab.file_path is Some),
{
    let mut m: Vec<TabMenuEntry> = Vec::new();
    if tab.file_path.is_some() {
        m.push(TabMenuEntry::Rename);
        m.push(TabMenuEntry::CopyPath);
        m.push(TabMenuEntry::Separator);
    }
    m.push(TabMenuEntry::CloseTab);
    m.push(TabMenuEntry::CloseOthers);
    m.push(TabMenuEntry::CloseAll);
    assert(m@ =~= tab_menu_entries(tab.file_path is Some));
    m
}

/// The text of a tab menu entry (empty for the separator).
pub open spec fn tab_menu_text(e: TabMenuEntry) -> Seq<char> {
    match e {
        TabMenuEntry::Rename => "Rename..."@,
        TabMenuEntry::CopyPath => "Copy Path"@,
        TabMenuEntry::Separator => ""@,
        TabMenuEntry::CloseTab => "Close Tab"@,
        TabMenuEntry::CloseOthers => "Close Other Tabs"@,
        TabMenuEntry::CloseAll => "Close All Tabs"@,
    }
}

/// Executable `tab_menu_text`.
pub fn tab_menu_label(e: TabMenuEntry) -> (s: String)
    ensures
        s@ == tab_menu_text(e),
{
    match e {
        TabMenuEntry::Rename => String::from_str("Rename..."),
        TabMenuEntry::CopyPath => String::from_str("Copy Path"),
        TabMenuEntry::Separator => String::from_str(""),
        TabMenuEntry::CloseTab => String::from_str("Close Tab"),
        TabMenuEntry::CloseOthers => String::from_str("Close Other Tabs"),
        TabMenuEntry::CloseAll => String::from_str("Close All Tabs"),
    }
}

} // verus!
