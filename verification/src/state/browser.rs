//! State of the file browser tab: the listed directory, its entries, the
//! filters and sort order of the list, the preview pane and the status line.
//!
//! Reading the directory and the previewed files is the caller's part; the
//! state takes what was read as plain values.
use vstd::prelude::*;
use crate::state::paths::{
    extension_of, join_path, parent_of, path_extension, path_join, path_parent, path_with_extension,
    with_extension_of,
};
use crate::tabs::asset_browser::{format_size, size_text};
use crate::tabs::browser::{
    filter_entries, filtered_entries, is_hidden_name, is_listing_entry, listing_entry,
    listing_totals, sort_files, stably_sorted, FileEntry, SortColumn,
};
use crate::text::{
    boundary_index, boundary_index_of, lemma_boundary_index_le, byte_len, byte_len_total, chars_of, decimal, joined,
    lowercase,
    push_char, push_decimal, push_str, str_eq, to_lowercase, to_uppercase, uppercase,
};

verus! {

/// One item of a directory as the file system reports it.
pub struct DirItem {
    pub name: String,
    pub path: String,
    pub is_dir: bool,
    pub len: u64,
    /// Modification time in seconds after the Unix epoch, when known.
    pub modified_secs: Option<u64>,
}

/// Decoded pixels shown in the preview pane.
pub struct RawImageData {
    pub width: u32,
    pub height: u32,
    pub rgba_data: Vec<u8>,
}

/// Everything the browser tab shows and edits.
pub struct BrowserState {
    pub current_path: Option<String>,
    pub browser_path: String,
    pub selected_index: Option<usize>,
    /// The entries shown, filtered and sorted.
    pub files: Vec<FileEntry>,
    /// Every entry of the listed directory, in listing order.
    pub all_files: Vec<FileEntry>,
    pub search_query: String,
    pub type_filter: String,
    pub preview_content: String,
    pub preview_name: String,
    pub preview_info: String,
    /// A version number that changes with every new preview, and the image.
    pub preview_image: (u64, Option<RawImageData>),
    pub file_count: usize,
    pub folder_count: usize,
    pub total_size: String,
    pub status_message: String,
    pub sort_column: SortColumn,
    pub sort_ascending: bool,
    /// Path of the entry being renamed in place, if any.
    pub renaming_path: Option<String>,
    pub rename_text: String,
}

/// The item is hidden from the listing (its name starts with '.').
pub open spec fn is_hidden_item(i: DirItem) -> bool {
    i.name@.len() > 0 && i.name@[0] == '.'
}

/// The items that are listed, in order.
pub open spec fn visible_items(items: Seq<DirItem>) -> Seq<DirItem> {
    items.filter(|i: DirItem| !is_hidden_item(i))
}

/// Total length of the listed files among `items`.
pub open spec fn listed_bytes(items: Seq<DirItem>) -> nat
    decreases items.len(),
{
    if items.len() == 0 {
        0
    } else {
        let i = items.last();
        let rest = listed_bytes(items.drop_last());
        if !is_hidden_item(i) && !i.is_dir { (rest + i.len) as nat } else { rest }
    }
}

/// Whether the total length of the listed files fits in 64 bits (what
/// `load_listing` needs; the size display adds them up in a `u64`).
pub fn listing_fits(items: &Vec<DirItem>) -> (b: bool)
    ensures
        b == (listed_bytes(items@) <= u64::MAX),
{
    let mut total: u64 = 0;
    let mut i: usize = 0;
    while i < items.len()
        invariant
            i <= items.len(),
            total == listed_bytes(items@.take(i as int)),
        decreases items.len() - i,
    {
        proof {
            assert(items@.take(i + 1).drop_last() =~= items@.take(i as int));
            assert(items@.take(i + 1).last() == items@[i as int]);
        }
        if !items[i].is_dir && !is_hidden_name(items[i].name.as_str()) {
            match total.checked_add(items[i].len) {
                Some(t) => total = t,
                None => {
                    proof {
                        lemma_listed_bytes_grows(items@, (i + 1) as int);
                    }
                    return false;
                },
            }
        }
        i += 1;
    }
    assert(items@.take(items.len() as int) =~= items@);
    true
}

/// The listed bytes of a prefix never exceed those of the whole list.
proof fn lemma_listed_bytes_grows(items: Seq<DirItem>, k: int)
    requires
        0 <= k <= items.len(),
    ensures
        listed_bytes(items.take(k)) <= listed_bytes(items),
    decreases items.len() - k,
{
    if k < items.len() {
        lemma_listed_bytes_grows(items, k + 1);
        assert(items.take(k + 1).drop_last() =~= items.take(k));
    } else {
        assert(items.take(k) =~= items);
    }
}

/// `entries` is the listing of `items`: one entry per listed item, in order.
pub open spec fn is_listing_of(entries: Seq<FileEntry>, items: Seq<DirItem>) -> bool {
    let vis = visible_items(items);
    &&& entries.len() == vis.len()
    &&& forall|k: int|
        0 <= k < entries.len() ==> #[trigger] is_listing_entry(
            entries[k],
            vis[k].name@,
            vis[k].path@,
            vis[k].is_dir,
            vis[k].len,
            vis[k].modified_secs,
        )
}

proof fn lemma_listed_bytes_prefix_le(s: Seq<DirItem>, k: int)
    requires
        0 <= k <= s.len(),
    ensures
        listed_bytes(s.subrange(0, k)) <= listed_bytes(s),
    decreases s.len() - k,
{
    if k < s.len() {
        lemma_listed_bytes_prefix_le(s, k + 1);
        assert(s.subrange(0, k + 1).drop_last() =~= s.subrange(0, k));
    } else {
        assert(s.subrange(0, k) =~= s);
    }
}

/// Every entry of a listing is counted once, as a file or as a folder.
pub proof fn lemma_listing_counts(entries: Seq<FileEntry>)
    ensures
        listing_totals(entries).0 + listing_totals(entries).1 == entries.len(),
    decreases entries.len(),
{
    if entries.len() > 0 {
        lemma_listing_counts(entries.drop_last());
    }
}

/// A copy of a list of entries.
pub fn duplicate_entries(v: &Vec<FileEntry>) -> (r: Vec<FileEntry>)
    ensures
        r@ == v@,
{
    let mut r: Vec<FileEntry> = Vec::new();
    let mut i: usize = 0;
    while i < v.len()
        invariant
            i <= v.len(),
            r@ == v@.subrange(0, i as int),
        decreases v.len() - i,
    {
        r.push(v[i].duplicate());
        i += 1;
    }
    assert(v@.subrange(0, v.len() as int) =~= v@);
    r
}

/// The label of a sortable column header: the name, with an arrow for the
/// sort direction on the column the list is sorted by.
pub open spec fn header_text(name: Seq<char>, column: SortColumn, current: SortColumn, ascending: bool) -> Seq<char> {
    if current == column {
        if ascending { name + " ▲"@ } else { name + " ▼"@ }
    } else {
        name
    }
}

/// Text of a sortable column header.
pub fn header_label(name: &str, column: SortColumn, current: SortColumn, ascending: bool) -> (s: String)
    ensures
        s@ == header_text(name@, column, current, ascending),
{
    let mut s = String::from_str(name);
    if current == column {
        if ascending {
            push_str(&mut s, " ▲");
        } else {
            push_str(&mut s, " ▼");
        }
    }
    proof {
        reveal_strlit(" ▲");
        reveal_strlit(" ▼");
    }
    s
}

/// Number of bytes of a text file that the preview shows before it cuts.
pub const PREVIEW_BYTE_LIMIT: usize = 5000;

/// The preview of a text file's content: the content itself, or, when it is
/// longer than the limit in bytes, its first bytes and a note with the full
/// length.
pub open spec fn preview_text(content: Seq<char>) -> Seq<char> {
    if byte_len(content) > PREVIEW_BYTE_LIMIT {
        match boundary_index(content, PREVIEW_BYTE_LIMIT as nat) {
            Some(i) => content.subrange(0, i as int) + "...\n\n[Truncated - "@ + decimal(byte_len(content))
                + " bytes total]"@,
            None => content,
        }
    } else {
        content
    }
}

/// Text shown for a previewed text file.
pub fn text_preview(content: &str) -> (s: String)
    requires
        byte_len(content@) <= usize::MAX,
        byte_len(content@) > PREVIEW_BYTE_LIMIT ==> boundary_index(content@, PREVIEW_BYTE_LIMIT as nat) is Some,
    ensures
        s@ == preview_text(content@),
{
    let v = chars_of(content);
    let n = byte_len_total(&v);
    if n > PREVIEW_BYTE_LIMIT {
        assert(v@.subrange(0, v.len() as int) =~= v@);
        let cut = boundary_index_of(&v, 0, v.len(), PREVIEW_BYTE_LIMIT);
        let i = match cut {
            Some(i) => i,
            None => 0,
        };
        proof {
            let b = boundary_index(content@, PREVIEW_BYTE_LIMIT as nat);
            assert(b is Some);
            lemma_boundary_index_le(content@, PREVIEW_BYTE_LIMIT as nat);
            assert(v@.subrange(0, v.len() as int) == content@);
            assert(cut == Some(b.unwrap() as usize));
            assert(i as nat == b.unwrap());
            lemma_boundary_index_le(content@, PREVIEW_BYTE_LIMIT as nat);
        }
        let mut s = String::new();
        let mut k: usize = 0;
        while k < i
            invariant
                k <= i <= v.len(),
                s@ == v@.subrange(0, k as int),
            decreases i - k,
        {
            push_char(&mut s, v[k]);
            k += 1;
            assert(s@ =~= v@.subrange(0, k as int));
        }
        push_str(&mut s, "...\n\n[Truncated - ");
        push_decimal(&mut s, n as u128);
        push_str(&mut s, " bytes total]");
        s
    } else {
        String::from_str(content)
    }
}

/// Number of archive entries the preview of a PAK file lists.
pub const PAK_PREVIEW_ENTRIES: usize = 50;

/// The preview of a PAK archive: its number of files, then the first names.
pub open spec fn pak_preview_text(names: Seq<String>) -> Seq<char> {
    "PAK Archive: "@ + decimal(names.len()) + " files\n\n"@ + joined(
        names.take(if names.len() < PAK_PREVIEW_ENTRIES { names.len() as int } else { PAK_PREVIEW_ENTRIES as int }).map_values(|n: String| n@),
        "\n"@,
    )
}

/// Text shown for a listed PAK archive.
pub fn pak_preview(names: &Vec<String>) -> (s: String)
    ensures
        s@ == pak_preview_text(names@),
{
    let mut s = String::from_str("PAK Archive: ");
    push_decimal(&mut s, names.len() as u128);
    push_str(&mut s, " files\n\n");
    let ghost head = s@;
    let shown: usize = if names.len() < PAK_PREVIEW_ENTRIES { names.len() } else { PAK_PREVIEW_ENTRIES };
    let ghost lines = names@.take(shown as int).map_values(|n: String| n@);
    let mut k: usize = 0;
    while k < shown
        invariant
            k <= shown <= names.len(),
            lines == names@.take(shown as int).map_values(|n: String| n@),
            s@ == head + joined(lines.take(k as int), "\n"@),
        decreases shown - k,
    {
        proof {
            assert(lines.take(k + 1).drop_last() =~= lines.take(k as int));
            assert(lines.take(k + 1).last() == names@[k as int]@);
        }
        if k > 0 {
            push_str(&mut s, "\n");
        } else {
            assert(lines.take(0) =~= Seq::<Seq<char>>::empty());
        }
        push_str(&mut s, names[k].as_str());
        k += 1;
        proof {
            if k == 1 {
                assert(s@ =~= head + joined(lines.take(k as int), "\n"@));
            } else {
                assert(s@ =~= head + joined(lines.take(k as int), "\n"@));
            }
        }
    }
    proof {
        reveal_strlit("PAK Archive: ");
        reveal_strlit(" files\n\n");
        assert(lines.take(shown as int) =~= lines);
    }
    s
}

/// Formats of the text-based resource files a file converts between.
#[derive(Clone, Copy, Debug, PartialEq, Eq, Structural)]
pub enum ResourceFormat {
    Lsx,
    Lsf,
    Lsj,
}

/// The format with the given lower-case extension.
pub open spec fn format_of_extension(ext: Seq<char>) -> Option<ResourceFormat> {
    if ext == "lsx"@ {
        Some(ResourceFormat::Lsx)
    } else if ext == "lsf"@ {
        Some(ResourceFormat::Lsf)
    } else if ext == "lsj"@ {
        Some(ResourceFormat::Lsj)
    } else {
        None
    }
}

/// Executable `format_of_extension`.
pub fn format_for_extension(ext: &str) -> (f: Option<ResourceFormat>)
    ensures
        f == format_of_extension(ext@),
{
    proof {
        reveal_strlit("lsx");
        reveal_strlit("lsf");
        reveal_strlit("lsj");
    }
    if str_eq(ext, "lsx") {
        Some(ResourceFormat::Lsx)
    } else if str_eq(ext, "lsf") {
        Some(ResourceFormat::Lsf)
    } else if str_eq(ext, "lsj") {
        Some(ResourceFormat::Lsj)
    } else {
        None
    }
}

/// The extensions (lower case) of files the editor opens as text.
pub open spec fn is_text_extension(ext_lower: Seq<char>) -> bool {
    ||| ext_lower == "lsf"@
    ||| ext_lower == "lsx"@
    ||| ext_lower == "lsj"@
    ||| ext_lower == "txt"@
    ||| ext_lower == "xml"@
    ||| ext_lower == "json"@
    ||| ext_lower == "lua"@
    ||| ext_lower == "md"@
    ||| ext_lower == "cfg"@
    ||| ext_lower == "ini"@
    ||| ext_lower == "yaml"@
    ||| ext_lower == "yml"@
    ||| ext_lower == "toml"@
}

/// Whether a file with this extension (any case) opens in the editor.
pub fn is_text_file(ext: &str) -> (b: bool)
    ensures
        b == is_text_extension(lowercase(ext@)),
{
    let e = to_lowercase(ext);
    let t = e.as_str();
    str_eq(t, "lsf") || str_eq(t, "lsx") || str_eq(t, "lsj") || str_eq(t, "txt") || str_eq(t, "xml")
        || str_eq(t, "json") || str_eq(t, "lua") || str_eq(t, "md") || str_eq(t, "cfg") || str_eq(t, "ini")
        || str_eq(t, "yaml") || str_eq(t, "yml") || str_eq(t, "toml")
}

/// What a double click on an entry does.
pub enum OpenAction {
    /// List this directory.
    ListDirectory(String),
    /// Open this file in the editor tab.
    OpenInEditor(String),
    /// Nothing (the preview already shows the file).
    Nothing,
}

/// The action of a double click: folders are listed, text files open in the
/// editor, other files do nothing.
pub fn open_action(file: &FileEntry) -> (a: OpenAction)
    ensures
        file.is_dir ==> (a matches OpenAction::ListDirectory(p) && p@ == file.path@),
        !file.is_dir && is_text_extension(lowercase(file.extension@)) ==> (a matches OpenAction::OpenInEditor(p)
            && p@ == file.path@),
        !file.is_dir && !is_text_extension(lowercase(file.extension@)) ==> a is Nothing,
{
    if file.is_dir {
        OpenAction::ListDirectory(file.path.clone())
    } else if is_text_file(file.extension.as_str()) {
        OpenAction::OpenInEditor(file.path.clone())
    } else {
        OpenAction::Nothing
    }
}

/// One line of an entry's context menu.
#[derive(Clone, Copy, Debug, PartialEq, Eq, Structural)]
pub enum MenuEntry {
    OpenInEditor,
    ShowInFinder,
    CopyPath,
    Rename,
    ConvertTo(ResourceFormat),
    /// Delete the entry; `true` for a folder.
    Delete(bool),
    Separator,
}

/// The conversion lines offered for a file of the given lower-case
/// extension: to each of the other two formats, in the order LSX, LSF, LSJ.
pub open spec fn convert_entries(ext_lower: Seq<char>) -> Seq<MenuEntry> {
    if format_of_extension(ext_lower) is Some {
        seq![MenuEntry::Separator]
            + (if ext_lower != "lsx"@ { seq![MenuEntry::ConvertTo(ResourceFormat::Lsx)] } else { seq![] })
            + (if ext_lower != "lsf"@ { seq![MenuEntry::ConvertTo(ResourceFormat::Lsf)] } else { seq![] })
            + (if ext_lower != "lsj"@ { seq![MenuEntry::ConvertTo(ResourceFormat::Lsj)] } else { seq![] })
    } else {
        seq![]
    }
}

/// The context menu of an entry: "Open in Editor" for text files, then the
/// path actions, "Rename", the conversions for resource files and "Delete".
pub open spec fn context_menu_entries(is_dir: bool, ext: Seq<char>) -> Seq<MenuEntry> {
    let ext_lower = lowercase(ext);
    (if !is_dir && is_text_extension(ext_lower) {
        seq![MenuEntry::OpenInEditor, MenuEntry::Separator]
    } else {
        seq![]
    }) + seq![MenuEntry::ShowInFinder, MenuEntry::CopyPath, MenuEntry::Separator, MenuEntry::Rename]
        + (if !is_dir { convert_entries(ext_lower) } else { seq![] }) + seq![
        MenuEntry::Separator,
        MenuEntry::Delete(is_dir),
    ]
}

/// The lines of an entry's context menu.
pub fn context_menu(file: &FileEntry) -> (m: Vec<MenuEntry>)
    ensures
        m@ == context_menu_entries(file.is_dir, file.extension@),
{
    let mut m: Vec<MenuEntry> = Vec::new();
    let text = !file.is_dir && is_text_file(file.extension.as_str());
    if text {
        m.push(MenuEntry::OpenInEditor);
        m.push(MenuEntry::Separator);
    }
    m.push(MenuEntry::ShowInFinder);
    m.push(MenuEntry::CopyPath);
    m.push(MenuEntry::Separator);
    m.push(MenuEntry::Rename);
    let ghost before = m@;
    if !file.is_dir {
        let lower = to_lowercase(file.extension.as_str());
        let l = lower.as_str();
        let fmt = format_for_extension(l);
        if fmt.is_some() {
            m.push(MenuEntry::Separator);
            if !str_eq(l, "lsx") {
                m.push(MenuEntry::ConvertTo(ResourceFormat::Lsx));
            }
            if !str_eq(l, "lsf") {
                m.push(MenuEntry::ConvertTo(ResourceFormat::Lsf));
            }
            if !str_eq(l, "lsj") {
                m.push(MenuEntry::ConvertTo(ResourceFormat::Lsj));
            }
        }
        assert(m@ =~= before + convert_entries(lowercase(file.extension@)));
    } else {
        assert(m@ =~= before + seq![]);
    }
    m.push(MenuEntry::Separator);
    m.push(MenuEntry::Delete(file.is_dir));
    assert(m@ =~= context_menu_entries(file.is_dir, file.extension@));
    m
}

/// The text of a context-menu line (separators have none).
pub open spec fn menu_text(e: MenuEntry) -> Seq<char> {
    match e {
        MenuEntry::OpenInEditor => "Open in Editor"@,
        MenuEntry::ShowInFinder => "Show in Finder"@,
        MenuEntry::CopyPath => "Copy Path"@,
        MenuEntry::Rename => "Rename"@,
        MenuEntry::ConvertTo(ResourceFormat::Lsx) => "Convert to LSX"@,
        MenuEntry::ConvertTo(ResourceFormat::Lsf) => "Convert to LSF"@,
        MenuEntry::ConvertTo(ResourceFormat::Lsj) => "Convert to LSJ"@,
        MenuEntry::Delete(true) => "Delete folder"@,
        MenuEntry::Delete(false) => "Delete file"@,
        MenuEntry::Separator => Seq::empty(),
    }
}

/// Text of a context-menu line.
pub fn menu_label(e: MenuEntry) -> (s: String)
    ensures
        s@ == menu_text(e),
{
    match e {
        MenuEntry::OpenInEditor => String::from_str("Open in Editor"),
        MenuEntry::ShowInFinder => String::from_str("Show in Finder"),
        MenuEntry::CopyPath => String::from_str("Copy Path"),
        MenuEntry::Rename => String::from_str("Rename"),
        MenuEntry::ConvertTo(ResourceFormat::Lsx) => String::from_str("Convert to LSX"),
        MenuEntry::ConvertTo(ResourceFormat::Lsf) => String::from_str("Convert to LSF"),
        MenuEntry::ConvertTo(ResourceFormat::Lsj) => String::from_str("Convert to LSJ"),
        MenuEntry::Delete(true) => String::from_str("Delete folder"),
        MenuEntry::Delete(false) => String::from_str("Delete file"),
        MenuEntry::Separator => String::new(),
    }
}

/// What the preview pane needs read from disk after a selection.
pub enum PreviewRequest {
    /// Nothing: the preview is complete.
    Nothing,
    /// The text of this file.
    ReadText(String),
    /// The names of the entries of this PAK archive.
    ListPak(String),
    /// The pixels of this DDS texture.
    LoadDds(String),
    /// The pixels of this PNG or JPEG image.
    LoadImage(String),
}

/// The lower-case extensions previewed as text.
pub open spec fn is_preview_text_extension(ext: Seq<char>) -> bool {
    ||| ext == "lsx"@
    ||| ext == "lsj"@
    ||| ext == "xml"@
    ||| ext == "txt"@
    ||| ext == "json"@
    ||| ext == "lua"@
}

/// The version number after `v`, wrapping at the top.
pub open spec fn next_version(v: u64) -> u64 {
    if v == u64::MAX { 0 } else { (v + 1) as u64 }
}

/// What the preview pane shows and asks for after a selection, for a file
/// of the given lower-case extension: the request, and the immediate
/// content (only meaningful when nothing is requested).
pub open spec fn preview_plan(ext: Seq<char>) -> (PreviewRequestKind, Seq<char>) {
    if is_preview_text_extension(ext) {
        (PreviewRequestKind::ReadText, Seq::empty())
    } else if ext == "lsf"@ {
        (PreviewRequestKind::Nothing, "[Binary LSF file - double-click to open in editor]"@)
    } else if ext == "pak"@ {
        (PreviewRequestKind::ListPak, Seq::empty())
    } else if ext == "dds"@ {
        (PreviewRequestKind::LoadDds, Seq::empty())
    } else if ext == "png"@ || ext == "jpg"@ || ext == "jpeg"@ {
        (PreviewRequestKind::LoadImage, Seq::empty())
    } else if ext == "gr2"@ {
        (PreviewRequestKind::Nothing, "[GR2 Model file]"@)
    } else if ext == "wem"@ || ext == "wav"@ {
        (PreviewRequestKind::Nothing, "[Audio file]"@)
    } else {
        (PreviewRequestKind::Nothing, "File type: "@ + uppercase(ext))
    }
}

/// The kind of a `PreviewRequest`, without its path.
pub enum PreviewRequestKind {
    Nothing,
    ReadText,
    ListPak,
    LoadDds,
    LoadImage,
}

/// The kind of a request, and its path where it has one.
pub open spec fn request_parts(r: PreviewRequest) -> (PreviewRequestKind, Option<Seq<char>>) {
    match r {
        PreviewRequest::Nothing => (PreviewRequestKind::Nothing, None),
        PreviewRequest::ReadText(p) => (PreviewRequestKind::ReadText, Some(p@)),
        PreviewRequest::ListPak(p) => (PreviewRequestKind::ListPak, Some(p@)),
        PreviewRequest::LoadDds(p) => (PreviewRequestKind::LoadDds, Some(p@)),
        PreviewRequest::LoadImage(p) => (PreviewRequestKind::LoadImage, Some(p@)),
    }
}

/// A status text for an outcome: `ok` on success, `failed` followed by the
/// error otherwise.
fn outcome_message(result: &Result<(), String>, ok: &str, failed: &str) -> (s: String)
    ensures
        match result {
            Ok(_) => s@ == ok@,
            Err(e) => s@ == failed@ + e@,
        },
{
    match result {
        Ok(_) => String::from_str(ok),
        Err(e) => {
            let mut m = String::from_str(failed);
            push_str(&mut m, e.as_str());
            m
        },
    }
}

/// The path an entry gets when renamed to `new_name`: the new name in the
/// entry's directory ("/" when the path has no parent).
pub fn rename_destination(old_path: &str, new_name: &str) -> (p: String)
    ensures
        p@ == path_join(
            match path_parent(old_path@) {
                Some(d) => d,
                None => "/"@,
            },
            new_name@,
        ),
{
    let dir = match parent_of(old_path) {
        Some(d) => d,
        None => String::from_str("/"),
    };
    join_path(dir.as_str(), new_name)
}

/// A conversion between two resource formats that the converter offers.
#[derive(Clone, Copy, Debug, PartialEq, Eq, Structural)]
pub enum Conversion {
    LsfToLsx,
    LsxToLsf,
    LsxToLsj,
    LsjToLsx,
    LsfToLsj,
    LsjToLsf,
}

/// The conversion from the lower-case source extension to the target
/// extension, if the converter has one.
pub open spec fn conversion_between(src: Seq<char>, target: Seq<char>) -> Option<Conversion> {
    if src == "lsf"@ && target == "lsx"@ {
        Some(Conversion::LsfToLsx)
    } else if src == "lsx"@ && target == "lsf"@ {
        Some(Conversion::LsxToLsf)
    } else if src == "lsx"@ && target == "lsj"@ {
        Some(Conversion::LsxToLsj)
    } else if src == "lsj"@ && target == "lsx"@ {
        Some(Conversion::LsjToLsx)
    } else if src == "lsf"@ && target == "lsj"@ {
        Some(Conversion::LsfToLsj)
    } else if src == "lsj"@ && target == "lsf"@ {
        Some(Conversion::LsjToLsf)
    } else {
        None
    }
}

/// Executable `conversion_between`.
pub fn conversion_for(src: &str, target: &str) -> (c: Option<Conversion>)
    ensures
        c == conversion_between(src@, target@),
{
    proof {
        reveal_strlit("lsx");
        reveal_strlit("lsf");
        reveal_strlit("lsj");
    }
    let (sx, sf, sj) = (str_eq(src, "lsx"), str_eq(src, "lsf"), str_eq(src, "lsj"));
    let (tx, tf, tj) = (str_eq(target, "lsx"), str_eq(target, "lsf"), str_eq(target, "lsj"));
    if sf && tx {
        Some(Conversion::LsfToLsx)
    } else if sx && tf {
        Some(Conversion::LsxToLsf)
    } else if sx && tj {
        Some(Conversion::LsxToLsj)
    } else if sj && tx {
        Some(Conversion::LsjToLsx)
    } else if sf && tj {
        Some(Conversion::LsfToLsj)
    } else if sj && tf {
        Some(Conversion::LsjToLsf)
    } else {
        None
    }
}

/// The selection after an arrow key in a list of `len` rows: down moves to
/// the next row and up to the previous one, staying put at either end;
/// with nothing selected either key selects the first row (when there is
/// one).
pub open spec fn selection_after_arrow(current: Option<usize>, len: usize, down: bool) -> Option<usize> {
    match current {
        Some(i) => if down && i + 1 < len {
            Some((i + 1) as usize)
        } else if !down && i > 0 {
            Some((i - 1) as usize)
        } else {
            current
        },
        None => if len > 0 { Some(0usize) } else { None },
    }
}

/// Executable `selection_after_arrow`.
pub fn arrow_selection(current: Option<usize>, len: usize, down: bool) -> (r: Option<usize>)
    ensures
        r == selection_after_arrow(current, len, down),
{
    match current {
        Some(i) => if down && i < len && i + 1 < len {
            Some(i + 1)
        } else if !down && i > 0 {
            Some(i - 1)
        } else {
            current
        },
        None => if len > 0 { Some(0) } else { None },
    }
}

/// The row a click on the file with `path` selects: the first row holding
/// that path.
pub fn row_index(files: &Vec<FileEntry>, path: &str) -> (r: Option<usize>)
    ensures
        match r {
            Some(i) => i < files@.len() && files@[i as int].path@ == path@ && forall|j: int|
                0 <= j < i ==> (#[trigger] files@[j]).path@ != path@,
            None => forall|j: int| 0 <= j < files@.len() ==> (#[trigger] files@[j]).path@ != path@,
        },
{
    let mut i: usize = 0;
    while i < files.len()
        invariant
            i <= files.len(),
            forall|j: int| 0 <= j < i ==> (#[trigger] files@[j]).path@ != path@,
        decreases files.len() - i,
    {
        if str_eq(files[i].path.as_str(), path) {
            return Some(i);
        }
        i += 1;
    }
    None
}

impl BrowserState {
    /// The state before any directory is listed: nothing shown, sorted by
    /// name ascending, type filter "All".
    pub fn new() -> (s: Self)
        ensures
            s.current_path is None,
            s.browser_path@ == Seq::<char>::empty(),
            s.selected_index is None,
            s.files@.len() == 0,
            s.all_files@.len() == 0,
            s.search_query@ == Seq::<char>::empty(),
            s.type_filter@ == "All"@,
            s.preview_content@ == Seq::<char>::empty(),
            s.preview_name@ == Seq::<char>::empty(),
            s.preview_info@ == Seq::<char>::empty(),
            s.preview_image.0 == 0,
            s.preview_image.1 is None,
            s.file_count == 0,
            s.folder_count == 0,
            s.total_size@ == Seq::<char>::empty(),
            s.status_message@ == Seq::<char>::empty(),
            s.sort_column == SortColumn::Name,
            s.sort_ascending,
            s.renaming_path is None,
            s.rename_text@ == Seq::<char>::empty(),
    {
        BrowserState {
            current_path: None,
            browser_path: String::new(),
            selected_index: None,
            files: Vec::new(),
            all_files: Vec::new(),
            search_query: String::new(),
            type_filter: String::from_str("All"),
            preview_content: String::new(),
            preview_name: String::new(),
            preview_info: String::new(),
            preview_image: (0, None),
            file_count: 0,
            folder_count: 0,
            total_size: String::new(),
            status_message: String::new(),
            sort_column: SortColumn::Name,
            sort_ascending: true,
            renaming_path: None,
            rename_text: String::new(),
        }
    }

    /// Shows the listing of the directory `dir_path`, whose items the file
    /// system reported as `items`: hidden items are left out, the list is
    /// sorted by the current column, the filters are reset, the counts and
    /// the total size are updated, and the selection and preview are cleared.
    pub fn load_listing(&mut self, dir_path: String, items: Vec<DirItem>)
        requires
            listed_bytes(items@) <= u64::MAX,
        ensures
            final(self).current_path == Some(dir_path),
            is_listing_of(final(self).all_files@, items@),
            stably_sorted(final(self).files@, final(self).all_files@, old(self).sort_column, old(self).sort_ascending),
            final(self).search_query@ == Seq::<char>::empty(),
            final(self).type_filter@ == "All"@,
            final(self).file_count == listing_totals(final(self).all_files@).0,
            final(self).folder_count == listing_totals(final(self).all_files@).1,
            listing_totals(final(self).all_files@).2 == listed_bytes(items@),
            final(self).total_size@ == size_text(listed_bytes(items@)),
            final(self).selected_index is None,
            final(self).preview_name@ == Seq::<char>::empty(),
            final(self).preview_info@ == Seq::<char>::empty(),
            final(self).preview_content@ == Seq::<char>::empty(),
            final(self).sort_column == old(self).sort_column,
            final(self).sort_ascending == old(self).sort_ascending,
            final(self).browser_path == old(self).browser_path,
            final(self).preview_image == old(self).preview_image,
            final(self).status_message == old(self).status_message,
            final(self).renaming_path == old(self).renaming_path,
            final(self).rename_text == old(self).rename_text,
    {
        let mut entries: Vec<FileEntry> = Vec::new();
        let mut file_count: usize = 0;
        let mut folder_count: usize = 0;
        let mut total: u64 = 0;
        let mut i: usize = 0;
        let ghost keep = |it: DirItem| !is_hidden_item(it);
        assert(items@.subrange(0, 0).filter(keep) =~= Seq::<DirItem>::empty());
        assert(entries@ =~= Seq::<FileEntry>::empty());
        while i < items.len()
            invariant
                i <= items.len(),
                listed_bytes(items@) <= u64::MAX,
                keep == (|it: DirItem| !is_hidden_item(it)),
                is_listing_of(entries@, items@.subrange(0, i as int)),
                file_count as nat == listing_totals(entries@).0,
                folder_count as nat == listing_totals(entries@).1,
                total as nat == listing_totals(entries@).2,
                total as nat == listed_bytes(items@.subrange(0, i as int)),
                file_count + folder_count == entries.len(),
                entries.len() <= i,
            decreases items.len() - i,
        {
            let it = &items[i];
            let hidden = is_hidden_name(it.name.as_str());
            let ghost before = entries@;
            proof {
                let t = items@.subrange(0, i + 1);
                assert(t.drop_last() =~= items@.subrange(0, i as int));
                reveal(Seq::filter);
                assert(t.last() == items@[i as int]);
                lemma_listed_bytes_prefix_le(items@, i + 1);
            }
            if !hidden {
                let e = listing_entry(it.name.clone(), it.path.clone(), it.is_dir, it.len, it.modified_secs);
                if it.is_dir {
                    folder_count += 1;
                } else {
                    file_count += 1;
                    total = total + it.len;
                }
                entries.push(e);
                proof {
                    assert(entries@.drop_last() =~= before);
                    let vis = visible_items(items@.subrange(0, i + 1));
                    let pv = visible_items(items@.subrange(0, i as int));
                    assert(vis =~= pv.push(items@[i as int]));
                    assert forall|k: int| 0 <= k < entries@.len() implies #[trigger] is_listing_entry(
                        entries@[k],
                        vis[k].name@,
                        vis[k].path@,
                        vis[k].is_dir,
                        vis[k].len,
                        vis[k].modified_secs,
                    ) by {
                        if k < before.len() {
                            assert(entries@[k] == before[k]);
                            assert(vis[k] == pv[k]);
                        }
                    }
                }
            } else {
                proof {
                    let vis = visible_items(items@.subrange(0, i + 1));
                    let pv = visible_items(items@.subrange(0, i as int));
                    assert(vis =~= pv);
                }
            }
            i += 1;
        }
        assert(items@.subrange(0, items.len() as int) =~= items@);
        let mut files = duplicate_entries(&entries);
        sort_files(&mut files, self.sort_column, self.sort_ascending);
        self.current_path = Some(dir_path);
        self.all_files = entries;
        self.files = files;
        self.search_query = String::new();
        self.type_filter = String::from_str("All");
        self.file_count = file_count;
        self.folder_count = folder_count;
        self.total_size = format_size(total);
        self.selected_index = None;
        self.preview_name = String::new();
        self.preview_info = String::new();
        self.preview_content = String::new();
    }

    /// Shows the entries of the directory that pass the search text (any
    /// case) and the type filter, sorted by the current column, with nothing
    /// selected.
    pub fn apply_filters(&mut self)
        ensures
            stably_sorted(
                final(self).files@,
                filtered_entries(old(self).all_files@, lowercase(old(self).search_query@), old(self).type_filter@),
                old(self).sort_column,
                old(self).sort_ascending,
            ),
            final(self).selected_index is None,
            final(self).all_files@ == old(self).all_files@,
            final(self).search_query == old(self).search_query,
            final(self).type_filter == old(self).type_filter,
            final(self).sort_column == old(self).sort_column,
            final(self).sort_ascending == old(self).sort_ascending,
            final(self).current_path == old(self).current_path,
    {
        let mut files = filter_entries(&self.all_files, self.search_query.as_str(), self.type_filter.as_str());
        sort_files(&mut files, self.sort_column, self.sort_ascending);
        self.files = files;
        self.selected_index = None;
    }

    /// A click on the header of `column`: the same column flips the
    /// direction, another column becomes the sort column, ascending; the
    /// list is sorted again.
    pub fn click_header(&mut self, column: SortColumn)
        ensures
            old(self).sort_column == column ==> final(self).sort_ascending == !old(self).sort_ascending,
            old(self).sort_column != column ==> final(self).sort_ascending,
            final(self).sort_column == column,
            stably_sorted(final(self).files@, old(self).files@, column, final(self).sort_ascending),
            final(self).all_files@ == old(self).all_files@,
            final(self).selected_index == old(self).selected_index,
    {
        if self.sort_column == column {
            self.sort_ascending = !self.sort_ascending;
        } else {
            self.sort_column = column;
            self.sort_ascending = true;
        }
        let mut files = duplicate_entries(&self.files);
        sort_files(&mut files, self.sort_column, self.sort_ascending);
        self.files = files;
    }

    /// The directory "Up" opens: the parent of the current one, if any.
    pub fn parent_to_open(&self) -> (p: Option<String>)
        ensures
            match self.current_path {
                Some(c) => match path_parent(c@) {
                    Some(q) => p is Some && p.unwrap()@ == q,
                    None => p is None,
                },
                None => p is None,
            },
    {
        match &self.current_path {
            Some(c) => parent_of(c.as_str()),
            None => None,
        }
    }

    /// Selecting an entry: the preview shows its name and, for a folder, a
    /// hint; for a file its type and size, and either a fixed text or a
    /// request for what must be read from disk. Any previous image goes.
    pub fn select_file(&mut self, file: &FileEntry) -> (req: PreviewRequest)
        ensures
            final(self).preview_name@ == file.name@,
            final(self).preview_image.0 == next_version(old(self).preview_image.0),
            final(self).preview_image.1 is None,
            file.is_dir ==> final(self).preview_info@ == "Directory"@ && final(self).preview_content@
                == "[Double-click to open]"@ && req is Nothing,
            !file.is_dir ==> ({
                let plan = preview_plan(lowercase(file.extension@));
                &&& final(self).preview_info@ == file.file_type@ + " | "@ + file.size_formatted@
                &&& request_parts(req).0 == plan.0
                &&& plan.0 is Nothing ==> final(self).preview_content@ == plan.1 && request_parts(req).1 is None
                &&& !(plan.0 is Nothing) ==> request_parts(req).1 == Some(file.path@)
                    && final(self).preview_content == old(self).preview_content
            }),
            final(self).files@ == old(self).files@,
            final(self).all_files@ == old(self).all_files@,
            final(self).selected_index == old(self).selected_index,
            final(self).current_path == old(self).current_path,
            final(self).status_message == old(self).status_message,
    {
        self.preview_name = file.name.clone();
        let v = self.preview_image.0;
        self.preview_image = (if v == u64::MAX { 0 } else { v + 1 }, None);
        proof {
            reveal_strlit("Directory");
            reveal_strlit("[Double-click to open]");
            reveal_strlit(" | ");
        }
        if file.is_dir {
            self.preview_info = String::from_str("Directory");
            self.preview_content = String::from_str("[Double-click to open]");
            return PreviewRequest::Nothing;
        }
        let mut info = file.file_type.clone();
        push_str(&mut info, " | ");
        push_str(&mut info, file.size_formatted.as_str());
        self.preview_info = info;
        let lower = to_lowercase(file.extension.as_str());
        let e = lower.as_str();
        if str_eq(e, "lsx") || str_eq(e, "lsj") || str_eq(e, "xml") || str_eq(e, "txt") || str_eq(e, "json")
            || str_eq(e, "lua") {
            PreviewRequest::ReadText(file.path.clone())
        } else if str_eq(e, "lsf") {
            self.preview_content = String::from_str("[Binary LSF file - double-click to open in editor]");
            PreviewRequest::Nothing
        } else if str_eq(e, "pak") {
            PreviewRequest::ListPak(file.path.clone())
        } else if str_eq(e, "dds") {
            PreviewRequest::LoadDds(file.path.clone())
        } else if str_eq(e, "png") || str_eq(e, "jpg") || str_eq(e, "jpeg") {
            PreviewRequest::LoadImage(file.path.clone())
        } else if str_eq(e, "gr2") {
            self.preview_content = String::from_str("[GR2 Model file]");
            PreviewRequest::Nothing
        } else if str_eq(e, "wem") || str_eq(e, "wav") {
            self.preview_content = String::from_str("[Audio file]");
            PreviewRequest::Nothing
        } else {
            let mut c = String::from_str("File type: ");
            let up = to_uppercase(e);
            push_str(&mut c, up.as_str());
            proof {
                reveal_strlit("File type: ");
            }
            self.preview_content = c;
            PreviewRequest::Nothing
        }
    }

    /// Shows the text read for a text preview, or that it could not be read.
    pub fn show_text(&mut self, read: Option<String>)
        requires
            read matches Some(c) ==> byte_len(c@) <= usize::MAX && (byte_len(c@) > PREVIEW_BYTE_LIMIT
                ==> boundary_index(c@, PREVIEW_BYTE_LIMIT as nat) is Some),
        ensures
            match read {
                Some(c) => final(self).preview_content@ == preview_text(c@),
                None => final(self).preview_content@ == "[Unable to read file]"@,
            },
            final(self).preview_image == old(self).preview_image,
            final(self).preview_name == old(self).preview_name,
            final(self).preview_info == old(self).preview_info,
    {
        match read {
            Some(c) => {
                self.preview_content = text_preview(c.as_str());
            },
            None => {
                self.preview_content = String::from_str("[Unable to read file]");
            },
        }
    }

    /// Shows the entry names listed from a PAK archive, or the error.
    pub fn show_pak_listing(&mut self, listed: Result<Vec<String>, String>)
        ensures
            match listed {
                Ok(names) => final(self).preview_content@ == pak_preview_text(names@),
                Err(e) => final(self).preview_content@ == "[Error reading PAK: "@ + e@ + "]"@,
            },
            final(self).preview_image == old(self).preview_image,
            final(self).preview_name == old(self).preview_name,
            final(self).preview_info == old(self).preview_info,
    {
        match listed {
            Ok(names) => {
                self.preview_content = pak_preview(&names);
            },
            Err(e) => {
                let mut c = String::from_str("[Error reading PAK: ");
                push_str(&mut c, e.as_str());
                push_str(&mut c, "]");
                proof {
                    reveal_strlit("[Error reading PAK: ");
                    reveal_strlit("]");
                }
                self.preview_content = c;
            },
        }
    }

    /// Shows decoded pixels (a new image version, no text), or the error of
    /// a DDS texture (`dds`) or another image.
    pub fn show_image(&mut self, loaded: Result<RawImageData, String>, dds: bool)
        ensures
            match loaded {
                Ok(img) => final(self).preview_content@ == Seq::<char>::empty() && final(self).preview_image.0
                    == next_version(old(self).preview_image.0) && final(self).preview_image.1 == Some(img),
                Err(e) => final(self).preview_content@ == (if dds { "[Error loading DDS: "@ } else {
                    "[Error loading image: "@
                }) + e@ + "]"@ && final(self).preview_image == old(self).preview_image,
            },
            final(self).preview_name == old(self).preview_name,
            final(self).preview_info == old(self).preview_info,
    {
        match loaded {
            Ok(img) => {
                self.preview_content = String::new();
                let v = self.preview_image.0;
                self.preview_image = (if v == u64::MAX { 0 } else { v + 1 }, Some(img));
            },
            Err(e) => {
                let mut c = if dds {
                    String::from_str("[Error loading DDS: ")
                } else {
                    String::from_str("[Error loading image: ")
                };
                push_str(&mut c, e.as_str());
                push_str(&mut c, "]");
                proof {
                    reveal_strlit("[Error loading DDS: ");
                    reveal_strlit("[Error loading image: ");
                    reveal_strlit("]");
                }
                self.preview_content = c;
            },
        }
    }

    /// Starts renaming an entry in place, with its name as the initial text.
    pub fn start_rename(&mut self, file: &FileEntry)
        ensures
            final(self).rename_text@ == file.name@,
            final(self).renaming_path matches Some(p) && p@ == file.path@,
            final(self).files@ == old(self).files@,
            final(self).status_message == old(self).status_message,
    {
        self.rename_text = file.name.clone();
        self.renaming_path = Some(file.path.clone());
    }

    /// Ends in-place renaming (committed or cancelled).
    pub fn end_rename(&mut self)
        ensures
            final(self).renaming_path is None,
            final(self).rename_text == old(self).rename_text,
            final(self).files@ == old(self).files@,
    {
        self.renaming_path = None;
    }

    /// Reports the outcome of a rename; `true` when the listing must be
    /// read again.
    pub fn finish_rename(&mut self, result: Result<(), String>) -> (refresh: bool)
        ensures
            refresh == (result is Ok),
            match result {
                Ok(_) => final(self).status_message@ == "Renamed"@,
                Err(e) => final(self).status_message@ == "Rename failed: "@ + e@,
            },
            final(self).files@ == old(self).files@,
    {
        self.status_message = outcome_message(&result, "Renamed", "Rename failed: ");
        result.is_ok()
    }

    /// Reports the outcome of a deletion; `true` when the listing must be
    /// read again.
    pub fn finish_delete(&mut self, result: Result<(), String>) -> (refresh: bool)
        ensures
            refresh == (result is Ok),
            match result {
                Ok(_) => final(self).status_message@ == "Deleted"@,
                Err(e) => final(self).status_message@ == "Delete failed: "@ + e@,
            },
            final(self).files@ == old(self).files@,
    {
        self.status_message = outcome_message(&result, "Deleted", "Delete failed: ");
        result.is_ok()
    }

    /// Starts a quick conversion of `source_path` to the format with the
    /// lower-case extension `target`: the status says so; the result is the
    /// conversion and the path of the converted file (same name, new
    /// extension), or `None` (and the status says why) when the source's
    /// extension and the target make no supported pair.
    pub fn begin_quick_convert(&mut self, source_path: &str, target: &str) -> (plan: Option<(Conversion, String)>)
        ensures
            ({
                let src = lowercase(match path_extension(source_path@) {
                    Some(e) => e,
                    None => Seq::empty(),
                });
                match conversion_between(src, target@) {
                    Some(c) => plan matches Some((pc, dest)) && pc == c && dest@ == path_with_extension(
                        source_path@,
                        target@,
                    ) && final(self).status_message@ == "Converting to "@ + uppercase(target@) + "..."@,
                    None => plan is None && final(self).status_message@ == "Unsupported conversion: "@ + src
                        + " to "@ + target@,
                }
            }),
            final(self).files@ == old(self).files@,
            final(self).current_path == old(self).current_path,
    {
        let src_ext = match extension_of(source_path) {
            Some(e) => e,
            None => String::new(),
        };
        let src = to_lowercase(src_ext.as_str());
        let mut msg = String::from_str("Converting to ");
        let up = to_uppercase(target);
        push_str(&mut msg, up.as_str());
        push_str(&mut msg, "...");
        self.status_message = msg;
        proof {
            reveal_strlit("Converting to ");
            reveal_strlit("...");
            reveal_strlit("Unsupported conversion: ");
            reveal_strlit(" to ");
        }
        match conversion_for(src.as_str(), target) {
            Some(c) => {
                proof {
                    reveal_strlit("lsx");
                    reveal_strlit("lsf");
                    reveal_strlit("lsj");
                }
                Some((c, with_extension_of(source_path, target)))
            },
            None => {
                let mut m = String::from_str("Unsupported conversion: ");
                push_str(&mut m, src.as_str());
                push_str(&mut m, " to ");
                push_str(&mut m, target);
                self.status_message = m;
                None
            },
        }
    }

    /// Reports the outcome of a quick conversion to `target`; `true` when
    /// the listing must be read again.
    pub fn finish_quick_convert(&mut self, target: &str, result: Result<(), String>) -> (refresh: bool)
        ensures
            refresh == (result is Ok),
            match result {
                Ok(_) => final(self).status_message@ == "Converted to "@ + uppercase(target@),
                Err(e) => final(self).status_message@ == "Conversion failed: "@ + e@,
            },
            final(self).files@ == old(self).files@,
    {
        proof {
            reveal_strlit("Converted to ");
            reveal_strlit("Conversion failed: ");
        }
        match &result {
            Ok(_) => {
                let mut m = String::from_str("Converted to ");
                let up = to_uppercase(target);
                push_str(&mut m, up.as_str());
                self.status_message = m;
            },
            Err(e) => {
                let mut m = String::from_str("Conversion failed: ");
                push_str(&mut m, e.as_str());
                self.status_message = m;
            },
        }
        result.is_ok()
    }

    /// The status-bar text of the counts: "N files, M folders".
    pub fn counts_text(&self) -> (s: String)
        ensures
            s@ == decimal(self.file_count as nat) + " files, "@ + decimal(self.folder_count as nat) + " folders"@,
    {
        let mut s = String::new();
        push_decimal(&mut s, self.file_count as u128);
        push_str(&mut s, " files, ");
        push_decimal(&mut s, self.folder_count as u128);
        push_str(&mut s, " folders");
        s
    }

    /// The directory "Refresh" lists again: the current one.
    pub fn path_to_refresh(&self) -> (p: Option<String>)
        ensures
            p == self.current_path,
    {
        self.current_path.clone()
    }
}

} // verus!
