//! File browser: the entries of a listed directory, their order and the
//! filters of the toolbar.
use vstd::prelude::*;
use crate::state::paths::{extension_of, path_extension};
use crate::tabs::asset_browser::{format_size, size_text};
use crate::text::{
    chars_of, contains_chars, contains_seq, lemma_filter_keeps_all, lemma_filter_members, lex_order, lex_order_of, lemma_lex_order_antisym,
    lemma_lex_order_trans, lowercase, str_eq, to_lowercase, to_uppercase, uppercase,
};

verus! {

/// Columns the file list can be sorted by.
#[derive(Clone, Copy, Debug, PartialEq, Eq, Structural)]
pub enum SortColumn {
    Name,
    Type,
    Size,
    Modified,
}

/// One entry of the file list.
pub struct FileEntry {
    pub name: String,
    pub path: String,
    pub is_dir: bool,
    pub size: u64,
    pub size_formatted: String,
    pub extension: String,
    pub file_type: String,
    pub modified: String,
    pub icon: String,
}

impl FileEntry {
    /// A copy of this entry.
    pub fn duplicate(&self) -> (r: FileEntry)
        ensures
            r == *self,
    {
        FileEntry {
            name: self.name.clone(),
            path: self.path.clone(),
            is_dir: self.is_dir,
            size: self.size,
            size_formatted: self.size_formatted.clone(),
            extension: self.extension.clone(),
            file_type: self.file_type.clone(),
            modified: self.modified.clone(),
            icon: self.icon.clone(),
        }
    }
}

/// The text a string column is compared by: the lower-cased name, the type,
/// or the modification text.
pub open spec fn column_text(e: FileEntry, col: SortColumn) -> Seq<char> {
    match col {
        SortColumn::Name => lowercase(e.name@),
        SortColumn::Type => e.file_type@,
        SortColumn::Modified => e.modified@,
        SortColumn::Size => Seq::empty(),
    }
}

/// How two entries compare on a column: -1, 0 or 1.
pub open spec fn column_order(a: FileEntry, b: FileEntry, col: SortColumn) -> int {
    match col {
        SortColumn::Size => if a.size < b.size { -1 } else if a.size > b.size { 1 } else { 0 },
        _ => lex_order(column_text(a, col), column_text(b, col)),
    }
}

/// The order of the file list: folders before files; otherwise by the
/// column, reversed when descending.
pub open spec fn entry_order(a: FileEntry, b: FileEntry, col: SortColumn, ascending: bool) -> int {
    if a.is_dir && !b.is_dir {
        -1
    } else if !a.is_dir && b.is_dir {
        1
    } else if ascending {
        column_order(a, b, col)
    } else {
        -column_order(a, b, col)
    }
}

/// `p` lists each index below `n` exactly once.
pub open spec fn is_index_perm(p: Seq<int>, n: nat) -> bool {
    &&& p.len() == n
    &&& forall|i: int| 0 <= i < p.len() ==> 0 <= #[trigger] p[i] < n
    &&& forall|i: int, j: int| 0 <= i < p.len() && 0 <= j < p.len() && i != j ==> #[trigger] p[i] != #[trigger] p[j]
}

/// Entry `x` of `s` comes before entry `y` in a stable sort: it orders first,
/// or orders equal and stood first.
pub open spec fn stable_before(s: Seq<FileEntry>, x: int, y: int, col: SortColumn, ascending: bool) -> bool {
    entry_order(s[x], s[y], col, ascending) < 0 || (entry_order(s[x], s[y], col, ascending) == 0 && x < y)
}

/// `out` is `inp` stably sorted by the file-list order: a rearrangement of
/// its entries in which each entry is ordered before the next, entries that
/// order equal keeping the order they had before.
pub open spec fn stably_sorted(out: Seq<FileEntry>, inp: Seq<FileEntry>, col: SortColumn, ascending: bool) -> bool {
    exists|p: Seq<int>|
        {
            &&& is_index_perm(p, inp.len())
            &&& out.len() == inp.len()
            &&& forall|i: int| 0 <= i < out.len() ==> out[i] == inp[#[trigger] p[i]]
            &&& forall|i: int, j: int|
                0 <= i < j < out.len() ==> stable_before(inp, #[trigger] p[i], #[trigger] p[j], col, ascending)
        }
}

proof fn lemma_column_order(a: FileEntry, b: FileEntry, c: FileEntry, col: SortColumn)
    ensures
        column_order(a, b, col) == -column_order(b, a, col),
        -1 <= column_order(a, b, col) <= 1,
        column_order(a, b, col) <= 0 && column_order(b, c, col) <= 0 ==> column_order(a, c, col) <= 0,
        column_order(a, b, col) < 0 && column_order(b, c, col) <= 0 ==> column_order(a, c, col) < 0,
        column_order(a, b, col) <= 0 && column_order(b, c, col) < 0 ==> column_order(a, c, col) < 0,
{
    lemma_lex_order_antisym(column_text(a, col), column_text(b, col));
    lemma_lex_order_trans(column_text(a, col), column_text(b, col), column_text(c, col));
}

/// The file-list order is antisymmetric and transitive.
proof fn lemma_entry_order(a: FileEntry, b: FileEntry, c: FileEntry, col: SortColumn, ascending: bool)
    ensures
        entry_order(a, b, col, ascending) == -entry_order(b, a, col, ascending),
        entry_order(a, b, col, ascending) < 0 && entry_order(b, c, col, ascending) <= 0 ==> entry_order(
            a,
            c,
            col,
            ascending,
        ) < 0,
        entry_order(a, b, col, ascending) <= 0 && entry_order(b, c, col, ascending) < 0 ==> entry_order(
            a,
            c,
            col,
            ascending,
        ) < 0,
        entry_order(a, b, col, ascending) <= 0 && entry_order(b, c, col, ascending) <= 0 ==> entry_order(
            a,
            c,
            col,
            ascending,
        ) <= 0,
{
    lemma_column_order(a, b, c, col);
    lemma_column_order(c, b, a, col);
    lemma_column_order(b, a, c, col);
    lemma_column_order(a, c, b, col);
}

/// Executable `entry_order` between `files[i]` and `files[j]`, given the
/// column texts.
fn order_between(files: &Vec<FileEntry>, texts: &Vec<Vec<char>>, col: SortColumn, ascending: bool, i: usize, j: usize) -> (r: i8)
    requires
        i < files.len(),
        j < files.len(),
        texts.len() == files.len(),
        forall|k: int| 0 <= k < files.len() ==> (#[trigger] texts@[k])@ == column_text(files@[k], col),
    ensures
        r as int == entry_order(files@[i as int], files@[j as int], col, ascending),
{
    let a = &files[i];
    let b = &files[j];
    if a.is_dir && !b.is_dir {
        return -1;
    }
    if !a.is_dir && b.is_dir {
        return 1;
    }
    let c: i8 = match col {
        SortColumn::Size => if a.size < b.size { -1 } else if a.size > b.size { 1 } else { 0 },
        _ => lex_order_of(&texts[i], &texts[j]),
    };
    proof {
        lemma_column_order(files@[i as int], files@[j as int], files@[j as int], col);
    }
    if ascending { c } else { -c }
}

/// The column texts of all entries.
fn column_texts(files: &Vec<FileEntry>, col: SortColumn) -> (texts: Vec<Vec<char>>)
    ensures
        texts.len() == files.len(),
        forall|k: int| 0 <= k < files.len() ==> (#[trigger] texts@[k])@ == column_text(files@[k], col),
{
    let mut texts: Vec<Vec<char>> = Vec::new();
    let mut k: usize = 0;
    while k < files.len()
        invariant
            k <= files.len(),
            texts.len() == k,
            forall|m: int| 0 <= m < k ==> (#[trigger] texts@[m])@ == column_text(files@[m], col),
        decreases files.len() - k,
    {
        let t = match col {
            SortColumn::Name => {
                let l = to_lowercase(files[k].name.as_str());
                chars_of(l.as_str())
            },
            SortColumn::Type => chars_of(files[k].file_type.as_str()),
            SortColumn::Modified => chars_of(files[k].modified.as_str()),
            SortColumn::Size => Vec::new(),
        };
        texts.push(t);
        k += 1;
    }
    texts
}

/// The positions of `files` in stable file-list order.
fn sorted_positions(files: &Vec<FileEntry>, col: SortColumn, ascending: bool) -> (order: Vec<usize>)
    ensures
        is_index_perm(order@.map_values(|x: usize| x as int), files@.len()),
        forall|i: int, j: int|
            0 <= i < j < order.len() ==> stable_before(files@, #[trigger] order@[i] as int, #[trigger] order@[j] as int, col, ascending),
{
    let texts = column_texts(files, col);
    let mut order: Vec<usize> = Vec::new();
    let mut k: usize = 0;
    while k < files.len()
        invariant
            k <= files.len(),
            texts.len() == files.len(),
            forall|m: int| 0 <= m < files.len() ==> (#[trigger] texts@[m])@ == column_text(files@[m], col),
            order.len() == k,
            forall|i: int| 0 <= i < order.len() ==> (#[trigger] order@[i]) < k,
            forall|i: int, j: int| 0 <= i < order.len() && 0 <= j < order.len() && i != j ==> #[trigger] order@[i] != #[trigger] order@[j],
            forall|i: int, j: int|
                0 <= i < j < order.len() ==> stable_before(files@, #[trigger] order@[i] as int, #[trigger] order@[j] as int, col, ascending),
        decreases files.len() - k,
    {
        let mut pos: usize = 0;
        while pos < order.len() && order_between(files, &texts, col, ascending, k, order[pos]) >= 0
            invariant
                k < files.len(),
                texts.len() == files.len(),
                forall|m: int| 0 <= m < files.len() ==> (#[trigger] texts@[m])@ == column_text(files@[m], col),
                order.len() == k,
                forall|i: int| 0 <= i < order.len() ==> (#[trigger] order@[i]) < k,
                pos <= order.len(),
                forall|i: int| 0 <= i < pos ==> entry_order(files@[k as int], files@[#[trigger] order@[i] as int], col, ascending) >= 0,
            decreases order.len() - pos,
        {
            pos += 1;
        }
        let ghost o = order@;
        let ghost f = files@;
        order.insert(pos, k);
        proof {
            let n = order@;
            assert(n == o.insert(pos as int, k));
            assert forall|i: int, j: int| 0 <= i < j < n.len() implies stable_before(f, #[trigger] n[i] as int, #[trigger] n[j] as int, col, ascending) by {
                if i < pos && j < pos {
                    assert(n[i] == o[i] && n[j] == o[j]);
                } else if i > pos && j > pos {
                    assert(n[i] == o[i - 1] && n[j] == o[j - 1]);
                } else if i < pos && j == pos {
                    assert(n[i] == o[i]);
                    lemma_entry_order(f[k as int], f[o[i] as int], f[k as int], col, ascending);
                } else if i < pos && j > pos {
                    assert(n[i] == o[i] && n[j] == o[j - 1]);
                } else {
                    // i == pos < j
                    assert(n[j] == o[j - 1]);
                    assert(pos < o.len());
                    assert(entry_order(f[k as int], f[o[pos as int] as int], col, ascending) < 0);
                    if j - 1 > pos {
                        assert(stable_before(f, o[pos as int] as int, o[j - 1] as int, col, ascending));
                    }
                    lemma_entry_order(f[k as int], f[o[pos as int] as int], f[o[j - 1] as int], col, ascending);
                }
            }
            assert forall|i: int, j: int| 0 <= i < n.len() && 0 <= j < n.len() && i != j implies #[trigger] n[i] != #[trigger] n[j] by {
                if i != pos as int && j != pos as int {
                    let oi = if i < pos { i } else { i - 1 };
                    let oj = if j < pos { j } else { j - 1 };
                    assert(n[i] == o[oi] && n[j] == o[oj]);
                } else if i == pos as int {
                    let oj = if j < pos { j } else { j - 1 };
                    assert(n[j] == o[oj]);
                } else {
                    let oi = if i < pos { i } else { i - 1 };
                    assert(n[i] == o[oi]);
                }
            }
            assert forall|i: int| 0 <= i < n.len() implies (#[trigger] n[i]) < k + 1 by {
                if i < pos { assert(n[i] == o[i]); } else if i > pos { assert(n[i] == o[i - 1]); }
            }
        }
        k += 1;
    }
    proof {
        let p = order@.map_values(|x: usize| x as int);
        assert forall|i: int, j: int| 0 <= i < p.len() && 0 <= j < p.len() && i != j implies #[trigger] p[i] != #[trigger] p[j] by {
            assert(order@[i] != order@[j]);
        }
    }
    order
}

/// Sorts the file list: folders first, then by the column (ascending or
/// descending), stably.
pub fn sort_files(files: &mut Vec<FileEntry>, col: SortColumn, ascending: bool)
    ensures
        stably_sorted(final(files)@, old(files)@, col, ascending),
{
    let order = sorted_positions(files, col, ascending);
    proof {
        let p = order@.map_values(|x: usize| x as int);
        assert forall|m: int| 0 <= m < order.len() implies (#[trigger] order@[m]) < files.len() by {
            assert(p[m] == order@[m] as int);
        }
    }
    let mut out: Vec<FileEntry> = Vec::new();
    let mut i: usize = 0;
    while i < order.len()
        invariant
            i <= order.len(),
            order.len() == files.len(),
            forall|m: int| 0 <= m < order.len() ==> (#[trigger] order@[m]) < files.len(),
            out.len() == i,
            forall|m: int| 0 <= m < i ==> out@[m] == files@[#[trigger] order@[m] as int],
        decreases order.len() - i,
    {
        proof {
            assert(order@.map_values(|x: usize| x as int)[i as int] == order@[i as int] as int);
        }
        out.push(files[order[i]].duplicate());
        i += 1;
    }
    let ghost p = order@.map_values(|x: usize| x as int);
    proof {
        assert forall|m: int| 0 <= m < out.len() implies out@[m] == files@[#[trigger] p[m]] by {
            assert(p[m] == order@[m] as int);
        }
        assert forall|a: int, b: int| 0 <= a < b < out.len() implies stable_before(files@, #[trigger] p[a], #[trigger] p[b], col, ascending) by {
            assert(p[a] == order@[a] as int && p[b] == order@[b] as int);
        }
    }
    *files = out;
}


/// What the listing shows as the modification time of a file whose
/// modification time is `secs` seconds after the Unix epoch:
/// "YYYY-MM-DD HH:MM" in UTC, as chrono's `DateTime::from_timestamp` (with the
/// epoch for out-of-range values) and `format("%Y-%m-%d %H:%M")` render it.
pub uninterp spec fn timestamp_text(secs: u64) -> Seq<char>;

/// Renders a modification time (chrono `DateTime::from_timestamp`, then
/// `format("%Y-%m-%d %H:%M")`). The contract names the result: the calendar
/// computation is chrono's and is not restated.
#[verifier::external_body]
fn format_timestamp(secs: u64) -> (s: String)
    ensures
        s@ == timestamp_text(secs),
{
    chrono::DateTime::from_timestamp(secs as i64, 0).unwrap_or_default().format("%Y-%m-%d %H:%M").to_string()
}

/// The icon of a file by its upper-case extension.
pub open spec fn file_icon(ext_upper: Seq<char>) -> Seq<char> {
    if ext_upper == "PAK"@ {
        "📦"@
    } else if ext_upper == "LSF"@ || ext_upper == "LSX"@ || ext_upper == "LSJ"@ {
        "📄"@
    } else if ext_upper == "DDS"@ || ext_upper == "PNG"@ || ext_upper == "JPG"@ || ext_upper == "JPEG"@ {
        "🖼️"@
    } else if ext_upper == "GR2"@ {
        "🎨"@
    } else if ext_upper == "WEM"@ || ext_upper == "WAV"@ {
        "🔊"@
    } else if ext_upper == "LUA"@ {
        "📜"@
    } else if ext_upper == "XML"@ {
        "📝"@
    } else if ext_upper == "LOCA"@ {
        "🌐"@
    } else {
        "📄"@
    }
}

/// Chooses the icon of a file from its upper-case extension.
pub fn icon_for_extension(ext_upper: &str) -> (icon: String)
    ensures
        icon@ == file_icon(ext_upper@),
{
    let e = ext_upper;
    if str_eq(e, "PAK") {
        String::from_str("📦")
    } else if str_eq(e, "LSF") || str_eq(e, "LSX") || str_eq(e, "LSJ") {
        String::from_str("📄")
    } else if str_eq(e, "DDS") || str_eq(e, "PNG") || str_eq(e, "JPG") || str_eq(e, "JPEG") {
        String::from_str("🖼️")
    } else if str_eq(e, "GR2") {
        String::from_str("🎨")
    } else if str_eq(e, "WEM") || str_eq(e, "WAV") {
        String::from_str("🔊")
    } else if str_eq(e, "LUA") {
        String::from_str("📜")
    } else if str_eq(e, "XML") {
        String::from_str("📝")
    } else if str_eq(e, "LOCA") {
        String::from_str("🌐")
    } else {
        String::from_str("📄")
    }
}

/// The extension of a file name, or nothing.
pub open spec fn extension_or_empty(name: Seq<char>) -> Seq<char> {
    match path_extension(name) {
        Some(e) => e,
        None => Seq::empty(),
    }
}

/// `e` is the list entry of a directory item named `name` at `path`: folders
/// have type "Folder", size 0 shown as "--"; files have their upper-cased
/// extension as type, their length and its size text; the icon follows the
/// type; the modification time is shown when known, "--" otherwise.
pub open spec fn is_listing_entry(
    e: FileEntry,
    name: Seq<char>,
    path: Seq<char>,
    is_dir: bool,
    len: u64,
    modified_secs: Option<u64>,
) -> bool {
    let ext = extension_or_empty(name);
    &&& e.name@ == name
    &&& e.path@ == path
    &&& e.is_dir == is_dir
    &&& e.extension@ == ext
    &&& e.size == if is_dir { 0 } else { len }
    &&& e.size_formatted@ == if is_dir { "--"@ } else { size_text(len as nat) }
    &&& e.file_type@ == if is_dir { "Folder"@ } else { uppercase(ext) }
    &&& e.icon@ == if is_dir { "📁"@ } else { file_icon(uppercase(ext)) }
    &&& e.modified@ == match modified_secs {
        Some(t) => timestamp_text(t),
        None => "--"@,
    }
}

/// Builds the list entry of one directory item from what the file system
/// reports about it.
pub fn listing_entry(name: String, path: String, is_dir: bool, len: u64, modified_secs: Option<u64>) -> (e: FileEntry)
    ensures
        is_listing_entry(e, name@, path@, is_dir, len, modified_secs),
{
    let ext = match extension_of(name.as_str()) {
        Some(x) => x,
        None => String::new(),
    };
    let upper = to_uppercase(ext.as_str());
    let file_type = if is_dir { String::from_str("Folder") } else { upper.clone() };
    let icon = if is_dir { String::from_str("📁") } else { icon_for_extension(upper.as_str()) };
    let size_formatted = if is_dir { String::from_str("--") } else { format_size(len) };
    let modified = match modified_secs {
        Some(t) => format_timestamp(t),
        None => String::from_str("--"),
    };
    FileEntry {
        name,
        path,
        is_dir,
        size: if is_dir { 0 } else { len },
        size_formatted,
        extension: ext,
        file_type,
        modified,
        icon,
    }
}

/// Whether a directory item is hidden from the listing (its name starts
/// with '.').
pub fn is_hidden_name(name: &str) -> (b: bool)
    ensures
        b == (name@.len() > 0 && name@[0] == '.'),
{
    let v = chars_of(name);
    v.len() > 0 && v[0] == '.'
}

/// Number of files, of folders, and the total length of the files of a
/// listing.
pub open spec fn listing_totals(entries: Seq<FileEntry>) -> (nat, nat, nat)
    decreases entries.len(),
{
    if entries.len() == 0 {
        (0, 0, 0)
    } else {
        let (f, d, t) = listing_totals(entries.drop_last());
        let e = entries.last();
        if e.is_dir { (f, d + 1, t) } else { (f + 1, d, (t + e.size) as nat) }
    }
}

/// Counts the files and folders of a listing and sums the file lengths.
pub fn count_listing(entries: &Vec<FileEntry>) -> (r: (usize, usize, u64))
    requires
        listing_totals(entries@).2 <= u64::MAX,
    ensures
        r.0 as nat == listing_totals(entries@).0,
        r.1 as nat == listing_totals(entries@).1,
        r.2 as nat == listing_totals(entries@).2,
{
    let mut files: usize = 0;
    let mut folders: usize = 0;
    let mut total: u64 = 0;
    let mut i: usize = 0;
    assert(entries@.subrange(0, 0) =~= Seq::<FileEntry>::empty());
    while i < entries.len()
        invariant
            i <= entries.len(),
            listing_totals(entries@).2 <= u64::MAX,
            files as nat == listing_totals(entries@.subrange(0, i as int)).0,
            folders as nat == listing_totals(entries@.subrange(0, i as int)).1,
            total as nat == listing_totals(entries@.subrange(0, i as int)).2,
            files + folders == i,
        decreases entries.len() - i,
    {
        assert(entries@.subrange(0, i + 1).drop_last() =~= entries@.subrange(0, i as int));
        proof {
            lemma_totals_prefix_le(entries@, i + 1);
        }
        if entries[i].is_dir {
            folders += 1;
        } else {
            files += 1;
            total = total + entries[i].size;
        }
        i += 1;
    }
    assert(entries@.subrange(0, entries.len() as int) =~= entries@);
    (files, folders, total)
}

proof fn lemma_totals_prefix_le(s: Seq<FileEntry>, k: int)
    requires
        0 <= k <= s.len(),
    ensures
        listing_totals(s.subrange(0, k)).2 <= listing_totals(s).2,
    decreases s.len() - k,
{
    if k < s.len() {
        lemma_totals_prefix_le(s, k + 1);
        assert(s.subrange(0, k + 1).drop_last() =~= s.subrange(0, k));
    } else {
        assert(s.subrange(0, k) =~= s);
    }
}

/// Whether an entry stays in the list for a (lower-cased) search text and a
/// type filter: folders are only filtered by name; files must also have the
/// selected type unless the filter is "All".
pub open spec fn passes_filters(e: FileEntry, search_lower: Seq<char>, type_filter: Seq<char>) -> bool {
    let name_ok = search_lower.len() == 0 || contains_seq(lowercase(e.name@), search_lower);
    if e.is_dir {
        name_ok
    } else {
        name_ok && (type_filter == "All"@ || e.file_type@ == type_filter)
    }
}

/// The entries of `all` that pass the filters, in their order.
pub open spec fn filtered_entries(all: Seq<FileEntry>, search_lower: Seq<char>, type_filter: Seq<char>) -> Seq<FileEntry> {
    all.filter(|e: FileEntry| passes_filters(e, search_lower, type_filter))
}

/// Keeps the entries whose name contains the search text (ignoring case)
/// and, for files, whose type matches the type filter ("All" keeps every type).
pub fn filter_entries(all: &Vec<FileEntry>, search: &str, type_filter: &str) -> (out: Vec<FileEntry>)
    ensures
        out@ == filtered_entries(all@, lowercase(search@), type_filter@),
{
    let search_lower = to_lowercase(search);
    let needle = chars_of(search_lower.as_str());
    let all_filter = str_eq(type_filter, "All");
    let mut out: Vec<FileEntry> = Vec::new();
    let mut i: usize = 0;
    let ghost pred = |e: FileEntry| passes_filters(e, lowercase(search@), type_filter@);
    assert(all@.subrange(0, 0).filter(pred) =~= Seq::<FileEntry>::empty());
    while i < all.len()
        invariant
            i <= all.len(),
            needle@ == lowercase(search@),
            all_filter == (type_filter@ == "All"@),
            pred == (|e: FileEntry| passes_filters(e, lowercase(search@), type_filter@)),
            out@ == all@.subrange(0, i as int).filter(pred),
        decreases all.len() - i,
    {
        let e = &all[i];
        let lname = to_lowercase(e.name.as_str());
        let hay = chars_of(lname.as_str());
        let name_ok = needle.len() == 0 || contains_chars(&hay, &needle);
        let keep = if e.is_dir {
            name_ok
        } else {
            name_ok && (all_filter || str_eq(e.file_type.as_str(), type_filter))
        };
        assert(keep == pred(all@[i as int]));
        proof {
            let t = all@.subrange(0, i + 1);
            assert(t.drop_last() =~= all@.subrange(0, i as int));
            reveal(Seq::filter);
            assert(t.last() == all@[i as int]);
        }
        if keep {
            out.push(e.duplicate());
        }
        i += 1;
    }
    assert(all@.subrange(0, all.len() as int) =~= all@);
    out
}

/// The search matches anywhere in a name, ignoring case: an entry of the
/// listing whose lower-cased name holds the lower-cased search text at some
/// position `i` (not only at the start), and whose type the filter allows
/// (folders always, files when the filter is "All" or their type), is shown.
pub proof fn lemma_filter_keeps_names_containing_search(
    all: Seq<FileEntry>,
    search: Seq<char>,
    type_filter: Seq<char>,
    j: int,
    i: int,
)
    requires
        0 <= j < all.len(),
        0 <= i,
        i + lowercase(search).len() <= lowercase(all[j].name@).len(),
        lowercase(all[j].name@).subrange(i, i + lowercase(search).len()) == lowercase(search),
        all[j].is_dir || type_filter == "All"@ || all[j].file_type@ == type_filter,
    ensures
        filtered_entries(all, lowercase(search), type_filter).contains(all[j]),
{
    let ls = lowercase(search);
    let pred = |e: FileEntry| passes_filters(e, ls, type_filter);
    assert(lowercase(all[j].name@).subrange(i, i + ls.len()) == ls);
    assert(pred(all[j]));
    all.filter_lemma(pred);
}

/// Every entry shown is an entry of the listing whose lower-cased name holds
/// the lower-cased search text somewhere (any name, for an empty search),
/// and that is a folder, or a file of the selected type unless the filter is
/// "All".
pub proof fn lemma_filter_shows_only_matches(all: Seq<FileEntry>, search: Seq<char>, type_filter: Seq<char>, k: int)
    requires
        0 <= k < filtered_entries(all, lowercase(search), type_filter).len(),
    ensures
        ({
            let e = filtered_entries(all, lowercase(search), type_filter)[k];
            let n = lowercase(search).len();
            &&& all.contains(e)
            &&& n == 0 || exists|i: int|
                0 <= i && i + n <= lowercase(e.name@).len() && #[trigger] lowercase(e.name@).subrange(i, i + n)
                    == lowercase(search)
            &&& e.is_dir || type_filter == "All"@ || e.file_type@ == type_filter
        }),
{
    let ls = lowercase(search);
    let pred = |e: FileEntry| passes_filters(e, ls, type_filter);
    lemma_filter_members(all, pred);
    assert(pred(all.filter(pred)[k]));
}

/// With no search text and the "All" filter the listing is shown whole, in
/// its order.
pub proof fn lemma_filter_without_criteria_keeps_listing(all: Seq<FileEntry>)
    ensures
        filtered_entries(all, Seq::<char>::empty(), "All"@) == all,
{
    let pred = |e: FileEntry| passes_filters(e, Seq::<char>::empty(), "All"@);
    lemma_filter_keeps_all(all, pred);
}

/// The sorted listing shows folders before files; within folders and within
/// files it is ordered by the chosen column: the name (ignoring case), the
/// type or the modification text in the text order, or the size, rising
/// when ascending and falling when descending.
pub proof fn lemma_sorted_listing_order(out: Seq<FileEntry>, inp: Seq<FileEntry>, col: SortColumn, ascending: bool)
    requires
        stably_sorted(out, inp, col, ascending),
    ensures
        forall|i: int, j: int| 0 <= i < j < out.len() && #[trigger] out[j].is_dir ==> #[trigger] out[i].is_dir,
        forall|i: int, j: int|
            0 <= i < j < out.len() && #[trigger] out[i].is_dir == #[trigger] out[j].is_dir ==> match col {
                SortColumn::Name => if ascending {
                    lex_order(lowercase(out[i].name@), lowercase(out[j].name@)) <= 0
                } else {
                    lex_order(lowercase(out[i].name@), lowercase(out[j].name@)) >= 0
                },
                SortColumn::Type => if ascending {
                    lex_order(out[i].file_type@, out[j].file_type@) <= 0
                } else {
                    lex_order(out[i].file_type@, out[j].file_type@) >= 0
                },
                SortColumn::Modified => if ascending {
                    lex_order(out[i].modified@, out[j].modified@) <= 0
                } else {
                    lex_order(out[i].modified@, out[j].modified@) >= 0
                },
                SortColumn::Size => if ascending {
                    out[i].size <= out[j].size
                } else {
                    out[i].size >= out[j].size
                },
            },
{
    let p = choose|p: Seq<int>|
        {
            &&& is_index_perm(p, inp.len())
            &&& out.len() == inp.len()
            &&& forall|i: int| 0 <= i < out.len() ==> out[i] == inp[#[trigger] p[i]]
            &&& forall|i: int, j: int|
                0 <= i < j < out.len() ==> stable_before(inp, #[trigger] p[i], #[trigger] p[j], col, ascending)
        };
    assert forall|i: int, j: int| 0 <= i < j < out.len() implies entry_order(out[i], out[j], col, ascending) <= 0 by {
        assert(stable_before(inp, p[i], p[j], col, ascending));
        assert(out[i] == inp[p[i]]);
        assert(out[j] == inp[p[j]]);
    }
    assert forall|i: int, j: int| 0 <= i < j < out.len() && #[trigger] out[j].is_dir implies #[trigger] out[i].is_dir by {
        assert(entry_order(out[i], out[j], col, ascending) <= 0);
    }
    assert forall|i: int, j: int| 0 <= i < j < out.len() && #[trigger] out[i].is_dir == #[trigger] out[j].is_dir implies match col {
        SortColumn::Name => if ascending {
            lex_order(lowercase(out[i].name@), lowercase(out[j].name@)) <= 0
        } else {
            lex_order(lowercase(out[i].name@), lowercase(out[j].name@)) >= 0
        },
        SortColumn::Type => if ascending {
            lex_order(out[i].file_type@, out[j].file_type@) <= 0
        } else {
            lex_order(out[i].file_type@, out[j].file_type@) >= 0
        },
        SortColumn::Modified => if ascending {
            lex_order(out[i].modified@, out[j].modified@) <= 0
        } else {
            lex_order(out[i].modified@, out[j].modified@) >= 0
        },
        SortColumn::Size => if ascending {
            out[i].size <= out[j].size
        } else {
            out[i].size >= out[j].size
        },
    } by {
        assert(entry_order(out[i], out[j], col, ascending) <= 0);
    }
}

} // verus!
