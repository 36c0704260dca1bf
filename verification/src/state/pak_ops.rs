//! State of the PAK operations tab: what runs, its progress, the results
//! log, and the texts each step and outcome adds to the log.
//!
//! The archive work itself, the file dialogs and the directory walks are the
//! caller's part; they hand their findings and outcomes in as plain values.
use vstd::prelude::*;
use crate::state::paths::{
    extension_of, file_name_of, file_stem_of, join_path, parent_of, path_extension, path_file_name,
    path_file_stem, path_join, path_parent, path_strip_prefix, strip_prefix_of,
};
use crate::text::{
    chars_of, contains_chars, contains_seq, decimal, lemma_filter_members, lowercase, push_decimal, push_signed_decimal, push_str,
    signed_decimal, to_lowercase,
};

verus! {

/// Compression of a PAK being created.
#[derive(Clone, Copy, Debug, PartialEq, Eq, Structural)]
pub enum PakCompression {
    Lz4Hc,
    Lz4,
    Zlib,
    ZlibFast,
    Uncompressed,
}

/// The short name of a compression.
pub open spec fn compression_name(c: PakCompression) -> Seq<char> {
    match c {
        PakCompression::Lz4Hc => "lz4hc"@,
        PakCompression::Lz4 => "lz4"@,
        PakCompression::Zlib => "zlib"@,
        PakCompression::ZlibFast => "zlibfast"@,
        PakCompression::Uncompressed => "none"@,
    }
}

/// The description of a compression shown in the options dialog.
pub open spec fn compression_description(c: PakCompression) -> Seq<char> {
    match c {
        PakCompression::Lz4Hc => "Best compression (default)"@,
        PakCompression::Lz4 => "Fast compression"@,
        PakCompression::Zlib => "Standard compression"@,
        PakCompression::ZlibFast => "Fast zlib"@,
        PakCompression::Uncompressed => "No compression"@,
    }
}

impl PakCompression {
    /// The short name ("lz4hc", "lz4", "zlib", "zlibfast", "none").
    pub fn as_str(&self) -> (s: &'static str)
        ensures
            s@ == compression_name(*self),
    {
        proof {
            reveal_strlit("lz4hc");
            reveal_strlit("lz4");
            reveal_strlit("zlib");
            reveal_strlit("zlibfast");
            reveal_strlit("none");
        }
        match self {
            PakCompression::Lz4Hc => "lz4hc",
            PakCompression::Lz4 => "lz4",
            PakCompression::Zlib => "zlib",
            PakCompression::ZlibFast => "zlibfast",
            PakCompression::Uncompressed => "none",
        }
    }

    /// The description shown in the options dialog.
    pub fn description(&self) -> (s: &'static str)
        ensures
            s@ == compression_description(*self),
    {
        proof {
            reveal_strlit("Best compression (default)");
            reveal_strlit("Fast compression");
            reveal_strlit("Standard compression");
            reveal_strlit("Fast zlib");
            reveal_strlit("No compression");
        }
        match self {
            PakCompression::Lz4Hc => "Best compression (default)",
            PakCompression::Lz4 => "Fast compression",
            PakCompression::Zlib => "Standard compression",
            PakCompression::ZlibFast => "Fast zlib",
            PakCompression::Uncompressed => "No compression",
        }
    }
}

/// The outcome of a background PAK operation.
pub enum PakResult {
    ExtractDone { success: bool, message: String, file_count: usize, dest: String },
    ListDone { success: bool, files: Vec<String>, pak_name: String, error: Option<String> },
    CreateDone { success: bool, message: String, pak_name: String },
    ValidateDone { valid: bool, structure: Vec<String>, warnings: Vec<String> },
}

/// Progress when an operation is complete, in thousandths.
pub const PROGRESS_DONE: u32 = 1000;

/// Everything the PAK operations tab shows and edits.
pub struct PakOpsState {
    /// Progress of the running operation, in thousandths.
    pub progress: u32,
    pub progress_message: String,
    pub show_progress: bool,
    pub is_extracting: bool,
    pub is_creating: bool,
    pub is_listing: bool,
    pub is_validating: bool,
    pub results_log: Vec<String>,
    /// Entry names of the last listed archive.
    pub list_contents: Vec<String>,
    pub file_search: String,
    pub compression: PakCompression,
    pub priority: i32,
    pub show_create_options: bool,
    /// A creation waiting for its options: (source folder, PAK file).
    pub pending_create: Option<(String, String)>,
    pub working_dir: Option<String>,
    pub dropped_file: Option<String>,
    pub show_drop_dialog: bool,
}

/// The characters of each line of a log.
pub open spec fn texts(v: Seq<String>) -> Seq<Seq<char>> {
    v.map_values(|s: String| s@)
}

/// The line that closes each report in the log.
pub open spec fn rule_line() -> Seq<char> {
    "------------------------------------------------------------"@
}

/// Each line with a prefix.
pub open spec fn prefixed(lines: Seq<Seq<char>>, prefix: Seq<char>) -> Seq<Seq<char>> {
    lines.map_values(|l: Seq<char>| prefix + l)
}

/// Number of archive entries the log lists after a successful listing.
pub const LISTED_IN_LOG: usize = 20;

/// The log lines of a successful listing of `pak_name`: the count, a rule,
/// the first entries indented, how many more there are, and a rule.
pub open spec fn listing_report(files: Seq<Seq<char>>, pak_name: Seq<char>) -> Seq<Seq<char>> {
    let shown = if files.len() <= LISTED_IN_LOG { files } else { files.take(LISTED_IN_LOG as int) };
    seq!["✅ Found "@ + decimal(files.len()) + " files in "@ + pak_name, rule_line()] + prefixed(shown, "  "@)
        + (if files.len() > LISTED_IN_LOG {
        seq!["  ... and "@ + decimal((files.len() - LISTED_IN_LOG) as nat) + " more files"@]
    } else {
        Seq::<Seq<char>>::empty()
    }) + seq![rule_line()]
}

/// The log lines of a validation: the verdict, the structure found, the
/// warnings, and a rule.
pub open spec fn validation_report(valid: bool, structure: Seq<Seq<char>>, warnings: Seq<Seq<char>>) -> Seq<Seq<char>> {
    seq![if valid { "✓ Mod structure is valid!"@ } else { "⚠ Mod structure has issues:"@ }] + (if structure.len() > 0 {
        seq!["Structure found:"@] + prefixed(structure, "  "@)
    } else {
        Seq::<Seq<char>>::empty()
    }) + (if warnings.len() > 0 {
        seq!["Warnings:"@] + prefixed(warnings, "  - "@)
    } else {
        Seq::<Seq<char>>::empty()
    }) + seq![rule_line()]
}

/// The text of an optional value, empty when absent.
pub open spec fn text_or_empty(s: Option<String>) -> Seq<char> {
    match s {
        Some(t) => t@,
        None => Seq::empty(),
    }
}

/// Appends `prefix` + each line of `lines` to the log.
fn push_prefixed(log: &mut Vec<String>, lines: &Vec<String>, count: usize, prefix: &str)
    requires
        count <= lines.len(),
    ensures
        texts(final(log)@) == texts(old(log)@) + prefixed(texts(lines@.take(count as int)), prefix@),
{
    let mut k: usize = 0;
    while k < count
        invariant
            k <= count <= lines.len(),
            texts(log@) == texts(old(log)@) + prefixed(texts(lines@.take(k as int)), prefix@),
        decreases count - k,
    {
        let ghost before = log@;
        let mut l = String::from_str(prefix);
        push_str(&mut l, lines[k].as_str());
        log.push(l);
        proof {
            assert(texts(log@) =~= texts(before).push(prefix@ + lines@[k as int]@));
            assert(texts(lines@.take(k + 1)) =~= texts(lines@.take(k as int)).push(lines@[k as int]@));
            assert(prefixed(texts(lines@.take(k + 1)), prefix@) =~= prefixed(texts(lines@.take(k as int)), prefix@).push(
                prefix@ + lines@[k as int]@,
            ));
        }
        k += 1;
        assert(texts(log@) =~= texts(old(log)@) + prefixed(texts(lines@.take(k as int)), prefix@));
    }
}

/// Appends one line to the log.
fn push_line(log: &mut Vec<String>, line: &str)
    ensures
        texts(final(log)@) == texts(old(log)@).push(line@),
{
    log.push(String::from_str(line));
    assert(texts(log@) =~= texts(old(log)@).push(line@));
}

/// Appends the closing rule to the log.
fn push_rule(log: &mut Vec<String>)
    ensures
        texts(final(log)@) == texts(old(log)@).push(rule_line()),
{
    proof {
        reveal_strlit("------------------------------------------------------------");
    }
    push_line(log, "------------------------------------------------------------");
}

impl PakOpsState {
    /// Nothing running, empty log, LZ4-HC compression, priority 0.
    pub fn new() -> (s: Self)
        ensures
            s.progress == 0,
            s.progress_message@ == Seq::<char>::empty(),
            !s.show_progress,
            !s.is_busy_spec(),
            s.results_log@.len() == 0,
            s.list_contents@.len() == 0,
            s.file_search@ == Seq::<char>::empty(),
            s.compression == PakCompression::Lz4Hc,
            s.priority == 0,
            !s.show_create_options,
            s.pending_create is None,
            s.working_dir is None,
            s.dropped_file is None,
            !s.show_drop_dialog,
    {
        PakOpsState {
            progress: 0,
            progress_message: String::new(),
            show_progress: false,
            is_extracting: false,
            is_creating: false,
            is_listing: false,
            is_validating: false,
            results_log: Vec::new(),
            list_contents: Vec::new(),
            file_search: String::new(),
            compression: PakCompression::Lz4Hc,
            priority: 0,
            show_create_options: false,
            pending_create: None,
            working_dir: None,
            dropped_file: None,
            show_drop_dialog: false,
        }
    }

    /// Some operation is running.
    pub open spec fn is_busy_spec(&self) -> bool {
        self.is_extracting || self.is_creating || self.is_listing || self.is_validating
    }

    /// Whether some operation is running.
    pub fn is_busy(&self) -> (b: bool)
        ensures
            b == self.is_busy_spec(),
    {
        self.is_extracting || self.is_creating || self.is_listing || self.is_validating
    }

    /// Appends a line to the results log.
    pub fn add_result(&mut self, message: &str)
        ensures
            texts(final(self).results_log@) == texts(old(self).results_log@).push(message@),
            final(self).is_busy_spec() == old(self).is_busy_spec(),
    {
        push_line(&mut self.results_log, message);
    }

    /// Empties the results log.
    pub fn clear_results(&mut self)
        ensures
            final(self).results_log@.len() == 0,
            final(self).is_busy_spec() == old(self).is_busy_spec(),
    {
        self.results_log = Vec::new();
    }
}

/// Records a finished listing.
fn record_list_done(state: &mut PakOpsState, success: bool, files: Vec<String>, pak_name: String, error: Option<String>)
    ensures
        final(state).progress == PROGRESS_DONE,
        !final(state).is_listing && !final(state).show_progress,
        final(state).is_extracting == old(state).is_extracting,
        final(state).is_creating == old(state).is_creating,
        final(state).is_validating == old(state).is_validating,
        success ==> texts(final(state).results_log@) == texts(old(state).results_log@) + listing_report(
            texts(files@),
            pak_name@,
        ) && final(state).list_contents@ == files@,
        !success ==> texts(final(state).results_log@) == texts(old(state).results_log@).push(
            "❌ Failed to list PAK contents: "@ + text_or_empty(error),
        ) && final(state).list_contents@ == old(state).list_contents@,
        final(state).working_dir == old(state).working_dir,
        final(state).pending_create == old(state).pending_create,
        final(state).compression == old(state).compression,
        final(state).priority == old(state).priority,
        final(state).progress_message == old(state).progress_message,
        final(state).file_search == old(state).file_search,
        final(state).show_create_options == old(state).show_create_options,
        final(state).dropped_file == old(state).dropped_file,
        final(state).show_drop_dialog == old(state).show_drop_dialog,
{
    let ghost log0 = texts(state.results_log@);
    state.progress = PROGRESS_DONE;
    if success {
        let mut l = String::from_str("✅ Found ");
        push_decimal(&mut l, files.len() as u128);
        push_str(&mut l, " files in ");
        push_str(&mut l, pak_name.as_str());
        proof {
            reveal_strlit("✅ Found ");
            reveal_strlit(" files in ");
        }
        push_line(&mut state.results_log, l.as_str());
        push_rule(&mut state.results_log);
        let ghost log1 = texts(state.results_log@);
        let shown: usize = if files.len() <= LISTED_IN_LOG { files.len() } else { LISTED_IN_LOG };
        push_prefixed(&mut state.results_log, &files, shown, "  ");
        let ghost full = texts(files@);
        let ghost sh = if full.len() <= LISTED_IN_LOG { full } else { full.take(LISTED_IN_LOG as int) };
        proof {
            reveal_strlit("  ");
            assert(texts(files@.take(shown as int)) =~= sh);
        }
        let ghost log2 = texts(state.results_log@);
        let ghost more: Seq<Seq<char>> = Seq::empty();
        if files.len() > LISTED_IN_LOG {
            let mut m = String::from_str("  ... and ");
            push_decimal(&mut m, (files.len() - LISTED_IN_LOG) as u128);
            push_str(&mut m, " more files");
            proof {
                reveal_strlit("  ... and ");
                reveal_strlit(" more files");
                more = seq![m@];
            }
            push_line(&mut state.results_log, m.as_str());
        }
        let ghost log3 = texts(state.results_log@);
        assert(log3 =~= log2 + more);
        push_rule(&mut state.results_log);
        proof {
            assert(texts(state.results_log@) =~= log0 + listing_report(texts(files@), pak_name@));
        }
        state.list_contents = files;
    } else {
        let mut l = String::from_str("❌ Failed to list PAK contents: ");
        match &error {
            Some(e) => push_str(&mut l, e.as_str()),
            None => {},
        }
        proof {
            reveal_strlit("❌ Failed to list PAK contents: ");
            assert(l@ =~= "❌ Failed to list PAK contents: "@ + text_or_empty(error));
        }
        push_line(&mut state.results_log, l.as_str());
    }
    state.is_listing = false;
    state.show_progress = false;
}

/// Records a finished validation.
#[verifier::rlimit(40)]
fn record_validate_done(state: &mut PakOpsState, valid: bool, structure: Vec<String>, warnings: Vec<String>)
    ensures
        final(state).progress == old(state).progress,
        final(state).show_progress == old(state).show_progress,
        !final(state).is_validating,
        final(state).is_listing == old(state).is_listing,
        final(state).is_extracting == old(state).is_extracting,
        final(state).is_creating == old(state).is_creating,
        texts(final(state).results_log@) == texts(old(state).results_log@) + validation_report(
            valid,
            texts(structure@),
            texts(warnings@),
        ),
        final(state).list_contents@ == old(state).list_contents@,
        final(state).working_dir == old(state).working_dir,
        final(state).pending_create == old(state).pending_create,
        final(state).compression == old(state).compression,
        final(state).priority == old(state).priority,
        final(state).progress_message == old(state).progress_message,
        final(state).file_search == old(state).file_search,
        final(state).show_create_options == old(state).show_create_options,
        final(state).dropped_file == old(state).dropped_file,
        final(state).show_drop_dialog == old(state).show_drop_dialog,
{
    let ghost log0 = texts(state.results_log@);
    proof {
        reveal_strlit("✓ Mod structure is valid!");
        reveal_strlit("⚠ Mod structure has issues:");
        reveal_strlit("Structure found:");
        reveal_strlit("Warnings:");
        reveal_strlit("  ");
        reveal_strlit("  - ");
        assert(structure@.take(structure.len() as int) =~= structure@);
        assert(warnings@.take(warnings.len() as int) =~= warnings@);
    }
    if valid {
        push_line(&mut state.results_log, "✓ Mod structure is valid!");
    } else {
        push_line(&mut state.results_log, "⚠ Mod structure has issues:");
    }
    let ghost log1 = texts(state.results_log@);
    if structure.len() > 0 {
        push_line(&mut state.results_log, "Structure found:");
        push_prefixed(&mut state.results_log, &structure, structure.len(), "  ");
    }
    let ghost log2 = texts(state.results_log@);
    if warnings.len() > 0 {
        push_line(&mut state.results_log, "Warnings:");
        push_prefixed(&mut state.results_log, &warnings, warnings.len(), "  - ");
    }
    push_rule(&mut state.results_log);
    proof {
        assert(texts(state.results_log@) =~= log0 + validation_report(valid, texts(structure@), texts(warnings@)));
    }
    state.is_validating = false;
}

/// Appends an outcome line and the rule.
fn push_outcome(log: &mut Vec<String>, line: String)
    ensures
        texts(final(log)@) == texts(old(log)@) + seq![line@, rule_line()],
{
    push_line(log, line.as_str());
    push_rule(log);
    assert(texts(log@) =~= texts(old(log)@) + seq![line@, rule_line()]);
}

/// Records the outcome of a background operation: the log gets its report,
/// the operation is no longer running, and (but for a validation) the
/// progress is complete and hidden; a successful listing also keeps the
/// entry names.
pub fn handle_pak_result(state: &mut PakOpsState, result: PakResult)
    ensures
        match result {
            PakResult::ListDone { success, files, pak_name, error } => {
                &&& final(state).progress == PROGRESS_DONE
                &&& !final(state).is_listing && !final(state).show_progress
                &&& final(state).is_extracting == old(state).is_extracting
                &&& final(state).is_creating == old(state).is_creating
                &&& final(state).is_validating == old(state).is_validating
                &&& success ==> texts(final(state).results_log@) == texts(old(state).results_log@) + listing_report(
                    texts(files@),
                    pak_name@,
                ) && final(state).list_contents@ == files@
                &&& !success ==> texts(final(state).results_log@) == texts(old(state).results_log@).push(
                    "❌ Failed to list PAK contents: "@ + text_or_empty(error),
                ) && final(state).list_contents@ == old(state).list_contents@
            },
            PakResult::ExtractDone { success, message, file_count, dest } => {
                &&& final(state).progress == PROGRESS_DONE
                &&& !final(state).is_extracting && !final(state).show_progress
                &&& final(state).is_listing == old(state).is_listing
                &&& final(state).is_creating == old(state).is_creating
                &&& final(state).is_validating == old(state).is_validating
                &&& texts(final(state).results_log@) == texts(old(state).results_log@) + seq![
                    if success {
                        "✅ Successfully extracted "@ + decimal(file_count as nat) + " files to "@ + dest@
                    } else {
                        "❌ Extraction failed: "@ + message@
                    },
                    rule_line(),
                ]
                &&& final(state).list_contents@ == old(state).list_contents@
            },
            PakResult::CreateDone { success, message, pak_name } => {
                &&& final(state).progress == PROGRESS_DONE
                &&& !final(state).is_creating && !final(state).show_progress
                &&& final(state).is_listing == old(state).is_listing
                &&& final(state).is_extracting == old(state).is_extracting
                &&& final(state).is_validating == old(state).is_validating
                &&& texts(final(state).results_log@) == texts(old(state).results_log@) + seq![
                    if success { "✅ Successfully created "@ + pak_name@ } else { "❌ PAK creation failed: "@ + message@ },
                    rule_line(),
                ]
                &&& final(state).list_contents@ == old(state).list_contents@
            },
            PakResult::ValidateDone { valid, structure, warnings } => {
                &&& final(state).progress == old(state).progress
                &&& final(state).show_progress == old(state).show_progress
                &&& !final(state).is_validating
                &&& final(state).is_listing == old(state).is_listing
                &&& final(state).is_extracting == old(state).is_extracting
                &&& final(state).is_creating == old(state).is_creating
                &&& texts(final(state).results_log@) == texts(old(state).results_log@) + validation_report(
                    valid,
                    texts(structure@),
                    texts(warnings@),
                )
                &&& final(state).list_contents@ == old(state).list_contents@
            },
        },
        final(state).working_dir == old(state).working_dir,
        final(state).pending_create == old(state).pending_create,
        final(state).compression == old(state).compression,
        final(state).priority == old(state).priority,
        final(state).progress_message == old(state).progress_message,
        final(state).file_search == old(state).file_search,
        final(state).show_create_options == old(state).show_create_options,
        final(state).dropped_file == old(state).dropped_file,
        final(state).show_drop_dialog == old(state).show_drop_dialog,
{
    match result {
        PakResult::ListDone { success, files, pak_name, error } => {
            record_list_done(state, success, files, pak_name, error);
        },
        PakResult::ExtractDone { success, message, file_count, dest } => {
            state.progress = PROGRESS_DONE;
            proof {
                reveal_strlit("✅ Successfully extracted ");
                reveal_strlit(" files to ");
                reveal_strlit("❌ Extraction failed: ");
            }
            let l = if success {
                let mut l = String::from_str("✅ Successfully extracted ");
                push_decimal(&mut l, file_count as u128);
                push_str(&mut l, " files to ");
                push_str(&mut l, dest.as_str());
                l
            } else {
                let mut l = String::from_str("❌ Extraction failed: ");
                push_str(&mut l, message.as_str());
                l
            };
            push_outcome(&mut state.results_log, l);
            state.is_extracting = false;
            state.show_progress = false;
        },
        PakResult::CreateDone { success, message, pak_name } => {
            state.progress = PROGRESS_DONE;
            proof {
                reveal_strlit("✅ Successfully created ");
                reveal_strlit("❌ PAK creation failed: ");
            }
            let l = if success {
                let mut l = String::from_str("✅ Successfully created ");
                push_str(&mut l, pak_name.as_str());
                l
            } else {
                let mut l = String::from_str("❌ PAK creation failed: ");
                push_str(&mut l, message.as_str());
                l
            };
            push_outcome(&mut state.results_log, l);
            state.is_creating = false;
            state.show_progress = false;
        },
        PakResult::ValidateDone { valid, structure, warnings } => {
            record_validate_done(state, valid, structure, warnings);
        },
    }
}

/// The file name of a path, empty when it has none.
pub open spec fn name_or_empty(path: Seq<char>) -> Seq<char> {
    match path_file_name(path) {
        Some(n) => n,
        None => Seq::empty(),
    }
}

/// The file name of a path as shown in messages (empty when it has none).
pub fn display_name_of(path: &str) -> (n: String)
    ensures
        n@ == name_or_empty(path@),
{
    match file_name_of(path) {
        Some(n) => n,
        None => String::new(),
    }
}

/// The name suggested for the PAK of a folder: the folder's name ("output"
/// when it has none) followed by `suffix` (".pak", or "_rebuilt.pak" when
/// rebuilding).
pub fn suggested_pak_name(source_dir: &str, suffix: &str) -> (n: String)
    ensures
        n@ == (match path_file_name(source_dir@) {
            Some(f) => f,
            None => "output"@,
        }) + suffix@,
{
    let mut n = match file_name_of(source_dir) {
        Some(f) => f,
        None => String::from_str("output"),
    };
    push_str(&mut n, suffix);
    n
}

/// Where an archive's extracted files go for one archive of a batch: the
/// archive's path below the source folder, without its extension, below the
/// destination folder.
pub open spec fn batch_extract_target(source_base: Seq<char>, pak_path: Seq<char>, dest: Seq<char>) -> Seq<char> {
    let rel = match path_strip_prefix(pak_path, source_base) {
        Some(r) => r,
        None => pak_path,
    };
    let rel_parent = match path_parent(rel) {
        Some(p) => p,
        None => Seq::empty(),
    };
    let stem = match path_file_stem(pak_path) {
        Some(s) => s,
        None => Seq::empty(),
    };
    path_join(path_join(dest, rel_parent), stem)
}

/// A path relative to the batch's source folder (the path itself when it is
/// not below it), as shown in the log.
pub open spec fn batch_display_path(source_base: Seq<char>, path: Seq<char>) -> Seq<char> {
    match path_strip_prefix(path, source_base) {
        Some(r) => r,
        None => path,
    }
}

/// The path shown for an item of a batch.
pub fn batch_display(source_base: &str, path: &str) -> (d: String)
    ensures
        d@ == batch_display_path(source_base@, path@),
{
    match strip_prefix_of(path, source_base) {
        Some(r) => r,
        None => String::from_str(path),
    }
}

/// The parent part of a relative path, empty when it has none.
fn parent_or_empty(path: &str) -> (p: String)
    ensures
        p@ == match path_parent(path@) {
            Some(q) => q,
            None => Seq::<char>::empty(),
        },
{
    match parent_of(path) {
        Some(q) => q,
        None => String::new(),
    }
}

/// The folder one archive of a batch is extracted into.
pub fn batch_extract_destination(source_base: &str, pak_path: &str, dest: &str) -> (d: String)
    ensures
        d@ == batch_extract_target(source_base@, pak_path@, dest@),
{
    let rel = batch_display(source_base, pak_path);
    let rel_parent = parent_or_empty(rel.as_str());
    let stem = match file_stem_of(pak_path) {
        Some(s) => s,
        None => String::new(),
    };
    let dir = join_path(dest, rel_parent.as_str());
    join_path(dir.as_str(), stem.as_str())
}

/// The folder that receives the PAK of one folder of a batch: the folder's
/// parent path below the source folder, below the destination folder.
pub open spec fn batch_create_dir(source_base: Seq<char>, folder: Seq<char>, dest: Seq<char>) -> Seq<char> {
    let rel = batch_display_path(source_base, folder);
    path_join(
        dest,
        match path_parent(rel) {
            Some(p) => p,
            None => Seq::empty(),
        },
    )
}

/// The PAK written for one folder of a batch: "<folder name>.pak" in its
/// destination folder.
pub open spec fn batch_create_target(source_base: Seq<char>, folder: Seq<char>, dest: Seq<char>) -> Seq<char> {
    path_join(batch_create_dir(source_base, folder, dest), name_or_empty(folder) + ".pak"@)
}

/// The destination folder and the PAK file for one folder of a batch.
pub fn batch_create_destination(source_base: &str, folder: &str, dest: &str) -> (r: (String, String))
    ensures
        r.0@ == batch_create_dir(source_base@, folder@, dest@),
        r.1@ == batch_create_target(source_base@, folder@, dest@),
{
    let rel = batch_display(source_base, folder);
    let rel_parent = parent_or_empty(rel.as_str());
    let dir = join_path(dest, rel_parent.as_str());
    let mut file = display_name_of(folder);
    push_str(&mut file, ".pak");
    proof {
        reveal_strlit(".pak");
    }
    let pak = join_path(dir.as_str(), file.as_str());
    (dir, pak)
}

/// ASCII lower-casing of one character (other characters are kept).
pub open spec fn ascii_lower(c: char) -> char {
    if 'A' <= c && c <= 'Z' { ((c as u32) + 32) as char } else { c }
}

/// Whether a path names a PAK archive: its extension is "pak" in any ASCII
/// case.
pub open spec fn has_pak_extension(path: Seq<char>) -> bool {
    match path_extension(path) {
        Some(e) => e.len() == 3 && ascii_lower(e[0]) == 'p' && ascii_lower(e[1]) == 'a' && ascii_lower(e[2]) == 'k',
        None => false,
    }
}

/// Executable `has_pak_extension`.
pub fn is_pak_path(path: &str) -> (b: bool)
    ensures
        b == has_pak_extension(path@),
{
    match extension_of(path) {
        Some(e) => {
            let v = chars_of(e.as_str());
            if v.len() != 3 {
                return false;
            }
            let a = v[0];
            let b = v[1];
            let c = v[2];
            (a == 'p' || a == 'P') && (b == 'a' || b == 'A') && (c == 'k' || c == 'K')
        },
        None => false,
    }
}

/// The kind of a batch.
#[derive(Clone, Copy, Debug, PartialEq, Eq, Structural)]
pub enum BatchKind {
    /// Extract every archive below a folder.
    Extract,
    /// Pack every folder holding files below a folder.
    Create,
}

/// How one item of a batch went.
pub enum BatchItemOutcome {
    /// Its destination folder could not be made.
    FolderFailed { display: String, error: String },
    /// It was extracted or packed.
    Done { display: String },
    /// The archive operation failed.
    Failed { display: String, error: String },
}

/// The log line of one item of a batch.
pub open spec fn batch_item_text(kind: BatchKind, o: BatchItemOutcome) -> Seq<char> {
    match o {
        BatchItemOutcome::FolderFailed { display, error } => (if kind == BatchKind::Extract {
            "Failed to create folder for "@
        } else {
            "Failed to create dir for "@
        }) + display@ + ": "@ + error@,
        BatchItemOutcome::Done { display } => if kind == BatchKind::Extract {
            "Extracted: "@ + display@
        } else {
            "Created: "@ + display@ + ".pak"@
        },
        BatchItemOutcome::Failed { display, error } => "Failed "@ + display@ + ": "@ + error@,
    }
}

/// The running tally of a batch.
pub struct BatchTally {
    pub success_count: usize,
    pub fail_count: usize,
    pub results: Vec<String>,
}

impl BatchTally {
    /// Nothing done yet.
    pub fn new() -> (t: Self)
        ensures
            t.success_count == 0,
            t.fail_count == 0,
            t.results@.len() == 0,
    {
        BatchTally { success_count: 0, fail_count: 0, results: Vec::new() }
    }

    /// Records one item: a line in the results, and one more success or
    /// failure.
    pub fn record(&mut self, kind: BatchKind, outcome: BatchItemOutcome)
        requires
            old(self).success_count + old(self).fail_count < usize::MAX,
        ensures
            texts(final(self).results@) == texts(old(self).results@).push(batch_item_text(kind, outcome)),
            outcome is Done ==> final(self).success_count == old(self).success_count + 1 && final(self).fail_count
                == old(self).fail_count,
            !(outcome is Done) ==> final(self).fail_count == old(self).fail_count + 1 && final(self).success_count
                == old(self).success_count,
    {
        proof {
            reveal_strlit("Failed to create folder for ");
            reveal_strlit("Failed to create dir for ");
            reveal_strlit(": ");
            reveal_strlit("Extracted: ");
            reveal_strlit("Created: ");
            reveal_strlit(".pak");
            reveal_strlit("Failed ");
        }
        let ghost text = batch_item_text(kind, outcome);
        let line = match outcome {
            BatchItemOutcome::FolderFailed { display, error } => {
                let mut l = match kind {
                    BatchKind::Extract => String::from_str("Failed to create folder for "),
                    BatchKind::Create => String::from_str("Failed to create dir for "),
                };
                push_str(&mut l, display.as_str());
                push_str(&mut l, ": ");
                push_str(&mut l, error.as_str());
                self.fail_count = self.fail_count + 1;
                l
            },
            BatchItemOutcome::Done { display } => {
                let l = match kind {
                    BatchKind::Extract => {
                        let mut l = String::from_str("Extracted: ");
                        push_str(&mut l, display.as_str());
                        l
                    },
                    BatchKind::Create => {
                        let mut l = String::from_str("Created: ");
                        push_str(&mut l, display.as_str());
                        push_str(&mut l, ".pak");
                        l
                    },
                };
                self.success_count = self.success_count + 1;
                l
            },
            BatchItemOutcome::Failed { display, error } => {
                let mut l = String::from_str("Failed ");
                push_str(&mut l, display.as_str());
                push_str(&mut l, ": ");
                push_str(&mut l, error.as_str());
                self.fail_count = self.fail_count + 1;
                l
            },
        };
        assert(line@ == text);
        push_line(&mut self.results, line.as_str());
    }
}

/// The log line after the batch's items were collected: none found, or how
/// many there are.
pub open spec fn batch_found_text(kind: BatchKind, count: nat) -> Seq<char> {
    if kind == BatchKind::Extract {
        if count == 0 { "No .pak files found in the selected folder"@ } else { "Found "@ + decimal(count) + " PAK files to extract"@ }
    } else {
        if count == 0 {
            "No packable folders found (folders must contain files)"@
        } else {
            "Found "@ + decimal(count) + " folders to pack"@
        }
    }
}

/// Executable `batch_found_text`.
pub fn batch_found_message(kind: BatchKind, count: usize) -> (s: String)
    ensures
        s@ == batch_found_text(kind, count as nat),
{
    proof {
        reveal_strlit("Found ");
        reveal_strlit(" PAK files to extract");
        reveal_strlit(" folders to pack");
    }
    if count == 0 {
        match kind {
            BatchKind::Extract => String::from_str("No .pak files found in the selected folder"),
            BatchKind::Create => String::from_str("No packable folders found (folders must contain files)"),
        }
    } else {
        let mut s = String::from_str("Found ");
        push_decimal(&mut s, count as u128);
        match kind {
            BatchKind::Extract => push_str(&mut s, " PAK files to extract"),
            BatchKind::Create => push_str(&mut s, " folders to pack"),
        }
        s
    }
}

/// The findings of a mod folder check: whether it is valid, the structure
/// found, and the warnings.
pub struct ModReport {
    pub valid: bool,
    pub structure: Vec<String>,
    pub warnings: Vec<String>,
}

/// The verdict on a mod folder from what was found in it: which of the
/// expected folders exist (Mods, Public, Localization), and the names of the
/// entries (in Mods/ and then at the top) that hold a meta.lsx. Without a
/// meta.lsx, or without any structure, the mod is invalid with a warning.
pub open spec fn mod_report_of(present: (bool, bool, bool), meta_entries: Seq<Seq<char>>) -> (bool, Seq<Seq<char>>, Seq<Seq<char>>) {
    let dirs = (if present.0 { seq!["+ Mods/"@] } else { Seq::<Seq<char>>::empty() }) + (if present.1 {
        seq!["+ Public/"@]
    } else {
        Seq::<Seq<char>>::empty()
    }) + (if present.2 { seq!["+ Localization/"@] } else { Seq::<Seq<char>>::empty() });
    let structure = dirs + meta_entries.map_values(|n: Seq<char>| "+ "@ + n + "/meta.lsx"@);
    let w1 = if meta_entries.len() == 0 {
        seq!["No meta.lsx found - mod may not load properly"@]
    } else {
        Seq::<Seq<char>>::empty()
    };
    let w2 = if structure.len() == 0 {
        seq!["No standard mod directories found (Mods/, Public/, Localization/)"@]
    } else {
        Seq::<Seq<char>>::empty()
    };
    (meta_entries.len() > 0 && structure.len() > 0, structure, w1 + w2)
}

/// Judges a mod folder from what was found in it.
pub fn assess_mod_structure(has_mods: bool, has_public: bool, has_localization: bool, meta_entries: &Vec<String>) -> (r: ModReport)
    ensures
        ({
            let (valid, structure, warnings) = mod_report_of((has_mods, has_public, has_localization), texts(meta_entries@));
            &&& r.valid == valid
            &&& texts(r.structure@) == structure
            &&& texts(r.warnings@) == warnings
        }),
{
    let mut structure: Vec<String> = Vec::new();
    if has_mods {
        push_line(&mut structure, "+ Mods/");
    }
    if has_public {
        push_line(&mut structure, "+ Public/");
    }
    if has_localization {
        push_line(&mut structure, "+ Localization/");
    }
    let ghost dirs = texts(structure@);
    let mut k: usize = 0;
    while k < meta_entries.len()
        invariant
            k <= meta_entries.len(),
            texts(structure@) == dirs + texts(meta_entries@.take(k as int)).map_values(|n: Seq<char>| "+ "@ + n + "/meta.lsx"@),
        decreases meta_entries.len() - k,
    {
        let ghost before = texts(structure@);
        let mut l = String::from_str("+ ");
        push_str(&mut l, meta_entries[k].as_str());
        push_str(&mut l, "/meta.lsx");
        push_line(&mut structure, l.as_str());
        proof {
            reveal_strlit("+ ");
            reveal_strlit("/meta.lsx");
            assert(texts(meta_entries@.take(k + 1)) =~= texts(meta_entries@.take(k as int)).push(meta_entries@[k as int]@));
            assert(texts(meta_entries@.take(k + 1)).map_values(|n: Seq<char>| "+ "@ + n + "/meta.lsx"@)
                =~= texts(meta_entries@.take(k as int)).map_values(|n: Seq<char>| "+ "@ + n + "/meta.lsx"@).push(
                "+ "@ + meta_entries@[k as int]@ + "/meta.lsx"@,
            ));
        }
        k += 1;
    }
    assert(meta_entries@.take(meta_entries.len() as int) =~= meta_entries@);
    let found_meta = meta_entries.len() > 0;
    let mut warnings: Vec<String> = Vec::new();
    let mut valid = true;
    if !found_meta {
        push_line(&mut warnings, "No meta.lsx found - mod may not load properly");
        valid = false;
    }
    if structure.len() == 0 {
        push_line(&mut warnings, "No standard mod directories found (Mods/, Public/, Localization/)");
        valid = false;
    }
    proof {
        let (v, st, w) = mod_report_of((has_mods, has_public, has_localization), texts(meta_entries@));
        assert(texts(structure@) =~= st);
        assert(texts(warnings@) =~= w);
    }
    ModReport { valid, structure, warnings }
}

/// The entry names of a listed archive that contain the search text in any
/// case (all of them for an empty search).
pub open spec fn listed_matching(files: Seq<String>, search: Seq<char>) -> Seq<String> {
    if search.len() == 0 {
        files
    } else {
        files.filter(|f: String| contains_seq(lowercase(f@), lowercase(search)))
    }
}

/// Filters the listed entry names by the search field.
pub fn filter_listed(files: &Vec<String>, search: &str) -> (out: Vec<String>)
    ensures
        texts(out@) == texts(listed_matching(files@, search@)),
{
    if search.is_empty() {
        let mut out: Vec<String> = Vec::new();
        let mut i: usize = 0;
        while i < files.len()
            invariant
                i <= files.len(),
                search@.len() == 0,
                texts(out@) == texts(files@.take(i as int)),
            decreases files.len() - i,
        {
            let ghost before = out@;
            out.push(files[i].clone());
            assert(texts(out@) =~= texts(before).push(files@[i as int]@));
            assert(texts(files@.take(i + 1)) =~= texts(files@.take(i as int)).push(files@[i as int]@));
            i += 1;
        }
        assert(files@.take(files.len() as int) =~= files@);
        return out;
    }
    let lower = to_lowercase(search);
    let needle = chars_of(lower.as_str());
    let ghost keep = |f: String| contains_seq(lowercase(f@), lowercase(search@));
    let mut out: Vec<String> = Vec::new();
    let mut i: usize = 0;
    assert(files@.subrange(0, 0).filter(keep) =~= Seq::<String>::empty());
    while i < files.len()
        invariant
            i <= files.len(),
            search@.len() != 0,
            needle@ == lowercase(search@),
            keep == (|f: String| contains_seq(lowercase(f@), lowercase(search@))),
            texts(out@) == texts(files@.subrange(0, i as int).filter(keep)),
        decreases files.len() - i,
    {
        let name = to_lowercase(files[i].as_str());
        let hay = chars_of(name.as_str());
        let hit = contains_chars(&hay, &needle);
        proof {
            let t = files@.subrange(0, i + 1);
            assert(t.drop_last() =~= files@.subrange(0, i as int));
            reveal(Seq::filter);
            assert(t.last() == files@[i as int]);
        }
        if hit {
            let ghost before = out@;
            out.push(files[i].clone());
            assert(texts(out@) =~= texts(before).push(files@[i as int]@));
            assert(texts(files@.subrange(0, i + 1).filter(keep)) =~= texts(files@.subrange(0, i as int).filter(keep)).push(
                files@[i as int]@,
            ));
        }
        i += 1;
    }
    assert(files@.subrange(0, files.len() as int) =~= files@);
    out
}

/// The count shown above the listed entries: "N files", or "M of N files"
/// while a search hides some.
pub open spec fn listed_count_text(shown: nat, total: nat) -> Seq<char> {
    if shown == total { decimal(total) + " files"@ } else { decimal(shown) + " of "@ + decimal(total) + " files"@ }
}

/// Executable `listed_count_text`.
pub fn listed_count_label(shown: usize, total: usize) -> (s: String)
    ensures
        s@ == listed_count_text(shown as nat, total as nat),
{
    let mut s = String::new();
    if shown == total {
        push_decimal(&mut s, total as u128);
    } else {
        push_decimal(&mut s, shown as u128);
        push_str(&mut s, " of ");
        push_decimal(&mut s, total as u128);
    }
    push_str(&mut s, " files");
    proof {
        reveal_strlit(" of ");
        reveal_strlit(" files");
    }
    s
}

impl PakOpsState {
    /// Notes that an archive is being extracted: the log says so, and the
    /// progress overlay shows it being read.
    pub fn begin_extract(&mut self, pak_name: &str)
        ensures
            texts(final(self).results_log@) == texts(old(self).results_log@).push("Extracting "@ + pak_name@ + "..."@),
            final(self).is_extracting,
            final(self).show_progress,
            final(self).progress == 0,
            final(self).progress_message@ == "Reading "@ + pak_name@ + "..."@,
            final(self).is_listing == old(self).is_listing,
            final(self).is_creating == old(self).is_creating,
            final(self).is_validating == old(self).is_validating,
    {
        let mut l = String::from_str("Extracting ");
        push_str(&mut l, pak_name);
        push_str(&mut l, "...");
        push_line(&mut self.results_log, l.as_str());
        self.is_extracting = true;
        self.show_progress = true;
        self.progress = 0;
        let mut m = String::from_str("Reading ");
        push_str(&mut m, pak_name);
        push_str(&mut m, "...");
        self.progress_message = m;
        proof {
            reveal_strlit("Extracting ");
            reveal_strlit("Reading ");
            reveal_strlit("...");
        }
    }

    /// Notes that an archive is being listed: the log says so, and the
    /// progress overlay shows it being read.
    pub fn begin_list(&mut self, pak_name: &str)
        ensures
            texts(final(self).results_log@) == texts(old(self).results_log@).push(
                "Listing contents of "@ + pak_name@ + "..."@,
            ),
            final(self).is_listing,
            final(self).show_progress,
            final(self).progress == 0,
            final(self).progress_message@ == "Reading "@ + pak_name@ + "..."@,
            final(self).is_extracting == old(self).is_extracting,
            final(self).is_creating == old(self).is_creating,
            final(self).is_validating == old(self).is_validating,
    {
        let mut l = String::from_str("Listing contents of ");
        push_str(&mut l, pak_name);
        push_str(&mut l, "...");
        push_line(&mut self.results_log, l.as_str());
        self.is_listing = true;
        self.show_progress = true;
        self.progress = 0;
        let mut m = String::from_str("Reading ");
        push_str(&mut m, pak_name);
        push_str(&mut m, "...");
        self.progress_message = m;
        proof {
            reveal_strlit("Listing contents of ");
            reveal_strlit("Reading ");
            reveal_strlit("...");
        }
    }

    /// Keeps a creation waiting for its options and opens the options dialog.
    pub fn request_create(&mut self, source: String, dest: String)
        ensures
            final(self).pending_create == Some((source, dest)),
            final(self).show_create_options,
            final(self).results_log@ == old(self).results_log@,
    {
        self.pending_create = Some((source, dest));
        self.show_create_options = true;
    }

    /// Notes that a PAK is being created from `source` into `dest`: the log
    /// names the folder, the compression and the priority; the progress
    /// overlay shows the archive being written; the pending creation is done.
    pub fn begin_create(&mut self, source: &str, dest: &str)
        ensures
            texts(final(self).results_log@) == texts(old(self).results_log@) + seq![
                "Creating PAK from "@ + name_or_empty(source@) + "..."@,
                "Compression: "@ + compression_name(old(self).compression) + ", Priority: "@ + signed_decimal(
                    old(self).priority as int,
                ),
            ],
            final(self).is_creating,
            final(self).show_progress,
            final(self).progress == 0,
            final(self).progress_message@ == "Creating "@ + name_or_empty(dest@) + " (this may take a while)..."@,
            final(self).pending_create is None,
            final(self).compression == old(self).compression,
            final(self).priority == old(self).priority,
            final(self).is_extracting == old(self).is_extracting,
            final(self).is_listing == old(self).is_listing,
            final(self).is_validating == old(self).is_validating,
    {
        let source_name = display_name_of(source);
        let pak_name = display_name_of(dest);
        let mut l1 = String::from_str("Creating PAK from ");
        push_str(&mut l1, source_name.as_str());
        push_str(&mut l1, "...");
        let mut l2 = String::from_str("Compression: ");
        push_str(&mut l2, self.compression.as_str());
        push_str(&mut l2, ", Priority: ");
        push_signed_decimal(&mut l2, self.priority as i64);
        let ghost log0 = texts(self.results_log@);
        push_line(&mut self.results_log, l1.as_str());
        push_line(&mut self.results_log, l2.as_str());
        self.is_creating = true;
        self.show_progress = true;
        self.progress = 0;
        let mut m = String::from_str("Creating ");
        push_str(&mut m, pak_name.as_str());
        push_str(&mut m, " (this may take a while)...");
        self.progress_message = m;
        self.pending_create = None;
        proof {
            reveal_strlit("Creating PAK from ");
            reveal_strlit("...");
            reveal_strlit("Compression: ");
            reveal_strlit(", Priority: ");
            reveal_strlit("Creating ");
            reveal_strlit(" (this may take a while)...");
            assert(texts(self.results_log@) =~= log0 + seq![l1@, l2@]);
        }
    }

    /// Notes that a mod folder is being checked.
    pub fn begin_validate(&mut self, mod_name: &str)
        ensures
            texts(final(self).results_log@) == texts(old(self).results_log@).push(
                "Validating mod structure: "@ + mod_name@,
            ),
            final(self).is_validating,
            final(self).is_extracting == old(self).is_extracting,
            final(self).is_creating == old(self).is_creating,
            final(self).is_listing == old(self).is_listing,
    {
        let mut l = String::from_str("Validating mod structure: ");
        push_str(&mut l, mod_name);
        push_line(&mut self.results_log, l.as_str());
        self.is_validating = true;
        proof {
            reveal_strlit("Validating mod structure: ");
        }
    }

    /// Notes that a batch of `count` items starts.
    pub fn begin_batch(&mut self, kind: BatchKind, count: usize)
        ensures
            kind == BatchKind::Extract ==> final(self).is_extracting && final(self).is_creating == old(self).is_creating
                && final(self).progress_message@ == "Batch extracting "@ + decimal(count as nat) + " PAK files..."@,
            kind == BatchKind::Create ==> final(self).is_creating && final(self).is_extracting == old(self).is_extracting
                && final(self).progress_message@ == "Batch creating "@ + decimal(count as nat) + " PAK files..."@,
            final(self).show_progress,
            final(self).progress == 0,
            final(self).results_log@ == old(self).results_log@,
            final(self).is_listing == old(self).is_listing,
            final(self).is_validating == old(self).is_validating,
    {
        let mut m = match kind {
            BatchKind::Extract => {
                self.is_extracting = true;
                String::from_str("Batch extracting ")
            },
            BatchKind::Create => {
                self.is_creating = true;
                String::from_str("Batch creating ")
            },
        };
        push_decimal(&mut m, count as u128);
        push_str(&mut m, " PAK files...");
        proof {
            reveal_strlit("Batch extracting ");
            reveal_strlit("Batch creating ");
            reveal_strlit(" PAK files...");
        }
        self.progress_message = m;
        self.show_progress = true;
        self.progress = 0;
    }

    /// Remembers the folder of a chosen file as the working directory (when
    /// the path has a parent).
    pub fn remember_parent_dir(&mut self, file_path: &str)
        ensures
            match path_parent(file_path@) {
                Some(p) => final(self).working_dir matches Some(w) && w@ == p,
                None => final(self).working_dir == old(self).working_dir,
            },
            final(self).results_log@ == old(self).results_log@,
    {
        match parent_of(file_path) {
            Some(p) => {
                self.working_dir = Some(p);
            },
            None => {},
        }
    }

    /// The explanation shown for extracting single files: the log is
    /// replaced by it.
    pub fn extract_individual_files(&mut self)
        ensures
            texts(final(self).results_log@) == seq![
                "📄 Extract Individual Files"@,
                "This feature allows selecting specific files from a PAK."@,
                "Use 'List PAK Contents' first, then extract the full PAK."@,
                "Individual file extraction UI coming soon."@,
                rule_line(),
            ],
    {
        self.clear_results();
        let ghost log0 = texts(self.results_log@);
        assert(log0 =~= Seq::<Seq<char>>::empty());
        push_line(&mut self.results_log, "📄 Extract Individual Files");
        push_line(&mut self.results_log, "This feature allows selecting specific files from a PAK.");
        push_line(&mut self.results_log, "Use 'List PAK Contents' first, then extract the full PAK.");
        push_line(&mut self.results_log, "Individual file extraction UI coming soon.");
        push_rule(&mut self.results_log);
        assert(texts(self.results_log@) =~= seq![
            "📄 Extract Individual Files"@,
            "This feature allows selecting specific files from a PAK."@,
            "Use 'List PAK Contents' first, then extract the full PAK."@,
            "Individual file extraction UI coming soon."@,
            rule_line(),
        ]);
    }
}

/// What the progress overlay shows for a polled percentage and message.
pub struct ProgressView {
    /// No real percentage yet: a sliding bar instead.
    pub indeterminate: bool,
    pub title: String,
    /// The bar's length in percent (when not indeterminate).
    pub bar_percent: u32,
    pub percent_label: String,
}

/// While an archive is still being read ("Reading" in the message and less
/// than all done), the overlay shows a sliding bar.
pub open spec fn is_indeterminate(pct: u32, msg: Seq<char>) -> bool {
    contains_seq(msg, "Reading"@) && pct < 100
}

/// The overlay for a polled percentage and message: the message as title
/// ("Finishing..." once the percentage reaches 100 outside the reading
/// phase), the percentage capped at 100, or "..." while indeterminate.
pub fn progress_view(pct: u32, msg: &str) -> (v: ProgressView)
    ensures
        v.indeterminate == is_indeterminate(pct, msg@),
        v.title@ == (if !v.indeterminate && pct >= 100 { "Finishing..."@ } else { msg@ }),
        v.bar_percent == (if pct > 100 { 100 } else { pct }),
        v.percent_label@ == (if v.indeterminate { "..."@ } else { decimal(v.bar_percent as nat) + "%"@ }),
{
    let hay = chars_of(msg);
    let needle = chars_of("Reading");
    let indeterminate = contains_chars(&hay, &needle) && pct < 100;
    let bar_percent = if pct > 100 { 100 } else { pct };
    let title = if !indeterminate && pct >= 100 { String::from_str("Finishing...") } else { String::from_str(msg) };
    let percent_label = if indeterminate {
        String::from_str("...")
    } else {
        let mut l = String::new();
        push_decimal(&mut l, bar_percent as u128);
        push_str(&mut l, "%");
        l
    };
    ProgressView { indeterminate, title, bar_percent, percent_label }
}

/// One frame of the sliding bar: it moves 3% in its direction and turns
/// around at 0% and 70%.
pub open spec fn animation_next(pos: int, dir: int) -> (int, int) {
    let next = pos + dir * 3;
    if next >= 70 { (70, -1) } else if next <= 0 { (0, 1) } else { (next, dir) }
}

/// Executable `animation_next`.
pub fn animation_step(pos: i32, dir: i32) -> (r: (i32, i32))
    requires
        i32::MIN <= dir * 3 <= i32::MAX,
        i32::MIN <= pos + dir * 3 <= i32::MAX,
    ensures
        (r.0 as int, r.1 as int) == animation_next(pos as int, dir as int),
{
    let next = pos + dir * 3;
    if next >= 70 {
        (70, -1)
    } else if next <= 0 {
        (0, 1)
    } else {
        (next, dir)
    }
}

/// Starting from the overlay's reset position, the sliding bar stays within
/// 0% to 70% and keeps moving one way or the other.
pub proof fn lemma_animation_stays_in_range(pos: int, dir: int)
    requires
        0 <= pos <= 70,
        dir == 1 || dir == -1,
    ensures
        0 <= animation_next(pos, dir).0 <= 70,
        animation_next(pos, dir).1 == 1 || animation_next(pos, dir).1 == -1,
{
}

/// How the status bar colours a log line.
#[derive(Clone, Copy, Debug, PartialEq, Eq, Structural)]
pub enum MessageTone {
    /// Starts with a check mark (green).
    Success,
    /// Starts with a cross or a warning sign (red).
    Problem,
    /// Anything else (grey).
    Plain,
}

/// The tone of a log line by its first character.
pub open spec fn tone_of(line: Seq<char>) -> MessageTone {
    if line.len() > 0 && (line[0] == '✅' || line[0] == '✓') {
        MessageTone::Success
    } else if line.len() > 0 && (line[0] == '❌' || line[0] == '⚠') {
        MessageTone::Problem
    } else {
        MessageTone::Plain
    }
}

/// What the status bar under the results shows: the last line of the log
/// with its tone, nothing for an empty log.
pub fn status_line(log: &Vec<String>) -> (r: Option<(String, MessageTone)>)
    ensures
        log@.len() == 0 ==> r is None,
        log@.len() > 0 ==> (r matches Some((line, tone)) && line@ == log@.last()@ && tone == tone_of(log@.last()@)),
{
    if log.len() == 0 {
        return None;
    }
    let last = log[log.len() - 1].clone();
    let v = chars_of(last.as_str());
    let tone = if v.len() > 0 && (v[0] == '✅' || v[0] == '✓') {
        MessageTone::Success
    } else if v.len() > 0 && (v[0] == '❌' || v[0] == '⚠') {
        MessageTone::Problem
    } else {
        MessageTone::Plain
    };
    Some((last, tone))
}

/// The title of the dialog for a dropped file: "Dropped: " and its file
/// name ("PAK file" when there is none).
pub open spec fn drop_title_text(dropped: Option<Seq<char>>) -> Seq<char> {
    let path = match dropped {
        Some(p) => p,
        None => Seq::empty(),
    };
    "Dropped: "@ + match path_file_name(path) {
        Some(n) => n,
        None => "PAK file"@,
    }
}

/// Executable `drop_title_text`.
pub fn drop_title(dropped: &Option<String>) -> (s: String)
    ensures
        s@ == drop_title_text(match dropped {
            Some(p) => Some(p@),
            None => None,
        }),
{
    let path = match dropped {
        Some(p) => p.clone(),
        None => String::new(),
    };
    let mut s = String::from_str("Dropped: ");
    match file_name_of(path.as_str()) {
        Some(n) => push_str(&mut s, n.as_str()),
        None => push_str(&mut s, "PAK file"),
    }
    s
}

/// The answers to the dialog for a dropped file.
#[derive(Clone, Copy, Debug, PartialEq, Eq, Structural)]
pub enum DropAnswer {
    Extract,
    List,
    Cancel,
}

impl PakOpsState {
    /// Answers the dialog for a dropped file: it closes; extracting or
    /// listing hands back the dropped path (empty when none is kept), to be
    /// extracted or listed; cancelling forgets the file.
    pub fn answer_drop(&mut self, answer: DropAnswer) -> (path: Option<String>)
        ensures
            !final(self).show_drop_dialog,
            answer == DropAnswer::Cancel ==> path is None && final(self).dropped_file is None,
            answer != DropAnswer::Cancel ==> (path matches Some(p) && p@ == match old(self).dropped_file {
                Some(d) => d@,
                None => Seq::<char>::empty(),
            }) && final(self).dropped_file == old(self).dropped_file,
            final(self).results_log == old(self).results_log,
            final(self).is_extracting == old(self).is_extracting,
            final(self).is_creating == old(self).is_creating,
            final(self).is_listing == old(self).is_listing,
    {
        self.show_drop_dialog = false;
        match answer {
            DropAnswer::Cancel => {
                self.dropped_file = None;
                None
            },
            _ => match &self.dropped_file {
                Some(p) => Some(p.clone()),
                None => Some(String::new()),
            },
        }
    }
}

/// The archive search matches anywhere in an entry's path, ignoring case:
/// an entry whose lower-cased path holds the lower-cased search text at some
/// position `i` (not only at the start) is listed; an empty search lists
/// every entry.
pub proof fn lemma_listed_keeps_paths_containing_search(files: Seq<String>, search: Seq<char>, j: int, i: int)
    requires
        0 <= j < files.len(),
        0 <= i,
        i + lowercase(search).len() <= lowercase(files[j]@).len(),
        lowercase(files[j]@).subrange(i, i + lowercase(search).len()) == lowercase(search),
    ensures
        listed_matching(files, search).contains(files[j]),
        listed_matching(files, Seq::<char>::empty()) == files,
{
    if search.len() > 0 {
        let pred = |f: String| contains_seq(lowercase(f@), lowercase(search));
        assert(lowercase(files[j]@).subrange(i, i + lowercase(search).len()) == lowercase(search));
        assert(pred(files[j]));
        files.filter_lemma(pred);
    } else {
        assert(files[j] == files[j]);
    }
}

/// Every entry listed for a search is an entry of the archive whose
/// lower-cased path holds the lower-cased search text somewhere (any entry,
/// for an empty search).
pub proof fn lemma_listed_shows_only_matches(files: Seq<String>, search: Seq<char>, k: int)
    requires
        0 <= k < listed_matching(files, search).len(),
    ensures
        ({
            let f = listed_matching(files, search)[k];
            let n = lowercase(search).len();
            &&& files.contains(f)
            &&& search.len() == 0 || exists|i: int|
                0 <= i && i + n <= lowercase(f@).len() && #[trigger] lowercase(f@).subrange(i, i + n) == lowercase(search)
        }),
{
    if search.len() > 0 {
        let pred = |f: String| contains_seq(lowercase(f@), lowercase(search));
        lemma_filter_members(files, pred);
        assert(pred(files.filter(pred)[k]));
    } else {
        assert(files[k] == files[k]);
    }
}

} // verus!
