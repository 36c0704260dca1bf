//! Universal editor: its events, the search panel and the file dispatch.
use vstd::prelude::*;
use crate::app::{Callback, MacPakApp};
use crate::state::browser::Conversion;
use crate::state::editor::EditorTab;
use crate::state::paths::{extension_of, path_extension};
use crate::text::{
    boundary_index, byte_len, char_index_at_byte, chars_of, decimal, push_char, push_decimal, push_str, str_eq,
    to_uppercase, uppercase,
};

verus! {

/// The events the editor tab handles.
pub open spec fn tab_callbacks() -> Set<Callback> {
    set![
        Callback::EditorOpen,
        Callback::EditorSave,
        Callback::EditorSaveAs,
        Callback::EditorConvert,
    ]
}

/// Registers all Editor tab callbacks on the application.
/// What each of these events does is the matching method of `EditorPanel`.
pub fn register_callbacks(app: &mut MacPakApp)
    requires
        old(app).wf(),
    ensures
        final(app).wf(),
        final(app).tab() == old(app).tab(),
        final(app).handled() == old(app).handled().union(tab_callbacks()),
{
    app.on(Callback::EditorOpen);
    app.on(Callback::EditorSave);
    app.on(Callback::EditorSaveAs);
    app.on(Callback::EditorConvert);
    assert(app.handled() =~= old(app).handled().union(tab_callbacks()));
}


/// Characters that have a meaning in a regular expression and are escaped to
/// be matched literally.
pub open spec fn is_regex_meta(c: char) -> bool {
    ||| c == '\\' ||| c == '.' ||| c == '+' ||| c == '*' ||| c == '?' ||| c == '('
    ||| c == ')' ||| c == '|' ||| c == '[' ||| c == ']' ||| c == '{' ||| c == '}'
    ||| c == '^' ||| c == '$' ||| c == '#' ||| c == '&' ||| c == '-' ||| c == '~'
}

/// `text` with a backslash before every meta character.
pub open spec fn regex_escaped(text: Seq<char>) -> Seq<char>
    decreases text.len(),
{
    if text.len() == 0 {
        Seq::empty()
    } else {
        let c = text.last();
        regex_escaped(text.drop_last()) + if is_regex_meta(c) { seq!['\\', c] } else { seq![c] }
    }
}

/// Escapes a search text so that it matches literally (regex `escape`):
/// every meta character gets a backslash in front.
#[verifier::external_body]
fn escape_pattern(text: &str) -> (r: String)
    ensures
        r@ == regex_escaped(text@),
{
    regex::escape(text)
}

#[verifier::external_type_specification]
#[verifier::external_body]
pub struct ExRegex(regex::Regex);

/// What building a regex from `pattern` (case-insensitive when
/// `ignore_case`) reports: `None` when it builds, otherwise the text of the
/// error (its `Display`).
pub uninterp spec fn regex_build_error(pattern: Seq<char>, ignore_case: bool) -> Option<Seq<char>>;

/// The byte ranges of the successive non-overlapping matches of the regex
/// `pattern` (case-insensitive when `ignore_case`) in `haystack`.
pub uninterp spec fn regex_find_spans(pattern: Seq<char>, ignore_case: bool, haystack: Seq<char>) -> Seq<(usize, usize)>;

/// The text of `haystack` with every match of the regex replaced by
/// `replacement` (where `$name` and `${n}` stand for capture groups).
pub uninterp spec fn regex_replace_all(
    pattern: Seq<char>,
    ignore_case: bool,
    haystack: Seq<char>,
    replacement: Seq<char>,
) -> Seq<char>;

/// Match ranges as the regex documentation promises them: each starts no
/// later than it ends, both ends fall on character boundaries of the
/// haystack, and each match ends before the next one starts.
pub open spec fn spans_well_placed(haystack: Seq<char>, spans: Seq<(usize, usize)>) -> bool {
    &&& forall|k: int| 0 <= k < spans.len() ==> {
        &&& (#[trigger] spans[k]).0 <= spans[k].1
        &&& boundary_index(haystack, spans[k].0 as nat) is Some
        &&& boundary_index(haystack, spans[k].1 as nat) is Some
    }
    &&& forall|a: int, b: int| 0 <= a < b < spans.len() ==> (#[trigger] spans[a]).1 <= (#[trigger] spans[b]).0
}

/// A compiled search pattern, with the text and case option it was
/// compiled from. The fields are private to this module and the regex is
/// opaque, so nothing but `compile_pattern`, which keeps the text and the
/// option it compiled, makes one.
pub struct SearchPattern {
    source: String,
    ignore_case: bool,
    regex: regex::Regex,
}

impl SearchPattern {
    /// The pattern text this was compiled from.
    pub closed spec fn pattern(&self) -> Seq<char> {
        self.source@
    }

    /// Whether matching ignores case.
    pub closed spec fn ignores_case(&self) -> bool {
        self.ignore_case
    }
}

/// Compiles a pattern (regex `RegexBuilder::new(pattern)
/// .case_insensitive(ignore_case).build()`); the error is rendered as text.
/// The contract names the outcome: the regex grammar is the regex crate's.
#[verifier::external_body]
fn compile_pattern(pattern: &str, ignore_case: bool) -> (r: Result<SearchPattern, String>)
    ensures
        match r {
            Ok(p) => regex_build_error(pattern@, ignore_case) is None && p.pattern() == pattern@
                && p.ignores_case() == ignore_case,
            Err(e) => regex_build_error(pattern@, ignore_case) == Some(e@),
        },
{
    match regex::RegexBuilder::new(pattern).case_insensitive(ignore_case).build() {
        Ok(regex) => Ok(SearchPattern { source: pattern.to_string(), ignore_case, regex }),
        Err(e) => Err(e.to_string()),
    }
}

/// The byte ranges of all matches (regex `find_iter`, each match as its
/// start and end). The contract names the ranges and states what the regex
/// documentation promises of them.
#[verifier::external_body]
fn find_spans(p: &SearchPattern, content: &str) -> (spans: Vec<(usize, usize)>)
    ensures
        spans@ == regex_find_spans(p.pattern(), p.ignores_case(), content@),
        spans_well_placed(content@, spans@),
{
    p.regex.find_iter(content).map(|m| (m.start(), m.end())).collect()
}

/// Every match replaced (regex `replace_all`). The contract names the result.
#[verifier::external_body]
fn replace_every(p: &SearchPattern, content: &str, replacement: &str) -> (r: String)
    ensures
        r@ == regex_replace_all(p.pattern(), p.ignores_case(), content@, replacement@),
{
    p.regex.replace_all(content, replacement).into_owned()
}

/// The regex the search panel looks for: the text itself in regex mode,
/// otherwise the text escaped; wrapped in word boundaries for whole words.
pub open spec fn search_pattern(text: Seq<char>, use_regex: bool, whole_words: bool) -> Seq<char> {
    let p = if use_regex { text } else { regex_escaped(text) };
    if whole_words { "\\b"@ + p + "\\b"@ } else { p }
}

/// "Whole words" wraps the pattern in word boundaries whether or not the text
/// is a regular expression; a regular expression is used as typed, and plain
/// text is escaped so that it matches literally.
pub proof fn lemma_search_pattern_whole_words(text: Seq<char>, use_regex: bool)
    ensures
        search_pattern(text, use_regex, true) == "\\b"@ + search_pattern(text, use_regex, false) + "\\b"@,
        search_pattern(text, true, false) == text,
        search_pattern(text, false, false) == regex_escaped(text),
{
}

/// Executable `search_pattern`.
pub fn build_search_pattern(text: &str, use_regex: bool, whole_words: bool) -> (p: String)
    ensures
        p@ == search_pattern(text@, use_regex, whole_words),
{
    let base = if use_regex { String::from_str(text) } else { escape_pattern(text) };
    if whole_words {
        let mut p = String::from_str("\\b");
        push_str(&mut p, base.as_str());
        push_str(&mut p, "\\b");
        proof {
            reveal_strlit("\\b");
        }
        p
    } else {
        base
    }
}

/// The matches found by the last search and the one that is current.
pub struct SearchState {
    pub matches: Vec<(usize, usize)>,
    pub current_index: usize,
}

impl SearchState {
    /// No matches, the first one current.
    pub fn new() -> (s: Self)
        ensures
            s.matches@.len() == 0,
            s.current_index == 0,
    {
        SearchState { matches: Vec::new(), current_index: 0 }
    }
}

/// What the search of the panel finds in `content`: no match for an empty
/// search text, the error text when the pattern does not build, otherwise
/// the matches of the pattern.
pub open spec fn search_found(
    text: Seq<char>,
    use_regex: bool,
    whole_words: bool,
    case_sensitive: bool,
    content: Seq<char>,
) -> Result<Seq<(usize, usize)>, Seq<char>> {
    let pat = search_pattern(text, use_regex, whole_words);
    if text.len() == 0 {
        Ok(Seq::empty())
    } else {
        match regex_build_error(pat, !case_sensitive) {
            None => Ok(regex_find_spans(pat, !case_sensitive, content)),
            Some(e) => Err(e),
        }
    }
}

/// What the panel's search of `content` finds with the tab's settings.
pub open spec fn tab_search_found(tab: EditorTab, content: Seq<char>) -> Result<Seq<(usize, usize)>, Seq<char>> {
    search_found(tab.search_text@, tab.use_regex, tab.whole_words, tab.case_sensitive, content)
}

/// Records what a search found: its matches, the first one current and no
/// status; or, when the pattern did not build, no matches and the error.
pub fn record_search(tab: &mut EditorTab, search: &mut SearchState, found: Result<Vec<(usize, usize)>, String>)
    ensures
        final(tab).current_match == 0,
        match found {
            Ok(m) => {
                &&& final(search).matches@ == m@
                &&& final(tab).match_count == m@.len()
                &&& final(tab).search_status@ == Seq::<char>::empty()
                &&& final(search).current_index == 0
            },
            Err(e) => {
                &&& final(search).matches@.len() == 0
                &&& final(tab).match_count == 0
                &&& final(tab).search_status@ == "Invalid regex: "@ + e@
                &&& final(search).current_index == old(search).current_index
            },
        },
        final(tab).content == old(tab).content,
        final(tab).modified == old(tab).modified,
        final(tab).search_text == old(tab).search_text,
        final(tab).replace_text == old(tab).replace_text,
        final(tab).case_sensitive == old(tab).case_sensitive,
        final(tab).whole_words == old(tab).whole_words,
        final(tab).use_regex == old(tab).use_regex,
        final(tab).file_path == old(tab).file_path,
        final(tab).file_format == old(tab).file_format,
        final(tab).id == old(tab).id,
{
    tab.current_match = 0;
    match found {
        Ok(spans) => {
            tab.match_count = spans.len();
            search.matches = spans;
            search.current_index = 0;
            tab.search_status = String::new();
        },
        Err(e) => {
            tab.match_count = 0;
            let mut msg = String::from_str("Invalid regex: ");
            push_str(&mut msg, e.as_str());
            proof {
                reveal_strlit("Invalid regex: ");
            }
            tab.search_status = msg;
            search.matches = Vec::new();
        },
    }
}

/// Runs the search of the tab's panel over `content` and records what it
/// found (see `search_found` and `record_search`).
pub fn perform_search(tab: &mut EditorTab, search: &mut SearchState, content: &str)
    ensures
        final(tab).current_match == 0,
        match tab_search_found(*old(tab), content@) {
            Ok(m) => {
                &&& final(search).matches@ == m
                &&& spans_well_placed(content@, m)
                &&& final(tab).match_count == m.len()
                &&& final(tab).search_status@ == Seq::<char>::empty()
                &&& final(search).current_index == 0
            },
            Err(e) => {
                &&& final(search).matches@.len() == 0
                &&& final(tab).match_count == 0
                &&& final(tab).search_status@ == "Invalid regex: "@ + e
                &&& final(search).current_index == old(search).current_index
            },
        },
        final(tab).content == old(tab).content,
        final(tab).modified == old(tab).modified,
        final(tab).search_text == old(tab).search_text,
        final(tab).replace_text == old(tab).replace_text,
        final(tab).case_sensitive == old(tab).case_sensitive,
        final(tab).whole_words == old(tab).whole_words,
        final(tab).use_regex == old(tab).use_regex,
        final(tab).file_path == old(tab).file_path,
        final(tab).file_format == old(tab).file_format,
        final(tab).id == old(tab).id,
{
    if tab.search_text.as_str().is_empty() {
        record_search(tab, search, Ok(Vec::new()));
        return;
    }
    let pattern = build_search_pattern(tab.search_text.as_str(), tab.use_regex, tab.whole_words);
    let found = match compile_pattern(pattern.as_str(), !tab.case_sensitive) {
        Ok(p) => Ok(find_spans(&p, content)),
        Err(e) => Err(e),
    };
    record_search(tab, search, found);
}

/// The match after `current` among `count`, wrapping to the first.
pub open spec fn next_match(current: usize, count: usize) -> usize {
    if current + 1 >= count { 0 } else { (current + 1) as usize }
}

/// The match before `current` among `count`, wrapping to the last.
pub open spec fn previous_match(current: usize, count: usize) -> usize {
    if current == 0 { (count - 1) as usize } else { (current - 1) as usize }
}

/// Moves to the next match, after the last back to the first; nothing
/// happens without matches.
pub fn find_next(tab: &mut EditorTab, search: &mut SearchState)
    ensures
        old(tab).match_count == 0 ==> final(tab).current_match == old(tab).current_match && final(search).current_index
            == old(search).current_index,
        old(tab).match_count > 0 ==> final(tab).current_match == next_match(old(tab).current_match, old(tab).match_count)
            && final(search).current_index == final(tab).current_match,
        final(tab).match_count == old(tab).match_count,
        final(tab).content == old(tab).content,
        final(tab).search_status == old(tab).search_status,
        final(search).matches@ == old(search).matches@,
{
    let count = tab.match_count;
    if count == 0 {
        return;
    }
    let current = tab.current_match;
    let next = if current >= count - 1 { 0 } else { current + 1 };
    tab.current_match = next;
    search.current_index = next;
}

/// Moves to the previous match, before the first to the last; nothing
/// happens without matches.
pub fn find_previous(tab: &mut EditorTab, search: &mut SearchState)
    ensures
        old(tab).match_count == 0 ==> final(tab).current_match == old(tab).current_match && final(search).current_index
            == old(search).current_index,
        old(tab).match_count > 0 ==> final(tab).current_match == previous_match(old(tab).current_match, old(tab).match_count)
            && final(search).current_index == final(tab).current_match,
        final(tab).match_count == old(tab).match_count,
        final(tab).content == old(tab).content,
        final(tab).search_status == old(tab).search_status,
        final(search).matches@ == old(search).matches@,
{
    let count = tab.match_count;
    if count == 0 {
        return;
    }
    let current = tab.current_match;
    let prev = if current == 0 { count - 1 } else { current - 1 };
    tab.current_match = prev;
    search.current_index = prev;
}

/// The position label of the search panel: "No matches", or the current
/// match counted from 1, " / " and the number of matches.
pub open spec fn match_position_text(current: usize, count: usize) -> Seq<char> {
    if count == 0 {
        "No matches"@
    } else {
        decimal((current + 1) as nat) + " / "@ + decimal(count as nat)
    }
}

/// Executable `match_position_text`.
pub fn match_position_label(current: usize, count: usize) -> (s: String)
    requires
        current < usize::MAX,
    ensures
        s@ == match_position_text(current, count),
{
    if count == 0 {
        String::from_str("No matches")
    } else {
        let mut s = String::new();
        push_decimal(&mut s, (current + 1) as u128);
        push_str(&mut s, " / ");
        push_decimal(&mut s, count as u128);
        s
    }
}

/// Closing the search panel: it is hidden and its count, current match and
/// status are cleared.
pub fn close_search_panel(tab: &mut EditorTab)
    ensures
        !final(tab).search_visible,
        final(tab).match_count == 0,
        final(tab).current_match == 0,
        final(tab).search_status@ == Seq::<char>::empty(),
        final(tab).content == old(tab).content,
        final(tab).modified == old(tab).modified,
        final(tab).search_text == old(tab).search_text,
        final(tab).replace_text == old(tab).replace_text,
{
    tab.search_visible = false;
    tab.match_count = 0;
    tab.current_match = 0;
    tab.search_status = String::new();
}

/// Stepping forward and then back returns to the same match, when there are
/// matches and the current one is among them.
pub proof fn lemma_next_then_previous(current: usize, count: usize)
    requires
        current < count,
    ensures
        previous_match(next_match(current, count), count) == current,
        next_match(previous_match(current, count), count) == current,
{
}

/// `content` with the byte range `start..end` replaced by `with`, as
/// `content[..start] + with + content[end..]` builds it.
pub open spec fn spliced(content: Seq<char>, start: nat, end: nat, with: Seq<char>) -> Seq<char> {
    match (boundary_index(content, start), boundary_index(content, end)) {
        (Some(i), Some(j)) => content.subrange(0, i as int) + with + content.subrange(j as int, content.len() as int),
        _ => content,
    }
}

/// Executable `spliced`, for offsets on character boundaries.
pub fn splice_text(content: &str, start: usize, end: usize, with: &str) -> (s: String)
    requires
        boundary_index(content@, start as nat) is Some,
        boundary_index(content@, end as nat) is Some,
    ensures
        s@ == spliced(content@, start as nat, end as nat, with@),
{
    let v = chars_of(content);
    let i = match char_index_at_byte(&v, start) {
        Some(i) => i,
        None => 0,
    };
    let j = match char_index_at_byte(&v, end) {
        Some(j) => j,
        None => 0,
    };
    let mut s = String::new();
    let mut k: usize = 0;
    while k < i
        invariant
            k <= i <= v.len(),
            s@ == v@.subrange(0, k as int),
        decreases i - k,
    {
        push_char(&mut s, v[k]);
        k += 1;
        assert(s@ =~= v@.subrange(0, k as int));
    }
    push_str(&mut s, with);
    let ghost head = s@;
    let mut k: usize = j;
    while k < v.len()
        invariant
            j <= k <= v.len(),
            s@ == head + v@.subrange(j as int, k as int),
        decreases v.len() - k,
    {
        push_char(&mut s, v[k]);
        k += 1;
        assert(s@ =~= head + v@.subrange(j as int, k as int));
    }
    s
}

/// Replaces the current match by the replacement text, marks the tab
/// modified, searches the new text again and says so; says there is nothing
/// to replace without matches. The recorded matches must belong to the
/// tab's content.
pub fn replace_current(tab: &mut EditorTab, search: &mut SearchState)
    requires
        spans_well_placed(old(tab).content@, old(search).matches@),
    ensures
        old(tab).match_count == 0 ==> {
            &&& final(tab).search_status@ == "No matches to replace"@
            &&& final(tab).content == old(tab).content
            &&& final(tab).modified == old(tab).modified
            &&& final(tab).match_count == old(tab).match_count
            &&& final(tab).current_match == old(tab).current_match
            &&& final(search).matches@ == old(search).matches@
            &&& final(search).current_index == old(search).current_index
        },
        old(tab).match_count > 0 && old(tab).current_match < old(search).matches@.len() ==> ({
            let (s, e) = old(search).matches@[old(tab).current_match as int];
            let c = spliced(old(tab).content@, s as nat, e as nat, old(tab).replace_text@);
            &&& final(tab).content@ == c
            &&& final(tab).modified
            &&& final(tab).search_status@ == "Replaced 1 occurrence"@
            &&& final(tab).current_match == 0
            &&& match tab_search_found(*old(tab), c) {
                Ok(m) => final(search).matches@ == m && final(tab).match_count == m.len()
                    && final(search).current_index == 0,
                Err(_) => final(search).matches@.len() == 0 && final(tab).match_count == 0,
            }
        }),
        old(tab).match_count > 0 && old(tab).current_match >= old(search).matches@.len() ==> {
            &&& final(tab).content == old(tab).content
            &&& final(tab).modified == old(tab).modified
            &&& final(tab).search_status == old(tab).search_status
            &&& final(tab).match_count == old(tab).match_count
            &&& final(tab).current_match == old(tab).current_match
            &&& final(search).matches@ == old(search).matches@
            &&& final(search).current_index == old(search).current_index
        },
        final(tab).search_text == old(tab).search_text,
        final(tab).replace_text == old(tab).replace_text,
{
    let count = tab.match_count;
    if count == 0 {
        tab.search_status = String::from_str("No matches to replace");
        return;
    }
    let idx = tab.current_match;
    if idx < search.matches.len() {
        let (start, end) = search.matches[idx];
        let new_content = splice_text(tab.content.as_str(), start, end, tab.replace_text.as_str());
        tab.content = new_content.clone();
        tab.modified = true;
        perform_search(tab, search, new_content.as_str());
        tab.search_status = String::from_str("Replaced 1 occurrence");
    }
}

/// Records a replace-all, given how many matches there were, the text with
/// all of them replaced and the matches of that text: without matches it
/// reports "No matches found" and changes nothing else; otherwise the tab
/// takes the new text, is modified, holds the new matches (the first one
/// current) and reports how many were replaced.
pub fn record_replace_all(
    tab: &mut EditorTab,
    search: &mut SearchState,
    count: usize,
    replaced: String,
    new_matches: Vec<(usize, usize)>,
)
    ensures
        count == 0 ==> {
            &&& final(tab).search_status@ == "No matches found"@
            &&& final(tab).content == old(tab).content
            &&& final(tab).modified == old(tab).modified
            &&& final(tab).match_count == old(tab).match_count
            &&& final(tab).current_match == old(tab).current_match
            &&& final(search).matches@ == old(search).matches@
            &&& final(search).current_index == old(search).current_index
        },
        count > 0 ==> {
            &&& final(tab).content == replaced
            &&& final(tab).modified
            &&& final(search).matches@ == new_matches@
            &&& final(tab).match_count == new_matches@.len()
            &&& final(tab).current_match == 0
            &&& final(search).current_index == 0
            &&& final(tab).search_status@ == "Replaced "@ + decimal(count as nat) + " occurrences"@
        },
        final(tab).search_text == old(tab).search_text,
        final(tab).replace_text == old(tab).replace_text,
{
    if count == 0 {
        tab.search_status = String::from_str("No matches found");
        return;
    }
    tab.content = replaced;
    tab.modified = true;
    record_search(tab, search, Ok(new_matches));
    let mut msg = String::from_str("Replaced ");
    push_decimal(&mut msg, count as u128);
    push_str(&mut msg, " occurrences");
    proof {
        reveal_strlit("Replaced ");
        reveal_strlit(" occurrences");
    }
    tab.search_status = msg;
}

/// Replaces every match by the replacement text (capture references
/// expanded), marks the tab modified, searches again and reports how many
/// were replaced; reports an empty search text, an invalid pattern, or no
/// match instead, and then changes nothing else.
pub fn replace_all(tab: &mut EditorTab, search: &mut SearchState)
    ensures
        ({
            let pat = search_pattern(old(tab).search_text@, old(tab).use_regex, old(tab).whole_words);
            let ic = !old(tab).case_sensitive;
            let n = regex_find_spans(pat, ic, old(tab).content@).len();
            let unchanged = {
                &&& final(tab).content == old(tab).content
                &&& final(tab).modified == old(tab).modified
                &&& final(tab).match_count == old(tab).match_count
                &&& final(tab).current_match == old(tab).current_match
                &&& final(search).matches@ == old(search).matches@
                &&& final(search).current_index == old(search).current_index
            };
            if old(tab).search_text@.len() == 0 {
                final(tab).search_status@ == "Nothing to replace"@ && unchanged
            } else {
                match regex_build_error(pat, ic) {
                    Some(err) => final(tab).search_status@ == "Invalid regex: "@ + err && unchanged,
                    None => if n == 0 {
                        final(tab).search_status@ == "No matches found"@ && unchanged
                    } else {
                        let c = regex_replace_all(pat, ic, old(tab).content@, old(tab).replace_text@);
                        &&& final(tab).content@ == c
                        &&& final(tab).modified
                        &&& final(tab).search_status@ == "Replaced "@ + decimal(n) + " occurrences"@
                        &&& final(search).matches@ == regex_find_spans(pat, ic, c)
                        &&& final(tab).match_count == final(search).matches@.len()
                        &&& final(tab).current_match == 0
                        &&& final(search).current_index == 0
                    },
                }
            }
        }),
        final(tab).search_text == old(tab).search_text,
        final(tab).replace_text == old(tab).replace_text,
{
    if tab.search_text.as_str().is_empty() {
        tab.search_status = String::from_str("Nothing to replace");
        return;
    }
    let pattern = build_search_pattern(tab.search_text.as_str(), tab.use_regex, tab.whole_words);
    match compile_pattern(pattern.as_str(), !tab.case_sensitive) {
        Ok(p) => {
            let spans = find_spans(&p, tab.content.as_str());
            let count = spans.len();
            if count == 0 {
                record_replace_all(tab, search, 0, String::new(), Vec::new());
                return;
            }
            let replaced = replace_every(&p, tab.content.as_str(), tab.replace_text.as_str());
            let new_matches = find_spans(&p, replaced.as_str());
            record_replace_all(tab, search, count, replaced, new_matches);
        },
        Err(e) => {
            let mut msg = String::from_str("Invalid regex: ");
            push_str(&mut msg, e.as_str());
            proof {
                reveal_strlit("Invalid regex: ");
            }
            tab.search_status = msg;
        },
    }
}

/// The editor panel whose events `register_callbacks` binds: the open
/// file's path and format (upper-case extension), the text, whether it has
/// unsaved changes, the status line, whether a conversion runs, and the
/// error dialog's message, if one is open.
pub struct EditorPanel {
    pub file_path: String,
    pub format: String,
    pub content: String,
    pub modified: bool,
    pub status: String,
    pub converting: bool,
    pub error_message: Option<String>,
}

/// How a file opened in the panel is read: LSX and LSJ as text, LSF by
/// converting it to LSX, anything else as text if it is text.
#[derive(Clone, Copy, Debug, PartialEq, Eq, Structural)]
pub enum PanelRead {
    Text,
    Lsf,
    Other,
}

/// The read for an upper-case format.
pub open spec fn panel_read_of(format: Seq<char>) -> PanelRead {
    if format == "LSX"@ || format == "LSJ"@ {
        PanelRead::Text
    } else if format == "LSF"@ {
        PanelRead::Lsf
    } else {
        PanelRead::Other
    }
}

/// The conversion a name such as "lsf-to-lsx" asks for, if it is known.
pub open spec fn conversion_named(name: Seq<char>) -> Option<Conversion> {
    if name == "lsf-to-lsx"@ {
        Some(Conversion::LsfToLsx)
    } else if name == "lsx-to-lsf"@ {
        Some(Conversion::LsxToLsf)
    } else if name == "lsx-to-lsj"@ {
        Some(Conversion::LsxToLsj)
    } else if name == "lsj-to-lsx"@ {
        Some(Conversion::LsjToLsx)
    } else if name == "lsf-to-lsj"@ {
        Some(Conversion::LsfToLsj)
    } else if name == "lsj-to-lsf"@ {
        Some(Conversion::LsjToLsf)
    } else {
        None
    }
}

/// The upper-case name of a conversion's target format.
pub open spec fn conversion_target_text(c: Conversion) -> Seq<char> {
    match c {
        Conversion::LsfToLsx | Conversion::LsjToLsx => "LSX"@,
        Conversion::LsxToLsf | Conversion::LsjToLsf => "LSF"@,
        Conversion::LsxToLsj | Conversion::LsfToLsj => "LSJ"@,
    }
}

/// Executable `conversion_target_text`.
pub fn conversion_target(c: Conversion) -> (s: &'static str)
    ensures
        s@ == conversion_target_text(c),
{
    match c {
        Conversion::LsfToLsx | Conversion::LsjToLsx => "LSX",
        Conversion::LsxToLsf | Conversion::LsjToLsf => "LSF",
        Conversion::LsxToLsj | Conversion::LsfToLsj => "LSJ",
    }
}

/// Executable `conversion_named`.
pub fn conversion_by_name(name: &str) -> (c: Option<Conversion>)
    ensures
        c == conversion_named(name@),
{
    proof {
        reveal_strlit("lsf-to-lsx");
        reveal_strlit("lsx-to-lsf");
        reveal_strlit("lsx-to-lsj");
        reveal_strlit("lsj-to-lsx");
        reveal_strlit("lsf-to-lsj");
        reveal_strlit("lsj-to-lsf");
    }
    if str_eq(name, "lsf-to-lsx") {
        Some(Conversion::LsfToLsx)
    } else if str_eq(name, "lsx-to-lsf") {
        Some(Conversion::LsxToLsf)
    } else if str_eq(name, "lsx-to-lsj") {
        Some(Conversion::LsxToLsj)
    } else if str_eq(name, "lsj-to-lsx") {
        Some(Conversion::LsjToLsx)
    } else if str_eq(name, "lsf-to-lsj") {
        Some(Conversion::LsfToLsj)
    } else if str_eq(name, "lsj-to-lsf") {
        Some(Conversion::LsjToLsf)
    } else {
        None
    }
}

/// An error message: `prefix` followed by `detail`.
fn error_text(prefix: &str, detail: &str) -> (s: String)
    ensures
        s@ == prefix@ + detail@,
{
    let mut s = String::from_str(prefix);
    push_str(&mut s, detail);
    s
}

impl EditorPanel {
    /// No file, nothing shown, no status, no error.
    pub fn new() -> (p: Self)
        ensures
            p.file_path@.len() == 0,
            p.format@.len() == 0,
            p.content@.len() == 0,
            !p.modified,
            p.status@.len() == 0,
            !p.converting,
            p.error_message is None,
    {
        EditorPanel {
            file_path: String::new(),
            format: String::new(),
            content: String::new(),
            modified: false,
            status: String::new(),
            converting: false,
            error_message: None,
        }
    }

    /// `EditorOpen` with a chosen file: the panel takes its path and format
    /// (its extension upper-cased, empty without one) and says how to read
    /// it.
    pub fn open_file(&mut self, path: &str) -> (read: PanelRead)
        ensures
            final(self).file_path@ == path@,
            final(self).format@ == uppercase(
                match path_extension(path@) {
                    Some(e) => e,
                    None => Seq::empty(),
                },
            ),
            read == panel_read_of(final(self).format@),
            final(self).content == old(self).content,
            final(self).modified == old(self).modified,
            final(self).status == old(self).status,
            final(self).error_message == old(self).error_message,
    {
        let ext = match extension_of(path) {
            Some(e) => e,
            None => String::new(),
        };
        let format = to_uppercase(ext.as_str());
        proof {
            reveal_strlit("LSX");
            reveal_strlit("LSJ");
            reveal_strlit("LSF");
        }
        let read = if str_eq(format.as_str(), "LSX") || str_eq(format.as_str(), "LSJ") {
            PanelRead::Text
        } else if str_eq(format.as_str(), "LSF") {
            PanelRead::Lsf
        } else {
            PanelRead::Other
        };
        self.format = format;
        self.file_path = String::from_str(path);
        read
    }

    /// What reading the opened file gave (its text, or why it failed):
    /// the text is shown unmodified with "File loaded" (LSX, LSJ) or "LSF
    /// loaded (showing as LSX)" (LSF, converted) and no new status otherwise;
    /// a failure opens the error dialog ("Failed to read file: ", "Failed
    /// to read LSF: "), but for other formats shows "[Binary file - cannot
    /// display]" instead.
    pub fn finish_open(&mut self, read: PanelRead, result: Result<String, String>)
        ensures
            match result {
                Ok(t) => {
                    &&& final(self).content == t
                    &&& !final(self).modified
                    &&& final(self).error_message == old(self).error_message
                    &&& final(self).status@ == match read {
                        PanelRead::Text => "File loaded"@,
                        PanelRead::Lsf => "LSF loaded (showing as LSX)"@,
                        PanelRead::Other => old(self).status@,
                    }
                },
                Err(e) => {
                    &&& final(self).modified == old(self).modified
                    &&& final(self).status == old(self).status
                    &&& match read {
                        PanelRead::Text => final(self).content == old(self).content && (final(self).error_message matches Some(m) && m@ == "Failed to read file: "@ + e@),
                        PanelRead::Lsf => final(self).content == old(self).content && (final(self).error_message matches Some(m) && m@ == "Failed to read LSF: "@ + e@),
                        PanelRead::Other => final(self).content@ == "[Binary file - cannot display]"@
                            && final(self).error_message == old(self).error_message,
                    }
                },
            },
            final(self).file_path == old(self).file_path,
            final(self).format == old(self).format,
    {
        match result {
            Ok(t) => {
                self.content = t;
                self.modified = false;
                match read {
                    PanelRead::Text => self.status = String::from_str("File loaded"),
                    PanelRead::Lsf => self.status = String::from_str("LSF loaded (showing as LSX)"),
                    PanelRead::Other => {},
                }
            },
            Err(e) => match read {
                PanelRead::Text => {
                    proof {
                        reveal_strlit("Failed to read file: ");
                    }
                    self.error_message = Some(error_text("Failed to read file: ", e.as_str()));
                },
                PanelRead::Lsf => {
                    proof {
                        reveal_strlit("Failed to read LSF: ");
                    }
                    self.error_message = Some(error_text("Failed to read LSF: ", e.as_str()));
                },
                PanelRead::Other => {
                    self.content = String::from_str("[Binary file - cannot display]");
                },
            },
        }
    }

    /// `EditorSave`: without an open file the error dialog says "No file
    /// loaded" and nothing is written (`false`); otherwise the text is to
    /// be written to the file's path (`true`).
    pub fn save_request(&mut self) -> (write: bool)
        ensures
            write == (old(self).file_path@.len() > 0),
            !write ==> (final(self).error_message matches Some(m) && m@ == "No file loaded"@),
            write ==> final(self).error_message == old(self).error_message,
            final(self).file_path == old(self).file_path,
            final(self).content == old(self).content,
            final(self).modified == old(self).modified,
            final(self).status == old(self).status,
    {
        if self.file_path.as_str().is_empty() {
            self.error_message = Some(String::from_str("No file loaded"));
            false
        } else {
            true
        }
    }

    /// How writing the file went: saved (no unsaved changes, status
    /// "Saved"), or the error dialog with "Failed to save: " and the reason.
    pub fn finish_save(&mut self, result: Result<(), String>)
        ensures
            match result {
                Ok(_) => !final(self).modified && final(self).status@ == "Saved"@ && final(self).error_message
                    == old(self).error_message,
                Err(e) => final(self).modified == old(self).modified && final(self).status == old(self).status
                    && (final(self).error_message matches Some(m) && m@ == "Failed to save: "@ + e@),
            },
            final(self).file_path == old(self).file_path,
            final(self).format == old(self).format,
            final(self).content == old(self).content,
    {
        match result {
            Ok(_) => {
                self.modified = false;
                self.status = String::from_str("Saved");
            },
            Err(e) => {
                proof {
                    reveal_strlit("Failed to save: ");
                }
                self.error_message = Some(error_text("Failed to save: ", e.as_str()));
            },
        }
    }

    /// `EditorSaveAs` once the text was written to `path` (or failed): on
    /// success the panel takes the path, the format of its extension (kept
    /// when it has none) and the status "Saved"; a failure opens the error
    /// dialog.
    pub fn finish_save_as(&mut self, path: &str, result: Result<(), String>)
        ensures
            match result {
                Ok(_) => {
                    &&& final(self).file_path@ == path@
                    &&& !final(self).modified
                    &&& final(self).status@ == "Saved"@
                    &&& final(self).format@ == match path_extension(path@) {
                        Some(e) => uppercase(e),
                        None => old(self).format@,
                    }
                    &&& final(self).error_message == old(self).error_message
                },
                Err(e) => {
                    &&& final(self).file_path == old(self).file_path
                    &&& final(self).format == old(self).format
                    &&& final(self).modified == old(self).modified
                    &&& final(self).status == old(self).status
                    &&& (final(self).error_message matches Some(m) && m@ == "Failed to save: "@ + e@)
                },
            },
            final(self).content == old(self).content,
    {
        match result {
            Ok(_) => {
                self.file_path = String::from_str(path);
                self.modified = false;
                self.status = String::from_str("Saved");
                match extension_of(path) {
                    Some(e) => self.format = to_uppercase(e.as_str()),
                    None => {},
                }
            },
            Err(e) => {
                proof {
                    reveal_strlit("Failed to save: ");
                }
                self.error_message = Some(error_text("Failed to save: ", e.as_str()));
            },
        }
    }

    /// `EditorConvert` with a conversion name: without an open file the
    /// error dialog says so; an unknown name opens the error dialog with
    /// "Unknown conversion: " and the name; otherwise the conversion starts
    /// (the panel shows it running) and is returned.
    pub fn begin_convert(&mut self, name: &str) -> (c: Option<Conversion>)
        ensures
            old(self).file_path@.len() == 0 ==> c is None && (final(self).error_message matches Some(m) && m@
                == "No file loaded. Open a file first."@) && final(self).converting == old(self).converting,
            old(self).file_path@.len() > 0 ==> c == conversion_named(name@) && match c {
                Some(_) => final(self).converting && final(self).error_message == old(self).error_message,
                None => !final(self).converting && (final(self).error_message matches Some(m) && m@
                    == "Unknown conversion: "@ + name@),
            },
            final(self).file_path == old(self).file_path,
            final(self).content == old(self).content,
            final(self).modified == old(self).modified,
            final(self).status == old(self).status,
    {
        if self.file_path.as_str().is_empty() {
            self.error_message = Some(String::from_str("No file loaded. Open a file first."));
            return None;
        }
        let c = conversion_by_name(name);
        match c {
            Some(_) => {
                self.converting = true;
            },
            None => {
                proof {
                    reveal_strlit("Unknown conversion: ");
                }
                self.error_message = Some(error_text("Unknown conversion: ", name));
                self.converting = false;
            },
        }
        c
    }

    /// The title of the save dialog for a conversion's output.
    pub fn convert_dialog_title(c: Conversion) -> (s: String)
        ensures
            s@ == "Save Converted File ("@ + conversion_target_text(c) + ")"@,
    {
        let mut s = String::from_str("Save Converted File (");
        push_str(&mut s, conversion_target(c));
        push_str(&mut s, ")");
        s
    }

    /// The save dialog for the output was cancelled: nothing runs.
    pub fn cancel_convert(&mut self)
        ensures
            !final(self).converting,
            final(self).status == old(self).status,
            final(self).error_message == old(self).error_message,
            final(self).content == old(self).content,
    {
        self.converting = false;
    }

    /// How the conversion went: the status "Converted to " and the target
    /// format, or the error dialog with "Conversion failed: " and the
    /// reason; the conversion no longer runs.
    pub fn finish_convert(&mut self, c: Conversion, result: Result<(), String>)
        ensures
            !final(self).converting,
            match result {
                Ok(_) => final(self).status@ == "Converted to "@ + conversion_target_text(c) && final(self).error_message == old(self).error_message,
                Err(e) => final(self).status == old(self).status && (final(self).error_message matches Some(m) && m@
                    == "Conversion failed: "@ + e@),
            },
            final(self).file_path == old(self).file_path,
            final(self).content == old(self).content,
            final(self).modified == old(self).modified,
    {
        match result {
            Ok(_) => {
                proof {
                    reveal_strlit("Converted to ");
                }
                self.status = error_text("Converted to ", conversion_target(c));
            },
            Err(e) => {
                proof {
                    reveal_strlit("Conversion failed: ");
                }
                self.error_message = Some(error_text("Conversion failed: ", e.as_str()));
            },
        }
        self.converting = false;
    }

    /// The status clears a moment after a save.
    pub fn on_status_timeout(&mut self)
        ensures
            final(self).status@.len() == 0,
            final(self).content == old(self).content,
            final(self).modified == old(self).modified,
            final(self).error_message == old(self).error_message,
    {
        self.status = String::new();
    }
}

} // verus!
