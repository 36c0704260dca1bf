//! Editor state: the open tabs of the multi-tab text editor.
use vstd::prelude::*;
use crate::state::paths::{file_name_of, path_file_name};
use crate::text::str_eq;

verus! {

/// State of one editor tab.
pub struct EditorTab {
    /// Unique id of this tab.
    pub id: u64,
    pub file_path: Option<String>,
    pub file_format: String,
    pub content: String,
    pub modified: bool,
    pub converted_from_lsf: bool,
    // Per-tab search state
    pub search_visible: bool,
    pub search_text: String,
    pub replace_text: String,
    pub case_sensitive: bool,
    pub whole_words: bool,
    pub use_regex: bool,
    pub match_count: usize,
    pub current_match: usize,
    pub search_status: String,
}

/// A tab as `EditorTab::new(id)` creates it: no file, nothing typed, search
/// panel hidden with empty fields and default options.
pub open spec fn is_fresh_tab(t: EditorTab, id: u64) -> bool {
    &&& t.id == id
    &&& t.file_path is None
    &&& t.file_format@ == Seq::<char>::empty()
    &&& t.content@ == Seq::<char>::empty()
    &&& !t.modified
    &&& !t.converted_from_lsf
    &&& !t.search_visible
    &&& t.search_text@ == Seq::<char>::empty()
    &&& t.replace_text@ == Seq::<char>::empty()
    &&& !t.case_sensitive
    &&& !t.whole_words
    &&& !t.use_regex
    &&& t.match_count == 0
    &&& t.current_match == 0
    &&& t.search_status@ == Seq::<char>::empty()
}

/// A tab holding generated text: a fresh tab with id `id`, except that it
/// holds `content` as an unsaved ("modified") LSX document.
pub open spec fn is_generated_tab(t: EditorTab, id: u64, content: Seq<char>) -> bool {
    &&& t.id == id
    &&& t.file_path is None
    &&& t.file_format@ == "LSX"@
    &&& t.content@ == content
    &&& t.modified
    &&& !t.converted_from_lsf
    &&& !t.search_visible
    &&& t.search_text@ == Seq::<char>::empty()
    &&& t.replace_text@ == Seq::<char>::empty()
    &&& !t.case_sensitive
    &&& !t.whole_words
    &&& !t.use_regex
    &&& t.match_count == 0
    &&& t.current_match == 0
    &&& t.search_status@ == Seq::<char>::empty()
}

/// `t` after its document was cleared: no file, empty format and content,
/// unmodified, not converted; id and search state kept from `before`.
pub open spec fn is_cleared_from(t: EditorTab, before: EditorTab) -> bool {
    &&& t.id == before.id
    &&& t.file_path is None
    &&& t.file_format@ == Seq::<char>::empty()
    &&& t.content@ == Seq::<char>::empty()
    &&& !t.modified
    &&& !t.converted_from_lsf
    &&& t.search_visible == before.search_visible
    &&& t.search_text == before.search_text
    &&& t.replace_text == before.replace_text
    &&& t.case_sensitive == before.case_sensitive
    &&& t.whole_words == before.whole_words
    &&& t.use_regex == before.use_regex
    &&& t.match_count == before.match_count
    &&& t.current_match == before.current_match
    &&& t.search_status == before.search_status
}

/// The name shown on a tab: the file name of its path, or "Untitled".
pub open spec fn tab_display_name(path: Option<Seq<char>>) -> Seq<char> {
    match path {
        Some(p) => match path_file_name(p) {
            Some(n) => n,
            None => "Untitled"@,
        },
        None => "Untitled"@,
    }
}

/// The path of a tab as a character sequence.
pub open spec fn path_view(p: Option<String>) -> Option<Seq<char>> {
    match p {
        Some(s) => Some(s@),
        None => None,
    }
}

impl EditorTab {
    /// A fresh tab with the given id.
    pub fn new(id: u64) -> (t: Self)
        ensures
            is_fresh_tab(t, id),
    {
        EditorTab {
            id,
            file_path: None,
            file_format: String::new(),
            content: String::new(),
            modified: false,
            converted_from_lsf: false,
            search_visible: false,
            search_text: String::new(),
            replace_text: String::new(),
            case_sensitive: false,
            whole_words: false,
            use_regex: false,
            match_count: 0,
            current_match: 0,
            search_status: String::new(),
        }
    }

    /// Display name for the tab (file name or "Untitled").
    pub fn display_name(&self) -> (s: String)
        ensures
            s@ == tab_display_name(path_view(self.file_path)),
    {
        match &self.file_path {
            Some(p) => match file_name_of(p.as_str()) {
                Some(n) => n,
                None => String::from_str("Untitled"),
            },
            None => String::from_str("Untitled"),
        }
    }

    /// Whether the tab holds nothing yet: no file, no content, unmodified.
    pub fn is_empty_document(&self) -> (b: bool)
        ensures
            b == (self.file_path is None && self.content@.len() == 0 && !self.modified),
    {
        self.file_path.is_none() && self.content.as_str().is_empty() && !self.modified
    }
}

/// The editor's tabs.
pub struct EditorTabsState {
    /// All open tabs.
    pub tabs: Vec<EditorTab>,
    /// Index of the active tab.
    pub active_tab_index: usize,
    /// Id the next new tab gets.
    pub next_tab_id: u64,
    /// Status message of the editor.
    pub status_message: String,
    /// Whether line numbers are shown.
    pub show_line_numbers: bool,
    /// Whether the meta.lsx generator dialog is open.
    pub show_meta_dialog: bool,
}

/// Whether some tab holds the file `path`.
pub open spec fn has_file(tabs: Seq<EditorTab>, path: Seq<char>) -> bool {
    exists|i: int| 0 <= i < tabs.len() && path_view(#[trigger] tabs[i].file_path) == Some(path)
}

/// Closing the tab just opened at the end gives back the tabs there were
/// before: `new_tab` appends one tab and `close_tab` (with more than one tab)
/// removes the one at the given index.
pub proof fn lemma_close_undoes_new(tabs: Seq<EditorTab>, opened: EditorTab)
    ensures
        tabs.push(opened).remove(tabs.len() as int) == tabs,
{
    assert(tabs.push(opened).remove(tabs.len() as int) =~= tabs);
}

impl EditorTabsState {
    /// The state every operation keeps: at least one tab, the active index
    /// points at a tab, tab ids are distinct and below the next id.
    pub open spec fn wf(&self) -> bool {
        &&& self.tabs@.len() >= 1
        &&& self.active_tab_index < self.tabs@.len()
        &&& forall|i: int| 0 <= i < self.tabs@.len() ==> #[trigger] self.tabs@[i].id < self.next_tab_id
        &&& forall|i: int, j: int|
            0 <= i < self.tabs@.len() && 0 <= j < self.tabs@.len() && i != j
                ==> #[trigger] self.tabs@[i].id != #[trigger] self.tabs@[j].id
    }

    /// One empty tab (id 0), active; line numbers shown.
    pub fn new() -> (s: Self)
        ensures
            s.wf(),
            s.tabs@.len() == 1,
            is_fresh_tab(s.tabs@[0], 0),
            s.active_tab_index == 0,
            s.next_tab_id == 1,
            s.status_message@ == Seq::<char>::empty(),
            s.show_line_numbers,
            !s.show_meta_dialog,
    {
        let mut tabs = Vec::new();
        tabs.push(EditorTab::new(0));
        EditorTabsState {
            tabs,
            active_tab_index: 0,
            next_tab_id: 1,
            status_message: String::new(),
            show_line_numbers: true,
            show_meta_dialog: false,
        }
    }

    /// The active tab, if the active index points at one.
    pub fn active_tab(&self) -> (t: Option<&EditorTab>)
        ensures
            self.active_tab_index < self.tabs@.len() ==> t == Some(&self.tabs@[self.active_tab_index as int]),
            self.active_tab_index >= self.tabs@.len() ==> t is None,
    {
        if self.active_tab_index < self.tabs.len() {
            Some(&self.tabs[self.active_tab_index])
        } else {
            None
        }
    }

    /// Opens a new empty tab at the end and makes it active; returns it.
    pub fn new_tab(&mut self) -> (t: EditorTab)
        requires
            old(self).next_tab_id < u64::MAX,
        ensures
            is_fresh_tab(t, old(self).next_tab_id),
            final(self).tabs@ == old(self).tabs@.push(final(self).tabs@.last()),
            is_fresh_tab(final(self).tabs@.last(), old(self).next_tab_id),
            final(self).active_tab_index == old(self).tabs@.len(),
            final(self).next_tab_id == old(self).next_tab_id + 1,
            final(self).status_message == old(self).status_message,
            final(self).show_line_numbers == old(self).show_line_numbers,
            final(self).show_meta_dialog == old(self).show_meta_dialog,
            old(self).wf() ==> final(self).wf(),
    {
        let id = self.next_tab_id;
        self.next_tab_id = id + 1;
        self.tabs.push(EditorTab::new(id));
        self.active_tab_index = self.tabs.len() - 1;
        EditorTab::new(id)
    }

    /// Appends a tab that holds `content` as an unsaved LSX document (what
    /// the meta.lsx generator creates) and makes it active.
    pub fn add_generated_tab(&mut self, content: String)
        requires
            old(self).next_tab_id < u64::MAX,
        ensures
            final(self).tabs@.len() == old(self).tabs@.len() + 1,
            final(self).tabs@.take(old(self).tabs@.len() as int) == old(self).tabs@,
            is_generated_tab(final(self).tabs@.last(), old(self).next_tab_id, content@),
            final(self).active_tab_index == old(self).tabs@.len(),
            final(self).next_tab_id == old(self).next_tab_id + 1,
            final(self).status_message == old(self).status_message,
            final(self).show_line_numbers == old(self).show_line_numbers,
            final(self).show_meta_dialog == old(self).show_meta_dialog,
            old(self).wf() ==> final(self).wf(),
    {
        let id = self.next_tab_id;
        let mut t = EditorTab::new(id);
        t.content = content;
        t.file_format = String::from_str("LSX");
        t.modified = true;
        proof {
            reveal_strlit("LSX");
        }
        self.next_tab_id = id + 1;
        self.tabs.push(t);
        self.active_tab_index = self.tabs.len() - 1;
        proof {
            assert(self.tabs@.take(old(self).tabs@.len() as int) =~= old(self).tabs@);
        }
    }

    /// Closes the tab at `index`. The last remaining tab is never closed: it is
    /// cleared instead. After a close, an active index at or after the closed
    /// one moves back by one (unless it is 0).
    pub fn close_tab(&mut self, index: usize)
        ensures
            old(self).tabs@.len() <= 1 ==> {
                &&& final(self).tabs@.len() == old(self).tabs@.len()
                &&& (old(self).tabs@.len() == 1 ==> is_cleared_from(final(self).tabs@[0], old(self).tabs@[0]))
                &&& final(self).active_tab_index == old(self).active_tab_index
            },
            old(self).tabs@.len() > 1 ==> {
                &&& final(self).tabs@ == (if index < old(self).tabs@.len() {
                    old(self).tabs@.remove(index as int)
                } else {
                    old(self).tabs@
                })
                &&& final(self).active_tab_index == (if old(self).active_tab_index >= index
                    && old(self).active_tab_index > 0 {
                    (old(self).active_tab_index - 1) as usize
                } else {
                    old(self).active_tab_index
                })
            },
            final(self).next_tab_id == old(self).next_tab_id,
            final(self).status_message == old(self).status_message,
            final(self).show_line_numbers == old(self).show_line_numbers,
            final(self).show_meta_dialog == old(self).show_meta_dialog,
            old(self).wf() ==> final(self).wf(),
    {
        if self.tabs.len() <= 1 {
            if self.tabs.len() == 1 {
                let mut tab = self.tabs.remove(0);
                tab.file_path = None;
                tab.file_format = String::new();
                tab.content = String::new();
                tab.modified = false;
                tab.converted_from_lsf = false;
                self.tabs.push(tab);
            }
            return;
        }
        if index < self.tabs.len() {
            self.tabs.remove(index);
        }
        let current = self.active_tab_index;
        if current >= index && current > 0 {
            self.active_tab_index = current - 1;
        }
        proof {
            if old(self).wf() {
                let o = old(self).tabs@;
                let n = self.tabs@;
                if index < o.len() {
                    assert forall|i: int, j: int|
                        0 <= i < n.len() && 0 <= j < n.len() && i != j implies #[trigger] n[i].id
                        != #[trigger] n[j].id by {
                        let oi = if i < index { i } else { i + 1 };
                        let oj = if j < index { j } else { j + 1 };
                        assert(n[i] == o[oi]);
                        assert(n[j] == o[oj]);
                    }
                    assert forall|i: int| 0 <= i < n.len() implies #[trigger] n[i].id < self.next_tab_id by {
                        let oi = if i < index { i } else { i + 1 };
                        assert(n[i] == o[oi]);
                    }
                }
            }
        }
    }

    /// Keeps only the tab at `keep_index` (when it exists) and makes it active.
    pub fn close_others(&mut self, keep_index: usize)
        ensures
            keep_index < old(self).tabs@.len() ==> {
                &&& final(self).tabs@ == seq![old(self).tabs@[keep_index as int]]
                &&& final(self).active_tab_index == 0
            },
            keep_index >= old(self).tabs@.len() ==> {
                &&& final(self).tabs@ == old(self).tabs@
                &&& final(self).active_tab_index == old(self).active_tab_index
            },
            final(self).next_tab_id == old(self).next_tab_id,
            final(self).status_message == old(self).status_message,
            final(self).show_line_numbers == old(self).show_line_numbers,
            final(self).show_meta_dialog == old(self).show_meta_dialog,
            old(self).wf() ==> final(self).wf(),
    {
        if keep_index < self.tabs.len() {
            let tab = self.tabs.remove(keep_index);
            let mut tabs = Vec::new();
            tabs.push(tab);
            self.tabs = tabs;
            self.active_tab_index = 0;
        }
    }

    /// Replaces all tabs with one fresh tab, which becomes active.
    pub fn close_all(&mut self)
        requires
            old(self).next_tab_id < u64::MAX,
        ensures
            final(self).tabs@.len() == 1,
            is_fresh_tab(final(self).tabs@[0], old(self).next_tab_id),
            final(self).active_tab_index == 0,
            final(self).next_tab_id == old(self).next_tab_id + 1,
            final(self).status_message == old(self).status_message,
            final(self).show_line_numbers == old(self).show_line_numbers,
            final(self).show_meta_dialog == old(self).show_meta_dialog,
            final(self).wf(),
    {
        let id = self.next_tab_id;
        self.next_tab_id = id + 1;
        let mut tabs = Vec::new();
        tabs.push(EditorTab::new(id));
        self.tabs = tabs;
        self.active_tab_index = 0;
    }

    /// Makes the first tab holding `path` active; returns whether there is one.
    pub fn switch_to_file(&mut self, path: &str) -> (found: bool)
        ensures
            found == has_file(old(self).tabs@, path@),
            found ==> {
                &&& final(self).active_tab_index < old(self).tabs@.len()
                &&& path_view(old(self).tabs@[final(self).active_tab_index as int].file_path) == Some(path@)
                &&& forall|i: int| 0 <= i < final(self).active_tab_index
                    ==> path_view(#[trigger] old(self).tabs@[i].file_path) != Some(path@)
            },
            !found ==> final(self).active_tab_index == old(self).active_tab_index,
            final(self).tabs == old(self).tabs,
            final(self).next_tab_id == old(self).next_tab_id,
            final(self).status_message == old(self).status_message,
            final(self).show_line_numbers == old(self).show_line_numbers,
            final(self).show_meta_dialog == old(self).show_meta_dialog,
            old(self).wf() ==> final(self).wf(),
    {
        let mut index: usize = 0;
        while index < self.tabs.len()
            invariant
                index <= self.tabs@.len(),
                self.tabs == old(self).tabs,
                self.active_tab_index == old(self).active_tab_index,
                self.next_tab_id == old(self).next_tab_id,
                self.status_message == old(self).status_message,
                self.show_line_numbers == old(self).show_line_numbers,
                self.show_meta_dialog == old(self).show_meta_dialog,
                forall|i: int| 0 <= i < index ==> path_view(#[trigger] self.tabs@[i].file_path) != Some(path@),
            decreases self.tabs.len() - index,
        {
            let matches = match &self.tabs[index].file_path {
                Some(p) => str_eq(p.as_str(), path),
                None => false,
            };
            if matches {
                self.active_tab_index = index;
                return true;
            }
            index += 1;
        }
        false
    }

    /// Whether any tab has unsaved changes.
    pub fn has_unsaved_changes(&self) -> (b: bool)
        ensures
            b == exists|i: int| 0 <= i < self.tabs@.len() && (#[trigger] self.tabs@[i]).modified,
    {
        let mut i: usize = 0;
        while i < self.tabs.len()
            invariant
                i <= self.tabs@.len(),
                forall|j: int| 0 <= j < i ==> !(#[trigger] self.tabs@[j]).modified,
            decreases self.tabs.len() - i,
        {
            if self.tabs[i].modified {
                return true;
            }
            i += 1;
        }
        false
    }
}

} // verus!
