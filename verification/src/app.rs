//! The application object: which tab is shown and which user-interface
//! events have a handler bound to them.
use vstd::prelude::*;

verus! {

/// The user-interface events a tab can bind a handler to.
#[derive(Clone, Copy, Debug, PartialEq, Eq, Structural)]
pub enum Callback {
    // Asset browser
    BrowserOpenFolder,
    BrowserGoUp,
    BrowserGoToPath,
    BrowserRefresh,
    BrowserClearCache,
    BrowserFileDoubleClicked,
    BrowserFileSelected,
    BrowserSearchChanged,
    BrowserFilterChanged,
    BrowserToggleFilter,
    BrowserCopyPath,
    BrowserShowInFinder,
    BrowserOpenInEditor,
    BrowserQuickConvert,
    BrowserContextMenuAction,
    // Editor
    EditorOpen,
    EditorSave,
    EditorSaveAs,
    EditorConvert,
    // PAK operations
    PakBrowseExtractSource,
    PakBrowseExtractDest,
    PakExtract,
    PakBrowseCreateSource,
    PakBrowseCreateDest,
    PakCreate,
    PakBrowseListSource,
    PakList,
    // Index search
    SearchExecute,
    SearchIndexPak,
    SearchIndexDirectory,
    SearchClearIndex,
    // UUID and handle generator
    UuidGenerate,
    HandleGenerate,
    CopyToClipboard,
    UuidExportHistory,
    UuidClearHistory,
}

/// The application: the index of the visible tab and the events that have a
/// handler. Binding a handler to an event replaces any earlier one, so each
/// event is bound at most once.
pub struct MacPakApp {
    current_tab: usize,
    handlers: Vec<Callback>,
}

impl MacPakApp {
    /// The index of the visible tab.
    pub closed spec fn tab(&self) -> usize {
        self.current_tab
    }

    /// The set of events that have a handler.
    pub closed spec fn handled(&self) -> Set<Callback> {
        self.handlers@.to_set()
    }

    /// Each event appears once in the handler list.
    pub closed spec fn wf(&self) -> bool {
        self.handlers@.no_duplicates()
    }

    /// A fresh application on the first tab, with no handlers bound.
    pub fn new() -> (app: Self)
        ensures
            app.wf(),
            app.tab() == 0,
            app.handled() == Set::<Callback>::empty(),
    {
        let app = MacPakApp { current_tab: 0, handlers: Vec::new() };
        assert(app.handlers@.to_set() =~= Set::<Callback>::empty());
        app
    }

    /// Whether `event` has a handler.
    pub fn has_handler(&self, event: Callback) -> (b: bool)
        ensures
            b == self.handled().contains(event),
    {
        let mut i: usize = 0;
        while i < self.handlers.len()
            invariant
                i <= self.handlers.len(),
                forall|j: int| 0 <= j < i ==> self.handlers@[j] != event,
            decreases self.handlers.len() - i,
        {
            if self.handlers[i] == event {
                assert(self.handlers@.contains(event));
                return true;
            }
            i += 1;
        }
        assert(!self.handlers@.contains(event));
        false
    }

    /// Binds a handler to `event`.
    pub fn on(&mut self, event: Callback)
        requires
            old(self).wf(),
        ensures
            final(self).wf(),
            final(self).tab() == old(self).tab(),
            final(self).handled() == old(self).handled().insert(event),
    {
        if !self.has_handler(event) {
            let ghost before = self.handlers@;
            self.handlers.push(event);
            proof {
                assert(self.handlers@ == before.push(event));
                lemma_push_no_dup(before, event);
                before.lemma_push_to_set_commute(event);
            }
        } else {
            assert(self.handlers@.to_set().insert(event) =~= self.handlers@.to_set());
        }
    }

    /// The index of the visible tab.
    pub fn current_tab(&self) -> (t: usize)
        ensures
            t == self.tab(),
    {
        self.current_tab
    }

    /// Shows tab `index`.
    pub fn set_current_tab(&mut self, index: usize)
        ensures
            final(self).tab() == index,
            final(self).handled() == old(self).handled(),
            final(self).wf() == old(self).wf(),
    {
        self.current_tab = index;
    }
}

proof fn lemma_push_no_dup(s: Seq<Callback>, e: Callback)
    requires
        s.no_duplicates(),
        !s.contains(e),
    ensures
        s.push(e).no_duplicates(),
{
    let t = s.push(e);
    assert forall|i: int, j: int| 0 <= i < t.len() && 0 <= j < t.len() && i != j implies t[i] != t[j] by {
        if i < s.len() && j < s.len() {
        } else if i == s.len() {
            assert(t[j] == s[j]);
        } else {
            assert(t[i] == s[i]);
        }
    }
}

} // verus!
