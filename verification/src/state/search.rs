//! State of the index search tab.
use vstd::prelude::*;
use crate::text::push_str;

verus! {

/// One file found by the index search.
pub struct SearchResult {
    pub name: String,
    pub path: String,
    pub pak_file: String,
    pub file_type: String,
}

/// What the index search tab shows and edits.
pub struct SearchState {
    pub query: String,
    pub results: Vec<SearchResult>,
    pub is_searching: bool,
    pub status: String,
    pub indexed_files: usize,
    pub indexed_paks: usize,
}

impl SearchState {
    /// No query, no results, nothing indexed.
    pub fn new() -> (s: Self)
        ensures
            s.query@ == Seq::<char>::empty(),
            s.results@.len() == 0,
            !s.is_searching,
            s.status@ == Seq::<char>::empty(),
            s.indexed_files == 0,
            s.indexed_paks == 0,
    {
        SearchState {
            query: String::new(),
            results: Vec::new(),
            is_searching: false,
            status: String::new(),
            indexed_files: 0,
            indexed_paks: 0,
        }
    }

    /// Starts a search for the query: searching, and the status says for
    /// what.
    pub fn start_search(&mut self)
        ensures
            final(self).is_searching,
            final(self).status@ == "Searching for '"@ + old(self).query@ + "'..."@,
            final(self).query == old(self).query,
            final(self).results@ == old(self).results@,
    {
        let mut s = String::from_str("Searching for '");
        push_str(&mut s, self.query.as_str());
        push_str(&mut s, "'...");
        proof {
            reveal_strlit("Searching for '");
            reveal_strlit("'...");
        }
        self.status = s;
        self.is_searching = true;
    }

    /// Ends a search (there is no index to search yet): no longer
    /// searching, and the status says so.
    pub fn finish_search(&mut self)
        ensures
            !final(self).is_searching,
            final(self).status@ == "Search complete (index not yet implemented)"@,
            final(self).query == old(self).query,
            final(self).results@ == old(self).results@,
    {
        self.status = String::from_str("Search complete (index not yet implemented)");
        self.is_searching = false;
    }

    /// Forgets the index: no files or archives indexed, no results.
    pub fn clear_index(&mut self)
        ensures
            final(self).indexed_files == 0,
            final(self).indexed_paks == 0,
            final(self).results@.len() == 0,
            final(self).status@ == "Index cleared"@,
            final(self).query == old(self).query,
            final(self).is_searching == old(self).is_searching,
    {
        self.indexed_files = 0;
        self.indexed_paks = 0;
        self.results = Vec::new();
        self.status = String::from_str("Index cleared");
    }
}

} // verus!
