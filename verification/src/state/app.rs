//! State shared by the whole window.
use vstd::prelude::*;

verus! {

/// The window's active tab, its status line and whether work is running.
pub struct AppState {
    pub active_tab: usize,
    pub status_message: String,
    pub is_busy: bool,
}

impl AppState {
    /// The first tab, no status, idle.
    pub fn new() -> (s: Self)
        ensures
            s.active_tab == 0,
            s.status_message@ == Seq::<char>::empty(),
            !s.is_busy,
    {
        AppState { active_tab: 0, status_message: String::new(), is_busy: false }
    }
}

} // verus!
