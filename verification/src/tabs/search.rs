//! Index search: the events of the search tab.
use vstd::prelude::*;
use crate::app::{Callback, MacPakApp};

verus! {

/// The events the index search tab handles.
pub open spec fn tab_callbacks() -> Set<Callback> {
    set![Callback::SearchExecute, Callback::SearchIndexPak, Callback::SearchIndexDirectory, Callback::SearchClearIndex]
}

/// Registers all Index Search tab callbacks on the application.
/// What each of these events does is the matching method of
/// `state::search::SearchState` (the index itself is not part of this
/// library).
pub fn register_callbacks(app: &mut MacPakApp)
    requires
        old(app).wf(),
    ensures
        final(app).wf(),
        final(app).tab() == old(app).tab(),
        final(app).handled() == old(app).handled().union(tab_callbacks()),
{
    app.on(Callback::SearchExecute);
    app.on(Callback::SearchIndexPak);
    app.on(Callback::SearchIndexDirectory);
    app.on(Callback::SearchClearIndex);
    assert(app.handled() =~= old(app).handled().union(tab_callbacks()));
}

} // verus!
