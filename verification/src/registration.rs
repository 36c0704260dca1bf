//! How the tabs' event registrations combine.
use vstd::prelude::*;
use crate::app::Callback;
use crate::tabs::{asset_browser, editor, search, uuid_generator};

verus! {

/// Registering the tabs' callbacks binds the same events whatever the order
/// of the tabs, and registering a tab again binds nothing new.
pub proof fn lemma_registration_order_and_repeat(handled: Set<Callback>)
    ensures
        handled.union(asset_browser::tab_callbacks()).union(editor::tab_callbacks()) == handled.union(
            editor::tab_callbacks(),
        ).union(asset_browser::tab_callbacks()),
        handled.union(search::tab_callbacks()).union(uuid_generator::tab_callbacks()) == handled.union(
            uuid_generator::tab_callbacks(),
        ).union(search::tab_callbacks()),
        handled.union(asset_browser::tab_callbacks()).union(asset_browser::tab_callbacks()) == handled.union(
            asset_browser::tab_callbacks(),
        ),
        handled.union(editor::tab_callbacks()).union(editor::tab_callbacks()) == handled.union(
            editor::tab_callbacks(),
        ),
{
    assert(handled.union(asset_browser::tab_callbacks()).union(editor::tab_callbacks()) =~= handled.union(
        editor::tab_callbacks(),
    ).union(asset_browser::tab_callbacks()));
    assert(handled.union(search::tab_callbacks()).union(uuid_generator::tab_callbacks()) =~= handled.union(
        uuid_generator::tab_callbacks(),
    ).union(search::tab_callbacks()));
    assert(handled.union(asset_browser::tab_callbacks()).union(asset_browser::tab_callbacks()) =~= handled.union(
        asset_browser::tab_callbacks(),
    ));
    assert(handled.union(editor::tab_callbacks()).union(editor::tab_callbacks()) =~= handled.union(
        editor::tab_callbacks(),
    ));
}

} // verus!
