use macpak::app::{Callback, MacPakApp};
use macpak::state::app::AppState;
use macpak::state::search::SearchState;
use macpak::tabs::{asset_browser, editor, search, uuid_generator};

#[test]
fn registering_tabs_binds_their_events() {
    let mut app = MacPakApp::new();
    assert_eq!(app.current_tab(), 0);
    assert!(!app.has_handler(Callback::BrowserGoUp));
    asset_browser::register_callbacks(&mut app);
    assert!(app.has_handler(Callback::BrowserGoUp));
    assert!(app.has_handler(Callback::BrowserContextMenuAction));
    assert!(!app.has_handler(Callback::EditorOpen));
    editor::register_callbacks(&mut app);
    search::register_callbacks(&mut app);
    uuid_generator::register_callbacks(&mut app);
    for e in [
        Callback::EditorOpen,
        Callback::EditorConvert,
        Callback::SearchExecute,
        Callback::SearchClearIndex,
        Callback::UuidGenerate,
        Callback::UuidClearHistory,
    ] {
        assert!(app.has_handler(e));
    }
    asset_browser::register_callbacks(&mut app);
    assert!(app.has_handler(Callback::BrowserRefresh));
    app.set_current_tab(3);
    assert_eq!(app.current_tab(), 3);
}

#[test]
fn app_state_starts_idle() {
    let s = AppState::new();
    assert_eq!(s.active_tab, 0);
    assert!(!s.is_busy);
    assert_eq!(s.status_message, "");
}

#[test]
fn index_search_status() {
    let mut s = SearchState::new();
    s.query = "armor".to_string();
    s.start_search();
    assert!(s.is_searching);
    assert_eq!(s.status, "Searching for 'armor'...");
    s.finish_search();
    assert!(!s.is_searching);
    assert_eq!(s.status, "Search complete (index not yet implemented)");
    s.indexed_files = 3;
    s.clear_index();
    assert_eq!(s.indexed_files, 0);
    assert_eq!(s.status, "Index cleared");
}
