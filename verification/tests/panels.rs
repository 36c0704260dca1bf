use macpak::state::browser::{arrow_selection, listing_fits, row_index, Conversion, DirItem};
use macpak::state::editor::EditorTab;
use macpak::tabs::browser::listing_entry;
use macpak::tabs::editor::{
    close_search_panel, conversion_by_name, match_position_label, record_replace_all, record_search, EditorPanel,
    PanelRead, SearchState,
};
use macpak::tabs::pak_operations::PakPanel;
use macpak::tabs::uuid_generator::GeneratorPanel;

fn item(name: &str, is_dir: bool, len: u64) -> DirItem {
    DirItem { name: name.to_string(), path: format!("/d/{}", name), is_dir, len, modified_secs: None }
}

#[test]
fn search_outcomes_are_recorded() {
    let mut tab = EditorTab::new(1);
    let mut s = SearchState::new();
    tab.current_match = 4;
    record_search(&mut tab, &mut s, Ok(vec![(0, 3), (8, 11)]));
    assert_eq!(tab.match_count, 2);
    assert_eq!(tab.current_match, 0);
    assert_eq!(s.matches, vec![(0, 3), (8, 11)]);
    assert_eq!(tab.search_status, "");
    s.current_index = 1;
    record_search(&mut tab, &mut s, Err("unclosed group".to_string()));
    assert_eq!(tab.match_count, 0);
    assert!(s.matches.is_empty());
    assert_eq!(s.current_index, 1);
    assert_eq!(tab.search_status, "Invalid regex: unclosed group");
}

#[test]
fn replace_all_outcomes_are_recorded() {
    let mut tab = EditorTab::new(1);
    let mut s = SearchState::new();
    tab.content = "foo bar foo".to_string();
    tab.match_count = 2;
    tab.current_match = 1;
    s.matches = vec![(0, 3), (8, 11)];
    record_replace_all(&mut tab, &mut s, 0, String::new(), vec![]);
    assert_eq!(tab.search_status, "No matches found");
    assert_eq!(tab.content, "foo bar foo");
    assert!(!tab.modified);
    assert_eq!((tab.match_count, tab.current_match), (2, 1));
    assert_eq!(s.matches.len(), 2);
    record_replace_all(&mut tab, &mut s, 2, "baz bar baz".to_string(), vec![]);
    assert_eq!(tab.content, "baz bar baz");
    assert!(tab.modified);
    assert_eq!(tab.search_status, "Replaced 2 occurrences");
    assert_eq!((tab.match_count, tab.current_match), (0, 0));
    assert!(s.matches.is_empty());
}

#[test]
fn replace_all_searches_the_new_text() {
    let mut tab = EditorTab::new(1);
    let mut s = SearchState::new();
    tab.content = "foo bar foo".to_string();
    tab.search_text = "foo".to_string();
    tab.replace_text = "foo foo".to_string();
    macpak::tabs::editor::replace_all(&mut tab, &mut s);
    assert_eq!(tab.content, "foo foo bar foo foo");
    assert_eq!(tab.search_status, "Replaced 2 occurrences");
    assert_eq!(tab.match_count, 4);
    assert_eq!(s.matches.len(), 4);
    assert_eq!(tab.current_match, 0);
}

#[test]
fn search_panel_label_and_close() {
    assert_eq!(match_position_label(0, 0), "No matches");
    assert_eq!(match_position_label(2, 5), "3 / 5");
    let mut tab = EditorTab::new(1);
    tab.search_visible = true;
    tab.match_count = 3;
    tab.current_match = 2;
    tab.search_status = "x".to_string();
    close_search_panel(&mut tab);
    assert!(!tab.search_visible);
    assert_eq!((tab.match_count, tab.current_match), (0, 0));
    assert_eq!(tab.search_status, "");
}

#[test]
fn arrow_keys_and_row_clicks() {
    assert_eq!(arrow_selection(None, 3, true), Some(0));
    assert_eq!(arrow_selection(None, 3, false), Some(0));
    assert_eq!(arrow_selection(None, 0, true), None);
    assert_eq!(arrow_selection(Some(1), 3, true), Some(2));
    assert_eq!(arrow_selection(Some(2), 3, true), Some(2));
    assert_eq!(arrow_selection(Some(1), 3, false), Some(0));
    assert_eq!(arrow_selection(Some(0), 3, false), Some(0));
    let files = vec![
        listing_entry("a.lsx".to_string(), "/d/a.lsx".to_string(), false, 1, None),
        listing_entry("b".to_string(), "/d/b".to_string(), true, 0, None),
    ];
    assert_eq!(row_index(&files, "/d/b"), Some(1));
    assert_eq!(row_index(&files, "/d/c"), None);
}

#[test]
fn listing_size_must_fit() {
    assert!(listing_fits(&vec![item("a", false, u64::MAX), item(".hidden", false, 5), item("d", true, 9)]));
    assert!(!listing_fits(&vec![item("a", false, u64::MAX), item("b", false, 1)]));
}

#[test]
fn generator_panel_events() {
    let mut p = GeneratorPanel::new();
    p.on_uuid_generate();
    p.on_uuid_generate();
    assert_eq!(p.uuid_history.len(), 2);
    assert_eq!(p.uuid_history[1], p.last_uuid);
    assert_eq!(p.last_uuid.len(), 36);
    assert_eq!(p.last_uuid, p.last_uuid.to_uppercase());
    p.on_handle_generate();
    assert_eq!(p.handle_history, vec![p.last_handle.clone()]);
    assert!(p.last_handle.parse::<u64>().is_ok());
    p.on_copied();
    assert_eq!(p.copy_status, "Copied!");
    p.on_status_timeout();
    assert_eq!(p.copy_status, "");
    let text = p.export_text();
    let v: serde_json::Value = serde_json::from_str(&text).unwrap();
    assert_eq!(v["uuids"][1], p.last_uuid.as_str());
    assert_eq!(v["handles"][0], format!("h{}", p.last_handle).as_str());
    assert!(v.get("colors").is_none());
    p.on_exported(Err("disk full".to_string()));
    assert_eq!(p.error_message, Some("Failed to export: disk full".to_string()));
    p.on_exported(Ok(()));
    assert_eq!(p.copy_status, "Exported!");
    p.on_clear_history();
    assert!(p.uuid_history.is_empty() && p.handle_history.is_empty());
}

#[test]
fn editor_panel_events() {
    let mut p = EditorPanel::new();
    assert!(!p.save_request());
    assert_eq!(p.error_message, Some("No file loaded".to_string()));
    assert_eq!(p.begin_convert("lsf-to-lsx"), None);
    assert_eq!(p.error_message, Some("No file loaded. Open a file first.".to_string()));
    assert_eq!(p.open_file("/m/a.lsf"), PanelRead::Lsf);
    assert_eq!(p.format, "LSF");
    p.finish_open(PanelRead::Lsf, Ok("<save/>".to_string()));
    assert_eq!(p.status, "LSF loaded (showing as LSX)");
    assert_eq!(p.open_file("/m/b.lsx"), PanelRead::Text);
    p.finish_open(PanelRead::Text, Err("denied".to_string()));
    assert_eq!(p.error_message, Some("Failed to read file: denied".to_string()));
    assert_eq!(p.open_file("/m/c.bin"), PanelRead::Other);
    p.finish_open(PanelRead::Other, Err("not utf-8".to_string()));
    assert_eq!(p.content, "[Binary file - cannot display]");
    p.modified = true;
    assert!(p.save_request());
    p.finish_save(Ok(()));
    assert!(!p.modified);
    assert_eq!(p.status, "Saved");
    p.finish_save_as("/m/d.lsj", Ok(()));
    assert_eq!((p.file_path.as_str(), p.format.as_str()), ("/m/d.lsj", "LSJ"));
    assert_eq!(p.begin_convert("zip-to-lsx"), None);
    assert_eq!(p.error_message, Some("Unknown conversion: zip-to-lsx".to_string()));
    assert!(!p.converting);
    assert_eq!(p.begin_convert("lsj-to-lsx"), Some(Conversion::LsjToLsx));
    assert!(p.converting);
    assert_eq!(EditorPanel::convert_dialog_title(Conversion::LsjToLsx), "Save Converted File (LSX)");
    p.finish_convert(Conversion::LsjToLsx, Ok(()));
    assert_eq!(p.status, "Converted to LSX");
    assert!(!p.converting);
    p.finish_convert(Conversion::LsxToLsf, Err("bad node".to_string()));
    assert_eq!(p.error_message, Some("Conversion failed: bad node".to_string()));
    assert_eq!(conversion_by_name("lsx-to-lsj"), Some(Conversion::LsxToLsj));
}

#[test]
fn pak_panel_events() {
    let mut p = PakPanel::new();
    p.extract_source = "/a.pak".to_string();
    p.extract_dest = "/out".to_string();
    assert_eq!(p.begin_extract(), ("/a.pak".to_string(), "/out".to_string()));
    assert!(p.is_extracting);
    assert_eq!(p.extract_status, "Extracting...");
    p.finish_extract(Ok(()));
    assert_eq!((p.extract_progress, p.extract_status.as_str(), p.is_extracting), (100, "Extraction complete!", false));
    p.begin_create();
    assert_eq!(p.create_status, "Creating PAK...");
    p.finish_create(Err("no files".to_string()));
    assert_eq!(p.error_message, Some("PAK creation failed: no files".to_string()));
    assert!(!p.is_creating);
    p.choose_list_source("/b.pak");
    assert_eq!(p.begin_list(), "/b.pak");
    p.finish_list(Ok(vec!["x.lsx".to_string()]));
    assert_eq!(p.list_contents, vec!["x.lsx".to_string()]);
    p.finish_list(Err("corrupt".to_string()));
    assert_eq!(p.error_message, Some("Failed to list PAK: corrupt".to_string()));
    assert_eq!(p.list_contents, vec!["x.lsx".to_string()]);
}
