use macpak::state::browser::Conversion;
use macpak::state::editor::{EditorTab, EditorTabsState};
use macpak::tabs::editor::{
    build_search_pattern, find_next, find_previous, perform_search, replace_all, replace_current, splice_text,
    SearchState,
};
use macpak::tabs::editor_ops::{
    apply_formatted, begin_load, convert_plan, create_meta_tab, finish_load, finish_save, finish_save_as,
    format_badge, format_plan, formats_on_load, is_editable_file, load_target, status_bar_texts, tab_label, tab_menu,
    tab_menu_label, toolbar_message, validate_content, FormatPlan, LoadKind, TabMenuEntry,
};

fn tab_with(content: &str, search: &str) -> EditorTab {
    let mut t = EditorTab::new(7);
    t.content = content.to_string();
    t.search_text = search.to_string();
    t
}

#[test]
fn tabs_open_close_and_switch() {
    let mut s = EditorTabsState::new();
    assert_eq!(s.tabs.len(), 1);
    assert_eq!(s.next_tab_id, 1);
    let t = s.new_tab();
    assert_eq!(t.id, 1);
    assert_eq!(s.active_tab_index, 1);
    s.new_tab();
    assert_eq!(s.tabs.len(), 3);
    s.tabs[1].file_path = Some("/a.lsx".to_string());
    s.active_tab_index = 2;
    assert!(s.switch_to_file("/a.lsx"));
    assert_eq!(s.active_tab_index, 1);
    assert!(!s.switch_to_file("/b.lsx"));
    assert_eq!(s.active_tab_index, 1);
    s.close_tab(1);
    assert_eq!(s.tabs.iter().map(|t| t.id).collect::<Vec<_>>(), vec![0, 2]);
    assert_eq!(s.active_tab_index, 0);
    s.close_others(1);
    assert_eq!(s.tabs.len(), 1);
    assert_eq!(s.tabs[0].id, 2);
    assert_eq!(s.active_tab_index, 0);
    s.tabs[0].content = "x".to_string();
    s.tabs[0].modified = true;
    assert!(s.has_unsaved_changes());
    s.close_tab(0);
    assert_eq!(s.tabs.len(), 1);
    assert_eq!(s.tabs[0].content, "");
    assert!(!s.tabs[0].modified);
    s.close_all();
    assert_eq!(s.tabs.len(), 1);
    assert_eq!(s.tabs[0].id, 3);
    assert_eq!(s.next_tab_id, 4);
    assert!(!s.has_unsaved_changes());
}

#[test]
fn display_names() {
    let mut t = EditorTab::new(0);
    assert_eq!(t.display_name(), "Untitled");
    t.file_path = Some("/mods/meta.lsx".to_string());
    assert_eq!(t.display_name(), "meta.lsx");
    assert!(!t.is_empty_document());
}

#[test]
fn load_target_reuses_an_empty_tab() {
    let mut s = EditorTabsState::new();
    assert_eq!(load_target(&mut s, "/a.lsx"), Some(0));
    s.tabs[0].file_path = Some("/a.lsx".to_string());
    assert_eq!(load_target(&mut s, "/b.lsx"), Some(1));
    assert_eq!(s.tabs.len(), 2);
    assert_eq!(s.active_tab_index, 1);
    assert_eq!(load_target(&mut s, "/a.lsx"), None);
    assert_eq!(s.active_tab_index, 0);
}

#[test]
fn load_steps() {
    let mut t = EditorTab::new(0);
    assert_eq!(begin_load(&mut t, "/m/Meta.lsx"), LoadKind::Xml);
    assert_eq!(t.file_format, "LSX");
    assert_eq!(t.file_path, Some("/m/Meta.lsx".to_string()));
    assert_eq!(begin_load(&mut t, "/m/a.lsj"), LoadKind::Json);
    assert_eq!(begin_load(&mut t, "/m/a.lsf"), LoadKind::Lsf);
    assert_eq!(begin_load(&mut t, "/m/notes"), LoadKind::Plain);
    assert_eq!(t.file_format, "");
    assert!(formats_on_load(LoadKind::Xml, "<a/>"));
    assert!(!formats_on_load(LoadKind::Plain, "x"));
    assert!(!formats_on_load(LoadKind::Json, &"x".repeat(500_001)));
    assert!(formats_on_load(LoadKind::Json, &"x".repeat(500_000)));
    t.modified = true;
    finish_load(&mut t, LoadKind::Lsf, Some("<save/>".to_string()));
    assert_eq!(t.content, "<save/>");
    assert!(!t.modified);
    assert!(t.converted_from_lsf);
    finish_load(&mut t, LoadKind::Plain, None);
    assert_eq!(t.content, "[Binary file - cannot display]");
    finish_load(&mut t, LoadKind::Xml, None);
    assert_eq!(t.content, "");
}

#[test]
fn save_and_save_as() {
    let mut t = EditorTab::new(0);
    t.modified = true;
    finish_save(&mut t, false);
    assert!(t.modified);
    finish_save(&mut t, true);
    assert!(!t.modified);
    t.modified = true;
    t.converted_from_lsf = true;
    t.file_format = "LSF".to_string();
    finish_save_as(&mut t, "/out/file.lsj", true);
    assert_eq!(t.file_path, Some("/out/file.lsj".to_string()));
    assert_eq!(t.file_format, "LSJ");
    assert!(!t.modified);
    assert!(!t.converted_from_lsf);
    finish_save_as(&mut t, "/out/noext", true);
    assert_eq!(t.file_format, "LSJ");
}

#[test]
fn format_and_validate() {
    let mut t = EditorTab::new(0);
    t.file_format = "lsx".to_string();
    assert_eq!(format_plan(&t), FormatPlan::Nothing);
    assert_eq!(validate_content(&t), "No content to validate");
    t.content = "<save><region/></save>".to_string();
    assert_eq!(format_plan(&t), FormatPlan::Xml);
    assert_eq!(validate_content(&t), "Valid XML structure");
    t.content = "<save>".to_string();
    assert!(validate_content(&t).starts_with("Invalid XML: "));
    t.file_format = "LSJ".to_string();
    t.content = "{\"a\": [1, 2]}".to_string();
    assert_eq!(format_plan(&t), FormatPlan::Json);
    assert_eq!(validate_content(&t), "Valid JSON structure");
    t.content = "{\"a\": ".to_string();
    assert!(validate_content(&t).starts_with("Invalid JSON: "));
    t.file_format = "TXT".to_string();
    assert_eq!(format_plan(&t), FormatPlan::Unchanged);
    assert_eq!(validate_content(&t), "Unknown format - skipped validation");
    apply_formatted(&mut t, "done".to_string());
    assert_eq!(t.content, "done");
    assert!(t.modified);
}

#[test]
fn convert_plans() {
    let mut t = EditorTab::new(0);
    assert!(convert_plan(&t, "lsx").is_none());
    t.file_path = Some("/m/a.lsf".to_string());
    t.file_format = "LSF".to_string();
    let p = convert_plan(&t, "LSX").unwrap();
    assert_eq!(p.source, "/m/a.lsf");
    assert_eq!(p.target, "lsx");
    assert_eq!(p.dialog_title, "Save as LSX File");
    assert_eq!(p.conversion, Some(Conversion::LsfToLsx));
    let q = convert_plan(&t, "lsf").unwrap();
    assert_eq!(q.conversion, None);
}

#[test]
fn meta_tab_is_created() {
    let mut s = EditorTabsState::new();
    s.show_meta_dialog = true;
    create_meta_tab(&mut s, "<save/>".to_string());
    assert_eq!(s.tabs.len(), 2);
    assert_eq!(s.active_tab_index, 1);
    assert_eq!(s.tabs[1].content, "<save/>");
    assert_eq!(s.tabs[1].file_format, "LSX");
    assert!(s.tabs[1].modified);
    assert!(!s.show_meta_dialog);
    assert_eq!(s.status_message, "Created new meta.lsx");
}

#[test]
fn generated_tab_is_appended_with_a_new_id() {
    let mut s = EditorTabsState::new();
    s.new_tab();
    s.active_tab_index = 0;
    let next = s.next_tab_id;
    s.add_generated_tab("<meta/>".to_string());
    assert_eq!(s.tabs.len(), 3);
    assert_eq!(s.active_tab_index, 2);
    assert_eq!(s.next_tab_id, next + 1);
    let t = &s.tabs[2];
    assert_eq!(t.id, next);
    assert_eq!(t.content, "<meta/>");
    assert_eq!(t.file_format, "LSX");
    assert!(t.modified);
    assert!(t.file_path.is_none());
    assert_eq!(s.tabs[0].id, 0);
    assert_eq!(s.tabs[1].id, 1);
    assert!(s.show_line_numbers);
    assert_eq!(s.status_message, "");
}

#[test]
fn search_patterns() {
    assert_eq!(build_search_pattern("a.b(c)", false, false), "a\\.b\\(c\\)");
    assert_eq!(build_search_pattern("a.b", true, false), "a.b");
    assert_eq!(build_search_pattern("x-y", false, true), "\\bx\\-y\\b");
}

#[test]
fn search_finds_matches_and_cycles() {
    let mut t = tab_with("Foo foo fOO bar", "foo");
    let mut s = SearchState::new();
    perform_search(&mut t, &mut s, "Foo foo fOO bar");
    assert_eq!(t.match_count, 3);
    assert_eq!(s.matches, vec![(0, 3), (4, 7), (8, 11)]);
    assert_eq!(t.current_match, 0);
    t.case_sensitive = true;
    perform_search(&mut t, &mut s, "Foo foo fOO bar");
    assert_eq!(s.matches, vec![(4, 7)]);
    t.case_sensitive = false;
    perform_search(&mut t, &mut s, "Foo foo fOO bar");
    find_next(&mut t, &mut s);
    find_next(&mut t, &mut s);
    assert_eq!(t.current_match, 2);
    find_next(&mut t, &mut s);
    assert_eq!(t.current_match, 0);
    find_previous(&mut t, &mut s);
    assert_eq!(t.current_match, 2);
    assert_eq!(s.current_index, 2);
}

#[test]
fn search_edge_cases() {
    let mut t = tab_with("a+b a+b", "");
    let mut s = SearchState::new();
    s.matches = vec![(0, 1)];
    perform_search(&mut t, &mut s, "a+b a+b");
    assert_eq!(t.match_count, 0);
    assert!(s.matches.is_empty());
    assert_eq!(t.search_status, "");
    t.search_text = "a+b".to_string();
    perform_search(&mut t, &mut s, "a+b a+b");
    assert_eq!(t.match_count, 2);
    t.use_regex = true;
    perform_search(&mut t, &mut s, "a+b a+b");
    assert_eq!(t.match_count, 0);
    t.search_text = "(".to_string();
    perform_search(&mut t, &mut s, "x");
    assert!(t.search_status.starts_with("Invalid regex: "));
    assert_eq!(t.match_count, 0);
    t.search_text = "cat".to_string();
    t.use_regex = false;
    t.whole_words = true;
    perform_search(&mut t, &mut s, "cat concat cat");
    assert_eq!(s.matches, vec![(0, 3), (11, 14)]);
    let mut u = tab_with("x", "x");
    find_next(&mut u, &mut s);
    assert_eq!(u.current_match, 0);
}

#[test]
fn replace_current_and_all() {
    let mut t = tab_with("one two one", "one");
    t.replace_text = "1".to_string();
    let mut s = SearchState::new();
    replace_current(&mut t, &mut s);
    assert_eq!(t.search_status, "No matches to replace");
    perform_search(&mut t, &mut s, "one two one");
    find_next(&mut t, &mut s);
    replace_current(&mut t, &mut s);
    assert_eq!(t.content, "one two 1");
    assert!(t.modified);
    assert_eq!(t.match_count, 1);
    assert_eq!(t.search_status, "Replaced 1 occurrence");

    let mut u = tab_with("héllo héllo", "héllo");
    u.replace_text = "hi".to_string();
    let mut s2 = SearchState::new();
    replace_all(&mut u, &mut s2);
    assert_eq!(u.content, "hi hi");
    assert_eq!(u.search_status, "Replaced 2 occurrences");
    assert_eq!(u.match_count, 0);
    replace_all(&mut u, &mut s2);
    assert_eq!(u.search_status, "No matches found");
    u.search_text = String::new();
    replace_all(&mut u, &mut s2);
    assert_eq!(u.search_status, "Nothing to replace");
    u.search_text = "(h)(i)".to_string();
    u.use_regex = true;
    u.replace_text = "$2$1".to_string();
    replace_all(&mut u, &mut s2);
    assert_eq!(u.content, "ih ih");
    u.search_text = "[".to_string();
    replace_all(&mut u, &mut s2);
    assert!(u.search_status.starts_with("Invalid regex: "));
}

#[test]
fn splice_on_character_boundaries() {
    assert_eq!(splice_text("héllo", 1, 3, "e"), "hello");
    assert_eq!(splice_text("abc", 3, 3, "d"), "abcd");
    assert_eq!(splice_text("abc", 0, 0, "_"), "_abc");
}

#[test]
fn editable_files_by_extension() {
    assert!(is_editable_file("/mods/a/meta.lsx"));
    assert!(is_editable_file("/mods/a/Data.LSJ"));
    assert!(is_editable_file("notes.txt"));
    assert!(!is_editable_file("/mods/a/icon.dds"));
    assert!(!is_editable_file("/mods/a/Makefile"));
}

#[test]
fn status_bar_shows_path_and_mark() {
    let mut t = EditorTab::new(1);
    let (p, m) = status_bar_texts(&t);
    assert_eq!(p, "No file loaded");
    assert_eq!(m, "");
    t.file_path = Some("/x/meta.lsx".to_string());
    t.modified = true;
    let (p, m) = status_bar_texts(&t);
    assert_eq!(p, "/x/meta.lsx");
    assert_eq!(m, "\u{25CF} Modified");
}

#[test]
fn format_badges_by_format() {
    let (text, colors) = format_badge("");
    assert_eq!(text, "No file");
    assert_eq!(colors, ((240, 240, 240), (200, 200, 200), (100, 100, 100)));
    let (text, colors) = format_badge("lsx");
    assert_eq!(text, "Format: lsx");
    assert_eq!(colors, ((227, 242, 253), (33, 150, 243), (25, 118, 210)));
    let (_, colors) = format_badge("LSJ");
    assert_eq!(colors, ((243, 229, 245), (156, 39, 176), (123, 31, 162)));
    let (_, colors) = format_badge("Lsf");
    assert_eq!(colors, ((255, 243, 224), (255, 152, 0), (245, 124, 0)));
}

#[test]
fn toolbar_message_prefers_the_status() {
    let mut st = EditorTabsState::new();
    assert!(toolbar_message(&st).is_none());
    st.tabs[0].converted_from_lsf = true;
    let (m, c) = toolbar_message(&st).unwrap();
    assert_eq!(m, "Converted from LSF - use Save As");
    assert_eq!(c, (100, 100, 100));
    st.status_message = "Saved".to_string();
    let (m, c) = toolbar_message(&st).unwrap();
    assert_eq!(m, "Saved");
    assert_eq!(c, (76, 175, 80));
    st.active_tab_index = 5;
    assert!(toolbar_message(&st).is_none());
}

#[test]
fn tab_labels_and_menus() {
    let mut t = EditorTab::new(3);
    assert_eq!(tab_label(&t), "Untitled");
    assert_eq!(tab_menu(&t), vec![TabMenuEntry::CloseTab, TabMenuEntry::CloseOthers, TabMenuEntry::CloseAll]);
    t.file_path = Some("/mods/x/meta.lsx".to_string());
    t.modified = true;
    assert_eq!(tab_label(&t), "\u{25CF} meta.lsx");
    let menu = tab_menu(&t);
    assert_eq!(
        menu,
        vec![
            TabMenuEntry::Rename,
            TabMenuEntry::CopyPath,
            TabMenuEntry::Separator,
            TabMenuEntry::CloseTab,
            TabMenuEntry::CloseOthers,
            TabMenuEntry::CloseAll
        ]
    );
    let labels: Vec<String> = menu.into_iter().map(tab_menu_label).collect();
    assert_eq!(labels, vec!["Rename...", "Copy Path", "", "Close Tab", "Close Other Tabs", "Close All Tabs"]);
}
