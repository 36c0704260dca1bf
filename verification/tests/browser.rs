use macpak::state::browser::{
    conversion_for, context_menu, header_label, is_text_file, menu_label, open_action, pak_preview,
    rename_destination, text_preview, BrowserState, Conversion, DirItem, MenuEntry, OpenAction, PreviewRequest,
    RawImageData, ResourceFormat,
};
use macpak::tabs::browser::{
    count_listing, filter_entries, icon_for_extension, is_hidden_name, listing_entry, sort_files, FileEntry,
    SortColumn,
};

fn item(name: &str, is_dir: bool, len: u64) -> DirItem {
    DirItem {
        name: name.to_string(),
        path: format!("/mods/{}", name),
        is_dir,
        len,
        modified_secs: None,
    }
}

fn entry(name: &str, is_dir: bool, size: u64, file_type: &str, modified: &str) -> FileEntry {
    FileEntry {
        name: name.to_string(),
        path: format!("/x/{}", name),
        is_dir,
        size,
        size_formatted: String::new(),
        extension: String::new(),
        file_type: file_type.to_string(),
        modified: modified.to_string(),
        icon: String::new(),
    }
}

fn names(v: &[FileEntry]) -> Vec<String> {
    v.iter().map(|e| e.name.clone()).collect()
}

#[test]
fn sort_puts_folders_first_then_names_ignoring_case() {
    let mut files = vec![
        entry("b.lsx", false, 5, "LSX", ""),
        entry("Zeta", true, 0, "Folder", ""),
        entry("A.pak", false, 9, "PAK", ""),
        entry("alpha", true, 0, "Folder", ""),
    ];
    sort_files(&mut files, SortColumn::Name, true);
    assert_eq!(names(&files), vec!["alpha", "Zeta", "A.pak", "b.lsx"]);
    sort_files(&mut files, SortColumn::Name, false);
    assert_eq!(names(&files), vec!["Zeta", "alpha", "b.lsx", "A.pak"]);
}

#[test]
fn sort_by_size_is_stable() {
    let mut files = vec![
        entry("one", false, 10, "TXT", ""),
        entry("two", false, 5, "TXT", ""),
        entry("three", false, 10, "TXT", ""),
        entry("four", false, 5, "TXT", ""),
    ];
    sort_files(&mut files, SortColumn::Size, true);
    assert_eq!(names(&files), vec!["two", "four", "one", "three"]);
    let mut files = vec![
        entry("one", false, 10, "TXT", ""),
        entry("two", false, 5, "TXT", ""),
        entry("three", false, 10, "TXT", ""),
    ];
    sort_files(&mut files, SortColumn::Size, false);
    assert_eq!(names(&files), vec!["one", "three", "two"]);
}

#[test]
fn sort_by_type_and_modified() {
    let mut files = vec![
        entry("a", false, 1, "PAK", "2024-01-02 10:00"),
        entry("b", false, 1, "DDS", "2024-01-01 10:00"),
        entry("c", false, 1, "LSX", "2023-12-31 23:59"),
    ];
    sort_files(&mut files, SortColumn::Type, true);
    assert_eq!(names(&files), vec!["b", "c", "a"]);
    sort_files(&mut files, SortColumn::Modified, true);
    assert_eq!(names(&files), vec!["c", "b", "a"]);
}

#[test]
fn filter_by_search_and_type() {
    let all = vec![
        entry("Armor", true, 0, "Folder", ""),
        entry("armor.pak", false, 1, "PAK", ""),
        entry("ARMOR.lsx", false, 1, "LSX", ""),
        entry("weapons.pak", false, 1, "PAK", ""),
    ];
    assert_eq!(names(&filter_entries(&all, "armor", "All")), vec!["Armor", "armor.pak", "ARMOR.lsx"]);
    assert_eq!(names(&filter_entries(&all, "", "PAK")), vec!["Armor", "armor.pak", "weapons.pak"]);
    assert_eq!(names(&filter_entries(&all, "Armor", "PAK")), vec!["Armor", "armor.pak"]);
    assert_eq!(names(&filter_entries(&all, "shield", "All")).len(), 0);
}

#[test]
fn listing_entry_of_file_and_folder() {
    let f = listing_entry("Mod.pak".to_string(), "/m/Mod.pak".to_string(), false, 2048, None);
    assert_eq!(f.file_type, "PAK");
    assert_eq!(f.extension, "pak");
    assert_eq!(f.icon, "📦");
    assert_eq!(f.size, 2048);
    assert_eq!(f.size_formatted, "2.0 KB");
    assert_eq!(f.modified, "--");
    let d = listing_entry("Public".to_string(), "/m/Public".to_string(), true, 4096, Some(0));
    assert_eq!(d.file_type, "Folder");
    assert_eq!(d.icon, "📁");
    assert_eq!(d.size, 0);
    assert_eq!(d.size_formatted, "--");
    assert_eq!(d.modified, "1970-01-01 00:00");
    let n = listing_entry("README".to_string(), "/m/README".to_string(), false, 3, Some(86400 + 3600 + 60));
    assert_eq!(n.file_type, "");
    assert_eq!(n.icon, "📄");
    assert_eq!(n.modified, "1970-01-02 01:01");
}

#[test]
fn icons_by_extension() {
    assert_eq!(icon_for_extension("DDS"), "🖼️");
    assert_eq!(icon_for_extension("GR2"), "🎨");
    assert_eq!(icon_for_extension("WAV"), "🔊");
    assert_eq!(icon_for_extension("LUA"), "📜");
    assert_eq!(icon_for_extension("XML"), "📝");
    assert_eq!(icon_for_extension("LOCA"), "🌐");
    assert_eq!(icon_for_extension("LSJ"), "📄");
    assert_eq!(icon_for_extension("ZIP"), "📄");
}

#[test]
fn hidden_names_and_counts() {
    assert!(is_hidden_name(".DS_Store"));
    assert!(!is_hidden_name("Mods"));
    assert!(!is_hidden_name(""));
    let all = vec![
        entry("a", true, 0, "Folder", ""),
        entry("b", false, 100, "PAK", ""),
        entry("c", false, 24, "LSX", ""),
    ];
    assert_eq!(count_listing(&all), (2, 1, 124));
}

#[test]
fn load_listing_skips_hidden_and_resets_filters() {
    let mut s = BrowserState::new();
    s.search_query = "x".to_string();
    s.type_filter = "PAK".to_string();
    s.selected_index = Some(3);
    s.preview_name = "old".to_string();
    let items = vec![
        item("b.pak", false, 1024),
        item(".hidden", false, 999),
        item("Public", true, 0),
        item("a.lsx", false, 512),
    ];
    s.load_listing("/mods".to_string(), items);
    assert_eq!(s.current_path, Some("/mods".to_string()));
    assert_eq!(names(&s.all_files), vec!["b.pak", "Public", "a.lsx"]);
    assert_eq!(names(&s.files), vec!["Public", "a.lsx", "b.pak"]);
    assert_eq!(s.search_query, "");
    assert_eq!(s.type_filter, "All");
    assert_eq!(s.file_count, 2);
    assert_eq!(s.folder_count, 1);
    assert_eq!(s.total_size, "1.5 KB");
    assert_eq!(s.selected_index, None);
    assert_eq!(s.preview_name, "");
    assert_eq!(s.counts_text(), "2 files, 1 folders");
}

#[test]
fn apply_filters_and_header_clicks() {
    let mut s = BrowserState::new();
    s.load_listing(
        "/d".to_string(),
        vec![item("zz.pak", false, 1), item("aa.pak", false, 3), item("mid.lsx", false, 2), item("Sub", true, 0)],
    );
    s.type_filter = "PAK".to_string();
    s.selected_index = Some(0);
    s.apply_filters();
    assert_eq!(names(&s.files), vec!["Sub", "aa.pak", "zz.pak"]);
    assert_eq!(s.selected_index, None);
    s.click_header(SortColumn::Name);
    assert!(!s.sort_ascending);
    assert_eq!(names(&s.files), vec!["Sub", "zz.pak", "aa.pak"]);
    s.click_header(SortColumn::Size);
    assert!(s.sort_ascending);
    assert_eq!(s.sort_column, SortColumn::Size);
    assert_eq!(names(&s.files), vec!["Sub", "zz.pak", "aa.pak"]);
    assert_eq!(header_label("Size", SortColumn::Size, s.sort_column, s.sort_ascending), "Size ▲");
    assert_eq!(header_label("Size", SortColumn::Size, SortColumn::Size, false), "Size ▼");
    assert_eq!(header_label("Name", SortColumn::Name, s.sort_column, true), "Name");
}

#[test]
fn select_file_plans_the_preview() {
    let mut s = BrowserState::new();
    let mut f = entry("Mod.pak", false, 10, "PAK", "");
    f.extension = "pak".to_string();
    f.size_formatted = "10.0 B".to_string();
    let r = s.select_file(&f);
    assert!(matches!(r, PreviewRequest::ListPak(ref p) if p == "/x/Mod.pak"));
    assert_eq!(s.preview_name, "Mod.pak");
    assert_eq!(s.preview_info, "PAK | 10.0 B");
    assert_eq!(s.preview_image.0, 1);

    let d = entry("Folder", true, 0, "Folder", "");
    assert!(matches!(s.select_file(&d), PreviewRequest::Nothing));
    assert_eq!(s.preview_info, "Directory");
    assert_eq!(s.preview_content, "[Double-click to open]");
    assert_eq!(s.preview_image.0, 2);

    let mut b = entry("x.LSF", false, 1, "LSF", "");
    b.extension = "LSF".to_string();
    assert!(matches!(s.select_file(&b), PreviewRequest::Nothing));
    assert_eq!(s.preview_content, "[Binary LSF file - double-click to open in editor]");

    let mut t = entry("x.json", false, 1, "JSON", "");
    t.extension = "json".to_string();
    assert!(matches!(s.select_file(&t), PreviewRequest::ReadText(_)));
    let mut i = entry("x.jpeg", false, 1, "JPEG", "");
    i.extension = "jpeg".to_string();
    assert!(matches!(s.select_file(&i), PreviewRequest::LoadImage(_)));
    let mut dd = entry("x.dds", false, 1, "DDS", "");
    dd.extension = "dds".to_string();
    assert!(matches!(s.select_file(&dd), PreviewRequest::LoadDds(_)));
    let mut g = entry("x.gr2", false, 1, "GR2", "");
    g.extension = "gr2".to_string();
    s.select_file(&g);
    assert_eq!(s.preview_content, "[GR2 Model file]");
    let mut w = entry("x.wem", false, 1, "WEM", "");
    w.extension = "wem".to_string();
    s.select_file(&w);
    assert_eq!(s.preview_content, "[Audio file]");
    let mut o = entry("x.bin", false, 1, "BIN", "");
    o.extension = "bin".to_string();
    s.select_file(&o);
    assert_eq!(s.preview_content, "File type: BIN");
}

#[test]
fn preview_results() {
    let mut s = BrowserState::new();
    s.show_text(None);
    assert_eq!(s.preview_content, "[Unable to read file]");
    s.show_text(Some("short".to_string()));
    assert_eq!(s.preview_content, "short");
    s.show_pak_listing(Err("bad header".to_string()));
    assert_eq!(s.preview_content, "[Error reading PAK: bad header]");
    s.show_image(Err("nope".to_string()), true);
    assert_eq!(s.preview_content, "[Error loading DDS: nope]");
    s.show_image(Err("nope".to_string()), false);
    assert_eq!(s.preview_content, "[Error loading image: nope]");
    let v = s.preview_image.0;
    s.show_image(Ok(RawImageData { width: 1, height: 1, rgba_data: vec![1, 2, 3, 4] }), false);
    assert_eq!(s.preview_content, "");
    assert_eq!(s.preview_image.0, v + 1);
    assert_eq!(s.preview_image.1.as_ref().map(|d| d.rgba_data.len()), Some(4));
}

#[test]
fn long_text_is_truncated() {
    let content = "a".repeat(6000);
    let p = text_preview(&content);
    assert_eq!(p, format!("{}...\n\n[Truncated - 6000 bytes total]", "a".repeat(5000)));
    let exact = "b".repeat(5000);
    assert_eq!(text_preview(&exact), exact);
    let mixed = format!("{}é{}", "c".repeat(4998), "d".repeat(100));
    assert_eq!(text_preview(&mixed), format!("{}é...\n\n[Truncated - 5100 bytes total]", "c".repeat(4998)));
}

#[test]
fn pak_preview_lists_first_fifty() {
    let names: Vec<String> = (0..60).map(|i| format!("f{}", i)).collect();
    let expected = format!("PAK Archive: 60 files\n\n{}", names[..50].join("\n"));
    assert_eq!(pak_preview(&names), expected);
    assert_eq!(pak_preview(&vec!["one".to_string()]), "PAK Archive: 1 files\n\none");
    assert_eq!(pak_preview(&Vec::new()), "PAK Archive: 0 files\n\n");
}

#[test]
fn context_menu_lines() {
    let mut f = entry("a.lsx", false, 1, "LSX", "");
    f.extension = "LSX".to_string();
    let m = context_menu(&f);
    assert_eq!(
        m,
        vec![
            MenuEntry::OpenInEditor,
            MenuEntry::Separator,
            MenuEntry::ShowInFinder,
            MenuEntry::CopyPath,
            MenuEntry::Separator,
            MenuEntry::Rename,
            MenuEntry::Separator,
            MenuEntry::ConvertTo(ResourceFormat::Lsf),
            MenuEntry::ConvertTo(ResourceFormat::Lsj),
            MenuEntry::Separator,
            MenuEntry::Delete(false),
        ]
    );
    let d = entry("Dir", true, 0, "Folder", "");
    assert_eq!(
        context_menu(&d),
        vec![
            MenuEntry::ShowInFinder,
            MenuEntry::CopyPath,
            MenuEntry::Separator,
            MenuEntry::Rename,
            MenuEntry::Separator,
            MenuEntry::Delete(true),
        ]
    );
    assert_eq!(menu_label(MenuEntry::Delete(true)), "Delete folder");
    assert_eq!(menu_label(MenuEntry::ConvertTo(ResourceFormat::Lsx)), "Convert to LSX");
    assert_eq!(menu_label(MenuEntry::Separator), "");
}

#[test]
fn text_files_open_in_the_editor() {
    assert!(is_text_file("TOML"));
    assert!(is_text_file("lsf"));
    assert!(!is_text_file("pak"));
    let mut f = entry("a.md", false, 1, "MD", "");
    f.extension = "md".to_string();
    assert!(matches!(open_action(&f), OpenAction::OpenInEditor(ref p) if p == "/x/a.md"));
    let d = entry("D", true, 0, "Folder", "");
    assert!(matches!(open_action(&d), OpenAction::ListDirectory(ref p) if p == "/x/D"));
    let mut i = entry("a.png", false, 1, "PNG", "");
    i.extension = "png".to_string();
    assert!(matches!(open_action(&i), OpenAction::Nothing));
}

#[test]
fn quick_conversion_and_file_outcomes() {
    assert_eq!(conversion_for("lsf", "lsx"), Some(Conversion::LsfToLsx));
    assert_eq!(conversion_for("lsj", "lsf"), Some(Conversion::LsjToLsf));
    assert_eq!(conversion_for("lsx", "lsx"), None);
    let mut s = BrowserState::new();
    let plan = s.begin_quick_convert("/a/Mod.LSF", "lsx");
    assert_eq!(s.status_message, "Converting to LSX...");
    let (c, dest) = plan.unwrap();
    assert_eq!(c, Conversion::LsfToLsx);
    assert_eq!(dest, "/a/Mod.lsx");
    assert!(s.begin_quick_convert("/a/readme.txt", "lsx").is_none());
    assert_eq!(s.status_message, "Unsupported conversion: txt to lsx");
    assert!(s.finish_quick_convert("lsj", Ok(())));
    assert_eq!(s.status_message, "Converted to LSJ");
    assert!(!s.finish_quick_convert("lsj", Err("boom".to_string())));
    assert_eq!(s.status_message, "Conversion failed: boom");
    assert!(s.finish_delete(Ok(())));
    assert_eq!(s.status_message, "Deleted");
    assert!(!s.finish_rename(Err("denied".to_string())));
    assert_eq!(s.status_message, "Rename failed: denied");
    assert_eq!(rename_destination("/a/b/old.txt", "new.txt"), "/a/b/new.txt");
    assert_eq!(rename_destination("old.txt", "new.txt"), "new.txt");
}

#[test]
fn rename_and_navigation() {
    let mut s = BrowserState::new();
    let f = entry("a.txt", false, 1, "TXT", "");
    s.start_rename(&f);
    assert_eq!(s.rename_text, "a.txt");
    assert_eq!(s.renaming_path, Some("/x/a.txt".to_string()));
    s.end_rename();
    assert_eq!(s.renaming_path, None);
    assert_eq!(s.parent_to_open(), None);
    s.load_listing("/a/b".to_string(), Vec::new());
    assert_eq!(s.parent_to_open(), Some("/a".to_string()));
    assert_eq!(s.path_to_refresh(), Some("/a/b".to_string()));
}
