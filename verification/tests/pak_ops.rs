use macpak::state::pak_ops::{drop_title, status_line, DropAnswer, MessageTone};
use macpak::state::pak_ops::{
    animation_step, progress_view,
    assess_mod_structure, batch_create_destination, batch_display, batch_extract_destination, batch_found_message,
    display_name_of, filter_listed, handle_pak_result, is_pak_path, listed_count_label, suggested_pak_name,
    BatchItemOutcome, BatchKind, BatchTally, PakCompression, PakOpsState, PakResult,
};

const RULE: &str = "------------------------------------------------------------";

fn s(v: &str) -> String {
    v.to_string()
}

#[test]
fn compression_names() {
    assert_eq!(PakCompression::Lz4Hc.as_str(), "lz4hc");
    assert_eq!(PakCompression::ZlibFast.as_str(), "zlibfast");
    assert_eq!(PakCompression::Uncompressed.as_str(), "none");
    assert_eq!(PakCompression::Lz4Hc.description(), "Best compression (default)");
    assert_eq!(PakCompression::Zlib.description(), "Standard compression");
    assert_eq!(PakCompression::Uncompressed.description(), "No compression");
}

#[test]
fn new_state_is_idle() {
    let mut st = PakOpsState::new();
    assert!(!st.is_busy());
    assert_eq!(st.compression, PakCompression::Lz4Hc);
    st.is_validating = true;
    assert!(st.is_busy());
    st.add_result("a");
    st.add_result("b");
    assert_eq!(st.results_log, vec![s("a"), s("b")]);
    st.clear_results();
    assert!(st.results_log.is_empty());
}

#[test]
fn list_done_reports_first_twenty() {
    let mut st = PakOpsState::new();
    st.is_listing = true;
    st.show_progress = true;
    let files: Vec<String> = (0..23).map(|i| format!("Data/f{}.lsx", i)).collect();
    handle_pak_result(
        &mut st,
        PakResult::ListDone { success: true, files: files.clone(), pak_name: s("Mod.pak"), error: None },
    );
    assert_eq!(st.progress, 1000);
    assert!(!st.is_listing && !st.show_progress);
    assert_eq!(st.results_log.len(), 2 + 20 + 1 + 1);
    assert_eq!(st.results_log[0], "✅ Found 23 files in Mod.pak");
    assert_eq!(st.results_log[1], RULE);
    assert_eq!(st.results_log[2], "  Data/f0.lsx");
    assert_eq!(st.results_log[21], "  Data/f19.lsx");
    assert_eq!(st.results_log[22], "  ... and 3 more files");
    assert_eq!(st.results_log[23], RULE);
    assert_eq!(st.list_contents, files);

    let mut st2 = PakOpsState::new();
    handle_pak_result(
        &mut st2,
        PakResult::ListDone { success: true, files: vec![s("a")], pak_name: s("x.pak"), error: None },
    );
    assert_eq!(st2.results_log, vec![s("✅ Found 1 files in x.pak"), s(RULE), s("  a"), s(RULE)]);

    let mut st3 = PakOpsState::new();
    handle_pak_result(
        &mut st3,
        PakResult::ListDone { success: false, files: Vec::new(), pak_name: s("x.pak"), error: Some(s("bad magic")) },
    );
    assert_eq!(st3.results_log, vec![s("❌ Failed to list PAK contents: bad magic")]);
    let mut st4 = PakOpsState::new();
    handle_pak_result(
        &mut st4,
        PakResult::ListDone { success: false, files: Vec::new(), pak_name: s("x.pak"), error: None },
    );
    assert_eq!(st4.results_log, vec![s("❌ Failed to list PAK contents: ")]);
}

#[test]
fn extract_and_create_done() {
    let mut st = PakOpsState::new();
    st.is_extracting = true;
    handle_pak_result(
        &mut st,
        PakResult::ExtractDone { success: true, message: String::new(), file_count: 12, dest: s("/out") },
    );
    assert_eq!(st.results_log, vec![s("✅ Successfully extracted 12 files to /out"), s(RULE)]);
    assert!(!st.is_extracting);
    handle_pak_result(
        &mut st,
        PakResult::ExtractDone { success: false, message: s("disk full"), file_count: 0, dest: s("/out") },
    );
    assert_eq!(st.results_log[2], "❌ Extraction failed: disk full");
    st.is_creating = true;
    handle_pak_result(&mut st, PakResult::CreateDone { success: true, message: String::new(), pak_name: s("New.pak") });
    assert_eq!(st.results_log[4], "✅ Successfully created New.pak");
    assert!(!st.is_creating);
    handle_pak_result(&mut st, PakResult::CreateDone { success: false, message: s("oops"), pak_name: s("New.pak") });
    assert_eq!(st.results_log[6], "❌ PAK creation failed: oops");
    assert_eq!(st.results_log[7], RULE);
}

#[test]
fn validation_report() {
    let mut st = PakOpsState::new();
    st.is_validating = true;
    st.progress = 300;
    handle_pak_result(
        &mut st,
        PakResult::ValidateDone { valid: false, structure: Vec::new(), warnings: vec![s("w1"), s("w2")] },
    );
    assert_eq!(
        st.results_log,
        vec![s("⚠ Mod structure has issues:"), s("Warnings:"), s("  - w1"), s("  - w2"), s(RULE)]
    );
    assert!(!st.is_validating);
    assert_eq!(st.progress, 300);
    let mut st2 = PakOpsState::new();
    handle_pak_result(
        &mut st2,
        PakResult::ValidateDone { valid: true, structure: vec![s("+ Mods/")], warnings: Vec::new() },
    );
    assert_eq!(st2.results_log, vec![s("✓ Mod structure is valid!"), s("Structure found:"), s("  + Mods/"), s(RULE)]);
}

#[test]
fn mod_structure_assessment() {
    let r = assess_mod_structure(true, false, true, &vec![s("MyMod")]);
    assert!(r.valid);
    assert_eq!(r.structure, vec![s("+ Mods/"), s("+ Localization/"), s("+ MyMod/meta.lsx")]);
    assert!(r.warnings.is_empty());
    let r = assess_mod_structure(true, true, false, &Vec::new());
    assert!(!r.valid);
    assert_eq!(r.warnings, vec![s("No meta.lsx found - mod may not load properly")]);
    let r = assess_mod_structure(false, false, false, &Vec::new());
    assert!(!r.valid);
    assert_eq!(
        r.warnings,
        vec![
            s("No meta.lsx found - mod may not load properly"),
            s("No standard mod directories found (Mods/, Public/, Localization/)")
        ]
    );
}

#[test]
fn operation_starts() {
    let mut st = PakOpsState::new();
    st.begin_extract("A.pak");
    assert_eq!(st.results_log, vec![s("Extracting A.pak...")]);
    assert!(st.is_extracting && st.show_progress);
    assert_eq!(st.progress_message, "Reading A.pak...");
    st.begin_list("B.pak");
    assert_eq!(st.results_log[1], "Listing contents of B.pak...");
    assert!(st.is_listing);
    st.compression = PakCompression::Zlib;
    st.priority = -5;
    st.request_create(s("/src/MyMod"), s("/out/MyMod.pak"));
    assert!(st.show_create_options);
    st.begin_create("/src/MyMod", "/out/MyMod.pak");
    assert_eq!(st.results_log[2], "Creating PAK from MyMod...");
    assert_eq!(st.results_log[3], "Compression: zlib, Priority: -5");
    assert_eq!(st.progress_message, "Creating MyMod.pak (this may take a while)...");
    assert_eq!(st.pending_create, None);
    st.begin_validate("MyMod");
    assert_eq!(st.results_log[4], "Validating mod structure: MyMod");
    assert!(st.is_validating);
    st.begin_batch(BatchKind::Create, 4);
    assert_eq!(st.progress_message, "Batch creating 4 PAK files...");
    st.begin_batch(BatchKind::Extract, 2);
    assert_eq!(st.progress_message, "Batch extracting 2 PAK files...");
    st.remember_parent_dir("/work/a.pak");
    assert_eq!(st.working_dir, Some(s("/work")));
    st.extract_individual_files();
    assert_eq!(st.results_log.len(), 5);
    assert_eq!(st.results_log[0], "📄 Extract Individual Files");
    assert_eq!(st.results_log[4], RULE);
}

#[test]
fn names_and_suggestions() {
    assert_eq!(display_name_of("/a/b/Mod.pak"), "Mod.pak");
    assert_eq!(display_name_of("/"), "");
    assert_eq!(suggested_pak_name("/mods/Cool", ".pak"), "Cool.pak");
    assert_eq!(suggested_pak_name("/", "_rebuilt.pak"), "output_rebuilt.pak");
    assert!(is_pak_path("/x/A.PAK"));
    assert!(is_pak_path("b.Pak"));
    assert!(!is_pak_path("c.pak.txt"));
    assert!(!is_pak_path("pak"));
}

#[test]
fn batch_paths_and_tally() {
    assert_eq!(batch_display("/src", "/src/sub/a.pak"), "sub/a.pak");
    assert_eq!(batch_display("/src", "/other/a.pak"), "/other/a.pak");
    assert_eq!(batch_extract_destination("/src", "/src/sub/a.pak", "/dest"), "/dest/sub/a");
    assert_eq!(batch_extract_destination("/src", "/src/a.pak", "/dest"), "/dest/a");
    let (dir, pak) = batch_create_destination("/src", "/src/x/Folder", "/dest");
    assert_eq!(dir, "/dest/x");
    assert_eq!(pak, "/dest/x/Folder.pak");
    assert_eq!(batch_found_message(BatchKind::Extract, 0), "No .pak files found in the selected folder");
    assert_eq!(batch_found_message(BatchKind::Extract, 3), "Found 3 PAK files to extract");
    assert_eq!(batch_found_message(BatchKind::Create, 0), "No packable folders found (folders must contain files)");
    assert_eq!(batch_found_message(BatchKind::Create, 2), "Found 2 folders to pack");
    let mut t = BatchTally::new();
    t.record(BatchKind::Extract, BatchItemOutcome::Done { display: s("a.pak") });
    t.record(BatchKind::Create, BatchItemOutcome::Done { display: s("x/F") });
    t.record(BatchKind::Extract, BatchItemOutcome::FolderFailed { display: s("b.pak"), error: s("denied") });
    t.record(BatchKind::Create, BatchItemOutcome::FolderFailed { display: s("y"), error: s("denied") });
    t.record(BatchKind::Create, BatchItemOutcome::Failed { display: s("z"), error: s("bad") });
    assert_eq!(t.success_count, 2);
    assert_eq!(t.fail_count, 3);
    assert_eq!(
        t.results,
        vec![
            s("Extracted: a.pak"),
            s("Created: x/F.pak"),
            s("Failed to create folder for b.pak: denied"),
            s("Failed to create dir for y: denied"),
            s("Failed z: bad")
        ]
    );
}

#[test]
fn listed_files_filter_and_count() {
    let files = vec![s("Public/A.lsx"), s("Mods/meta.lsx"), s("public/b.dds")];
    assert_eq!(filter_listed(&files, ""), files);
    assert_eq!(filter_listed(&files, "PUBLIC"), vec![s("Public/A.lsx"), s("public/b.dds")]);
    assert!(filter_listed(&files, "zzz").is_empty());
    assert_eq!(listed_count_label(3, 3), "3 files");
    assert_eq!(listed_count_label(2, 3), "2 of 3 files");
}

#[test]
fn progress_overlay_view() {
    let v = progress_view(40, "Reading Mod.pak...");
    assert!(v.indeterminate);
    assert_eq!(v.title, "Reading Mod.pak...");
    assert_eq!(v.percent_label, "...");
    let v = progress_view(40, "Extracting file 3/9");
    assert!(!v.indeterminate);
    assert_eq!(v.bar_percent, 40);
    assert_eq!(v.percent_label, "40%");
    let v = progress_view(120, "Reading done");
    assert!(!v.indeterminate);
    assert_eq!(v.title, "Finishing...");
    assert_eq!(v.bar_percent, 100);
    assert_eq!(v.percent_label, "100%");
    assert_eq!(animation_step(0, 1), (3, 1));
    assert_eq!(animation_step(69, 1), (70, -1));
    assert_eq!(animation_step(2, -1), (0, 1));
    assert_eq!(animation_step(40, -1), (37, -1));
    assert_eq!(animation_step(i32::MAX - 3, 1), (70, -1));
    assert_eq!(animation_step(-5, 2), (1, 2));
    assert_eq!(animation_step(i32::MIN + 3, -1), (0, 1));
}

#[test]
fn status_line_tones() {
    assert!(status_line(&vec![]).is_none());
    let log = vec!["Listing...".to_string(), "\u{2705} Extracted 3 files".to_string()];
    assert_eq!(status_line(&log), Some(("\u{2705} Extracted 3 files".to_string(), MessageTone::Success)));
    let log = vec!["\u{2713} done".to_string()];
    assert_eq!(status_line(&log).unwrap().1, MessageTone::Success);
    let log = vec!["\u{274C} Failed".to_string()];
    assert_eq!(status_line(&log).unwrap().1, MessageTone::Problem);
    let log = vec!["\u{26A0} careful".to_string()];
    assert_eq!(status_line(&log).unwrap().1, MessageTone::Problem);
    let log = vec!["Found 2 PAK files".to_string()];
    assert_eq!(status_line(&log).unwrap().1, MessageTone::Plain);
}

#[test]
fn dropped_file_dialog() {
    assert_eq!(drop_title(&Some("/mods/Gustav.pak".to_string())), "Dropped: Gustav.pak");
    assert_eq!(drop_title(&None), "Dropped: PAK file");
    let mut st = PakOpsState::new();
    st.dropped_file = Some("/mods/Gustav.pak".to_string());
    st.show_drop_dialog = true;
    assert_eq!(st.answer_drop(DropAnswer::List), Some("/mods/Gustav.pak".to_string()));
    assert!(!st.show_drop_dialog);
    assert_eq!(st.dropped_file, Some("/mods/Gustav.pak".to_string()));
    st.show_drop_dialog = true;
    assert_eq!(st.answer_drop(DropAnswer::Cancel), None);
    assert_eq!(st.dropped_file, None);
    assert_eq!(st.answer_drop(DropAnswer::Extract), Some(String::new()));
}

#[test]
fn extensions_follow_the_last_dot() {
    assert!(is_pak_path("/m/Mod.PAK"));
    assert!(is_pak_path("/m/a.b.pak"));
    assert!(!is_pak_path("/m/.pak"));
    assert!(!is_pak_path("/m/pak"));
    assert_eq!(suggested_pak_name("/m/My.Mod", ".pak"), "My.Mod.pak");
}
