use macpak::state::gr2::{failure_count, failures_toggle_label, is_failure, shown_results};
use macpak::state::gr2::{
    batch_display, batch_output, batch_result_line, save_dialog_title, single_output, Gr2ConversionDirection,
    Gr2OutputFormat, Gr2State,
};

#[test]
fn output_extensions_and_titles() {
    assert_eq!(Gr2OutputFormat::Glb.extension(), "glb");
    assert_eq!(Gr2OutputFormat::Gltf.extension(), "gltf");
    assert_eq!(save_dialog_title(Gr2ConversionDirection::Gr2ToGltf), "Save Converted File As");
    assert_eq!(save_dialog_title(Gr2ConversionDirection::GltfToGr2), "Save GR2 File As");
}

#[test]
fn single_output_path() {
    assert_eq!(
        single_output("/m/Body.GR2", Gr2ConversionDirection::Gr2ToGltf, Gr2OutputFormat::Glb),
        "/m/Body.glb"
    );
    assert_eq!(
        single_output("/m/Body.gltf", Gr2ConversionDirection::GltfToGr2, Gr2OutputFormat::Glb),
        "/m/Body.gr2"
    );
    assert_eq!(single_output("Head.gr2", Gr2ConversionDirection::Gr2ToGltf, Gr2OutputFormat::Gltf), "Head.gltf");
}

#[test]
fn batch_output_paths() {
    let d = Gr2ConversionDirection::Gr2ToGltf;
    let f = Gr2OutputFormat::Glb;
    let out = Some("/out".to_string());
    let base = Some("/in".to_string());
    let (p, sub) = batch_output("/in/a/b/M.gr2", d, f, &out, &base);
    assert_eq!(p, "/out/a/b/M.glb");
    assert_eq!(sub, Some("/out/a/b".to_string()));
    let (p, sub) = batch_output("/elsewhere/M.gr2", d, f, &out, &base);
    assert_eq!(p, "/out/M.glb");
    assert_eq!(sub, None);
    let (p, _) = batch_output("/in/M.gr2", d, f, &out, &None);
    assert_eq!(p, "/out/M.glb");
    let (p, _) = batch_output("/in/M.gr2", d, f, &None, &base);
    assert_eq!(p, "/in/M.glb");
    assert_eq!(batch_display("/in/a/M.gr2", &base), "a/M.gr2");
    assert_eq!(batch_display("/x/M.gr2", &base), "M.gr2");
    assert_eq!(batch_display("/x/M.gr2", &None), "M.gr2");
    assert_eq!(batch_result_line("a/M.gr2", "/out/a/M.glb", &None), "Converted a/M.gr2 -> M.glb");
    assert_eq!(batch_result_line("a/M.gr2", "/out/a/M.glb", &Some("bad".to_string())), "Failed a/M.gr2: bad");
}

#[test]
fn starting_conversions() {
    let mut s = Gr2State::new();
    assert!(!s.begin_single());
    assert_eq!(s.status_message, "No input file selected");
    assert!(!s.is_converting);
    s.input_file = Some("/m/a.gr2".to_string());
    s.add_result("old");
    assert!(s.begin_single());
    assert!(s.is_converting);
    assert!(s.results_log.is_empty());
    let mut t = Gr2State::new();
    assert!(!t.begin_batch());
    assert_eq!(t.status_message, "No files to convert");
    t.batch_files = vec!["/m/a.gr2".to_string()];
    assert!(t.begin_batch());
    t.add_results_batch(vec!["x".to_string(), "y".to_string()]);
    assert_eq!(t.results_log, vec!["x".to_string(), "y".to_string()]);
    t.clear_results();
    assert!(t.results_log.is_empty());
}

#[test]
fn results_log_failures() {
    let log: Vec<String> = vec![
        "Converted: a.gr2".to_string(),
        "Error: bad header".to_string(),
        "Failed b.gr2: missing".to_string(),
        "Converted: c.gr2".to_string(),
        "Errors appear here".to_string(),
    ];
    assert!(is_failure("Error"));
    assert!(!is_failure("error: lower case"));
    assert!(!is_failure(""));
    assert_eq!(failure_count(&log), 3);
    assert_eq!(shown_results(&log, false), log);
    assert_eq!(
        shown_results(&log, true),
        vec!["Error: bad header".to_string(), "Failed b.gr2: missing".to_string(), "Errors appear here".to_string()]
    );
    assert_eq!(failures_toggle_label(true, 3), "Show All");
    assert_eq!(failures_toggle_label(false, 3), "Failures (3)");
    assert_eq!(failures_toggle_label(false, 0), "Failures");
}
