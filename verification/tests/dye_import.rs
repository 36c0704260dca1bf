use macpak::state::dyes::{DyesState, ImportedDyeEntry, ReexportOutcome};
use macpak::tabs::dye_import::{merge_imported, ParsedDyeEntry};

fn parsed(name: &str, preset: Option<&str>, root: Option<&str>) -> ParsedDyeEntry {
    ParsedDyeEntry {
        name: name.to_string(),
        preset_uuid: preset.map(|s| s.to_string()),
        root_template_uuid: root.map(|s| s.to_string()),
    }
}

fn entry(name: &str, preset: Option<&str>, root: Option<&str>) -> (String, Option<String>, Option<String>) {
    (name.to_string(), preset.map(|s| s.to_string()), root.map(|s| s.to_string()))
}

#[test]
fn merge_by_name_sorted() {
    let combos = vec![
        parsed("Dye_Red", Some("p-red"), None),
        parsed("Dye_Blue", Some("p-blue"), None),
        parsed("Dye_Red", Some("p-red-2"), None),
    ];
    let objects = vec![
        parsed("Dye_Blue", None, Some("t-blue")),
        parsed("Dye_Green", None, Some("t-green")),
        parsed("Dye_Red", None, None),
        parsed("Dye_Amber", Some("p-amber"), None),
    ];
    assert_eq!(
        merge_imported(&combos, &objects),
        vec![
            entry("Dye_Amber", Some("p-amber"), None),
            entry("Dye_Blue", Some("p-blue"), Some("t-blue")),
            entry("Dye_Green", None, Some("t-green")),
            entry("Dye_Red", Some("p-red-2"), None),
        ]
    );
    assert!(merge_imported(&Vec::new(), &Vec::new()).is_empty());
    let upper = vec![parsed("b", None, None), parsed("B", None, None), parsed("a", None, None)];
    let names: Vec<String> = merge_imported(&upper, &Vec::new()).into_iter().map(|e| e.0).collect();
    assert_eq!(names, vec!["B", "a", "b"]);
}

#[test]
fn txt_import_flow() {
    let mut s = DyesState::new();
    s.finish_txt_import("ItemCombos.txt", &Vec::new(), &Vec::new());
    assert_eq!(s.status_message, "No dye entries found in ItemCombos.txt");
    let combos = vec![parsed("Zed", Some("pz"), None), parsed("Ann", Some("pa"), Some("ta"))];
    s.finish_txt_import("ItemCombos.txt", &combos, &Vec::new());
    assert_eq!(s.status_message, "Loaded 1 of 2 dyes");
    assert_eq!(s.imports.selected_import_index, Some(0));
    assert_eq!(s.imports.imported_dye_name, "Ann");
    assert_eq!(s.imports.imported_preset_uuid, "pa");
    assert_eq!(s.imports.imported_template_uuid, "ta");
    assert_eq!(s.txt_import_label(), "Ann (1/2)");
    s.step_txt_import(true);
    assert_eq!(s.imports.imported_dye_name, "Zed");
    assert_eq!(s.imports.imported_preset_uuid, "pz");
    assert_eq!(s.imports.imported_template_uuid, "");
    assert_eq!(s.status_message, "Loaded: Zed");
    s.step_txt_import(true);
    assert_eq!(s.imports.selected_import_index, Some(0));
    s.step_txt_import(false);
    assert_eq!(s.imports.selected_import_index, Some(1));
    s.clear_txt_import();
    assert!(s.imports.imported_entries.is_empty());
    assert_eq!(s.txt_import_label(), "Select...");
    assert_eq!(s.status_message, "Cleared");
}

#[test]
fn lsf_import_flow() {
    let mut s = DyesState::new();
    s.finish_lsf_import("Presets.lsf", "/m/Presets.lsf".to_string(), Vec::new());
    assert_eq!(s.status_message, "No dye presets found in Presets.lsf");
    assert_eq!(s.reexport_precheck(), Some("No LSF entries to export".to_string()));
    let entries = vec![
        ImportedDyeEntry {
            name: "Night".to_string(),
            preset_uuid: Some("p1".to_string()),
            colors: vec![("Cloth_Primary".to_string(), "000011".to_string())],
        },
        ImportedDyeEntry { name: "Day".to_string(), preset_uuid: None, colors: Vec::new() },
    ];
    s.finish_lsf_import("Presets.lsf", "/m/Presets.lsf".to_string(), entries);
    assert_eq!(s.status_message, "Loaded 1 of 2 dyes from Presets.lsf");
    assert_eq!(s.entries[0].hex, "000011");
    assert_eq!(s.imports.imported_dye_name, "Night");
    assert_eq!(s.imports.imported_preset_uuid, "p1");
    assert_eq!(s.imports.imported_lsf_path, Some("/m/Presets.lsf".to_string()));
    assert_eq!(s.lsf_import_label(), "Night (1/2)");
    assert_eq!(s.reexport_precheck(), None);
    s.imports.imported_dye_name = "Midnight".to_string();
    s.rename_lsf_entry();
    assert_eq!(s.imports.imported_lsf_entries[0].name, "Midnight");
    assert_eq!(s.status_message, "Renamed to 'Midnight'");
    s.entries[2].hex = "ABCDEF".to_string();
    s.update_lsf_entry();
    assert_eq!(s.status_message, "Updated 'Midnight'");
    assert_eq!(s.imports.imported_lsf_entries[0].colors.len(), 31);
    s.step_lsf_import(false);
    assert_eq!(s.imports.selected_lsf_index, Some(1));
    assert_eq!(s.status_message, "Loaded: Day");
    s.finish_reexport(ReexportOutcome::Written("Presets.lsf".to_string()));
    assert_eq!(s.status_message, "Re-exported 2 dyes to Presets.lsf");
    s.finish_reexport(ReexportOutcome::WriteFailed("denied".to_string()));
    assert_eq!(s.status_message, "Failed to write LSF: denied");
    s.imports.imported_lsf_path = None;
    assert_eq!(s.reexport_precheck(), Some("No import path stored - import an LSF file first".to_string()));
    s.clear_lsf_import();
    assert!(s.imports.imported_lsf_entries.is_empty());
}

#[test]
fn stepping_lsf_presets_loads_their_colours() {
    let mut s = DyesState::new();
    let entries = vec![
        ImportedDyeEntry {
            name: "Night".to_string(),
            preset_uuid: Some("p1".to_string()),
            colors: vec![
                ("Cloth_Primary".to_string(), "000011".to_string()),
                ("Metal_Tertiary".to_string(), "0000AA".to_string()),
            ],
        },
        ImportedDyeEntry {
            name: "Dawn".to_string(),
            preset_uuid: None,
            colors: vec![("Cloth_Primary".to_string(), "FFAA00".to_string())],
        },
    ];
    s.finish_lsf_import("Presets.lsf", "/m/Presets.lsf".to_string(), entries);
    assert_eq!(s.entries[0].hex, "000011");
    assert_eq!(s.entries[13].hex, "0000AA");
    s.imports.imported_template_uuid = "stale".to_string();
    s.step_lsf_import(true);
    assert_eq!(s.imports.selected_lsf_index, Some(1));
    assert_eq!(s.entries[0].hex, "FFAA00");
    // A parameter the preset does not name keeps its colour.
    assert_eq!(s.entries[13].hex, "0000AA");
    assert_eq!(s.imports.imported_dye_name, "Dawn");
    assert_eq!(s.imports.imported_preset_uuid, "");
    assert_eq!(s.imports.imported_template_uuid, "");
    assert_eq!(s.status_message, "Loaded: Dawn");
    s.step_lsf_import(true);
    assert_eq!(s.imports.selected_lsf_index, Some(0));
    assert_eq!(s.entries[0].hex, "000011");
    assert_eq!(s.imports.imported_preset_uuid, "p1");
    assert_eq!(s.status_message, "Loaded: Night");
}
