use macpak::state::dyes::{check_required_colors_at_default, is_default_hex, DyesState};
use macpak::text::join_texts;
use macpak::tabs::dye_export::{
    atlas_dimensions, create_dds_data, create_single_icon_dds, export_done_message, export_precheck, icon_colors,
    icons_per_row_of, parse_hex_color, stats_file_content, GeneratedDyeEntry, StatsFile,
};

/// The float layout the atlas size is meant to match.
fn float_atlas(n: usize) -> (u32, u32) {
    let icons_per_row = (n as f32).sqrt().ceil() as u32;
    let num_rows = ((n as f32) / (icons_per_row as f32)).ceil() as u32;
    (icons_per_row * 64, num_rows * 64)
}

/// The reference texture writer, with the float layout.
fn reference_dds(width: u32, height: u32, colors: &[(u8, u8, u8)]) -> Vec<u8> {
    let icons_per_row = (colors.len() as f32).sqrt().ceil() as u32;
    let mut d = Vec::new();
    d.extend_from_slice(b"DDS ");
    for v in [124u32, 0x1007, height, width, width * 4, 0, 1] {
        d.extend_from_slice(&v.to_le_bytes());
    }
    for _ in 0..11 {
        d.extend_from_slice(&0u32.to_le_bytes());
    }
    for v in [32u32, 0x41, 0, 32, 0x00FF0000, 0x0000FF00, 0x000000FF, 0xFF000000, 0x1000] {
        d.extend_from_slice(&v.to_le_bytes());
    }
    for _ in 0..4 {
        d.extend_from_slice(&0u32.to_le_bytes());
    }
    for y in 0..height {
        for x in 0..width {
            let idx = ((y / 64) * icons_per_row + x / 64) as usize;
            let (r, g, b) = if idx < colors.len() { colors[idx] } else { (128, 128, 128) };
            d.extend_from_slice(&[b, g, r, 255]);
        }
    }
    d
}

fn dye(name: &str, cloth: Option<&str>) -> GeneratedDyeEntry {
    let mut colors = vec![("Leather_Primary".to_string(), "000000".to_string())];
    if let Some(c) = cloth {
        colors.push(("Cloth_Primary".to_string(), c.to_string()));
    }
    GeneratedDyeEntry {
        name: name.to_string(),
        name_handle: "hA".to_string(),
        desc_handle: "hB".to_string(),
        template_uuid: "tpl-uuid".to_string(),
        preset_uuid: "preset-uuid".to_string(),
        colors,
    }
}

#[test]
fn dye_state_defaults_reset_and_load() {
    let mut s = DyesState::new();
    assert_eq!(s.entries.len(), 31);
    assert_eq!(s.entries[0].name, "Cloth_Primary");
    assert_eq!(s.entries[30].name, "Tertiary_Color");
    assert!(s.entries.iter().all(|e| e.hex == "808080"));
    let colors = vec![
        ("Cloth_Primary".to_string(), "FF0000".to_string()),
        ("Unknown".to_string(), "123456".to_string()),
        ("GlowColor".to_string(), "00FF00".to_string()),
        ("Cloth_Primary".to_string(), "0000FF".to_string()),
    ];
    s.load_colors(&colors, "Sky");
    assert_eq!(s.entries[0].hex, "0000FF");
    assert_eq!(s.entries[15].hex, "00FF00");
    assert_eq!(s.entries[1].hex, "808080");
    assert_eq!(s.status_message, "Loaded: Sky");
    let collected = s.collect_current_colors();
    assert_eq!(collected.len(), 31);
    assert_eq!(collected[0], ("Cloth_Primary".to_string(), "0000FF".to_string()));
    s.reset_colors_to_default();
    assert!(s.entries.iter().all(|e| e.hex == "808080"));
    assert_eq!(s.status_message, "Loaded: Sky");
}

#[test]
fn required_colors_at_default() {
    let mut s = DyesState::new();
    let all = check_required_colors_at_default(&s);
    assert_eq!(
        all,
        vec![
            "Cloth_Primary",
            "Cloth_Secondary",
            "Cloth_Tertiary",
            "Leather_Primary",
            "Leather_Secondary",
            "Leather_Tertiary",
            "Metal_Primary",
            "Metal_Secondary",
            "Metal_Tertiary",
            "Color_01",
            "Color_02",
            "Color_03",
            "Custom_1",
            "Custom_2",
        ]
    );
    for e in s.entries.iter_mut() {
        e.hex = "#ABCDEF".to_string();
    }
    s.entries[3].hex = "##808080".to_string();
    s.entries[9].hex = "808080".to_string();
    assert_eq!(check_required_colors_at_default(&s), vec!["Leather_Secondary", "Color_01"]);
    assert!(is_default_hex("#808080"));
    assert!(!is_default_hex("8080801"));
}

#[test]
fn icon_color_parsing() {
    assert_eq!(parse_hex_color("#FF8000"), (255, 128, 0));
    assert_eq!(parse_hex_color("ff8000ee"), (255, 128, 0));
    assert_eq!(parse_hex_color("12345"), (255, 0, 255));
    assert_eq!(parse_hex_color("zz00zz"), (255, 0, 255));
    assert_eq!(parse_hex_color("00zz00"), (0, 0, 0));
    assert_eq!(parse_hex_color("##0a0B0c"), (10, 11, 12));
}

#[test]
fn atlas_layout_matches_float_layout() {
    for n in 1..3000usize {
        assert_eq!(atlas_dimensions(n as u64), float_atlas(n), "n = {}", n);
        assert_eq!(icons_per_row_of(n as u64) as u32, (n as f32).sqrt().ceil() as u32);
    }
    assert_eq!(atlas_dimensions(0), (0, 0));
    assert_eq!(atlas_dimensions(5), (192, 128));
}

#[test]
fn atlas_texture_bytes() {
    let colors = vec![(255, 0, 0), (0, 255, 0), (0, 0, 255)];
    let (w, h) = atlas_dimensions(3);
    let data = create_dds_data(w, h, &colors);
    assert_eq!(data.len(), 128 + (w * h * 4) as usize);
    assert_eq!(data, reference_dds(w, h, &colors));
    assert_eq!(&data[0..4], b"DDS ");
    assert_eq!(&data[128..132], &[0, 0, 255, 255]);
    let small = create_dds_data(70, 3, &colors);
    assert_eq!(small, reference_dds(70, 3, &colors));
    let empty = create_dds_data(0, 0, &Vec::new());
    assert_eq!(empty.len(), 128);
}

#[test]
fn single_icon_is_magenta() {
    let d = create_single_icon_dds();
    assert_eq!(d.len(), 128 + 64 * 64 * 4);
    assert_eq!(&d[12..16], &64u32.to_le_bytes());
    assert_eq!(&d[20..24], &256u32.to_le_bytes());
    assert!(d[128..].chunks(4).all(|p| p == [0xFF, 0x00, 0xFF, 0xFF]));
}

#[test]
fn icon_colors_of_dyes() {
    let dyes = vec![dye("A", Some("#102030")), dye("B", None)];
    assert_eq!(icon_colors(&dyes), vec![(16, 32, 48), (255, 0, 255)]);
}

#[test]
fn stats_files() {
    let dyes = vec![dye("Dye_Red", None), dye("Dye_Blue", None)];
    assert_eq!(
        stats_file_content(StatsFile::Object, &dyes),
        "new entry \"Dye_Red\"\nusing \"_Dyes\"\ndata \"RootTemplate\" \"tpl-uuid\"\n\nnew entry \"Dye_Blue\"\nusing \"_Dyes\"\ndata \"RootTemplate\" \"tpl-uuid\""
    );
    let tt = stats_file_content(StatsFile::TreasureTable, &vec![dye("Dye_Red", None)]);
    assert_eq!(
        tt,
        "new treasuretable \"Dye_Red_TT\"\nCanMerge 1\nnew subtable \"1,1\"\nobject category \"I_Dye_Red\",1,0,0,0,0,0,0,0"
    );
    let combos = stats_file_content(StatsFile::ItemCombos, &vec![dye("Dye_Red", None)]);
    assert!(combos.starts_with("new ItemCombination \"Dye_Red\"\ndata \"Type 1\" \"Object\"\n"));
    assert!(combos.contains("data \"DyeColorPresetResource\" \"preset-uuid\"\n\nnew ItemCombinationResult \"Dye_Red_1\""));
    assert!(combos.ends_with("data \"ResultAmount 1\" \"1\""));
    assert_eq!(stats_file_content(StatsFile::Object, &Vec::new()), "");
    assert_eq!(join_texts(&vec!["a".to_string(), "b".to_string()], ", "), "a, b");
}

#[test]
fn export_messages() {
    assert_eq!(export_precheck("", 3), Some("Mod name is required".to_string()));
    assert_eq!(export_precheck("M", 0), Some("No dyes generated. Use 'Generate Dye' first.".to_string()));
    assert_eq!(export_precheck("M", 1), None);
    assert_eq!(export_done_message(1, "/out"), "Exported 1 dye to /out");
    assert_eq!(export_done_message(4, "/out"), "Exported 4 dyes to /out");
}

fn set_required(s: &mut DyesState, hex: &str) {
    for k in 0..14 {
        s.entries[k].hex = hex.to_string();
    }
}

#[test]
fn generating_dyes() {
    let mut s = DyesState::new();
    assert!(matches!(s.generate_dye(""), macpak::state::dyes::GenerateOutcome::MissingName));
    assert_eq!(s.status_message, "Error: Dye name is required");
    s.entries[0].hex = "FF0000".to_string();
    match s.generate_dye("Red") {
        macpak::state::dyes::GenerateOutcome::ColorsAtDefault(m) => assert_eq!(
            m,
            "The following required colors are still at default (#808080):\n\nCloth_Secondary, Cloth_Tertiary, Leather_Primary, Leather_Secondary, Leather_Tertiary, Metal_Primary, Metal_Secondary, Metal_Tertiary, Color_01, Color_02, Color_03, Custom_1, Custom_2\n\nPlease set these colors before generating."
        ),
        _ => panic!("expected a warning"),
    }
    assert!(s.generated_dyes.is_empty());
    set_required(&mut s, "112233");
    assert!(matches!(s.generate_dye("Blue"), macpak::state::dyes::GenerateOutcome::Generated));
    assert_eq!(s.generated_dyes.len(), 1);
    assert_eq!(s.selected_generated_index, Some(0));
    assert_eq!(s.status_message, "Generated dye 'Blue' (1 total)");
    let d = &s.generated_dyes[0];
    assert_eq!(d.name, "Blue");
    assert_eq!(d.colors.len(), 14);
    assert_eq!(d.colors[3], ("Leather_Primary".to_string(), "112233".to_string()));
    assert_eq!(d.preset_uuid.len(), 36);
    assert!(d.name_handle.starts_with('h'));
    assert_ne!(d.preset_uuid, d.template_uuid);
    s.entries[14].hex = "ABCDEF".to_string();
    let c = s.collect_colors();
    assert_eq!(c.len(), 15);
    assert_eq!(c[14], ("Accent_Color".to_string(), "ABCDEF".to_string()));
    s.entries[14].hex = "808080".to_string();
    assert_eq!(s.collect_colors().len(), 14);
}

#[test]
fn generated_dye_selection() {
    let mut s = DyesState::new();
    assert_eq!(s.generated_label(), "Select...");
    s.select_next_generated();
    assert_eq!(s.selected_generated_index, None);
    set_required(&mut s, "010101");
    s.generate_dye("A");
    set_required(&mut s, "020202");
    s.generate_dye("B");
    set_required(&mut s, "030303");
    s.generate_dye("C");
    assert_eq!(s.generated_label(), "C (3/3)");
    s.select_next_generated();
    assert_eq!(s.selected_generated_index, Some(0));
    assert_eq!(s.entries[0].hex, "010101");
    assert_eq!(s.status_message, "Loaded: A");
    s.select_previous_generated();
    assert_eq!(s.selected_generated_index, Some(2));
    assert_eq!(s.entries[0].hex, "030303");
    s.entries[5].hex = "FFFFFF".to_string();
    s.update_selected_generated();
    assert_eq!(s.status_message, "Updated 'C'");
    assert_eq!(s.generated_dyes[2].colors.len(), 31);
    assert_eq!(s.generated_dyes[2].colors[5].1, "FFFFFF");
    s.delete_selected_generated();
    assert_eq!(s.status_message, "Deleted 'C'");
    assert_eq!(s.generated_dyes.len(), 2);
    assert_eq!(s.selected_generated_index, Some(1));
    assert_eq!(s.entries[0].hex, "020202");
    s.selected_generated_index = Some(0);
    s.delete_selected_generated();
    assert_eq!(s.selected_generated_index, Some(0));
    assert_eq!(s.generated_label(), "B (1/1)");
    s.delete_selected_generated();
    assert_eq!(s.selected_generated_index, None);
    s.clear_generated();
    assert!(s.generated_dyes.is_empty());
    assert!(s.entries.iter().all(|e| e.hex == "808080"));
    assert_eq!(s.status_message, "Cleared all generated dyes");
}

#[test]
fn mod_files() {
    let meta = macpak::tabs::dye_export::meta_lsx_content("MyDyes", "1234-uuid");
    assert!(meta.starts_with("<?xml version=\"1.0\" encoding=\"UTF-8\"?>\n<save>\n"));
    assert!(meta.contains("<attribute id=\"Folder\" type=\"LSString\" value=\"MyDyes\" />"));
    assert!(meta.contains("<attribute id=\"Name\" type=\"LSString\" value=\"MyDyes\" />"));
    assert!(meta.contains("<attribute id=\"UUID\" type=\"FixedString\" value=\"1234-uuid\" />"));
    assert!(meta.ends_with("</save>\n"));
    let dirs = macpak::tabs::dye_export::mod_directories("M");
    assert_eq!(dirs.len(), 10);
    assert_eq!(dirs[1], "Mods/M");
    assert_eq!(dirs[3], "Public/M/Content/Assets/Characters/[PAK]_DYE_Colors");
    assert_eq!(dirs[9], "Public/Game/GUI/Assets/ControllerUIIcons/items_png");
}

#[test]
fn generated_dye_loads_back_its_colours() {
    let mut s = DyesState::new();
    for k in 0..14 {
        s.entries[k].hex = format!("{:02X}1020", k * 10);
    }
    s.entries[14].hex = "ABCDEF".to_string();
    s.entries[20].hex = "123456".to_string();
    let before: Vec<String> = s.entries.iter().map(|e| e.hex.clone()).collect();
    assert!(matches!(s.generate_dye("Mixed"), macpak::state::dyes::GenerateOutcome::Generated));
    // Loading it onto the pickers it came from changes nothing.
    s.load_selected_generated();
    let after: Vec<String> = s.entries.iter().map(|e| e.hex.clone()).collect();
    assert_eq!(after, before);
    // From grey pickers, it sets the required and accent colours only.
    s.reset_colors_to_default();
    s.load_selected_generated();
    for k in 0..15 {
        assert_eq!(s.entries[k].hex, before[k]);
    }
    assert_eq!(s.entries[20].hex, "808080");
}

#[test]
fn renaming_the_selected_generated_dye() {
    let mut s = DyesState::new();
    for k in 0..14 {
        s.entries[k].hex = "FF0000".to_string();
    }
    s.generate_dye("A");
    s.generate_dye("B");
    s.selected_generated_index = Some(0);
    let uuid = s.generated_dyes[0].preset_uuid.clone();
    s.rename_selected_generated("");
    assert_eq!(s.generated_dyes[0].name, "A");
    s.rename_selected_generated("Crimson");
    assert_eq!(s.generated_dyes[0].name, "Crimson");
    assert_eq!(s.generated_dyes[0].preset_uuid, uuid);
    assert_eq!(s.generated_dyes[1].name, "B");
    assert_eq!(s.status_message, "Renamed to 'Crimson'");
    s.selected_generated_index = None;
    s.rename_selected_generated("First");
    assert_eq!(s.generated_dyes[0].name, "First");
}

#[test]
fn generated_dye_colours_name_each_parameter_once() {
    let mut s = DyesState::new();
    set_required(&mut s, "445566");
    s.entries[14].hex = "ABCDEF".to_string();
    s.generate_dye("A");
    let names: Vec<&String> = s.generated_dyes[0].colors.iter().map(|p| &p.0).collect();
    for i in 0..names.len() {
        for j in (i + 1)..names.len() {
            assert_ne!(names[i], names[j]);
        }
    }
    s.update_selected_generated();
    let names: Vec<&String> = s.generated_dyes[0].colors.iter().map(|p| &p.0).collect();
    assert_eq!(names.len(), 31);
    for i in 0..names.len() {
        for j in (i + 1)..names.len() {
            assert_ne!(names[i], names[j]);
        }
    }
}

#[test]
fn stepping_generated_dyes_loads_their_colours() {
    let mut s = DyesState::new();
    set_required(&mut s, "0A0A0A");
    s.generate_dye("A");
    set_required(&mut s, "0B0B0B");
    s.entries[20].hex = "C0FFEE".to_string();
    s.generate_dye("B");
    s.select_previous_generated();
    assert_eq!(s.selected_generated_index, Some(0));
    assert_eq!(s.entries[0].hex, "0A0A0A");
    assert_eq!(s.entries[13].hex, "0A0A0A");
    // A parameter dye A does not store keeps the picker's colour.
    assert_eq!(s.entries[20].hex, "C0FFEE");
    assert_eq!(s.status_message, "Loaded: A");
    s.select_next_generated();
    assert_eq!(s.entries[0].hex, "0B0B0B");
    assert_eq!(s.status_message, "Loaded: B");
}
