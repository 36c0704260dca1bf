use macpak::state::dyes::ImportedDyeEntry;
use macpak::tabs::dye_export::GeneratedDyeEntry;
use macpak::tabs::dye_files::{
    display_name, icon_file_paths_of, list_file_content, mod_file_path_of, mod_text_files_of,
    reexport_presets_content, texture_bank_content, DyeListFile, DyeModFile,
};

fn dye(name: &str, colors: &[(&str, &str)]) -> GeneratedDyeEntry {
    GeneratedDyeEntry {
        name: name.to_string(),
        name_handle: format!("h{}n", name),
        desc_handle: format!("h{}d", name),
        template_uuid: format!("{}-tpl", name),
        preset_uuid: format!("{}-preset", name),
        colors: colors.iter().map(|(n, h)| (n.to_string(), h.to_string())).collect(),
    }
}

fn node(name: &str, fvec: &str) -> String {
    format!(
        "\t\t\t\t\t\t\t\t<node id=\"Vector3Parameters\">\n\t\t\t\t\t\t\t\t\t<attribute id=\"Color\" type=\"bool\" value=\"True\" />\n\t\t\t\t\t\t\t\t\t<attribute id=\"Custom\" type=\"bool\" value=\"False\" />\n\t\t\t\t\t\t\t\t\t<attribute id=\"Enabled\" type=\"bool\" value=\"True\" />\n\t\t\t\t\t\t\t\t\t<attribute id=\"Parameter\" type=\"FixedString\" value=\"{}\" />\n\t\t\t\t\t\t\t\t\t<attribute id=\"Value\" type=\"fvec3\" value=\"{}\" />\n\t\t\t\t\t\t\t\t</node>",
        name, fvec
    )
}

fn resource(uuid: &str, name: &str, nodes: &str) -> String {
    format!(
        "\t\t\t\t<node id=\"Resource\">\n\t\t\t\t\t<attribute id=\"ID\" type=\"FixedString\" value=\"{}\" />\n\t\t\t\t\t<attribute id=\"Name\" type=\"LSString\" value=\"{}\" />\n\t\t\t\t\t<children>\n\t\t\t\t\t\t<node id=\"Presets\">\n\t\t\t\t\t\t\t<attribute id=\"MaterialResource\" type=\"FixedString\" value=\"\" />\n\t\t\t\t\t\t\t<children>\n\t\t\t\t\t\t\t\t<node id=\"ColorPreset\">\n\t\t\t\t\t\t\t\t\t<attribute id=\"ForcePresetValues\" type=\"bool\" value=\"False\" />\n\t\t\t\t\t\t\t\t\t<attribute id=\"GroupName\" type=\"FixedString\" value=\"\" />\n\t\t\t\t\t\t\t\t\t<attribute id=\"MaterialPresetResource\" type=\"FixedString\" value=\"\" />\n\t\t\t\t\t\t\t\t</node>\n\t\t\t\t\t\t\t\t<node id=\"MaterialPresets\" />\n{}\n\t\t\t\t\t\t\t</children>\n\t\t\t\t\t\t</node>\n\t\t\t\t\t</children>\n\t\t\t\t</node>",
        uuid, name, nodes
    )
}

const BANK_HEAD: &str = "<?xml version=\"1.0\" encoding=\"utf-8\"?>\n<save>\n\t<version major=\"4\" minor=\"7\" revision=\"1\" build=\"3\" lslib_meta=\"v1,bswap_guids\" />\n\t<region id=\"MaterialPresetBank\">\n\t\t<node id=\"MaterialPresetBank\">\n\t\t\t<children>\n";
const TAIL: &str = "\n\t\t\t</children>\n\t\t</node>\n\t</region>\n</save>\n";

#[test]
fn display_names_replace_underscores() {
    assert_eq!(display_name("Deep_Sea_Blue"), "Deep Sea Blue");
    assert_eq!(display_name("Plain"), "Plain");
    assert_eq!(display_name(""), "");
}

#[test]
fn localization_lists_both_lines_per_dye() {
    let dyes = vec![dye("Red_Dye", &[]), dye("Blue", &[])];
    let text = list_file_content(DyeListFile::Localization, &dyes);
    let expected = "<?xml version=\"1.0\" encoding=\"utf-8\"?>\n<contentList>\n\
\t<content contentuid=\"hRed_Dyen\" version=\"1\">Red Dye</content>\n\
\t<content contentuid=\"hRed_Dyed\" version=\"1\">A custom dye: Red Dye</content>\n\
\t<content contentuid=\"hBluen\" version=\"1\">Blue</content>\n\
\t<content contentuid=\"hBlued\" version=\"1\">A custom dye: Blue</content>\n</contentList>\n";
    assert_eq!(text, expected);
}

#[test]
fn root_template_names_the_icon_and_preset() {
    let text = list_file_content(DyeListFile::RootTemplates, &vec![dye("Red", &[])]);
    assert!(text.starts_with("<?xml version=\"1.0\" encoding=\"utf-8\"?>\n<save>\n"));
    assert!(text.contains("\t<region id=\"Templates\">\n\t\t<node id=\"Templates\">\n\t\t\t<children>\n\t\t\t\t<node id=\"GameObjects\">\n"));
    assert!(text.contains("<attribute id=\"MapKey\" type=\"FixedString\" value=\"Red-tpl\" />"));
    assert!(text.contains("<attribute id=\"Icon\" type=\"FixedString\" value=\"Red_Icon\" />"));
    assert!(text.contains("<attribute id=\"DisplayName\" type=\"TranslatedString\" handle=\"hRedn\" version=\"1\" />"));
    assert!(text.contains("<attribute id=\"ColorPreset\" type=\"guid\" value=\"Red-preset\" />\n\t\t\t\t</node>"));
    assert!(text.ends_with(TAIL));
}

#[test]
fn color_presets_skip_default_grey() {
    let d = dye("Red", &[("Cloth_Primary", "FF0000"), ("Cloth_Secondary", "#808080"), ("Metal_Tint", "#00ff00")]);
    let text = list_file_content(DyeListFile::ColorPresets, &vec![d]);
    let nodes = format!(
        "{}\n{}",
        node("Cloth_Primary", "1 0 0"),
        node("Metal_Tint", "0 1 0")
    );
    assert_eq!(text, format!("{}{}{}", BANK_HEAD, resource("Red-preset", "Red", &nodes), TAIL));
}

#[test]
fn reexport_writes_every_colour() {
    let entries = vec![
        ImportedDyeEntry {
            name: "A".to_string(),
            preset_uuid: Some("u-1".to_string()),
            colors: vec![("Cloth_Primary".to_string(), "808080".to_string())],
        },
        ImportedDyeEntry { name: "B".to_string(), preset_uuid: None, colors: vec![] },
    ];
    let text = reexport_presets_content(&entries);
    let a = resource("u-1", "A", &node("Cloth_Primary", "0.5019608 0.5019608 0.5019608"));
    let b = resource("", "B", "");
    assert_eq!(text, format!("{}{}\n{}{}", BANK_HEAD, a, b, TAIL));
}

#[test]
fn texture_bank_points_at_the_atlas() {
    let text = texture_bank_content("MyDyes", "tex-1");
    assert!(text.contains("<attribute id=\"ID\" type=\"FixedString\" value=\"tex-1\" />"));
    assert!(text.contains("<attribute id=\"Name\" type=\"LSString\" value=\"MyDyes_Icons\" />"));
    assert!(text.contains(
        "<attribute id=\"SourceFile\" type=\"LSString\" value=\"Public/MyDyes/Assets/Textures/Icons/MyDyes_Icons.dds\" />"
    ));
    assert!(text.contains("<attribute id=\"Template\" type=\"FixedString\" value=\"MyDyes_Icons\" />"));
    assert!(text.ends_with("\t\t\t\t</node>\n\t\t\t</children>\n\t\t</node>\n\t</region>\n</save>\n"));
}

#[test]
fn file_layout_of_an_export() {
    assert_eq!(mod_file_path_of(DyeModFile::Localization, "M"), "Localization/English/M.xml");
    assert_eq!(mod_file_path_of(DyeModFile::LocalizationBinary, "M"), "Localization/English/M.loca");
    assert_eq!(mod_file_path_of(DyeModFile::Meta, "M"), "Mods/M/meta.lsx");
    assert_eq!(mod_file_path_of(DyeModFile::Objects, "M"), "Public/M/Stats/Generated/Data/Object.txt");
    assert_eq!(mod_file_path_of(DyeModFile::ItemCombos, "M"), "Public/M/Stats/Generated/ItemCombos.txt");
    assert_eq!(mod_file_path_of(DyeModFile::TreasureTable, "M"), "Public/M/Stats/Generated/TreasureTable.txt");
    assert_eq!(mod_file_path_of(DyeModFile::RootTemplates, "M"), "Public/M/RootTemplates/M_Dyes.lsx");
    assert_eq!(
        mod_file_path_of(DyeModFile::ColorPresets, "M"),
        "Public/M/Content/Assets/Characters/[PAK]_DYE_Colors/_merged.lsx"
    );
    assert_eq!(mod_file_path_of(DyeModFile::TextureAtlasInfo, "M"), "Public/M/GUI/M_TextureAtlasInfo.lsx");
    assert_eq!(mod_file_path_of(DyeModFile::TextureBank, "M"), "Public/M/Content/UI/[PAK]_UI/M_TextureBank.lsx");
    assert_eq!(mod_file_path_of(DyeModFile::IconAtlas, "M"), "Public/M/Assets/Textures/Icons/M_Icons.dds");
    let icons = icon_file_paths_of(&vec![dye("Red", &[]), dye("Blue", &[])]);
    assert_eq!(
        icons,
        vec![
            "Public/Game/GUI/Assets/Tooltips/ItemIcons/Red_Icon.DDS",
            "Public/Game/GUI/Assets/ControllerUIIcons/items_png/Red_Icon.DDS",
            "Public/Game/GUI/Assets/Tooltips/ItemIcons/Blue_Icon.DDS",
            "Public/Game/GUI/Assets/ControllerUIIcons/items_png/Blue_Icon.DDS",
        ]
    );
}

#[test]
fn text_files_of_an_export() {
    let dyes = vec![dye("Red", &[("Cloth_Primary", "FF0000")])];
    let files = mod_text_files_of("M", "mod-uuid", "tex-uuid", &dyes);
    let paths: Vec<&str> = files.iter().map(|(p, _)| p.as_str()).collect();
    assert_eq!(
        paths,
        vec![
            "Localization/English/M.xml",
            "Mods/M/meta.lsx",
            "Public/M/Stats/Generated/Data/Object.txt",
            "Public/M/Stats/Generated/ItemCombos.txt",
            "Public/M/Stats/Generated/TreasureTable.txt",
            "Public/M/RootTemplates/M_Dyes.lsx",
            "Public/M/Content/Assets/Characters/[PAK]_DYE_Colors/_merged.lsx",
            "Public/M/Content/UI/[PAK]_UI/M_TextureBank.lsx",
        ]
    );
    assert!(files[1].1.contains("value=\"mod-uuid\""));
    assert_eq!(files[2].1, "new entry \"Red\"\nusing \"_Dyes\"\ndata \"RootTemplate\" \"Red-tpl\"");
    assert!(files[7].1.contains("value=\"tex-uuid\""));
}
