//! State of the dye lab: the colour of every dye parameter, and what is
//! read from it or written to it.
use vstd::prelude::*;
use crate::tabs::dye_export::{names_distinct, GeneratedDyeEntry};
use crate::tabs::dye_import::{is_import_listing, merge_imported, merged_map, opt_text, ImportedTxtEntry, ParsedDyeEntry};
use crate::tabs::uuid_generator::{generate_uuid, is_random_uuid, uuid_text, UuidFormat};
use crate::text::{
    decimal, join_texts, joined, lowercase, push_decimal, push_str, str_eq, to_lowercase, trim_start_char,
};

verus! {

/// One dye parameter and its colour as hex text.
pub struct DyeColorEntry {
    pub name: &'static str,
    pub hex: String,
}

impl DyeColorEntry {
    /// An entry with the given name and colour.
    pub fn new(name: &'static str, default_hex: &str) -> (e: Self)
        ensures
            e.name@ == name@,
            e.hex@ == default_hex@,
    {
        DyeColorEntry { name, hex: String::from_str(default_hex) }
    }
}

/// The dye parameters, in the order the lab keeps them: the required ones
/// (cloth, colours, custom, leather, metal), the recommended ones, and those
/// commonly used by mods.
pub open spec fn parameter_names() -> Seq<Seq<char>> {
    seq![
        "Cloth_Primary"@,
        "Cloth_Secondary"@,
        "Cloth_Tertiary"@,
        "Color_01"@,
        "Color_02"@,
        "Color_03"@,
        "Custom_1"@,
        "Custom_2"@,
        "Leather_Primary"@,
        "Leather_Secondary"@,
        "Leather_Tertiary"@,
        "Metal_Primary"@,
        "Metal_Secondary"@,
        "Metal_Tertiary"@,
        "Accent_Color"@,
        "GlowColor"@,
        "GlowColour"@,
        "AddedColor"@,
        "Highlight_Color"@,
        "BaseColor"@,
        "InnerColor"@,
        "OuterColor"@,
        "PrimaryColor"@,
        "SecondaryColor"@,
        "TetriaryColor"@,
        "Primary"@,
        "Secondary"@,
        "Tertiary"@,
        "Primary_Color"@,
        "Secondary_Color"@,
        "Tertiary_Color"@
    ]
}

/// Number of dye parameters.
pub const PARAMETER_COUNT: usize = 31;

/// The length of a name and its characters at 0, 1 and 7 (a space where
/// the name is shorter): enough to tell the parameter names apart.
spec fn name_key(s: Seq<char>) -> (nat, char, char, char) {
    (s.len(), s[0], s[1], if s.len() > 7 { s[7] } else { ' ' })
}

/// The position in `parameter_names` of the name with this key (-1 for
/// none).
spec fn position_of_key(key: (nat, char, char, char)) -> int {
    if key == (13nat, 'C', 'l', 'r') {
        0
    } else if key == (15nat, 'C', 'l', 'e') {
        1
    } else if key == (14nat, 'C', 'l', 'e') {
        2
    } else if key == (8nat, 'C', 'o', '1') {
        3
    } else if key == (8nat, 'C', 'o', '2') {
        4
    } else if key == (8nat, 'C', 'o', '3') {
        5
    } else if key == (8nat, 'C', 'u', '1') {
        6
    } else if key == (8nat, 'C', 'u', '2') {
        7
    } else if key == (15nat, 'L', 'e', '_') {
        8
    } else if key == (17nat, 'L', 'e', '_') {
        9
    } else if key == (16nat, 'L', 'e', '_') {
        10
    } else if key == (13nat, 'M', 'e', 'r') {
        11
    } else if key == (15nat, 'M', 'e', 'e') {
        12
    } else if key == (14nat, 'M', 'e', 'e') {
        13
    } else if key == (12nat, 'A', 'c', 'C') {
        14
    } else if key == (9nat, 'G', 'l', 'o') {
        15
    } else if key == (10nat, 'G', 'l', 'o') {
        16
    } else if key == (10nat, 'A', 'd', 'l') {
        17
    } else if key == (15nat, 'H', 'i', 'h') {
        18
    } else if key == (9nat, 'B', 'a', 'o') {
        19
    } else if key == (10nat, 'I', 'n', 'l') {
        20
    } else if key == (10nat, 'O', 'u', 'l') {
        21
    } else if key == (12nat, 'P', 'r', 'C') {
        22
    } else if key == (14nat, 'S', 'e', 'r') {
        23
    } else if key == (13nat, 'T', 'e', 'y') {
        24
    } else if key == (7nat, 'P', 'r', ' ') {
        25
    } else if key == (9nat, 'S', 'e', 'r') {
        26
    } else if key == (8nat, 'T', 'e', 'y') {
        27
    } else if key == (13nat, 'P', 'r', '_') {
        28
    } else if key == (15nat, 'S', 'e', 'r') {
        29
    } else if key == (14nat, 'T', 'e', 'y') {
        30
    } else {
        -1
    }
}

proof fn lemma_parameter_positions()
    ensures
        forall|k: int| 0 <= k < PARAMETER_COUNT ==> #[trigger] position_of_key(name_key(parameter_names()[k])) == k,
{
    reveal_strlit("Cloth_Primary");
    reveal_strlit("Cloth_Secondary");
    reveal_strlit("Cloth_Tertiary");
    reveal_strlit("Color_01");
    reveal_strlit("Color_02");
    reveal_strlit("Color_03");
    reveal_strlit("Custom_1");
    reveal_strlit("Custom_2");
    reveal_strlit("Leather_Primary");
    reveal_strlit("Leather_Secondary");
    reveal_strlit("Leather_Tertiary");
    reveal_strlit("Metal_Primary");
    reveal_strlit("Metal_Secondary");
    reveal_strlit("Metal_Tertiary");
    reveal_strlit("Accent_Color");
    reveal_strlit("GlowColor");
    reveal_strlit("GlowColour");
    reveal_strlit("AddedColor");
    reveal_strlit("Highlight_Color");
    reveal_strlit("BaseColor");
    reveal_strlit("InnerColor");
    reveal_strlit("OuterColor");
    reveal_strlit("PrimaryColor");
    reveal_strlit("SecondaryColor");
    reveal_strlit("TetriaryColor");
    reveal_strlit("Primary");
    reveal_strlit("Secondary");
    reveal_strlit("Tertiary");
    reveal_strlit("Primary_Color");
    reveal_strlit("Secondary_Color");
    reveal_strlit("Tertiary_Color");
    assert forall|k: int| 0 <= k < PARAMETER_COUNT implies #[trigger] position_of_key(
        name_key(parameter_names()[k]),
    ) == k by {
        if k == 0 {
            assert(position_of_key(name_key(parameter_names()[0])) == 0);
        } else if k == 1 {
            assert(position_of_key(name_key(parameter_names()[1])) == 1);
        } else if k == 2 {
            assert(position_of_key(name_key(parameter_names()[2])) == 2);
        } else if k == 3 {
            assert(position_of_key(name_key(parameter_names()[3])) == 3);
        } else if k == 4 {
            assert(position_of_key(name_key(parameter_names()[4])) == 4);
        } else if k == 5 {
            assert(position_of_key(name_key(parameter_names()[5])) == 5);
        } else if k == 6 {
            assert(position_of_key(name_key(parameter_names()[6])) == 6);
        } else if k == 7 {
            assert(position_of_key(name_key(parameter_names()[7])) == 7);
        } else if k == 8 {
            assert(position_of_key(name_key(parameter_names()[8])) == 8);
        } else if k == 9 {
            assert(position_of_key(name_key(parameter_names()[9])) == 9);
        } else if k == 10 {
            assert(position_of_key(name_key(parameter_names()[10])) == 10);
        } else if k == 11 {
            assert(position_of_key(name_key(parameter_names()[11])) == 11);
        } else if k == 12 {
            assert(position_of_key(name_key(parameter_names()[12])) == 12);
        } else if k == 13 {
            assert(position_of_key(name_key(parameter_names()[13])) == 13);
        } else if k == 14 {
            assert(position_of_key(name_key(parameter_names()[14])) == 14);
        } else if k == 15 {
            assert(position_of_key(name_key(parameter_names()[15])) == 15);
        } else if k == 16 {
            assert(position_of_key(name_key(parameter_names()[16])) == 16);
        } else if k == 17 {
            assert(position_of_key(name_key(parameter_names()[17])) == 17);
        } else if k == 18 {
            assert(position_of_key(name_key(parameter_names()[18])) == 18);
        } else if k == 19 {
            assert(position_of_key(name_key(parameter_names()[19])) == 19);
        } else if k == 20 {
            assert(position_of_key(name_key(parameter_names()[20])) == 20);
        } else if k == 21 {
            assert(position_of_key(name_key(parameter_names()[21])) == 21);
        } else if k == 22 {
            assert(position_of_key(name_key(parameter_names()[22])) == 22);
        } else if k == 23 {
            assert(position_of_key(name_key(parameter_names()[23])) == 23);
        } else if k == 24 {
            assert(position_of_key(name_key(parameter_names()[24])) == 24);
        } else if k == 25 {
            assert(position_of_key(name_key(parameter_names()[25])) == 25);
        } else if k == 26 {
            assert(position_of_key(name_key(parameter_names()[26])) == 26);
        } else if k == 27 {
            assert(position_of_key(name_key(parameter_names()[27])) == 27);
        } else if k == 28 {
            assert(position_of_key(name_key(parameter_names()[28])) == 28);
        } else if k == 29 {
            assert(position_of_key(name_key(parameter_names()[29])) == 29);
        } else if k == 30 {
            assert(position_of_key(name_key(parameter_names()[30])) == 30);
        }
    }
}

/// No two dye parameters share a name.
pub proof fn lemma_parameter_names_distinct()
    ensures
        forall|i: int, j: int|
            0 <= i < PARAMETER_COUNT && 0 <= j < PARAMETER_COUNT && i != j ==> #[trigger] parameter_names()[i]
                != #[trigger] parameter_names()[j],
{
    lemma_parameter_positions();
    assert forall|i: int, j: int| 0 <= i < PARAMETER_COUNT && 0 <= j < PARAMETER_COUNT && i != j implies #[trigger] parameter_names()[i]
        != #[trigger] parameter_names()[j] by {
        assert(position_of_key(name_key(parameter_names()[i])) == i);
        assert(position_of_key(name_key(parameter_names()[j])) == j);
    }
}

/// The colour every parameter starts with (neutral grey).
pub open spec fn default_hex() -> Seq<char> {
    "808080"@
}

/// Colours of all dye parameters, and the lab's status line.
pub struct DyesState {
    /// One entry per parameter, in the order of `parameter_names`.
    pub entries: Vec<DyeColorEntry>,
    /// The dyes generated so far, in order.
    pub generated_dyes: Vec<GeneratedDyeEntry>,
    /// The generated dye shown in the selector, if any.
    pub selected_generated_index: Option<usize>,
    /// What was imported from a mod's files.
    pub imports: DyeImports,
    pub status_message: String,
}

/// A dye preset read from a DyeColorPresets file.
pub struct ImportedDyeEntry {
    pub name: String,
    pub preset_uuid: Option<String>,
    /// The preset's colours as (parameter, hex) pairs, one per parameter.
    pub colors: Vec<(String, String)>,
}

impl ImportedDyeEntry {
    /// A preset gives each parameter at most one colour.
    pub open spec fn wf(&self) -> bool {
        names_distinct(self.colors@)
    }
}

/// Dyes imported from stat files (TXT) and from a DyeColorPresets file
/// (LSF), the selected one of each, and the fields shown for the current one.
pub struct DyeImports {
    pub imported_entries: Vec<ImportedTxtEntry>,
    pub selected_import_index: Option<usize>,
    pub imported_lsf_entries: Vec<ImportedDyeEntry>,
    pub selected_lsf_index: Option<usize>,
    /// The DyeColorPresets file the LSF entries came from.
    pub imported_lsf_path: Option<String>,
    pub imported_dye_name: String,
    pub imported_preset_uuid: String,
    pub imported_template_uuid: String,
}

impl DyesState {
    /// The entries are exactly the dye parameters, in order.
    pub open spec fn wf(&self) -> bool {
        &&& self.entries@.len() == PARAMETER_COUNT
        &&& forall|k: int| 0 <= k < PARAMETER_COUNT ==> (#[trigger] self.entries@[k]).name@ == parameter_names()[k]
        &&& forall|i: int| 0 <= i < self.generated_dyes@.len() ==> (#[trigger] self.generated_dyes@[i]).wf()
        &&& forall|i: int|
            0 <= i < self.imports.imported_lsf_entries@.len() ==> (#[trigger] self.imports.imported_lsf_entries@[i]).wf()
    }

    /// Every parameter grey, no status.
    pub fn new() -> (s: Self)
        ensures
            s.wf(),
            forall|k: int| 0 <= k < PARAMETER_COUNT ==> (#[trigger] s.entries@[k]).hex@ == default_hex(),
            s.status_message@ == Seq::<char>::empty(),
            s.generated_dyes@.len() == 0,
            s.selected_generated_index is None,
    {
        proof {
            reveal_strlit("808080");
            reveal_strlit("Cloth_Primary");
            reveal_strlit("Cloth_Secondary");
            reveal_strlit("Cloth_Tertiary");
            reveal_strlit("Color_01");
            reveal_strlit("Color_02");
            reveal_strlit("Color_03");
            reveal_strlit("Custom_1");
            reveal_strlit("Custom_2");
            reveal_strlit("Leather_Primary");
            reveal_strlit("Leather_Secondary");
            reveal_strlit("Leather_Tertiary");
            reveal_strlit("Metal_Primary");
            reveal_strlit("Metal_Secondary");
            reveal_strlit("Metal_Tertiary");
            reveal_strlit("Accent_Color");
            reveal_strlit("GlowColor");
            reveal_strlit("GlowColour");
            reveal_strlit("AddedColor");
            reveal_strlit("Highlight_Color");
            reveal_strlit("BaseColor");
            reveal_strlit("InnerColor");
            reveal_strlit("OuterColor");
            reveal_strlit("PrimaryColor");
            reveal_strlit("SecondaryColor");
            reveal_strlit("TetriaryColor");
            reveal_strlit("Primary");
            reveal_strlit("Secondary");
            reveal_strlit("Tertiary");
            reveal_strlit("Primary_Color");
            reveal_strlit("Secondary_Color");
            reveal_strlit("Tertiary_Color");
        }
        let mut entries: Vec<DyeColorEntry> = Vec::new();
        entries.push(DyeColorEntry::new("Cloth_Primary", "808080"));
        entries.push(DyeColorEntry::new("Cloth_Secondary", "808080"));
        entries.push(DyeColorEntry::new("Cloth_Tertiary", "808080"));
        entries.push(DyeColorEntry::new("Color_01", "808080"));
        entries.push(DyeColorEntry::new("Color_02", "808080"));
        entries.push(DyeColorEntry::new("Color_03", "808080"));
        entries.push(DyeColorEntry::new("Custom_1", "808080"));
        entries.push(DyeColorEntry::new("Custom_2", "808080"));
        entries.push(DyeColorEntry::new("Leather_Primary", "808080"));
        entries.push(DyeColorEntry::new("Leather_Secondary", "808080"));
        entries.push(DyeColorEntry::new("Leather_Tertiary", "808080"));
        entries.push(DyeColorEntry::new("Metal_Primary", "808080"));
        entries.push(DyeColorEntry::new("Metal_Secondary", "808080"));
        entries.push(DyeColorEntry::new("Metal_Tertiary", "808080"));
        entries.push(DyeColorEntry::new("Accent_Color", "808080"));
        entries.push(DyeColorEntry::new("GlowColor", "808080"));
        entries.push(DyeColorEntry::new("GlowColour", "808080"));
        entries.push(DyeColorEntry::new("AddedColor", "808080"));
        entries.push(DyeColorEntry::new("Highlight_Color", "808080"));
        entries.push(DyeColorEntry::new("BaseColor", "808080"));
        entries.push(DyeColorEntry::new("InnerColor", "808080"));
        entries.push(DyeColorEntry::new("OuterColor", "808080"));
        entries.push(DyeColorEntry::new("PrimaryColor", "808080"));
        entries.push(DyeColorEntry::new("SecondaryColor", "808080"));
        entries.push(DyeColorEntry::new("TetriaryColor", "808080"));
        entries.push(DyeColorEntry::new("Primary", "808080"));
        entries.push(DyeColorEntry::new("Secondary", "808080"));
        entries.push(DyeColorEntry::new("Tertiary", "808080"));
        entries.push(DyeColorEntry::new("Primary_Color", "808080"));
        entries.push(DyeColorEntry::new("Secondary_Color", "808080"));
        entries.push(DyeColorEntry::new("Tertiary_Color", "808080"));
        let imports = DyeImports {
            imported_entries: Vec::new(),
            selected_import_index: None,
            imported_lsf_entries: Vec::new(),
            selected_lsf_index: None,
            imported_lsf_path: None,
            imported_dye_name: String::new(),
            imported_preset_uuid: String::new(),
            imported_template_uuid: String::new(),
        };
        DyesState {
            entries,
            generated_dyes: Vec::new(),
            selected_generated_index: None,
            imports,
            status_message: String::new(),
        }
    }

    /// Puts every parameter back to grey.
    pub fn reset_colors_to_default(&mut self)
        requires
            old(self).wf(),
        ensures
            final(self).wf(),
            forall|k: int| 0 <= k < PARAMETER_COUNT ==> (#[trigger] final(self).entries@[k]).hex@ == default_hex(),
            final(self).status_message == old(self).status_message,
            final(self).generated_dyes@ == old(self).generated_dyes@,
            final(self).selected_generated_index == old(self).selected_generated_index,
            final(self).imports == old(self).imports,
    {
        let mut k: usize = 0;
        while k < self.entries.len()
            invariant
                self.entries@.len() == PARAMETER_COUNT,
                k <= PARAMETER_COUNT,
                forall|j: int| 0 <= j < PARAMETER_COUNT ==> (#[trigger] self.entries@[j]).name@ == parameter_names()[j],
                forall|j: int| 0 <= j < k ==> (#[trigger] self.entries@[j]).hex@ == default_hex(),
                self.status_message == old(self).status_message,
                self.generated_dyes@ == old(self).generated_dyes@,
                self.selected_generated_index == old(self).selected_generated_index,
                self.imports == old(self).imports,
            decreases PARAMETER_COUNT - k,
        {
            let name = self.entries[k].name;
            self.entries.set(k, DyeColorEntry::new(name, "808080"));
            proof {
                reveal_strlit("808080");
            }
            k += 1;
        }
    }

    /// The colours of all parameters as (name, hex) pairs, in order.
    pub fn collect_current_colors(&self) -> (colors: Vec<(String, String)>)
        requires
            self.wf(),
        ensures
            colors@.len() == PARAMETER_COUNT,
            forall|k: int| 0 <= k < PARAMETER_COUNT ==> (#[trigger] colors@[k]).0@ == parameter_names()[k]
                && colors@[k].1@ == self.entries@[k].hex@,
    {
        let mut colors: Vec<(String, String)> = Vec::new();
        let mut k: usize = 0;
        while k < self.entries.len()
            invariant
                self.wf(),
                k <= PARAMETER_COUNT,
                colors@.len() == k,
                forall|j: int| 0 <= j < k ==> (#[trigger] colors@[j]).0@ == parameter_names()[j]
                    && colors@[j].1@ == self.entries@[j].hex@,
            decreases PARAMETER_COUNT - k,
        {
            colors.push((String::from_str(self.entries[k].name), self.entries[k].hex.clone()));
            k += 1;
        }
        colors
    }

    /// Loads the colours of a dye into the parameters: each listed
    /// parameter takes the colour listed last for it; unknown names are
    /// ignored; the status names the dye.
    pub fn load_colors(&mut self, colors: &Vec<(String, String)>, dye_name: &str)
        requires
            old(self).wf(),
        ensures
            final(self).wf(),
            forall|k: int| 0 <= k < PARAMETER_COUNT ==> (#[trigger] final(self).entries@[k]).hex@ == match last_value_for(
                colors@,
                parameter_names()[k],
            ) {
                Some(h) => h,
                None => old(self).entries@[k].hex@,
            },
            final(self).status_message@ == "Loaded: "@ + dye_name@,
            final(self).generated_dyes@ == old(self).generated_dyes@,
            final(self).selected_generated_index == old(self).selected_generated_index,
            final(self).imports == old(self).imports,
    {
        let mut i: usize = 0;
        while i < colors.len()
            invariant
                i <= colors.len(),
                self.entries@.len() == PARAMETER_COUNT,
                self.generated_dyes@ == old(self).generated_dyes@,
                self.selected_generated_index == old(self).selected_generated_index,
                self.imports == old(self).imports,
                forall|j: int| 0 <= j < PARAMETER_COUNT ==> (#[trigger] self.entries@[j]).name@ == parameter_names()[j],
                forall|j: int| 0 <= j < PARAMETER_COUNT ==> (#[trigger] self.entries@[j]).hex@ == match last_value_for(
                    colors@.take(i as int),
                    parameter_names()[j],
                ) {
                    Some(h) => h,
                    None => old(self).entries@[j].hex@,
                },
            decreases colors.len() - i,
        {
            let ghost prev = self.entries@;
            let mut k: usize = 0;
            while k < self.entries.len()
                invariant
                    i < colors.len(),
                    k <= PARAMETER_COUNT,
                    self.generated_dyes@ == old(self).generated_dyes@,
                    self.selected_generated_index == old(self).selected_generated_index,
                    self.imports == old(self).imports,
                    self.entries@.len() == PARAMETER_COUNT,
                    forall|j: int| 0 <= j < PARAMETER_COUNT ==> (#[trigger] self.entries@[j]).name@ == parameter_names()[j],
                    forall|j: int| 0 <= j < PARAMETER_COUNT ==> (#[trigger] prev[j]).name@ == parameter_names()[j],
                    prev.len() == PARAMETER_COUNT,
                    forall|j: int| 0 <= j < k ==> (#[trigger] self.entries@[j]).hex@ == (if parameter_names()[j] == colors@[i as int].0@ {
                        colors@[i as int].1@
                    } else {
                        prev[j].hex@
                    }),
                    forall|j: int| k <= j < PARAMETER_COUNT ==> (#[trigger] self.entries@[j]).hex@ == prev[j].hex@,
                decreases PARAMETER_COUNT - k,
            {
                if str_eq(self.entries[k].name, colors[i].0.as_str()) {
                    let name = self.entries[k].name;
                    let e = DyeColorEntry { name, hex: colors[i].1.clone() };
                    self.entries.set(k, e);
                }
                k += 1;
            }
            proof {
                assert(colors@.take(i + 1).drop_last() =~= colors@.take(i as int));
                assert(colors@.take(i + 1).last() == colors@[i as int]);
            }
            i += 1;
        }
        assert(colors@.take(colors.len() as int) =~= colors@);
        let mut m = String::from_str("Loaded: ");
        push_str(&mut m, dye_name);
        proof {
            reveal_strlit("Loaded: ");
        }
        self.status_message = m;
    }
}

/// The value listed last for `name` among (name, value) pairs.
pub open spec fn last_value_for(pairs: Seq<(String, String)>, name: Seq<char>) -> Option<Seq<char>>
    decreases pairs.len(),
{
    if pairs.len() == 0 {
        None
    } else if pairs.last().0@ == name {
        Some(pairs.last().1@)
    } else {
        last_value_for(pairs.drop_last(), name)
    }
}

/// The pickers `after` hold the colours of a dye loaded over the pickers
/// `before`: each parameter takes the colour listed last for it, and keeps
/// its colour where none is listed.
pub open spec fn colors_loaded(
    after: Seq<DyeColorEntry>,
    before: Seq<DyeColorEntry>,
    colors: Seq<(String, String)>,
) -> bool {
    forall|k: int|
        0 <= k < PARAMETER_COUNT ==> (#[trigger] after[k]).hex@ == match last_value_for(colors, parameter_names()[k]) {
            Some(h) => h,
            None => before[k].hex@,
        }
}

/// A colour counts as untouched when, without its leading '#'s and in lower
/// case, it is the grey default.
pub open spec fn is_default_color(hex: Seq<char>) -> bool {
    lowercase(trim_start_char(hex, '#')) == default_hex()
}

/// Positions (in `parameter_names`) of the required parameters, in the order
/// they are reported: cloth, leather, metal, colours, custom.
pub open spec fn required_positions() -> Seq<int> {
    seq![0, 1, 2, 8, 9, 10, 11, 12, 13, 3, 4, 5, 6, 7]
}

/// The names of the required parameters still at the default colour, in
/// report order.
pub open spec fn required_at_default(entries: Seq<DyeColorEntry>) -> Seq<Seq<char>> {
    required_positions().filter(|k: int| is_default_color(entries[k].hex@)).map_values(|k: int| parameter_names()[k])
}

/// Whether a colour is untouched (see `is_default_color`).
pub fn is_default_hex(hex: &str) -> (b: bool)
    ensures
        b == is_default_color(hex@),
{
    let v = crate::text::chars_of(hex);
    let lo = crate::text::skip_leading(&v, '#');
    let mut t = String::new();
    let mut i: usize = lo;
    while i < v.len()
        invariant
            lo <= i <= v.len(),
            t@ == v@.subrange(lo as int, i as int),
        decreases v.len() - i,
    {
        crate::text::push_char(&mut t, v[i]);
        i += 1;
        assert(t@ =~= v@.subrange(lo as int, i as int));
    }
    let lower = to_lowercase(t.as_str());
    proof {
        reveal_strlit("808080");
    }
    str_eq(lower.as_str(), "808080")
}

/// The required dye parameters whose colour is still the default, by name,
/// in report order (cloth, leather, metal, colours, custom).
pub fn check_required_colors_at_default(state: &DyesState) -> (names: Vec<&'static str>)
    requires
        state.wf(),
    ensures
        names@.map_values(|n: &'static str| n@) == required_at_default(state.entries@),
{
    let order: [usize; 14] = [0, 1, 2, 8, 9, 10, 11, 12, 13, 3, 4, 5, 6, 7];
    let ghost pos = required_positions();
    let ghost keep = |k: int| is_default_color(state.entries@[k].hex@);
    let mut names: Vec<&'static str> = Vec::new();
    let mut i: usize = 0;
    assert(pos.subrange(0, 0).filter(keep) =~= Seq::<int>::empty());
    while i < 14
        invariant
            i <= 14,
            state.wf(),
            pos == required_positions(),
            keep == (|k: int| is_default_color(state.entries@[k].hex@)),
            forall|j: int| 0 <= j < 14 ==> order@[j] as int == #[trigger] pos[j],
            names@.map_values(|n: &'static str| n@) == pos.subrange(0, i as int).filter(keep).map_values(
                |k: int| parameter_names()[k],
            ),
        decreases 14 - i,
    {
        let k = order[i];
        assert(k as int == pos[i as int]);
        let d = is_default_hex(state.entries[k].hex.as_str());
        proof {
            let t = pos.subrange(0, i + 1);
            assert(t.drop_last() =~= pos.subrange(0, i as int));
            reveal(Seq::filter);
            assert(t.last() == pos[i as int]);
        }
        if d {
            let ghost before = names@;
            names.push(state.entries[k].name);
            proof {
                assert(names@.map_values(|n: &'static str| n@) =~= before.map_values(|n: &'static str| n@).push(
                    state.entries@[k as int].name@,
                ));
                assert(pos.subrange(0, i + 1).filter(keep) =~= pos.subrange(0, i as int).filter(keep).push(k as int));
                assert(pos.subrange(0, i + 1).filter(keep).map_values(|k: int| parameter_names()[k])
                    =~= pos.subrange(0, i as int).filter(keep).map_values(|k: int| parameter_names()[k]).push(
                    parameter_names()[k as int],
                ));
            }
        }
        i += 1;
    }
    assert(pos.subrange(0, 14) =~= pos);
    names
}

/// The characters of (name, value) pairs.
pub open spec fn pair_views(v: Seq<(String, String)>) -> Seq<(Seq<char>, Seq<char>)> {
    v.map_values(|p: (String, String)| (p.0@, p.1@))
}

/// The colours stored with a generated dye: the required parameters (in
/// report order), and the accent colour when it is not the grey default (in
/// any case).
pub open spec fn collected_colors(entries: Seq<DyeColorEntry>) -> Seq<(Seq<char>, Seq<char>)> {
    required_positions().map_values(|k: int| (parameter_names()[k], entries[k].hex@)) + (if lowercase(entries[14].hex@)
        != default_hex() {
        seq![(parameter_names()[14], entries[14].hex@)]
    } else {
        Seq::<(Seq<char>, Seq<char>)>::empty()
    })
}

/// Among pairs whose names all differ, the value listed for a name is the
/// one beside it, and a name that is not listed has none.
proof fn lemma_last_value_distinct(pairs: Seq<(String, String)>, name: Seq<char>)
    requires
        forall|a: int, b: int| 0 <= a < b < pairs.len() ==> (#[trigger] pairs[a]).0@ != (#[trigger] pairs[b]).0@,
    ensures
        forall|j: int| 0 <= j < pairs.len() && (#[trigger] pairs[j]).0@ == name ==> last_value_for(pairs, name) == Some(
            pairs[j].1@,
        ),
        (forall|j: int| 0 <= j < pairs.len() ==> (#[trigger] pairs[j]).0@ != name) ==> last_value_for(pairs, name) is None,
    decreases pairs.len(),
{
    if pairs.len() > 0 {
        let rest = pairs.drop_last();
        assert forall|a: int, b: int| 0 <= a < b < rest.len() implies (#[trigger] rest[a]).0@ != (#[trigger] rest[b]).0@ by {
            assert(rest[a] == pairs[a] && rest[b] == pairs[b]);
        }
        lemma_last_value_distinct(rest, name);
        assert forall|j: int| 0 <= j < pairs.len() && (#[trigger] pairs[j]).0@ == name implies last_value_for(pairs, name)
            == Some(pairs[j].1@) by {
            if j < pairs.len() - 1 {
                assert(rest[j] == pairs[j]);
                assert(pairs.last() == pairs[pairs.len() - 1]);
            }
        }
        if forall|j: int| 0 <= j < pairs.len() ==> (#[trigger] pairs[j]).0@ != name {
            assert forall|j: int| 0 <= j < rest.len() implies (#[trigger] rest[j]).0@ != name by {
                assert(rest[j] == pairs[j]);
            }
            assert(pairs.last() == pairs[pairs.len() - 1]);
        }
    }
}

/// The position of the `j`-th required parameter in `parameter_names`.
spec fn required_position(j: int) -> int {
    if j < 3 {
        j
    } else if j < 9 {
        j + 5
    } else {
        j - 6
    }
}

proof fn lemma_required_positions()
    ensures
        forall|j: int| 0 <= j < 14 ==> #[trigger] required_positions()[j] == required_position(j),
{
    assert forall|j: int| 0 <= j < 14 implies #[trigger] required_positions()[j] == required_position(j) by {
        if j == 0 {
        } else if j == 1 {
        } else if j == 2 {
        } else if j == 3 {
        } else if j == 4 {
        } else if j == 5 {
        } else if j == 6 {
        } else if j == 7 {
        } else if j == 8 {
        } else if j == 9 {
        } else if j == 10 {
        } else if j == 11 {
        } else if j == 12 {
        } else {
        }
    }
}

/// A generated dye loaded back gives each parameter it stores the colour
/// it had when the dye was made: its colours name every required parameter,
/// and the accent colour when that was not grey, once each, and name no
/// other parameter; so loaded onto the pickers it was made from it changes
/// none of them.
pub proof fn lemma_generated_colors_load_back(entries: Seq<DyeColorEntry>, colors: Seq<(String, String)>)
    requires
        entries.len() == PARAMETER_COUNT,
        pair_views(colors) == collected_colors(entries),
    ensures
        names_distinct(colors),
        forall|k: int|
            0 <= k < PARAMETER_COUNT ==> #[trigger] last_value_for(colors, parameter_names()[k]) == if k < 14 || (k == 14
                && lowercase(entries[14].hex@) != default_hex()) {
                Some(entries[k].hex@)
            } else {
                None
            },
        forall|k: int|
            0 <= k < PARAMETER_COUNT ==> match #[trigger] last_value_for(colors, parameter_names()[k]) {
                Some(h) => h,
                None => entries[k].hex@,
            } == entries[k].hex@,
{
    lemma_parameter_names_distinct();
    lemma_required_positions();
    let accent = lowercase(entries[14].hex@) != default_hex();
    let n: int = if accent { 15 } else { 14 };
    let c = collected_colors(entries);
    assert(pair_views(colors).len() == colors.len());
    assert(c.len() == n);
    assert forall|j: int| 0 <= j < n implies {
        let p = if j < 14 { required_position(j) } else { 14 };
        &&& (#[trigger] colors[j]).0@ == parameter_names()[p]
        &&& colors[j].1@ == entries[p].hex@
    } by {
        assert(pair_views(colors)[j] == c[j]);
        if j < 14 {
            assert(c[j] == required_positions().map_values(
                |k: int| (parameter_names()[k], entries[k].hex@),
            )[j]);
        }
    }
    assert forall|a: int, b: int| 0 <= a < b < colors.len() implies (#[trigger] colors[a]).0@ != (
    #[trigger] colors[b]).0@ by {
        let pa = if a < 14 { required_position(a) } else { 14 };
        let pb = if b < 14 { required_position(b) } else { 14 };
        assert(parameter_names()[pa] != parameter_names()[pb]);
    }
    assert forall|k: int| 0 <= k < PARAMETER_COUNT implies #[trigger] last_value_for(colors, parameter_names()[k]) == if k
        < 14 || (k == 14 && accent) {
        Some(entries[k].hex@)
    } else {
        None
    } by {
        lemma_last_value_distinct(colors, parameter_names()[k]);
        if k < 14 {
            let j = if k < 3 {
                k
            } else if k < 8 {
                k + 6
            } else {
                k - 5
            };
            assert(colors[j].0@ == parameter_names()[k]);
        } else if k == 14 && accent {
            assert(colors[14].0@ == parameter_names()[14]);
        } else {
            assert forall|j: int| 0 <= j < colors.len() implies (#[trigger] colors[j]).0@ != parameter_names()[k] by {
                let p = if j < 14 { required_position(j) } else { 14 };
                assert(parameter_names()[p] != parameter_names()[k]);
            }
        }
    }
}

/// The message listing the required colours still at the default.
pub open spec fn defaults_warning(names: Seq<Seq<char>>) -> Seq<char> {
    "The following required colors are still at default (#808080):\n\n"@ + joined(names, ", "@)
        + "\n\nPlease set these colors before generating."@
}

/// What "Generate Dye" did.
pub enum GenerateOutcome {
    /// Nothing: no dye name was given.
    MissingName,
    /// Nothing: required colours are still grey; the warning to show.
    ColorsAtDefault(String),
    /// A dye was added and selected.
    Generated,
}

/// A copy of (name, value) pairs.
fn copy_pairs(v: &Vec<(String, String)>) -> (r: Vec<(String, String)>)
    ensures
        r@ == v@,
{
    let mut r: Vec<(String, String)> = Vec::new();
    let mut i: usize = 0;
    while i < v.len()
        invariant
            i <= v.len(),
            r@ == v@.take(i as int),
        decreases v.len() - i,
    {
        r.push((v[i].0.clone(), v[i].1.clone()));
        i += 1;
        assert(r@ =~= v@.take(i as int));
    }
    assert(v@.take(v.len() as int) =~= v@);
    r
}

impl DyesState {
    /// The colours a generated dye keeps (see `collected_colors`).
    pub fn collect_colors(&self) -> (colors: Vec<(String, String)>)
        requires
            self.wf(),
        ensures
            pair_views(colors@) == collected_colors(self.entries@),
    {
        let order: [usize; 14] = [0, 1, 2, 8, 9, 10, 11, 12, 13, 3, 4, 5, 6, 7];
        let ghost pos = required_positions();
        let mut colors: Vec<(String, String)> = Vec::new();
        let mut i: usize = 0;
        while i < 14
            invariant
                i <= 14,
                self.wf(),
                pos == required_positions(),
                forall|j: int| 0 <= j < 14 ==> order@[j] as int == #[trigger] pos[j],
                pair_views(colors@) == pos.take(i as int).map_values(
                    |k: int| (parameter_names()[k], self.entries@[k].hex@),
                ),
            decreases 14 - i,
        {
            let k = order[i];
            let ghost before = colors@;
            colors.push((String::from_str(self.entries[k].name), self.entries[k].hex.clone()));
            proof {
                assert(pos[i as int] == k as int);
                assert(pair_views(colors@) =~= pair_views(before).push((parameter_names()[k as int], self.entries@[k as int].hex@)));
                assert(pos.take(i + 1).map_values(|k: int| (parameter_names()[k], self.entries@[k].hex@))
                    =~= pos.take(i as int).map_values(|k: int| (parameter_names()[k], self.entries@[k].hex@)).push(
                    (parameter_names()[k as int], self.entries@[k as int].hex@),
                ));
            }
            i += 1;
        }
        assert(pos.take(14) =~= pos);
        let ghost base = pair_views(colors@);
        let accent = to_lowercase(self.entries[14].hex.as_str());
        proof {
            reveal_strlit("808080");
        }
        if !str_eq(accent.as_str(), "808080") {
            colors.push((String::from_str(self.entries[14].name), self.entries[14].hex.clone()));
            assert(pair_views(colors@) =~= base.push((parameter_names()[14], self.entries@[14].hex@)));
        }
        assert(pair_views(colors@) =~= collected_colors(self.entries@));
        colors
    }

    /// "Generate Dye" for the name typed: refused without a name or while
    /// required colours are grey; otherwise a dye with fresh identifiers and
    /// the collected colours is added and selected, and the status says so.
    pub fn generate_dye(&mut self, name: &str) -> (outcome: GenerateOutcome)
        requires
            old(self).wf(),
            old(self).generated_dyes@.len() < usize::MAX,
        ensures
            final(self).wf(),
            final(self).entries@ == old(self).entries@,
            name@.len() == 0 ==> outcome is MissingName && final(self).status_message@
                == "Error: Dye name is required"@ && final(self).generated_dyes@ == old(self).generated_dyes@,
            name@.len() > 0 && required_at_default(old(self).entries@).len() > 0 ==> (outcome matches GenerateOutcome::ColorsAtDefault(m)
                && m@ == defaults_warning(required_at_default(old(self).entries@)))
                && final(self).status_message == old(self).status_message && final(self).generated_dyes@
                == old(self).generated_dyes@,
            name@.len() > 0 && required_at_default(old(self).entries@).len() == 0 ==> {
                let n = old(self).generated_dyes@.len();
                let d = final(self).generated_dyes@[n as int];
                &&& outcome is Generated
                &&& final(self).generated_dyes@.len() == n + 1
                &&& final(self).generated_dyes@.take(n as int) == old(self).generated_dyes@
                &&& d.name@ == name@
                &&& pair_views(d.colors@) == collected_colors(old(self).entries@)
                &&& (exists|b: Seq<u8>| is_random_uuid(b) && d.preset_uuid@ == uuid_text(b, UuidFormat::Standard))
                &&& (exists|b: Seq<u8>| is_random_uuid(b) && d.template_uuid@ == uuid_text(b, UuidFormat::Standard))
                &&& (exists|b: Seq<u8>| is_random_uuid(b) && d.name_handle@ == uuid_text(b, UuidFormat::Larian))
                &&& (exists|b: Seq<u8>| is_random_uuid(b) && d.desc_handle@ == uuid_text(b, UuidFormat::Larian))
                &&& final(self).selected_generated_index == Some(n as usize)
                &&& final(self).status_message@ == "Generated dye '"@ + name@ + "' ("@ + decimal(n + 1) + " total)"@
            },
    {
        if name.is_empty() {
            self.status_message = String::from_str("Error: Dye name is required");
            return GenerateOutcome::MissingName;
        }
        let defaults = check_required_colors_at_default(self);
        if defaults.len() > 0 {
            let mut names: Vec<String> = Vec::new();
            let mut i: usize = 0;
            while i < defaults.len()
                invariant
                    i <= defaults.len(),
                    names@.map_values(|n: String| n@) == defaults@.take(i as int).map_values(|n: &'static str| n@),
                decreases defaults.len() - i,
            {
                let ghost before = names@;
                names.push(String::from_str(defaults[i]));
                proof {
                    assert(names@.map_values(|n: String| n@) =~= before.map_values(|n: String| n@).push(defaults@[i as int]@));
                    assert(defaults@.take(i + 1).map_values(|n: &'static str| n@) =~= defaults@.take(i as int).map_values(
                        |n: &'static str| n@,
                    ).push(defaults@[i as int]@));
                }
                i += 1;
            }
            assert(defaults@.take(defaults.len() as int) =~= defaults@);
            let mut m = String::from_str("The following required colors are still at default (#808080):\n\n");
            let list = join_texts(&names, ", ");
            push_str(&mut m, list.as_str());
            push_str(&mut m, "\n\nPlease set these colors before generating.");
            proof {
                reveal_strlit(", ");
            }
            return GenerateOutcome::ColorsAtDefault(m);
        }
        let preset_uuid = generate_uuid(UuidFormat::Standard);
        let template_uuid = generate_uuid(UuidFormat::Standard);
        let name_handle = generate_uuid(UuidFormat::Larian);
        let desc_handle = generate_uuid(UuidFormat::Larian);
        let colors = self.collect_colors();
        proof {
            lemma_generated_colors_load_back(self.entries@, colors@);
        }
        let entry = GeneratedDyeEntry {
            name: String::from_str(name),
            name_handle,
            desc_handle,
            template_uuid,
            preset_uuid,
            colors,
        };
        self.generated_dyes.push(entry);
        let count = self.generated_dyes.len();
        self.selected_generated_index = Some(count - 1);
        let mut m = String::from_str("Generated dye '");
        push_str(&mut m, name);
        push_str(&mut m, "' (");
        push_decimal(&mut m, count as u128);
        push_str(&mut m, " total)");
        proof {
            reveal_strlit("Generated dye '");
            reveal_strlit("' (");
            reveal_strlit(" total)");
            assert(self.generated_dyes@.take(old(self).generated_dyes@.len() as int) =~= old(self).generated_dyes@);
        }
        self.status_message = m;
        GenerateOutcome::Generated
    }

    /// Loads the colours of the selected generated dye into the parameters
    /// (see `load_colors`); nothing happens without a valid selection.
    pub fn load_selected_generated(&mut self)
        requires
            old(self).wf(),
        ensures
            final(self).wf(),
            final(self).generated_dyes@ == old(self).generated_dyes@,
            final(self).selected_generated_index == old(self).selected_generated_index,
            match old(self).selected_generated_index {
                Some(i) => if i < old(self).generated_dyes@.len() {
                    let d = old(self).generated_dyes@[i as int];
                    &&& forall|k: int| 0 <= k < PARAMETER_COUNT ==> (#[trigger] final(self).entries@[k]).hex@ == match last_value_for(
                        d.colors@,
                        parameter_names()[k],
                    ) {
                        Some(h) => h,
                        None => old(self).entries@[k].hex@,
                    }
                    &&& final(self).status_message@ == "Loaded: "@ + d.name@
                } else {
                    final(self).entries@ == old(self).entries@ && final(self).status_message == old(self).status_message
                },
                None => final(self).entries@ == old(self).entries@ && final(self).status_message == old(self).status_message,
            },
    {
        match self.selected_generated_index {
            Some(i) => {
                if i < self.generated_dyes.len() {
                    let colors = copy_pairs(&self.generated_dyes[i].colors);
                    let name = self.generated_dyes[i].name.clone();
                    self.load_colors(&colors, name.as_str());
                }
            },
            None => {},
        }
    }
}

impl DyesState {
    /// The selection points at a generated dye, or there is none.
    pub open spec fn selection_ok(&self) -> bool {
        match self.selected_generated_index {
            Some(i) => i < self.generated_dyes@.len(),
            None => true,
        }
    }

    /// The generated dye after the selected one (after the last, the
    /// first) becomes selected and its colours are loaded; nothing happens
    /// without generated dyes.
    pub fn select_next_generated(&mut self)
        requires
            old(self).wf(),
            old(self).selection_ok(),
        ensures
            final(self).wf(),
            final(self).selection_ok(),
            final(self).generated_dyes@ == old(self).generated_dyes@,
            old(self).generated_dyes@.len() == 0 ==> final(self).selected_generated_index
                == old(self).selected_generated_index && final(self).entries@ == old(self).entries@,
            old(self).generated_dyes@.len() == 0 ==> final(self).status_message == old(self).status_message,
            old(self).generated_dyes@.len() > 0 ==> ({
                let j = (match old(self).selected_generated_index {
                    Some(i) => i as int,
                    None => 0,
                } + 1) % (old(self).generated_dyes@.len() as int);
                let d = old(self).generated_dyes@[j];
                &&& final(self).selected_generated_index == Some(j as usize)
                &&& colors_loaded(final(self).entries@, old(self).entries@, d.colors@)
                &&& final(self).status_message@ == "Loaded: "@ + d.name@
            }),
    {
        let len = self.generated_dyes.len();
        if len > 0 {
            let current = match self.selected_generated_index {
                Some(i) => i,
                None => 0,
            };
            self.selected_generated_index = Some((current + 1) % len);
            self.load_selected_generated();
        }
    }

    /// The generated dye before the selected one (before the first, the
    /// last) becomes selected and its colours are loaded; nothing happens
    /// without generated dyes.
    pub fn select_previous_generated(&mut self)
        requires
            old(self).wf(),
            old(self).selection_ok(),
        ensures
            final(self).wf(),
            final(self).selection_ok(),
            final(self).generated_dyes@ == old(self).generated_dyes@,
            old(self).generated_dyes@.len() == 0 ==> final(self).selected_generated_index
                == old(self).selected_generated_index && final(self).entries@ == old(self).entries@,
            old(self).generated_dyes@.len() == 0 ==> final(self).status_message == old(self).status_message,
            old(self).generated_dyes@.len() > 0 ==> ({
                let j = match old(self).selected_generated_index {
                    Some(i) => if i == 0 { old(self).generated_dyes@.len() - 1 } else { i - 1 },
                    None => old(self).generated_dyes@.len() - 1,
                };
                let d = old(self).generated_dyes@[j];
                &&& final(self).selected_generated_index == Some(j as usize)
                &&& colors_loaded(final(self).entries@, old(self).entries@, d.colors@)
                &&& final(self).status_message@ == "Loaded: "@ + d.name@
            }),
    {
        let len = self.generated_dyes.len();
        if len > 0 {
            let current = match self.selected_generated_index {
                Some(i) => i,
                None => 0,
            };
            self.selected_generated_index = Some(if current == 0 { len - 1 } else { current - 1 });
            self.load_selected_generated();
        }
    }

    /// The selector's text: "<name> (<position>/<count>)" for the selected
    /// (or first) generated dye, "Select..." when there is none.
    pub fn generated_label(&self) -> (s: String)
        ensures
            ({
                let idx = match self.selected_generated_index {
                    Some(i) => i as int,
                    None => 0,
                };
                s@ == if idx < self.generated_dyes@.len() {
                    self.generated_dyes@[idx].name@ + " ("@ + decimal((idx + 1) as nat) + "/"@ + decimal(
                        self.generated_dyes@.len(),
                    ) + ")"@
                } else {
                    "Select..."@
                }
            }),
    {
        let idx = match self.selected_generated_index {
            Some(i) => i,
            None => 0,
        };
        if idx < self.generated_dyes.len() {
            let mut s = self.generated_dyes[idx].name.clone();
            push_str(&mut s, " (");
            push_decimal(&mut s, (idx as u128) + 1);
            push_str(&mut s, "/");
            push_decimal(&mut s, self.generated_dyes.len() as u128);
            push_str(&mut s, ")");
            s
        } else {
            String::from_str("Select...")
        }
    }

    /// Renames the selected (or first) generated dye to `new_name` unless
    /// that is empty; the status says so.
    pub fn rename_selected_generated(&mut self, new_name: &str)
        ensures
            final(self).entries@ == old(self).entries@,
            final(self).generated_dyes@.len() == old(self).generated_dyes@.len(),
            final(self).selected_generated_index == old(self).selected_generated_index,
            final(self).imports == old(self).imports,
            ({
                let idx = match old(self).selected_generated_index {
                    Some(i) => i as int,
                    None => 0,
                };
                if idx < old(self).generated_dyes@.len() && new_name@.len() > 0 {
                    let d = final(self).generated_dyes@[idx];
                    let o = old(self).generated_dyes@[idx];
                    &&& d.name@ == new_name@
                    &&& d.preset_uuid == o.preset_uuid && d.template_uuid == o.template_uuid
                    &&& d.name_handle == o.name_handle && d.desc_handle == o.desc_handle
                    &&& d.colors@ == o.colors@
                    &&& forall|j: int| 0 <= j < old(self).generated_dyes@.len() && j != idx
                        ==> final(self).generated_dyes@[j] == old(self).generated_dyes@[j]
                    &&& final(self).status_message@ == "Renamed to '"@ + new_name@ + "'"@
                } else {
                    final(self).generated_dyes@ == old(self).generated_dyes@ && final(self).status_message
                        == old(self).status_message
                }
            }),
    {
        let idx = match self.selected_generated_index {
            Some(i) => i,
            None => 0,
        };
        if idx < self.generated_dyes.len() && !new_name.is_empty() {
            let old_entry = &self.generated_dyes[idx];
            let entry = GeneratedDyeEntry {
                name: String::from_str(new_name),
                name_handle: old_entry.name_handle.clone(),
                desc_handle: old_entry.desc_handle.clone(),
                template_uuid: old_entry.template_uuid.clone(),
                preset_uuid: old_entry.preset_uuid.clone(),
                colors: copy_pairs(&old_entry.colors),
            };
            self.generated_dyes.set(idx, entry);
            let mut m = String::from_str("Renamed to '");
            push_str(&mut m, new_name);
            push_str(&mut m, "'");
            self.status_message = m;
        }
    }

    /// "Update": the selected (or first) generated dye takes the current
    /// colours of all parameters; the status names it.
    pub fn update_selected_generated(&mut self)
        requires
            old(self).wf(),
        ensures
            final(self).wf(),
            final(self).entries@ == old(self).entries@,
            final(self).generated_dyes@.len() == old(self).generated_dyes@.len(),
            final(self).selected_generated_index == old(self).selected_generated_index,
            ({
                let idx = match old(self).selected_generated_index {
                    Some(i) => i as int,
                    None => 0,
                };
                if idx < old(self).generated_dyes@.len() {
                    let d = final(self).generated_dyes@[idx];
                    let o = old(self).generated_dyes@[idx];
                    &&& d.name == o.name && d.preset_uuid == o.preset_uuid && d.template_uuid == o.template_uuid
                    &&& d.name_handle == o.name_handle && d.desc_handle == o.desc_handle
                    &&& d.colors@.len() == PARAMETER_COUNT
                    &&& forall|k: int| 0 <= k < PARAMETER_COUNT ==> (#[trigger] d.colors@[k]).0@ == parameter_names()[k]
                        && d.colors@[k].1@ == old(self).entries@[k].hex@
                    &&& forall|j: int| 0 <= j < old(self).generated_dyes@.len() && j != idx
                        ==> final(self).generated_dyes@[j] == old(self).generated_dyes@[j]
                    &&& final(self).status_message@ == "Updated '"@ + o.name@ + "'"@
                } else {
                    final(self).generated_dyes@ == old(self).generated_dyes@ && final(self).status_message
                        == old(self).status_message
                }
            }),
    {
        let idx = match self.selected_generated_index {
            Some(i) => i,
            None => 0,
        };
        if idx < self.generated_dyes.len() {
            let colors = self.collect_current_colors();
            proof {
                lemma_parameter_names_distinct();
                assert forall|a: int, b: int| 0 <= a < b < colors@.len() implies (#[trigger] colors@[a]).0@
                    != (#[trigger] colors@[b]).0@ by {
                    assert(parameter_names()[a] != parameter_names()[b]);
                }
            }
            let old_entry = &self.generated_dyes[idx];
            let name = old_entry.name.clone();
            let entry = GeneratedDyeEntry {
                name: old_entry.name.clone(),
                name_handle: old_entry.name_handle.clone(),
                desc_handle: old_entry.desc_handle.clone(),
                template_uuid: old_entry.template_uuid.clone(),
                preset_uuid: old_entry.preset_uuid.clone(),
                colors,
            };
            self.generated_dyes.set(idx, entry);
            let mut m = String::from_str("Updated '");
            push_str(&mut m, name.as_str());
            push_str(&mut m, "'");
            self.status_message = m;
        }
    }

    /// "Delete": the selected (or first) generated dye goes; the selection
    /// stays at its place (or moves to the new last dye, or goes when none
    /// is left) and the colours of the newly selected dye are loaded; the
    /// status names the deleted dye.
    pub fn delete_selected_generated(&mut self)
        requires
            old(self).wf(),
        ensures
            final(self).wf(),
            ({
                let idx = match old(self).selected_generated_index {
                    Some(i) => i as int,
                    None => 0,
                };
                let n = old(self).generated_dyes@.len();
                if idx < n {
                    &&& final(self).generated_dyes@ == old(self).generated_dyes@.remove(idx)
                    &&& final(self).status_message@ == "Deleted '"@ + old(self).generated_dyes@[idx].name@ + "'"@
                    &&& n == 1 ==> final(self).selected_generated_index is None
                    &&& n > 1 && idx >= n - 1 ==> final(self).selected_generated_index == Some((n - 2) as usize)
                    &&& n > 1 && idx < n - 1 ==> final(self).selected_generated_index == old(self).selected_generated_index
                    &&& match final(self).selected_generated_index {
                        Some(j) => j < final(self).generated_dyes@.len() && colors_loaded(
                            final(self).entries@,
                            old(self).entries@,
                            final(self).generated_dyes@[j as int].colors@,
                        ),
                        None => final(self).entries@ == old(self).entries@,
                    }
                } else {
                    final(self).generated_dyes@ == old(self).generated_dyes@ && final(self).status_message
                        == old(self).status_message && final(self).entries@ == old(self).entries@
                }
            }),
    {
        let idx = match self.selected_generated_index {
            Some(i) => i,
            None => 0,
        };
        if idx < self.generated_dyes.len() {
            let name = self.generated_dyes[idx].name.clone();
            self.generated_dyes.remove(idx);
            if self.generated_dyes.len() == 0 {
                self.selected_generated_index = None;
            } else if idx >= self.generated_dyes.len() {
                self.selected_generated_index = Some(self.generated_dyes.len() - 1);
                self.load_selected_generated();
            } else {
                self.load_selected_generated();
            }
            let mut m = String::from_str("Deleted '");
            push_str(&mut m, name.as_str());
            push_str(&mut m, "'");
            self.status_message = m;
        }
    }

    /// "Clear All": no generated dyes, no selection, all colours grey.
    pub fn clear_generated(&mut self)
        requires
            old(self).wf(),
        ensures
            final(self).wf(),
            final(self).generated_dyes@.len() == 0,
            final(self).selected_generated_index is None,
            forall|k: int| 0 <= k < PARAMETER_COUNT ==> (#[trigger] final(self).entries@[k]).hex@ == default_hex(),
            final(self).status_message@ == "Cleared all generated dyes"@,
    {
        self.generated_dyes = Vec::new();
        self.selected_generated_index = None;
        self.reset_colors_to_default();
        self.status_message = String::from_str("Cleared all generated dyes");
    }
}

/// The text of an optional value, empty when absent.
pub open spec fn text_or_empty(o: Option<String>) -> Seq<char> {
    match o {
        Some(s) => s@,
        None => Seq::empty(),
    }
}

/// A copy of an optional text, or an empty text.
fn text_or_empty_of(o: &Option<String>) -> (s: String)
    ensures
        s@ == text_or_empty(*o),
{
    match o {
        Some(t) => t.clone(),
        None => String::new(),
    }
}

/// The step of a selector: the next entry (after the last, the first) or
/// the previous one (before the first, the last), from the selected one or
/// the first.
pub open spec fn stepped(selected: Option<usize>, len: nat, forward: bool) -> usize {
    let current = match selected {
        Some(i) => i as int,
        None => 0,
    };
    if forward {
        ((current + 1) % (len as int)) as usize
    } else if current == 0 {
        (len - 1) as usize
    } else {
        (current - 1) as usize
    }
}

/// Executable `stepped`, for a selection inside the list (or none).
fn step_index(selected: Option<usize>, len: usize, forward: bool) -> (r: usize)
    requires
        len > 0,
        selected matches Some(i) ==> i < len,
    ensures
        r == stepped(selected, len as nat, forward),
        r < len,
{
    let current = match selected {
        Some(i) => i,
        None => 0,
    };
    if forward {
        (current + 1) % len
    } else if current == 0 {
        len - 1
    } else {
        current - 1
    }
}

impl DyesState {
    /// The import selections point inside their lists (or nowhere).
    pub open spec fn imports_ok(&self) -> bool {
        &&& (self.imports.selected_import_index matches Some(i) ==> i < self.imports.imported_entries@.len())
        &&& (self.imports.selected_lsf_index matches Some(i) ==> i < self.imports.imported_lsf_entries@.len())
    }

    /// Shows the selected TXT import: its name, preset and root template
    /// (empty where unknown); the status names it. Nothing happens without a
    /// valid selection.
    pub fn load_selected_entry(&mut self)
        ensures
            final(self).imports.imported_entries@ == old(self).imports.imported_entries@,
            final(self).imports.selected_import_index == old(self).imports.selected_import_index,
            final(self).imports.imported_lsf_entries@ == old(self).imports.imported_lsf_entries@,
            final(self).imports.selected_lsf_index == old(self).imports.selected_lsf_index,
            final(self).entries@ == old(self).entries@,
            match old(self).imports.selected_import_index {
                Some(i) => if i < old(self).imports.imported_entries@.len() {
                    let e = old(self).imports.imported_entries@[i as int];
                    &&& final(self).imports.imported_dye_name@ == e.0@
                    &&& final(self).imports.imported_preset_uuid@ == text_or_empty(e.1)
                    &&& final(self).imports.imported_template_uuid@ == text_or_empty(e.2)
                    &&& final(self).status_message@ == "Loaded: "@ + e.0@
                } else {
                    final(self).status_message == old(self).status_message
                },
                None => final(self).status_message == old(self).status_message,
            },
    {
        match self.imports.selected_import_index {
            Some(i) => {
                if i < self.imports.imported_entries.len() {
                    let name = self.imports.imported_entries[i].0.clone();
                    let preset = text_or_empty_of(&self.imports.imported_entries[i].1);
                    let template = text_or_empty_of(&self.imports.imported_entries[i].2);
                    self.imports.imported_dye_name = name.clone();
                    self.imports.imported_preset_uuid = preset;
                    self.imports.imported_template_uuid = template;
                    let mut m = String::from_str("Loaded: ");
                    push_str(&mut m, name.as_str());
                    proof {
                        reveal_strlit("Loaded: ");
                    }
                    self.status_message = m;
                }
            },
            None => {},
        }
    }

    /// Takes the entries found in a stat file named `file_name`: merged by
    /// name and listed by name, the first one selected and shown; the
    /// status says how many there are, or that there are none.
    pub fn finish_txt_import(&mut self, file_name: &str, combos: &Vec<ParsedDyeEntry>, objects: &Vec<ParsedDyeEntry>)
        ensures
            ({
                let m = merged_map(combos@, objects@);
                if m.dom() == Set::<Seq<char>>::empty() {
                    &&& final(self).status_message@ == "No dye entries found in "@ + file_name@
                    &&& final(self).imports == old(self).imports
                } else {
                    &&& is_import_listing(final(self).imports.imported_entries@, m)
                    &&& final(self).imports.selected_import_index == Some(0usize)
                    &&& final(self).imports.imported_dye_name@ == final(self).imports.imported_entries@[0].0@
                    &&& final(self).imports.imported_preset_uuid@ == text_or_empty(
                        final(self).imports.imported_entries@[0].1,
                    )
                    &&& final(self).imports.imported_template_uuid@ == text_or_empty(
                        final(self).imports.imported_entries@[0].2,
                    )
                    &&& final(self).status_message@ == "Loaded 1 of "@ + decimal(
                        final(self).imports.imported_entries@.len(),
                    ) + " dyes"@
                }
            }),
            final(self).entries@ == old(self).entries@,
    {
        let merged = merge_imported(combos, objects);
        let ghost m = merged_map(combos@, objects@);
        if merged.len() == 0 {
            proof {
                assert(m.dom() =~= Set::<Seq<char>>::empty()) by {
                    assert forall|k: Seq<char>| !m.dom().contains(k) by {
                        if m.contains_key(k) {
                            let a = choose|a: int| 0 <= a < merged@.len() && (#[trigger] merged@[a]).0@ == k;
                        }
                    }
                }
            }
            let mut msg = String::from_str("No dye entries found in ");
            push_str(&mut msg, file_name);
            proof {
                reveal_strlit("No dye entries found in ");
            }
            self.status_message = msg;
            return;
        }
        proof {
            assert(m.contains_key(merged@[0].0@));
            assert(m.dom().contains(merged@[0].0@));
            assert(m.dom() != Set::<Seq<char>>::empty());
        }
        let count = merged.len();
        self.imports.imported_entries = merged;
        self.imports.selected_import_index = Some(0);
        self.load_selected_entry();
        let mut msg = String::from_str("Loaded 1 of ");
        push_decimal(&mut msg, count as u128);
        push_str(&mut msg, " dyes");
        proof {
            reveal_strlit("Loaded 1 of ");
            reveal_strlit(" dyes");
        }
        self.status_message = msg;
    }

    /// Steps the TXT import selector forward or back (cyclically) and shows
    /// the entry; nothing happens without entries.
    pub fn step_txt_import(&mut self, forward: bool)
        requires
            old(self).imports_ok(),
        ensures
            final(self).imports_ok(),
            final(self).imports.imported_entries@ == old(self).imports.imported_entries@,
            old(self).imports.imported_entries@.len() == 0 ==> final(self).imports == old(self).imports
                && final(self).status_message == old(self).status_message,
            old(self).imports.imported_entries@.len() > 0 ==> ({
                let j = stepped(old(self).imports.selected_import_index, old(self).imports.imported_entries@.len(), forward);
                let e = old(self).imports.imported_entries@[j as int];
                &&& final(self).imports.selected_import_index == Some(j)
                &&& final(self).imports.imported_dye_name@ == e.0@
                &&& final(self).imports.imported_preset_uuid@ == text_or_empty(e.1)
                &&& final(self).imports.imported_template_uuid@ == text_or_empty(e.2)
                &&& final(self).status_message@ == "Loaded: "@ + e.0@
            }),
            final(self).entries@ == old(self).entries@,
    {
        let len = self.imports.imported_entries.len();
        if len > 0 {
            let k = step_index(self.imports.selected_import_index, len, forward);
            self.imports.selected_import_index = Some(k);
            self.load_selected_entry();
        }
    }

    /// The TXT import selector's text: "<name> (<position>/<count>)", or
    /// "Select..." without a valid entry.
    pub fn txt_import_label(&self) -> (s: String)
        ensures
            ({
                let idx = match self.imports.selected_import_index {
                    Some(i) => i as int,
                    None => 0,
                };
                let v = self.imports.imported_entries@;
                s@ == if idx < v.len() {
                    v[idx].0@ + " ("@ + decimal((idx + 1) as nat) + "/"@ + decimal(v.len()) + ")"@
                } else {
                    "Select..."@
                }
            }),
    {
        let idx = match self.imports.selected_import_index {
            Some(i) => i,
            None => 0,
        };
        if idx < self.imports.imported_entries.len() {
            let mut s = self.imports.imported_entries[idx].0.clone();
            push_str(&mut s, " (");
            push_decimal(&mut s, (idx as u128) + 1);
            push_str(&mut s, "/");
            push_decimal(&mut s, self.imports.imported_entries.len() as u128);
            push_str(&mut s, ")");
            s
        } else {
            String::from_str("Select...")
        }
    }

    /// Clears the TXT import: no entries, no selection, empty fields.
    pub fn clear_txt_import(&mut self)
        ensures
            final(self).imports.imported_entries@.len() == 0,
            final(self).imports.selected_import_index is None,
            final(self).imports.imported_dye_name@ == Seq::<char>::empty(),
            final(self).imports.imported_preset_uuid@ == Seq::<char>::empty(),
            final(self).imports.imported_template_uuid@ == Seq::<char>::empty(),
            final(self).status_message@ == "Cleared"@,
            final(self).entries@ == old(self).entries@,
    {
        self.imports.imported_entries = Vec::new();
        self.imports.selected_import_index = None;
        self.imports.imported_dye_name = String::new();
        self.imports.imported_preset_uuid = String::new();
        self.imports.imported_template_uuid = String::new();
        self.status_message = String::from_str("Cleared");
    }

    /// Shows the selected LSF preset: its name and preset (no root
    /// template), and its colours go into the parameters (see
    /// `load_colors`). Nothing happens without a valid selection.
    pub fn load_lsf_entry(&mut self)
        requires
            old(self).wf(),
        ensures
            final(self).wf(),
            final(self).imports.imported_lsf_entries@ == old(self).imports.imported_lsf_entries@,
            final(self).imports.selected_lsf_index == old(self).imports.selected_lsf_index,
            final(self).imports.imported_lsf_path == old(self).imports.imported_lsf_path,
            final(self).imports.imported_entries@ == old(self).imports.imported_entries@,
            final(self).imports.selected_import_index == old(self).imports.selected_import_index,
            match old(self).imports.selected_lsf_index {
                Some(i) => if i < old(self).imports.imported_lsf_entries@.len() {
                    let e = old(self).imports.imported_lsf_entries@[i as int];
                    &&& final(self).imports.imported_dye_name@ == e.name@
                    &&& final(self).imports.imported_preset_uuid@ == text_or_empty(e.preset_uuid)
                    &&& final(self).imports.imported_template_uuid@ == Seq::<char>::empty()
                    &&& forall|k: int| 0 <= k < PARAMETER_COUNT ==> (#[trigger] final(self).entries@[k]).hex@
                        == match last_value_for(e.colors@, parameter_names()[k]) {
                        Some(h) => h,
                        None => old(self).entries@[k].hex@,
                    }
                    &&& final(self).status_message@ == "Loaded: "@ + e.name@
                } else {
                    final(self).entries@ == old(self).entries@ && final(self).status_message == old(self).status_message
                },
                None => final(self).entries@ == old(self).entries@ && final(self).status_message == old(self).status_message,
            },
    {
        match self.imports.selected_lsf_index {
            Some(i) => {
                if i < self.imports.imported_lsf_entries.len() {
                    let name = self.imports.imported_lsf_entries[i].name.clone();
                    let preset = text_or_empty_of(&self.imports.imported_lsf_entries[i].preset_uuid);
                    let colors = copy_pairs(&self.imports.imported_lsf_entries[i].colors);
                    self.imports.imported_dye_name = name.clone();
                    self.imports.imported_preset_uuid = preset;
                    self.imports.imported_template_uuid = String::new();
                    self.load_colors(&colors, name.as_str());
                }
            },
            None => {},
        }
    }

    /// Takes the presets read from a DyeColorPresets file named `file_name`
    /// at `path`: the first is selected and loaded, the path kept for
    /// re-export; the status says how many there are, or that there are none.
    pub fn finish_lsf_import(&mut self, file_name: &str, path: String, entries: Vec<ImportedDyeEntry>)
        requires
            old(self).wf(),
            forall|i: int| 0 <= i < entries@.len() ==> (#[trigger] entries@[i]).wf(),
        ensures
            final(self).wf(),
            entries@.len() == 0 ==> final(self).status_message@ == "No dye presets found in "@ + file_name@
                && final(self).imports == old(self).imports && final(self).entries@ == old(self).entries@,
            entries@.len() > 0 ==> {
                &&& final(self).imports.imported_lsf_entries@ == entries@
                &&& final(self).imports.selected_lsf_index == Some(0usize)
                &&& final(self).imports.imported_lsf_path == Some(path)
                &&& final(self).imports.imported_dye_name@ == entries@[0].name@
                &&& final(self).imports.imported_preset_uuid@ == text_or_empty(entries@[0].preset_uuid)
                &&& final(self).imports.imported_template_uuid@ == Seq::<char>::empty()
                &&& colors_loaded(final(self).entries@, old(self).entries@, entries@[0].colors@)
                &&& final(self).status_message@ == "Loaded 1 of "@ + decimal(entries@.len()) + " dyes from "@ + file_name@
            },
    {
        proof {
            reveal_strlit("No dye presets found in ");
            reveal_strlit("Loaded 1 of ");
            reveal_strlit(" dyes from ");
        }
        if entries.len() == 0 {
            let mut m = String::from_str("No dye presets found in ");
            push_str(&mut m, file_name);
            self.status_message = m;
            return;
        }
        let count = entries.len();
        self.imports.imported_lsf_entries = entries;
        self.imports.selected_lsf_index = Some(0);
        self.imports.imported_lsf_path = Some(path);
        self.load_lsf_entry();
        let mut m = String::from_str("Loaded 1 of ");
        push_decimal(&mut m, count as u128);
        push_str(&mut m, " dyes from ");
        push_str(&mut m, file_name);
        self.status_message = m;
    }

    /// Renames the selected LSF preset to the edited name (unless empty).
    pub fn rename_lsf_entry(&mut self)
        ensures
            old(self).wf() ==> final(self).wf(),
            final(self).imports.imported_lsf_entries@.len() == old(self).imports.imported_lsf_entries@.len(),
            ({
                let n = old(self).imports.imported_dye_name@;
                match old(self).imports.selected_lsf_index {
                    Some(i) => if i < old(self).imports.imported_lsf_entries@.len() && n.len() > 0 {
                        &&& final(self).imports.imported_lsf_entries@[i as int].name@ == n
                        &&& final(self).status_message@ == "Renamed to '"@ + n + "'"@
                    } else {
                        final(self).imports.imported_lsf_entries@ == old(self).imports.imported_lsf_entries@
                            && final(self).status_message == old(self).status_message
                    },
                    None => final(self).imports.imported_lsf_entries@ == old(self).imports.imported_lsf_entries@
                        && final(self).status_message == old(self).status_message,
                }
            }),
    {
        match self.imports.selected_lsf_index {
            Some(i) => {
                if i < self.imports.imported_lsf_entries.len() && !self.imports.imported_dye_name.as_str().is_empty() {
                    let new_name = self.imports.imported_dye_name.clone();
                    let e = ImportedDyeEntry {
                        name: new_name.clone(),
                        preset_uuid: match &self.imports.imported_lsf_entries[i].preset_uuid {
                            Some(p) => Some(p.clone()),
                            None => None,
                        },
                        colors: copy_pairs(&self.imports.imported_lsf_entries[i].colors),
                    };
                    self.imports.imported_lsf_entries.set(i, e);
                    let mut m = String::from_str("Renamed to '");
                    push_str(&mut m, new_name.as_str());
                    push_str(&mut m, "'");
                    self.status_message = m;
                }
            },
            None => {},
        }
    }

    /// Why re-exporting the LSF presets cannot start: none imported, or no
    /// file to write back to.
    pub fn reexport_precheck(&self) -> (m: Option<String>)
        ensures
            self.imports.imported_lsf_entries@.len() == 0 ==> (m matches Some(t) && t@ == "No LSF entries to export"@),
            self.imports.imported_lsf_entries@.len() > 0 && self.imports.imported_lsf_path is None ==> (m matches Some(t)
                && t@ == "No import path stored - import an LSF file first"@),
            self.imports.imported_lsf_entries@.len() > 0 && self.imports.imported_lsf_path is Some ==> m is None,
    {
        if self.imports.imported_lsf_entries.len() == 0 {
            Some(String::from_str("No LSF entries to export"))
        } else if self.imports.imported_lsf_path.is_none() {
            Some(String::from_str("No import path stored - import an LSF file first"))
        } else {
            None
        }
    }
}

/// How re-exporting the LSF presets ended.
pub enum ReexportOutcome {
    /// Written back to the file with this name.
    Written(String),
    /// The presets could not be turned into an LSF document.
    GenerateFailed(String),
    /// The LSF document could not be written.
    WriteFailed(String),
}

impl DyesState {
    /// Steps the LSF import selector forward or back (cyclically) and loads
    /// the preset; nothing happens without presets.
    pub fn step_lsf_import(&mut self, forward: bool)
        requires
            old(self).wf(),
            old(self).imports_ok(),
        ensures
            final(self).wf(),
            final(self).imports_ok(),
            final(self).imports.imported_lsf_entries@ == old(self).imports.imported_lsf_entries@,
            old(self).imports.imported_lsf_entries@.len() == 0 ==> final(self).imports == old(self).imports
                && final(self).entries@ == old(self).entries@ && final(self).status_message == old(self).status_message,
            old(self).imports.imported_lsf_entries@.len() > 0 ==> ({
                let j = stepped(old(self).imports.selected_lsf_index, old(self).imports.imported_lsf_entries@.len(), forward);
                let e = old(self).imports.imported_lsf_entries@[j as int];
                &&& final(self).imports.selected_lsf_index == Some(j)
                &&& final(self).imports.imported_dye_name@ == e.name@
                &&& final(self).imports.imported_preset_uuid@ == text_or_empty(e.preset_uuid)
                &&& final(self).imports.imported_template_uuid@ == Seq::<char>::empty()
                &&& colors_loaded(final(self).entries@, old(self).entries@, e.colors@)
                &&& final(self).status_message@ == "Loaded: "@ + e.name@
            }),
    {
        let len = self.imports.imported_lsf_entries.len();
        if len > 0 {
            let k = step_index(self.imports.selected_lsf_index, len, forward);
            self.imports.selected_lsf_index = Some(k);
            self.load_lsf_entry();
        }
    }

    /// The LSF import selector's text: "<name> (<position>/<count>)", or
    /// "Select..." without a valid preset.
    pub fn lsf_import_label(&self) -> (s: String)
        ensures
            ({
                let idx = match self.imports.selected_lsf_index {
                    Some(i) => i as int,
                    None => 0,
                };
                let v = self.imports.imported_lsf_entries@;
                s@ == if idx < v.len() {
                    v[idx].name@ + " ("@ + decimal((idx + 1) as nat) + "/"@ + decimal(v.len()) + ")"@
                } else {
                    "Select..."@
                }
            }),
    {
        let idx = match self.imports.selected_lsf_index {
            Some(i) => i,
            None => 0,
        };
        if idx < self.imports.imported_lsf_entries.len() {
            let mut s = self.imports.imported_lsf_entries[idx].name.clone();
            push_str(&mut s, " (");
            push_decimal(&mut s, (idx as u128) + 1);
            push_str(&mut s, "/");
            push_decimal(&mut s, self.imports.imported_lsf_entries.len() as u128);
            push_str(&mut s, ")");
            s
        } else {
            String::from_str("Select...")
        }
    }

    /// Clears the LSF import: no presets, no selection, empty fields.
    pub fn clear_lsf_import(&mut self)
        ensures
            final(self).imports.imported_lsf_entries@.len() == 0,
            final(self).imports.selected_lsf_index is None,
            final(self).imports.imported_dye_name@ == Seq::<char>::empty(),
            final(self).imports.imported_preset_uuid@ == Seq::<char>::empty(),
            final(self).imports.imported_template_uuid@ == Seq::<char>::empty(),
            final(self).status_message@ == "Cleared"@,
            final(self).entries@ == old(self).entries@,
    {
        self.imports.imported_lsf_entries = Vec::new();
        self.imports.selected_lsf_index = None;
        self.imports.imported_dye_name = String::new();
        self.imports.imported_preset_uuid = String::new();
        self.imports.imported_template_uuid = String::new();
        self.status_message = String::from_str("Cleared");
    }

    /// "Update" of an LSF preset: the selected (or first) preset takes the
    /// current colours of all parameters; the status names it.
    pub fn update_lsf_entry(&mut self)
        requires
            old(self).wf(),
        ensures
            final(self).wf(),
            final(self).entries@ == old(self).entries@,
            final(self).imports.imported_lsf_entries@.len() == old(self).imports.imported_lsf_entries@.len(),
            ({
                let idx = match old(self).imports.selected_lsf_index {
                    Some(i) => i as int,
                    None => 0,
                };
                if idx < old(self).imports.imported_lsf_entries@.len() {
                    let d = final(self).imports.imported_lsf_entries@[idx];
                    let o = old(self).imports.imported_lsf_entries@[idx];
                    &&& d.name == o.name
                    &&& d.colors@.len() == PARAMETER_COUNT
                    &&& forall|k: int| 0 <= k < PARAMETER_COUNT ==> (#[trigger] d.colors@[k]).0@ == parameter_names()[k]
                        && d.colors@[k].1@ == old(self).entries@[k].hex@
                    &&& final(self).status_message@ == "Updated '"@ + o.name@ + "'"@
                } else {
                    final(self).imports.imported_lsf_entries@ == old(self).imports.imported_lsf_entries@
                        && final(self).status_message == old(self).status_message
                }
            }),
    {
        let idx = match self.imports.selected_lsf_index {
            Some(i) => i,
            None => 0,
        };
        if idx < self.imports.imported_lsf_entries.len() {
            let colors = self.collect_current_colors();
            proof {
                lemma_parameter_names_distinct();
                assert forall|a: int, b: int| 0 <= a < b < colors@.len() implies (#[trigger] colors@[a]).0@
                    != (#[trigger] colors@[b]).0@ by {
                    assert(parameter_names()[a] != parameter_names()[b]);
                }
            }
            let name = self.imports.imported_lsf_entries[idx].name.clone();
            let e = ImportedDyeEntry {
                name: name.clone(),
                preset_uuid: match &self.imports.imported_lsf_entries[idx].preset_uuid {
                    Some(p) => Some(p.clone()),
                    None => None,
                },
                colors,
            };
            self.imports.imported_lsf_entries.set(idx, e);
            let mut m = String::from_str("Updated '");
            push_str(&mut m, name.as_str());
            push_str(&mut m, "'");
            self.status_message = m;
        }
    }

    /// Reports how re-exporting the LSF presets ended.
    pub fn finish_reexport(&mut self, outcome: ReexportOutcome)
        ensures
            match outcome {
                ReexportOutcome::Written(file) => final(self).status_message@ == "Re-exported "@ + decimal(
                    old(self).imports.imported_lsf_entries@.len(),
                ) + " dyes to "@ + file@,
                ReexportOutcome::GenerateFailed(e) => final(self).status_message@ == "Failed to generate LSF: "@ + e@,
                ReexportOutcome::WriteFailed(e) => final(self).status_message@ == "Failed to write LSF: "@ + e@,
            },
            final(self).imports.imported_lsf_entries@ == old(self).imports.imported_lsf_entries@,
    {
        proof {
            reveal_strlit("Re-exported ");
            reveal_strlit(" dyes to ");
            reveal_strlit("Failed to generate LSF: ");
            reveal_strlit("Failed to write LSF: ");
        }
        let m = match outcome {
            ReexportOutcome::Written(file) => {
                let mut m = String::from_str("Re-exported ");
                push_decimal(&mut m, self.imports.imported_lsf_entries.len() as u128);
                push_str(&mut m, " dyes to ");
                push_str(&mut m, file.as_str());
                m
            },
            ReexportOutcome::GenerateFailed(e) => {
                let mut m = String::from_str("Failed to generate LSF: ");
                push_str(&mut m, e.as_str());
                m
            },
            ReexportOutcome::WriteFailed(e) => {
                let mut m = String::from_str("Failed to write LSF: ");
                push_str(&mut m, e.as_str());
                m
            },
        };
        self.status_message = m;
    }
}

} // verus!
