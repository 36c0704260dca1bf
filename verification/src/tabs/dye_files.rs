//! The XML files of an exported dye mod that list every dye: the
//! localization, the root templates and the colour presets; and the
//! texture bank that points at the icon atlas.
use vstd::prelude::*;
use crate::state::dyes::{is_default_color, is_default_hex, ImportedDyeEntry};
use crate::tabs::dye_export::{meta_lsx_content, value_attribute, meta_lsx_text, stats_entry, stats_file_content, GeneratedDyeEntry, StatsFile};
use crate::tabs::dyes::{fvec3_text, hex_to_fvec3};
use crate::text::{chars_of, contains_seq, hex_fields_sliceable, lemma_contains_between, lemma_contains_middle, join_texts, joined, push_char, push_str};

verus! {

/// A dye's name as players read it: every '_' becomes a space.
pub open spec fn spaced_name(name: Seq<char>) -> Seq<char> {
    name.map_values(|c: char| if c == '_' { ' ' } else { c })
}

/// Executable `spaced_name`.
pub fn display_name(name: &str) -> (s: String)
    ensures
        s@ == spaced_name(name@),
{
    let v = chars_of(name);
    let mut s = String::new();
    let mut i: usize = 0;
    while i < v.len()
        invariant
            i <= v.len(),
            v@ == name@,
            s@ == spaced_name(v@.take(i as int)),
        decreases v.len() - i,
    {
        let c = v[i];
        if c == '_' {
            push_char(&mut s, ' ');
        } else {
            push_char(&mut s, c);
        }
        assert(v@.take(i + 1) =~= v@.take(i as int).push(c));
        assert(spaced_name(v@.take(i + 1)) =~= spaced_name(v@.take(i as int)).push(if c == '_' { ' ' } else { c }));
        i += 1;
    }
    assert(v@.take(v.len() as int) =~= v@);
    s
}

/// The two localization lines of a dye: its shown name under the name
/// handle and "A custom dye: " and the name under the description handle.
pub open spec fn localization_entry(d: GeneratedDyeEntry) -> Seq<char> {
    "\t<content contentuid=\""@ + d.name_handle@ + "\" version=\"1\">"@ + spaced_name(d.name@)
        + "</content>\n\t<content contentuid=\""@ + d.desc_handle@ + "\" version=\"1\">A custom dye: "@
        + spaced_name(d.name@) + "</content>"@
}

/// The root template of a dye: an item with the dye's template UUID, name,
/// handles, icon ("<name>_Icon") and colour preset.
pub open spec fn root_template_entry(d: GeneratedDyeEntry) -> Seq<char> {
    "\t\t\t\t<node id=\"GameObjects\">\n\t\t\t\t\t<attribute id=\"MapKey\" type=\"FixedString\" value=\""@
        + d.template_uuid@
        + "\" />\n\t\t\t\t\t<attribute id=\"Name\" type=\"LSString\" value=\""@ + d.name@
        + "\" />\n\t\t\t\t\t<attribute id=\"LevelName\" type=\"FixedString\" value=\"\" />\n\t\t\t\t\t<attribute id=\"Type\" type=\"FixedString\" value=\"item\" />\n\t\t\t\t\t<attribute id=\"ParentTemplateId\" type=\"FixedString\" value=\"1a750a66-e5c2-40be-9f62-0a4bf3ddb403\" />\n\t\t\t\t\t<attribute id=\"DisplayName\" type=\"TranslatedString\" handle=\""@
        + d.name_handle@
        + "\" version=\"1\" />\n\t\t\t\t\t<attribute id=\"Icon\" type=\"FixedString\" value=\""@ + d.name@ + "_Icon"@
        + "\" />\n\t\t\t\t\t<attribute id=\"Stats\" type=\"FixedString\" value=\""@ + d.name@
        + "\" />\n\t\t\t\t\t<attribute id=\"Description\" type=\"TranslatedString\" handle=\""@ + d.desc_handle@
        + "\" version=\"1\" />\n\t\t\t\t\t<attribute id=\"ColorPreset\" type=\"guid\" value=\""@ + d.preset_uuid@
        + "\" />\n\t\t\t\t</node>"@
}

/// An attribute of type TranslatedString: the attribute `id` points at the
/// localized text with handle `handle`.
pub open spec fn translated_attribute(id: Seq<char>, handle: Seq<char>) -> Seq<char> {
    "<attribute id=\""@ + id + "\" type=\"TranslatedString\" handle=\""@ + handle + "\" version=\"1\" />"@
}

/// The root template of a dye shows the dye's name text and its description
/// text: its DisplayName attribute carries the dye's name handle and its
/// Description attribute the dye's description handle.
pub proof fn lemma_root_template_handles(d: GeneratedDyeEntry)
    ensures
        contains_seq(list_entry(DyeListFile::RootTemplates, d), translated_attribute("DisplayName"@, d.name_handle@)),
        contains_seq(list_entry(DyeListFile::RootTemplates, d), translated_attribute("Description"@, d.desc_handle@)),
{
    let r0 = "\t\t\t\t<node id=\"GameObjects\">\n\t\t\t\t\t<attribute id=\"MapKey\" type=\"FixedString\" value=\""@;
    let r1 = "\" />\n\t\t\t\t\t<attribute id=\"Name\" type=\"LSString\" value=\""@;
    let r2 = "\" />\n\t\t\t\t\t<attribute id=\"LevelName\" type=\"FixedString\" value=\"\" />\n\t\t\t\t\t<attribute id=\"Type\" type=\"FixedString\" value=\"item\" />\n\t\t\t\t\t<attribute id=\"ParentTemplateId\" type=\"FixedString\" value=\"1a750a66-e5c2-40be-9f62-0a4bf3ddb403\" />\n\t\t\t\t\t<attribute id=\"DisplayName\" type=\"TranslatedString\" handle=\""@;
    let r3 = "\" version=\"1\" />\n\t\t\t\t\t<attribute id=\"Icon\" type=\"FixedString\" value=\""@;
    let r4 = "\" />\n\t\t\t\t\t<attribute id=\"Stats\" type=\"FixedString\" value=\""@;
    let r5 = "\" />\n\t\t\t\t\t<attribute id=\"Description\" type=\"TranslatedString\" handle=\""@;
    let r6 = "\" version=\"1\" />\n\t\t\t\t\t<attribute id=\"ColorPreset\" type=\"guid\" value=\""@;
    let r7 = "\" />\n\t\t\t\t</node>"@;
    let dn = "<attribute id=\"DisplayName\" type=\"TranslatedString\" handle=\""@;
    let ds = "<attribute id=\"Description\" type=\"TranslatedString\" handle=\""@;
    let v = "\" version=\"1\" />"@;
    reveal_strlit("\" />\n\t\t\t\t\t<attribute id=\"LevelName\" type=\"FixedString\" value=\"\" />\n\t\t\t\t\t<attribute id=\"Type\" type=\"FixedString\" value=\"item\" />\n\t\t\t\t\t<attribute id=\"ParentTemplateId\" type=\"FixedString\" value=\"1a750a66-e5c2-40be-9f62-0a4bf3ddb403\" />\n\t\t\t\t\t<attribute id=\"DisplayName\" type=\"TranslatedString\" handle=\"");
    reveal_strlit("\" version=\"1\" />\n\t\t\t\t\t<attribute id=\"Icon\" type=\"FixedString\" value=\"");
    reveal_strlit("\" />\n\t\t\t\t\t<attribute id=\"Description\" type=\"TranslatedString\" handle=\"");
    reveal_strlit("\" version=\"1\" />\n\t\t\t\t\t<attribute id=\"ColorPreset\" type=\"guid\" value=\"");
    reveal_strlit("<attribute id=\"DisplayName\" type=\"TranslatedString\" handle=\"");
    reveal_strlit("<attribute id=\"Description\" type=\"TranslatedString\" handle=\"");
    reveal_strlit("\" version=\"1\" />");
    reveal_strlit("<attribute id=\"");
    reveal_strlit("\" type=\"TranslatedString\" handle=\"");
    reveal_strlit("DisplayName");
    reveal_strlit("Description");
    let r2a = r2.subrange(0, r2.len() - dn.len());
    let r3b = r3.subrange(v.len() as int, r3.len() as int);
    let r5a = r5.subrange(0, r5.len() - ds.len());
    let r6b = r6.subrange(v.len() as int, r6.len() as int);
    assert(r2 =~= r2a + dn);
    assert(r3 =~= v + r3b);
    assert(r5 =~= r5a + ds);
    assert(r6 =~= v + r6b);
    let s = root_template_entry(d);
    let x = dn + d.name_handle@ + v;
    let y = ds + d.desc_handle@ + v;
    assert(translated_attribute("DisplayName"@, d.name_handle@) =~= x);
    assert(translated_attribute("Description"@, d.desc_handle@) =~= y);
    let head = r0 + d.template_uuid@ + r1 + d.name@ + r2a;
    let mid = r3b + d.name@ + "_Icon"@ + r4 + d.name@ + r5a;
    let tail = r6b + d.preset_uuid@ + r7;
    assert(s =~= head + x + (mid + y + tail));
    lemma_contains_middle(head, x, mid + y + tail);
    assert(s =~= (head + x + mid) + y + tail);
    lemma_contains_middle(head + x + mid, y, tail);
}

/// The root template of a dye is keyed by the dye's template UUID, carries
/// the dye's name as its name and its stats entry, uses "<name>_Icon" as its
/// icon and points at the dye's colour preset.
pub proof fn lemma_root_template_values(d: GeneratedDyeEntry)
    ensures
        contains_seq(list_entry(DyeListFile::RootTemplates, d), value_attribute("MapKey"@, "FixedString"@, d.template_uuid@)),
        contains_seq(list_entry(DyeListFile::RootTemplates, d), value_attribute("Name"@, "LSString"@, d.name@)),
        contains_seq(list_entry(DyeListFile::RootTemplates, d), value_attribute("Icon"@, "FixedString"@, d.name@ + "_Icon"@)),
        contains_seq(list_entry(DyeListFile::RootTemplates, d), value_attribute("Stats"@, "FixedString"@, d.name@)),
        contains_seq(list_entry(DyeListFile::RootTemplates, d), value_attribute("ColorPreset"@, "guid"@, d.preset_uuid@)),
{
    let r0 = "\t\t\t\t<node id=\"GameObjects\">\n\t\t\t\t\t<attribute id=\"MapKey\" type=\"FixedString\" value=\""@;
    reveal_strlit("\t\t\t\t<node id=\"GameObjects\">\n\t\t\t\t\t<attribute id=\"MapKey\" type=\"FixedString\" value=\"");
    let r1 = "\" />\n\t\t\t\t\t<attribute id=\"Name\" type=\"LSString\" value=\""@;
    reveal_strlit("\" />\n\t\t\t\t\t<attribute id=\"Name\" type=\"LSString\" value=\"");
    let r2 = "\" />\n\t\t\t\t\t<attribute id=\"LevelName\" type=\"FixedString\" value=\"\" />\n\t\t\t\t\t<attribute id=\"Type\" type=\"FixedString\" value=\"item\" />\n\t\t\t\t\t<attribute id=\"ParentTemplateId\" type=\"FixedString\" value=\"1a750a66-e5c2-40be-9f62-0a4bf3ddb403\" />\n\t\t\t\t\t<attribute id=\"DisplayName\" type=\"TranslatedString\" handle=\""@;
    reveal_strlit("\" />\n\t\t\t\t\t<attribute id=\"LevelName\" type=\"FixedString\" value=\"\" />\n\t\t\t\t\t<attribute id=\"Type\" type=\"FixedString\" value=\"item\" />\n\t\t\t\t\t<attribute id=\"ParentTemplateId\" type=\"FixedString\" value=\"1a750a66-e5c2-40be-9f62-0a4bf3ddb403\" />\n\t\t\t\t\t<attribute id=\"DisplayName\" type=\"TranslatedString\" handle=\"");
    let r3 = "\" version=\"1\" />\n\t\t\t\t\t<attribute id=\"Icon\" type=\"FixedString\" value=\""@;
    reveal_strlit("\" version=\"1\" />\n\t\t\t\t\t<attribute id=\"Icon\" type=\"FixedString\" value=\"");
    let r4 = "\" />\n\t\t\t\t\t<attribute id=\"Stats\" type=\"FixedString\" value=\""@;
    reveal_strlit("\" />\n\t\t\t\t\t<attribute id=\"Stats\" type=\"FixedString\" value=\"");
    let r5 = "\" />\n\t\t\t\t\t<attribute id=\"Description\" type=\"TranslatedString\" handle=\""@;
    reveal_strlit("\" />\n\t\t\t\t\t<attribute id=\"Description\" type=\"TranslatedString\" handle=\"");
    let r6 = "\" version=\"1\" />\n\t\t\t\t\t<attribute id=\"ColorPreset\" type=\"guid\" value=\""@;
    reveal_strlit("\" version=\"1\" />\n\t\t\t\t\t<attribute id=\"ColorPreset\" type=\"guid\" value=\"");
    let r7 = "\" />\n\t\t\t\t</node>"@;
    reveal_strlit("\" />\n\t\t\t\t</node>");
    let ic = "_Icon"@;
    reveal_strlit("_Icon");
    reveal_strlit("<attribute id=\"");
    reveal_strlit("\" type=\"");
    reveal_strlit("\" value=\"");
    reveal_strlit("\" />");
    let q = "\" />"@;
    let s = root_template_entry(d);
    reveal_strlit("MapKey");
    reveal_strlit("FixedString");
    reveal_strlit("<attribute id=\"MapKey\" type=\"FixedString\" value=\"");
    {
        let p = "<attribute id=\"MapKey\" type=\"FixedString\" value=\""@;
        assert(r0.subrange(r0.len() - p.len(), r0.len() as int) =~= p);
        assert(r1.subrange(0, q.len() as int) =~= q);
        assert(value_attribute("MapKey"@, "FixedString"@, d.template_uuid@) =~= p + (d.template_uuid@) + q);
        assert(s =~= (Seq::<char>::empty()) + r0 + (d.template_uuid@) + r1 + (d.name@ + r2 + d.name_handle@ + r3 + d.name@ + ic + r4 + d.name@ + r5 + d.desc_handle@ + r6 + d.preset_uuid@ + r7));
        lemma_contains_between(Seq::<char>::empty(), r0, d.template_uuid@, r1, d.name@ + r2 + d.name_handle@ + r3 + d.name@ + ic + r4 + d.name@ + r5 + d.desc_handle@ + r6 + d.preset_uuid@ + r7, p, q);
    }
    reveal_strlit("Name");
    reveal_strlit("LSString");
    reveal_strlit("<attribute id=\"Name\" type=\"LSString\" value=\"");
    {
        let p = "<attribute id=\"Name\" type=\"LSString\" value=\""@;
        assert(r1.subrange(r1.len() - p.len(), r1.len() as int) =~= p);
        assert(r2.subrange(0, q.len() as int) =~= q);
        assert(value_attribute("Name"@, "LSString"@, d.name@) =~= p + (d.name@) + q);
        assert(s =~= (r0 + d.template_uuid@) + r1 + (d.name@) + r2 + (d.name_handle@ + r3 + d.name@ + ic + r4 + d.name@ + r5 + d.desc_handle@ + r6 + d.preset_uuid@ + r7));
        lemma_contains_between(r0 + d.template_uuid@, r1, d.name@, r2, d.name_handle@ + r3 + d.name@ + ic + r4 + d.name@ + r5 + d.desc_handle@ + r6 + d.preset_uuid@ + r7, p, q);
    }
    reveal_strlit("Icon");
    reveal_strlit("FixedString");
    reveal_strlit("<attribute id=\"Icon\" type=\"FixedString\" value=\"");
    {
        let p = "<attribute id=\"Icon\" type=\"FixedString\" value=\""@;
        assert(r3.subrange(r3.len() - p.len(), r3.len() as int) =~= p);
        assert(r4.subrange(0, q.len() as int) =~= q);
        assert(value_attribute("Icon"@, "FixedString"@, d.name@ + "_Icon"@) =~= p + (d.name@ + ic) + q);
        assert(s =~= (r0 + d.template_uuid@ + r1 + d.name@ + r2 + d.name_handle@) + r3 + (d.name@ + ic) + r4 + (d.name@ + r5 + d.desc_handle@ + r6 + d.preset_uuid@ + r7));
        lemma_contains_between(r0 + d.template_uuid@ + r1 + d.name@ + r2 + d.name_handle@, r3, d.name@ + ic, r4, d.name@ + r5 + d.desc_handle@ + r6 + d.preset_uuid@ + r7, p, q);
    }
    reveal_strlit("Stats");
    reveal_strlit("FixedString");
    reveal_strlit("<attribute id=\"Stats\" type=\"FixedString\" value=\"");
    {
        let p = "<attribute id=\"Stats\" type=\"FixedString\" value=\""@;
        assert(r4.subrange(r4.len() - p.len(), r4.len() as int) =~= p);
        assert(r5.subrange(0, q.len() as int) =~= q);
        assert(value_attribute("Stats"@, "FixedString"@, d.name@) =~= p + (d.name@) + q);
        assert(s =~= (r0 + d.template_uuid@ + r1 + d.name@ + r2 + d.name_handle@ + r3 + d.name@ + ic) + r4 + (d.name@) + r5 + (d.desc_handle@ + r6 + d.preset_uuid@ + r7));
        lemma_contains_between(r0 + d.template_uuid@ + r1 + d.name@ + r2 + d.name_handle@ + r3 + d.name@ + ic, r4, d.name@, r5, d.desc_handle@ + r6 + d.preset_uuid@ + r7, p, q);
    }
    reveal_strlit("ColorPreset");
    reveal_strlit("guid");
    reveal_strlit("<attribute id=\"ColorPreset\" type=\"guid\" value=\"");
    {
        let p = "<attribute id=\"ColorPreset\" type=\"guid\" value=\""@;
        assert(r6.subrange(r6.len() - p.len(), r6.len() as int) =~= p);
        assert(r7.subrange(0, q.len() as int) =~= q);
        assert(value_attribute("ColorPreset"@, "guid"@, d.preset_uuid@) =~= p + (d.preset_uuid@) + q);
        assert(s =~= (r0 + d.template_uuid@ + r1 + d.name@ + r2 + d.name_handle@ + r3 + d.name@ + ic + r4 + d.name@ + r5 + d.desc_handle@) + r6 + (d.preset_uuid@) + r7 + (Seq::<char>::empty()));
        lemma_contains_between(r0 + d.template_uuid@ + r1 + d.name@ + r2 + d.name_handle@ + r3 + d.name@ + ic + r4 + d.name@ + r5 + d.desc_handle@, r6, d.preset_uuid@, r7, Seq::<char>::empty(), p, q);
    }
}

/// The localization of a dye holds its shown name under its name handle and
/// "A custom dye: " and the shown name under its description handle.
pub proof fn lemma_localization_handles(d: GeneratedDyeEntry)
    ensures
        contains_seq(
            list_entry(DyeListFile::Localization, d),
            "<content contentuid=\""@ + d.name_handle@ + "\" version=\"1\">"@ + spaced_name(d.name@) + "</content>"@,
        ),
        contains_seq(
            list_entry(DyeListFile::Localization, d),
            "<content contentuid=\""@ + d.desc_handle@ + "\" version=\"1\">A custom dye: "@ + spaced_name(d.name@)
                + "</content>"@,
        ),
{
    let e = Seq::<char>::empty();
    let sn = spaced_name(d.name@);
    let l0 = "\t<content contentuid=\""@;
    let l1 = "\" version=\"1\">"@;
    let l2 = "</content>\n\t<content contentuid=\""@;
    let l3 = "\" version=\"1\">A custom dye: "@;
    let l4 = "</content>"@;
    let p = "<content contentuid=\""@;
    reveal_strlit("\t<content contentuid=\"");
    reveal_strlit("</content>\n\t<content contentuid=\"");
    reveal_strlit("</content>");
    reveal_strlit("<content contentuid=\"");
    assert(l0.subrange(l0.len() - p.len(), l0.len() as int) =~= p);
    assert(l2.subrange(0, l4.len() as int) =~= l4);
    assert(localization_entry(d) =~= e + l0 + (d.name_handle@ + l1 + sn) + l2 + (d.desc_handle@ + l3 + sn + l4));
    lemma_contains_between(e, l0, d.name_handle@ + l1 + sn, l2, d.desc_handle@ + l3 + sn + l4, p, l4);
    assert(p + (d.name_handle@ + l1 + sn) + l4 =~= p + d.name_handle@ + l1 + sn + l4);
    assert(l2.subrange(l2.len() - p.len(), l2.len() as int) =~= p);
    assert(l4.subrange(0, l4.len() as int) =~= l4);
    assert(localization_entry(d) =~= (l0 + d.name_handle@ + l1 + sn) + l2 + (d.desc_handle@ + l3 + sn) + l4 + e);
    lemma_contains_between(l0 + d.name_handle@ + l1 + sn, l2, d.desc_handle@ + l3 + sn, l4, e, p, l4);
    assert(p + (d.desc_handle@ + l3 + sn) + l4 =~= p + d.desc_handle@ + l3 + sn + l4);
}

/// The material parameter node of one colour: the parameter's name and the
/// colour as an `fvec3`.
pub open spec fn color_node(name: Seq<char>, hex: Seq<char>) -> Seq<char> {
    "\t\t\t\t\t\t\t\t<node id=\"Vector3Parameters\">\n\t\t\t\t\t\t\t\t\t<attribute id=\"Color\" type=\"bool\" value=\"True\" />\n\t\t\t\t\t\t\t\t\t<attribute id=\"Custom\" type=\"bool\" value=\"False\" />\n\t\t\t\t\t\t\t\t\t<attribute id=\"Enabled\" type=\"bool\" value=\"True\" />\n\t\t\t\t\t\t\t\t\t<attribute id=\"Parameter\" type=\"FixedString\" value=\""@
        + name + "\" />\n\t\t\t\t\t\t\t\t\t<attribute id=\"Value\" type=\"fvec3\" value=\""@ + fvec3_text(hex)
        + "\" />\n\t\t\t\t\t\t\t\t</node>"@
}

/// The parameter nodes of a list of colours, in the order the colours are
/// listed; with `skip_defaults`, those still at the default grey are left
/// out.
pub open spec fn color_nodes_of(colors: Seq<(String, String)>, skip_defaults: bool) -> Seq<Seq<char>>
    decreases colors.len(),
{
    if colors.len() == 0 {
        Seq::empty()
    } else {
        let rest = color_nodes_of(colors.drop_last(), skip_defaults);
        let (n, h) = colors.last();
        if skip_defaults && is_default_color(h@) {
            rest
        } else {
            rest.push(color_node(n@, h@))
        }
    }
}

/// Every colour that is written out can be read as three hex fields
/// (slicing one that cannot panics).
pub open spec fn colors_writable(colors: Seq<(String, String)>, skip_defaults: bool) -> bool {
    forall|k: int|
        0 <= k < colors.len() ==> !(skip_defaults && is_default_color(#[trigger] colors[k].1@))
            ==> hex_fields_sliceable(colors[k].1@)
}

/// A colour preset resource: its UUID, its name, then the colour nodes.
pub open spec fn preset_resource(uuid: Seq<char>, name: Seq<char>, nodes: Seq<char>) -> Seq<char> {
    "\t\t\t\t<node id=\"Resource\">\n\t\t\t\t\t<attribute id=\"ID\" type=\"FixedString\" value=\""@ + uuid
        + "\" />\n\t\t\t\t\t<attribute id=\"Name\" type=\"LSString\" value=\""@ + name
        + "\" />\n\t\t\t\t\t<children>\n\t\t\t\t\t\t<node id=\"Presets\">\n\t\t\t\t\t\t\t<attribute id=\"MaterialResource\" type=\"FixedString\" value=\"\" />\n\t\t\t\t\t\t\t<children>\n\t\t\t\t\t\t\t\t<node id=\"ColorPreset\">\n\t\t\t\t\t\t\t\t\t<attribute id=\"ForcePresetValues\" type=\"bool\" value=\"False\" />\n\t\t\t\t\t\t\t\t\t<attribute id=\"GroupName\" type=\"FixedString\" value=\"\" />\n\t\t\t\t\t\t\t\t\t<attribute id=\"MaterialPresetResource\" type=\"FixedString\" value=\"\" />\n\t\t\t\t\t\t\t\t</node>\n\t\t\t\t\t\t\t\t<node id=\"MaterialPresets\" />\n"@
        + nodes + "\n\t\t\t\t\t\t\t</children>\n\t\t\t\t\t\t</node>\n\t\t\t\t\t</children>\n\t\t\t\t</node>"@
}

/// A colour preset resource is identified by the given UUID and carries the
/// given name.
pub proof fn lemma_preset_resource_names(uuid: Seq<char>, name: Seq<char>, nodes: Seq<char>)
    ensures
        contains_seq(preset_resource(uuid, name, nodes), value_attribute("ID"@, "FixedString"@, uuid)),
        contains_seq(preset_resource(uuid, name, nodes), value_attribute("Name"@, "LSString"@, name)),
{
    let p0 = "\t\t\t\t<node id=\"Resource\">\n\t\t\t\t\t<attribute id=\"ID\" type=\"FixedString\" value=\""@;
    reveal_strlit("\t\t\t\t<node id=\"Resource\">\n\t\t\t\t\t<attribute id=\"ID\" type=\"FixedString\" value=\"");
    let p1 = "\" />\n\t\t\t\t\t<attribute id=\"Name\" type=\"LSString\" value=\""@;
    reveal_strlit("\" />\n\t\t\t\t\t<attribute id=\"Name\" type=\"LSString\" value=\"");
    let p2 = "\" />\n\t\t\t\t\t<children>\n\t\t\t\t\t\t<node id=\"Presets\">\n\t\t\t\t\t\t\t<attribute id=\"MaterialResource\" type=\"FixedString\" value=\"\" />\n\t\t\t\t\t\t\t<children>\n\t\t\t\t\t\t\t\t<node id=\"ColorPreset\">\n\t\t\t\t\t\t\t\t\t<attribute id=\"ForcePresetValues\" type=\"bool\" value=\"False\" />\n\t\t\t\t\t\t\t\t\t<attribute id=\"GroupName\" type=\"FixedString\" value=\"\" />\n\t\t\t\t\t\t\t\t\t<attribute id=\"MaterialPresetResource\" type=\"FixedString\" value=\"\" />\n\t\t\t\t\t\t\t\t</node>\n\t\t\t\t\t\t\t\t<node id=\"MaterialPresets\" />\n"@;
    reveal_strlit("\" />\n\t\t\t\t\t<children>\n\t\t\t\t\t\t<node id=\"Presets\">\n\t\t\t\t\t\t\t<attribute id=\"MaterialResource\" type=\"FixedString\" value=\"\" />\n\t\t\t\t\t\t\t<children>\n\t\t\t\t\t\t\t\t<node id=\"ColorPreset\">\n\t\t\t\t\t\t\t\t\t<attribute id=\"ForcePresetValues\" type=\"bool\" value=\"False\" />\n\t\t\t\t\t\t\t\t\t<attribute id=\"GroupName\" type=\"FixedString\" value=\"\" />\n\t\t\t\t\t\t\t\t\t<attribute id=\"MaterialPresetResource\" type=\"FixedString\" value=\"\" />\n\t\t\t\t\t\t\t\t</node>\n\t\t\t\t\t\t\t\t<node id=\"MaterialPresets\" />\n");
    let p3 = "\n\t\t\t\t\t\t\t</children>\n\t\t\t\t\t\t</node>\n\t\t\t\t\t</children>\n\t\t\t\t</node>"@;
    reveal_strlit("\n\t\t\t\t\t\t\t</children>\n\t\t\t\t\t\t</node>\n\t\t\t\t\t</children>\n\t\t\t\t</node>");
    reveal_strlit("<attribute id=\"");
    reveal_strlit("\" type=\"");
    reveal_strlit("\" value=\"");
    reveal_strlit("\" />");
    reveal_strlit("ID");
    reveal_strlit("Name");
    reveal_strlit("LSString");
    reveal_strlit("FixedString");
    let q = "\" />"@;
    let e = Seq::<char>::empty();
    let s = preset_resource(uuid, name, nodes);
    {
        let p = "<attribute id=\"ID\" type=\"FixedString\" value=\""@;
        reveal_strlit("<attribute id=\"ID\" type=\"FixedString\" value=\"");
        assert(p0.subrange(p0.len() - p.len(), p0.len() as int) =~= p);
        assert(p1.subrange(0, q.len() as int) =~= q);
        assert(value_attribute("ID"@, "FixedString"@, uuid) =~= p + uuid + q);
        assert(s =~= e + p0 + uuid + p1 + (name + p2 + nodes + p3));
        lemma_contains_between(e, p0, uuid, p1, (name + p2 + nodes + p3), p, q);
    }
    {
        let p = "<attribute id=\"Name\" type=\"LSString\" value=\""@;
        reveal_strlit("<attribute id=\"Name\" type=\"LSString\" value=\"");
        assert(p1.subrange(p1.len() - p.len(), p1.len() as int) =~= p);
        assert(p2.subrange(0, q.len() as int) =~= q);
        assert(value_attribute("Name"@, "LSString"@, name) =~= p + name + q);
        assert(s =~= (p0 + uuid) + p1 + name + p2 + (nodes + p3));
        lemma_contains_between((p0 + uuid), p1, name, p2, (nodes + p3), p, q);
    }
}

/// Executable `preset_resource`.
fn preset_resource_text(uuid: &str, name: &str, nodes: &str) -> (s: String)
    ensures
        s@ == preset_resource(uuid@, name@, nodes@),
{
    let mut s = String::from_str(
        "\t\t\t\t<node id=\"Resource\">\n\t\t\t\t\t<attribute id=\"ID\" type=\"FixedString\" value=\"",
    );
    push_str(&mut s, uuid);
    push_str(&mut s, "\" />\n\t\t\t\t\t<attribute id=\"Name\" type=\"LSString\" value=\"");
    push_str(&mut s, name);
    push_str(
        &mut s,
        "\" />\n\t\t\t\t\t<children>\n\t\t\t\t\t\t<node id=\"Presets\">\n\t\t\t\t\t\t\t<attribute id=\"MaterialResource\" type=\"FixedString\" value=\"\" />\n\t\t\t\t\t\t\t<children>\n\t\t\t\t\t\t\t\t<node id=\"ColorPreset\">\n\t\t\t\t\t\t\t\t\t<attribute id=\"ForcePresetValues\" type=\"bool\" value=\"False\" />\n\t\t\t\t\t\t\t\t\t<attribute id=\"GroupName\" type=\"FixedString\" value=\"\" />\n\t\t\t\t\t\t\t\t\t<attribute id=\"MaterialPresetResource\" type=\"FixedString\" value=\"\" />\n\t\t\t\t\t\t\t\t</node>\n\t\t\t\t\t\t\t\t<node id=\"MaterialPresets\" />\n",
    );
    push_str(&mut s, nodes);
    push_str(&mut s, "\n\t\t\t\t\t\t\t</children>\n\t\t\t\t\t\t</node>\n\t\t\t\t\t</children>\n\t\t\t\t</node>");
    s
}

/// The colour preset resource of a dye: its preset UUID and name, then the
/// nodes of its colours other than the default grey.
pub open spec fn preset_entry(d: GeneratedDyeEntry) -> Seq<char> {
    preset_resource(d.preset_uuid@, d.name@, joined(color_nodes_of(d.colors@, true), "\n"@))
}

/// The colour nodes of a list of colours, joined by newlines.
fn color_nodes_text(colors: &Vec<(String, String)>, skip_defaults: bool) -> (s: String)
    requires
        colors_writable(colors@, skip_defaults),
    ensures
        s@ == joined(color_nodes_of(colors@, skip_defaults), "\n"@),
{
    let mut nodes: Vec<String> = Vec::new();
    let mut i: usize = 0;
    while i < colors.len()
        invariant
            i <= colors.len(),
            colors_writable(colors@, skip_defaults),
            nodes@.map_values(|p: String| p@) == color_nodes_of(colors@.take(i as int), skip_defaults),
        decreases colors.len() - i,
    {
        let ghost before = nodes@;
        let name = &colors[i].0;
        let hex = &colors[i].1;
        assert(colors@.take(i + 1).drop_last() =~= colors@.take(i as int));
        if !(skip_defaults && is_default_hex(hex.as_str())) {
            assert(hex_fields_sliceable(colors@[i as int].1@));
            let mut node = String::from_str(
                "\t\t\t\t\t\t\t\t<node id=\"Vector3Parameters\">\n\t\t\t\t\t\t\t\t\t<attribute id=\"Color\" type=\"bool\" value=\"True\" />\n\t\t\t\t\t\t\t\t\t<attribute id=\"Custom\" type=\"bool\" value=\"False\" />\n\t\t\t\t\t\t\t\t\t<attribute id=\"Enabled\" type=\"bool\" value=\"True\" />\n\t\t\t\t\t\t\t\t\t<attribute id=\"Parameter\" type=\"FixedString\" value=\"",
            );
            push_str(&mut node, name.as_str());
            push_str(&mut node, "\" />\n\t\t\t\t\t\t\t\t\t<attribute id=\"Value\" type=\"fvec3\" value=\"");
            let f = hex_to_fvec3(hex.as_str());
            push_str(&mut node, f.as_str());
            push_str(&mut node, "\" />\n\t\t\t\t\t\t\t\t</node>");
            nodes.push(node);
            assert(nodes@.map_values(|p: String| p@) =~= before.map_values(|p: String| p@).push(
                color_node(name@, hex@),
            ));
        } else {
            assert(nodes@.map_values(|p: String| p@) =~= before.map_values(|p: String| p@));
        }
        i += 1;
    }
    assert(colors@.take(colors.len() as int) =~= colors@);
    let s = join_texts(&nodes, "\n");
    s
}

/// The files that list one entry per dye.
#[derive(Clone, Copy, Debug, PartialEq, Eq, Structural)]
pub enum DyeListFile {
    Localization,
    RootTemplates,
    ColorPresets,
}

/// The entry of a dye in one of those files.
pub open spec fn list_entry(file: DyeListFile, d: GeneratedDyeEntry) -> Seq<char> {
    match file {
        DyeListFile::Localization => localization_entry(d),
        DyeListFile::RootTemplates => root_template_entry(d),
        DyeListFile::ColorPresets => preset_entry(d),
    }
}

/// Every dye's colours can be written out.
pub open spec fn dyes_writable(dyes: Seq<GeneratedDyeEntry>) -> bool {
    forall|k: int| 0 <= k < dyes.len() ==> colors_writable((#[trigger] dyes[k]).colors@, true)
}

fn list_entry_text(file: DyeListFile, d: &GeneratedDyeEntry) -> (s: String)
    requires
        file == DyeListFile::ColorPresets ==> colors_writable(d.colors@, true),
    ensures
        s@ == list_entry(file, *d),
{
    match file {
        DyeListFile::Localization => {
            let shown = display_name(d.name.as_str());
            let mut s = String::from_str("\t<content contentuid=\"");
            push_str(&mut s, d.name_handle.as_str());
            push_str(&mut s, "\" version=\"1\">");
            push_str(&mut s, shown.as_str());
            push_str(&mut s, "</content>\n\t<content contentuid=\"");
            push_str(&mut s, d.desc_handle.as_str());
            push_str(&mut s, "\" version=\"1\">A custom dye: ");
            push_str(&mut s, shown.as_str());
            push_str(&mut s, "</content>");
            s
        },
        DyeListFile::RootTemplates => {
            let mut s = String::from_str(
                "\t\t\t\t<node id=\"GameObjects\">\n\t\t\t\t\t<attribute id=\"MapKey\" type=\"FixedString\" value=\"",
            );
            push_str(&mut s, d.template_uuid.as_str());
            push_str(&mut s, "\" />\n\t\t\t\t\t<attribute id=\"Name\" type=\"LSString\" value=\"");
            push_str(&mut s, d.name.as_str());
            push_str(
                &mut s,
                "\" />\n\t\t\t\t\t<attribute id=\"LevelName\" type=\"FixedString\" value=\"\" />\n\t\t\t\t\t<attribute id=\"Type\" type=\"FixedString\" value=\"item\" />\n\t\t\t\t\t<attribute id=\"ParentTemplateId\" type=\"FixedString\" value=\"1a750a66-e5c2-40be-9f62-0a4bf3ddb403\" />\n\t\t\t\t\t<attribute id=\"DisplayName\" type=\"TranslatedString\" handle=\"",
            );
            push_str(&mut s, d.name_handle.as_str());
            push_str(&mut s, "\" version=\"1\" />\n\t\t\t\t\t<attribute id=\"Icon\" type=\"FixedString\" value=\"");
            push_str(&mut s, d.name.as_str());
            push_str(&mut s, "_Icon");
            push_str(&mut s, "\" />\n\t\t\t\t\t<attribute id=\"Stats\" type=\"FixedString\" value=\"");
            push_str(&mut s, d.name.as_str());
            push_str(&mut s, "\" />\n\t\t\t\t\t<attribute id=\"Description\" type=\"TranslatedString\" handle=\"");
            push_str(&mut s, d.desc_handle.as_str());
            push_str(&mut s, "\" version=\"1\" />\n\t\t\t\t\t<attribute id=\"ColorPreset\" type=\"guid\" value=\"");
            push_str(&mut s, d.preset_uuid.as_str());
            push_str(&mut s, "\" />\n\t\t\t\t</node>");
            s
        },
        DyeListFile::ColorPresets => {
            let nodes = color_nodes_text(&d.colors, true);
            preset_resource_text(d.preset_uuid.as_str(), d.name.as_str(), nodes.as_str())
        },
    }
}

/// The entries of all dyes in one of the list files, joined by newlines.
fn list_entries(file: DyeListFile, dyes: &Vec<GeneratedDyeEntry>) -> (s: String)
    requires
        file == DyeListFile::ColorPresets ==> dyes_writable(dyes@),
    ensures
        s@ == joined(dyes@.map_values(|d: GeneratedDyeEntry| list_entry(file, d)), "\n"@),
{
    let mut parts: Vec<String> = Vec::new();
    let mut i: usize = 0;
    while i < dyes.len()
        invariant
            i <= dyes.len(),
            file == DyeListFile::ColorPresets ==> dyes_writable(dyes@),
            parts@.map_values(|p: String| p@) == dyes@.take(i as int).map_values(
                |d: GeneratedDyeEntry| list_entry(file, d),
            ),
        decreases dyes.len() - i,
    {
        let ghost before = parts@;
        proof {
            if file == DyeListFile::ColorPresets {
                assert(colors_writable(dyes@[i as int].colors@, true));
            }
        }
        parts.push(list_entry_text(file, &dyes[i]));
        proof {
            assert(parts@.map_values(|p: String| p@) =~= before.map_values(|p: String| p@).push(
                list_entry(file, dyes@[i as int]),
            ));
            assert(dyes@.take(i + 1).map_values(|d: GeneratedDyeEntry| list_entry(file, d)) =~= dyes@.take(
                i as int,
            ).map_values(|d: GeneratedDyeEntry| list_entry(file, d)).push(list_entry(file, dyes@[i as int])));
        }
        i += 1;
    }
    assert(dyes@.take(dyes.len() as int) =~= dyes@);
    join_texts(&parts, "\n")
}

/// The whole text of a list file: its XML frame around the dyes' entries.
pub open spec fn list_file_text(file: DyeListFile, dyes: Seq<GeneratedDyeEntry>) -> Seq<char> {
    let body = joined(dyes.map_values(|d: GeneratedDyeEntry| list_entry(file, d)), "\n"@);
    match file {
        DyeListFile::Localization => "<?xml version=\"1.0\" encoding=\"utf-8\"?>\n<contentList>\n"@ + body
            + "\n</contentList>\n"@,
        DyeListFile::RootTemplates => "<?xml version=\"1.0\" encoding=\"utf-8\"?>\n<save>\n\t<version major=\"4\" minor=\"7\" revision=\"1\" build=\"3\" lslib_meta=\"v1,bswap_guids\" />\n\t<region id=\"Templates\">\n\t\t<node id=\"Templates\">\n\t\t\t<children>\n"@
            + body + "\n\t\t\t</children>\n\t\t</node>\n\t</region>\n</save>\n"@,
        DyeListFile::ColorPresets => "<?xml version=\"1.0\" encoding=\"utf-8\"?>\n<save>\n\t<version major=\"4\" minor=\"7\" revision=\"1\" build=\"3\" lslib_meta=\"v1,bswap_guids\" />\n\t<region id=\"MaterialPresetBank\">\n\t\t<node id=\"MaterialPresetBank\">\n\t\t\t<children>\n"@
            + body + "\n\t\t\t</children>\n\t\t</node>\n\t</region>\n</save>\n"@,
    }
}

/// The text of a list file for the given dyes.
pub fn list_file_content(file: DyeListFile, dyes: &Vec<GeneratedDyeEntry>) -> (s: String)
    requires
        file == DyeListFile::ColorPresets ==> dyes_writable(dyes@),
    ensures
        s@ == list_file_text(file, dyes@),
{
    let body = list_entries(file, dyes);
    let mut s = match file {
        DyeListFile::Localization => String::from_str(
            "<?xml version=\"1.0\" encoding=\"utf-8\"?>\n<contentList>\n",
        ),
        DyeListFile::RootTemplates => String::from_str(
            "<?xml version=\"1.0\" encoding=\"utf-8\"?>\n<save>\n\t<version major=\"4\" minor=\"7\" revision=\"1\" build=\"3\" lslib_meta=\"v1,bswap_guids\" />\n\t<region id=\"Templates\">\n\t\t<node id=\"Templates\">\n\t\t\t<children>\n",
        ),
        DyeListFile::ColorPresets => String::from_str(
            "<?xml version=\"1.0\" encoding=\"utf-8\"?>\n<save>\n\t<version major=\"4\" minor=\"7\" revision=\"1\" build=\"3\" lslib_meta=\"v1,bswap_guids\" />\n\t<region id=\"MaterialPresetBank\">\n\t\t<node id=\"MaterialPresetBank\">\n\t\t\t<children>\n",
        ),
    };
    push_str(&mut s, body.as_str());
    match file {
        DyeListFile::Localization => push_str(&mut s, "\n</contentList>\n"),
        _ => push_str(&mut s, "\n\t\t\t</children>\n\t\t</node>\n\t</region>\n</save>\n"),
    }
    s
}

/// The texture bank of the mod: one resource, with the given UUID, for the
/// icon atlas "<mod>_Icons".
pub open spec fn texture_bank_text(mod_name: Seq<char>, texture_uuid: Seq<char>) -> Seq<char> {
    "<?xml version=\"1.0\" encoding=\"utf-8\"?>\n<save>\n\t<version major=\"4\" minor=\"7\" revision=\"1\" build=\"3\" lslib_meta=\"v1,bswap_guids\" />\n\t<region id=\"TextureBank\">\n\t\t<node id=\"TextureBank\">\n\t\t\t<children>\n\t\t\t\t<node id=\"Resource\">\n\t\t\t\t\t<attribute id=\"ID\" type=\"FixedString\" value=\""@
        + texture_uuid
        + "\" />\n\t\t\t\t\t<attribute id=\"Localized\" type=\"bool\" value=\"False\" />\n\t\t\t\t\t<attribute id=\"Name\" type=\"LSString\" value=\""@
        + mod_name
        + "_Icons\" />\n\t\t\t\t\t<attribute id=\"SRGB\" type=\"bool\" value=\"True\" />\n\t\t\t\t\t<attribute id=\"SourceFile\" type=\"LSString\" value=\"Public/"@
        + mod_name + "/Assets/Textures/Icons/"@ + mod_name
        + "_Icons.dds\" />\n\t\t\t\t\t<attribute id=\"Streaming\" type=\"bool\" value=\"True\" />\n\t\t\t\t\t<attribute id=\"Template\" type=\"FixedString\" value=\""@
        + mod_name
        + "_Icons\" />\n\t\t\t\t\t<attribute id=\"Type\" type=\"int32\" value=\"0\" />\n\t\t\t\t</node>\n\t\t\t</children>\n\t\t</node>\n\t</region>\n</save>\n"@
}

/// The texture bank text of a mod.
pub fn texture_bank_content(mod_name: &str, texture_uuid: &str) -> (s: String)
    ensures
        s@ == texture_bank_text(mod_name@, texture_uuid@),
{
    let mut s = String::from_str(
        "<?xml version=\"1.0\" encoding=\"utf-8\"?>\n<save>\n\t<version major=\"4\" minor=\"7\" revision=\"1\" build=\"3\" lslib_meta=\"v1,bswap_guids\" />\n\t<region id=\"TextureBank\">\n\t\t<node id=\"TextureBank\">\n\t\t\t<children>\n\t\t\t\t<node id=\"Resource\">\n\t\t\t\t\t<attribute id=\"ID\" type=\"FixedString\" value=\"",
    );
    push_str(&mut s, texture_uuid);
    push_str(
        &mut s,
        "\" />\n\t\t\t\t\t<attribute id=\"Localized\" type=\"bool\" value=\"False\" />\n\t\t\t\t\t<attribute id=\"Name\" type=\"LSString\" value=\"",
    );
    push_str(&mut s, mod_name);
    push_str(
        &mut s,
        "_Icons\" />\n\t\t\t\t\t<attribute id=\"SRGB\" type=\"bool\" value=\"True\" />\n\t\t\t\t\t<attribute id=\"SourceFile\" type=\"LSString\" value=\"Public/",
    );
    push_str(&mut s, mod_name);
    push_str(&mut s, "/Assets/Textures/Icons/");
    push_str(&mut s, mod_name);
    push_str(
        &mut s,
        "_Icons.dds\" />\n\t\t\t\t\t<attribute id=\"Streaming\" type=\"bool\" value=\"True\" />\n\t\t\t\t\t<attribute id=\"Template\" type=\"FixedString\" value=\"",
    );
    push_str(&mut s, mod_name);
    push_str(
        &mut s,
        "_Icons\" />\n\t\t\t\t\t<attribute id=\"Type\" type=\"int32\" value=\"0\" />\n\t\t\t\t</node>\n\t\t\t</children>\n\t\t</node>\n\t</region>\n</save>\n",
    );
    s
}

/// The files of an exported dye mod that are written once per mod.
#[derive(Clone, Copy, Debug, PartialEq, Eq, Structural)]
pub enum DyeModFile {
    Localization,
    LocalizationBinary,
    Meta,
    Objects,
    ItemCombos,
    TreasureTable,
    RootTemplates,
    ColorPresets,
    TextureAtlasInfo,
    TextureBank,
    IconAtlas,
}

/// Where a file of the mod goes, relative to the output folder.
pub open spec fn mod_file_path(file: DyeModFile, m: Seq<char>) -> Seq<char> {
    match file {
        DyeModFile::Localization => "Localization/English/"@ + m + ".xml"@,
        DyeModFile::LocalizationBinary => "Localization/English/"@ + m + ".loca"@,
        DyeModFile::Meta => "Mods/"@ + m + "/meta.lsx"@,
        DyeModFile::Objects => "Public/"@ + m + "/Stats/Generated/Data/Object.txt"@,
        DyeModFile::ItemCombos => "Public/"@ + m + "/Stats/Generated/ItemCombos.txt"@,
        DyeModFile::TreasureTable => "Public/"@ + m + "/Stats/Generated/TreasureTable.txt"@,
        DyeModFile::RootTemplates => "Public/"@ + m + "/RootTemplates/"@ + m + "_Dyes.lsx"@,
        DyeModFile::ColorPresets => "Public/"@ + m + "/Content/Assets/Characters/[PAK]_DYE_Colors/_merged.lsx"@,
        DyeModFile::TextureAtlasInfo => "Public/"@ + m + "/GUI/"@ + m + "_TextureAtlasInfo.lsx"@,
        DyeModFile::TextureBank => "Public/"@ + m + "/Content/UI/[PAK]_UI/"@ + m + "_TextureBank.lsx"@,
        DyeModFile::IconAtlas => "Public/"@ + m + "/Assets/Textures/Icons/"@ + m + "_Icons.dds"@,
    }
}

/// `prefix`, the mod name, `middle`, the mod name again, `suffix`.
fn path_twice(prefix: &str, m: &str, middle: &str, suffix: &str) -> (s: String)
    ensures
        s@ == prefix@ + m@ + middle@ + m@ + suffix@,
{
    let mut s = String::from_str(prefix);
    push_str(&mut s, m);
    push_str(&mut s, middle);
    push_str(&mut s, m);
    push_str(&mut s, suffix);
    s
}

/// `prefix`, the mod name, `suffix`.
fn path_once(prefix: &str, m: &str, suffix: &str) -> (s: String)
    ensures
        s@ == prefix@ + m@ + suffix@,
{
    let mut s = String::from_str(prefix);
    push_str(&mut s, m);
    push_str(&mut s, suffix);
    s
}

/// The path of a file of the mod.
pub fn mod_file_path_of(file: DyeModFile, mod_name: &str) -> (s: String)
    ensures
        s@ == mod_file_path(file, mod_name@),
{
    match file {
        DyeModFile::Localization => path_once("Localization/English/", mod_name, ".xml"),
        DyeModFile::LocalizationBinary => path_once("Localization/English/", mod_name, ".loca"),
        DyeModFile::Meta => path_once("Mods/", mod_name, "/meta.lsx"),
        DyeModFile::Objects => path_once("Public/", mod_name, "/Stats/Generated/Data/Object.txt"),
        DyeModFile::ItemCombos => path_once("Public/", mod_name, "/Stats/Generated/ItemCombos.txt"),
        DyeModFile::TreasureTable => path_once("Public/", mod_name, "/Stats/Generated/TreasureTable.txt"),
        DyeModFile::RootTemplates => path_twice("Public/", mod_name, "/RootTemplates/", "_Dyes.lsx"),
        DyeModFile::ColorPresets => path_once(
            "Public/",
            mod_name,
            "/Content/Assets/Characters/[PAK]_DYE_Colors/_merged.lsx",
        ),
        DyeModFile::TextureAtlasInfo => path_twice("Public/", mod_name, "/GUI/", "_TextureAtlasInfo.lsx"),
        DyeModFile::TextureBank => path_twice("Public/", mod_name, "/Content/UI/[PAK]_UI/", "_TextureBank.lsx"),
        DyeModFile::IconAtlas => path_twice("Public/", mod_name, "/Assets/Textures/Icons/", "_Icons.dds"),
    }
}

/// The two icon files of a dye (tooltip and controller icons).
pub open spec fn icon_paths(name: Seq<char>) -> (Seq<char>, Seq<char>) {
    (
        "Public/Game/GUI/Assets/Tooltips/ItemIcons/"@ + name + "_Icon.DDS"@,
        "Public/Game/GUI/Assets/ControllerUIIcons/items_png/"@ + name + "_Icon.DDS"@,
    )
}

/// The icon files of every dye, two per dye in dye order.
pub open spec fn icon_file_paths(dyes: Seq<GeneratedDyeEntry>) -> Seq<Seq<char>>
    decreases dyes.len(),
{
    if dyes.len() == 0 {
        Seq::empty()
    } else {
        let (a, b) = icon_paths(dyes.last().name@);
        icon_file_paths(dyes.drop_last()).push(a).push(b)
    }
}

/// The paths of the icon files of the dyes.
pub fn icon_file_paths_of(dyes: &Vec<GeneratedDyeEntry>) -> (paths: Vec<String>)
    ensures
        paths@.map_values(|p: String| p@) == icon_file_paths(dyes@),
{
    let mut paths: Vec<String> = Vec::new();
    let mut i: usize = 0;
    while i < dyes.len()
        invariant
            i <= dyes.len(),
            paths@.map_values(|p: String| p@) == icon_file_paths(dyes@.take(i as int)),
        decreases dyes.len() - i,
    {
        let ghost before = paths@;
        paths.push(path_once("Public/Game/GUI/Assets/Tooltips/ItemIcons/", dyes[i].name.as_str(), "_Icon.DDS"));
        paths.push(
            path_once("Public/Game/GUI/Assets/ControllerUIIcons/items_png/", dyes[i].name.as_str(), "_Icon.DDS"),
        );
        proof {
            assert(dyes@.take(i + 1).drop_last() =~= dyes@.take(i as int));
            let (a, b) = icon_paths(dyes@[i as int].name@);
            assert(paths@.map_values(|p: String| p@) =~= before.map_values(|p: String| p@).push(a).push(b));
        }
        i += 1;
    }
    assert(dyes@.take(dyes.len() as int) =~= dyes@);
    paths
}

/// The text files of an exported dye mod, as (path, text) pairs: the
/// localization, the meta with the mod's UUID, the three stats files, the
/// root templates, the colour presets and the texture bank with the
/// texture's UUID.
pub open spec fn mod_text_files(
    m: Seq<char>,
    mod_uuid: Seq<char>,
    texture_uuid: Seq<char>,
    dyes: Seq<GeneratedDyeEntry>,
) -> Seq<(Seq<char>, Seq<char>)> {
    let stats = |f: StatsFile| joined(dyes.map_values(|d: GeneratedDyeEntry| stats_entry(f, d)), "\n\n"@);
    seq![
        (mod_file_path(DyeModFile::Localization, m), list_file_text(DyeListFile::Localization, dyes)),
        (mod_file_path(DyeModFile::Meta, m), meta_lsx_text(m, mod_uuid)),
        (mod_file_path(DyeModFile::Objects, m), stats(StatsFile::Object)),
        (mod_file_path(DyeModFile::ItemCombos, m), stats(StatsFile::ItemCombos)),
        (mod_file_path(DyeModFile::TreasureTable, m), stats(StatsFile::TreasureTable)),
        (mod_file_path(DyeModFile::RootTemplates, m), list_file_text(DyeListFile::RootTemplates, dyes)),
        (mod_file_path(DyeModFile::ColorPresets, m), list_file_text(DyeListFile::ColorPresets, dyes)),
        (mod_file_path(DyeModFile::TextureBank, m), texture_bank_text(m, texture_uuid)),
    ]
}

/// The text files of an exported dye mod with their paths.
pub fn mod_text_files_of(
    mod_name: &str,
    mod_uuid: &str,
    texture_uuid: &str,
    dyes: &Vec<GeneratedDyeEntry>,
) -> (files: Vec<(String, String)>)
    requires
        dyes_writable(dyes@),
    ensures
        files@.map_values(|f: (String, String)| (f.0@, f.1@)) == mod_text_files(
            mod_name@,
            mod_uuid@,
            texture_uuid@,
            dyes@,
        ),
{
    let mut files: Vec<(String, String)> = Vec::new();
    files.push(
        (
            mod_file_path_of(DyeModFile::Localization, mod_name),
            list_file_content(DyeListFile::Localization, dyes),
        ),
    );
    files.push((mod_file_path_of(DyeModFile::Meta, mod_name), meta_lsx_content(mod_name, mod_uuid)));
    files.push((mod_file_path_of(DyeModFile::Objects, mod_name), stats_file_content(StatsFile::Object, dyes)));
    files.push(
        (mod_file_path_of(DyeModFile::ItemCombos, mod_name), stats_file_content(StatsFile::ItemCombos, dyes)),
    );
    files.push(
        (
            mod_file_path_of(DyeModFile::TreasureTable, mod_name),
            stats_file_content(StatsFile::TreasureTable, dyes),
        ),
    );
    files.push(
        (
            mod_file_path_of(DyeModFile::RootTemplates, mod_name),
            list_file_content(DyeListFile::RootTemplates, dyes),
        ),
    );
    files.push(
        (
            mod_file_path_of(DyeModFile::ColorPresets, mod_name),
            list_file_content(DyeListFile::ColorPresets, dyes),
        ),
    );
    files.push((mod_file_path_of(DyeModFile::TextureBank, mod_name), texture_bank_content(mod_name, texture_uuid)));
    assert(files@.map_values(|f: (String, String)| (f.0@, f.1@)) =~= mod_text_files(
        mod_name@,
        mod_uuid@,
        texture_uuid@,
        dyes@,
    ));
    files
}

/// The preset resource of an imported dye as re-exported: its preset UUID
/// (empty without one), its name and the nodes of all its colours.
pub open spec fn reexport_entry(e: ImportedDyeEntry) -> Seq<char> {
    let uuid = match e.preset_uuid {
        Some(u) => u@,
        None => Seq::empty(),
    };
    preset_resource(uuid, e.name@, joined(color_nodes_of(e.colors@, false), "\n"@))
}

/// Every colour of every imported dye can be read as three hex fields.
pub open spec fn imported_writable(entries: Seq<ImportedDyeEntry>) -> bool {
    forall|k: int| 0 <= k < entries.len() ==> colors_writable((#[trigger] entries[k]).colors@, false)
}

/// The colour preset bank that re-exports the imported dyes, in order.
pub open spec fn reexport_presets_text(entries: Seq<ImportedDyeEntry>) -> Seq<char> {
    "<?xml version=\"1.0\" encoding=\"utf-8\"?>\n<save>\n\t<version major=\"4\" minor=\"7\" revision=\"1\" build=\"3\" lslib_meta=\"v1,bswap_guids\" />\n\t<region id=\"MaterialPresetBank\">\n\t\t<node id=\"MaterialPresetBank\">\n\t\t\t<children>\n"@
        + joined(entries.map_values(|e: ImportedDyeEntry| reexport_entry(e)), "\n"@)
        + "\n\t\t\t</children>\n\t\t</node>\n\t</region>\n</save>\n"@
}

/// The colour preset bank (as LSX text) that re-exports the imported dyes.
pub fn reexport_presets_content(entries: &Vec<ImportedDyeEntry>) -> (s: String)
    requires
        imported_writable(entries@),
    ensures
        s@ == reexport_presets_text(entries@),
{
    let mut parts: Vec<String> = Vec::new();
    let mut i: usize = 0;
    while i < entries.len()
        invariant
            i <= entries.len(),
            imported_writable(entries@),
            parts@.map_values(|p: String| p@) == entries@.take(i as int).map_values(
                |e: ImportedDyeEntry| reexport_entry(e),
            ),
        decreases entries.len() - i,
    {
        let ghost before = parts@;
        let e = &entries[i];
        assert(colors_writable(entries@[i as int].colors@, false));
        let nodes = color_nodes_text(&e.colors, false);
        let uuid = match &e.preset_uuid {
            Some(u) => u.clone(),
            None => String::new(),
        };
        parts.push(preset_resource_text(uuid.as_str(), e.name.as_str(), nodes.as_str()));
        proof {
            assert(parts@.map_values(|p: String| p@) =~= before.map_values(|p: String| p@).push(
                reexport_entry(entries@[i as int]),
            ));
            assert(entries@.take(i + 1).map_values(|e: ImportedDyeEntry| reexport_entry(e)) =~= entries@.take(
                i as int,
            ).map_values(|e: ImportedDyeEntry| reexport_entry(e)).push(reexport_entry(entries@[i as int])));
        }
        i += 1;
    }
    assert(entries@.take(entries.len() as int) =~= entries@);
    let body = join_texts(&parts, "\n");
    let mut s = String::from_str(
        "<?xml version=\"1.0\" encoding=\"utf-8\"?>\n<save>\n\t<version major=\"4\" minor=\"7\" revision=\"1\" build=\"3\" lslib_meta=\"v1,bswap_guids\" />\n\t<region id=\"MaterialPresetBank\">\n\t\t<node id=\"MaterialPresetBank\">\n\t\t\t<children>\n",
    );
    push_str(&mut s, body.as_str());
    push_str(&mut s, "\n\t\t\t</children>\n\t\t</node>\n\t</region>\n</save>\n");
    s
}

} // verus!
