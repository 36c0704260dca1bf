//! Importing dyes from a mod's stat files: the entries found in
//! ItemCombos.txt and Object.txt are merged by dye name and listed in name
//! order.
use vstd::prelude::*;
use crate::text::{chars_of, lex_order, lex_order_of, lemma_lex_order_antisym, lemma_lex_order_trans, str_eq};

verus! {

/// A dye entry read from a stat file.
pub struct ParsedDyeEntry {
    pub name: String,
    pub preset_uuid: Option<String>,
    pub root_template_uuid: Option<String>,
}

/// An imported dye: its name, colour preset and root template, where known.
pub type ImportedTxtEntry = (String, Option<String>, Option<String>);

/// The characters of an optional text.
pub open spec fn opt_text(o: Option<String>) -> Option<Seq<char>> {
    match o {
        Some(s) => Some(s@),
        None => None,
    }
}

/// What an entry records for its dye: the preset and root template.
pub open spec fn entry_value(e: ParsedDyeEntry) -> (Option<Seq<char>>, Option<Seq<char>>) {
    (opt_text(e.preset_uuid), opt_text(e.root_template_uuid))
}

/// The dyes of ItemCombos.txt by name: a later entry of a name replaces an
/// earlier one.
pub open spec fn combos_map(s: Seq<ParsedDyeEntry>) -> Map<Seq<char>, (Option<Seq<char>>, Option<Seq<char>>)>
    decreases s.len(),
{
    if s.len() == 0 {
        Map::empty()
    } else {
        combos_map(s.drop_last()).insert(s.last().name@, entry_value(s.last()))
    }
}

/// The merged dyes: those of ItemCombos.txt, then each Object.txt entry
/// either adds its dye or, for a dye already known, sets its root template
/// when it names one.
pub open spec fn merged_map(
    combos: Seq<ParsedDyeEntry>,
    objects: Seq<ParsedDyeEntry>,
) -> Map<Seq<char>, (Option<Seq<char>>, Option<Seq<char>>)>
    decreases objects.len(),
{
    if objects.len() == 0 {
        combos_map(combos)
    } else {
        let m = merged_map(combos, objects.drop_last());
        let e = objects.last();
        if m.contains_key(e.name@) {
            match e.root_template_uuid {
                Some(r) => m.insert(e.name@, (m[e.name@].0, Some(r@))),
                None => m,
            }
        } else {
            m.insert(e.name@, entry_value(e))
        }
    }
}

/// `v` lists exactly the dyes of `m`, once each, with their values.
pub open spec fn lists_map(
    v: Seq<ParsedDyeEntry>,
    m: Map<Seq<char>, (Option<Seq<char>>, Option<Seq<char>>)>,
) -> bool {
    &&& forall|i: int, j: int| 0 <= i < v.len() && 0 <= j < v.len() && i != j ==> (#[trigger] v[i]).name@ != (
    #[trigger] v[j]).name@
    &&& forall|i: int| 0 <= i < v.len() ==> m.contains_key((#[trigger] v[i]).name@) && m[v[i].name@] == entry_value(
        v[i],
    )
    &&& forall|k: Seq<char>| #[trigger] m.contains_key(k) ==> exists|i: int| 0 <= i < v.len() && (#[trigger] v[i]).name@
        == k
}

/// The result of an import: the merged dyes, by strictly increasing name
/// (in code point order, as `str` compares), each with its preset and root
/// template.
pub open spec fn is_import_listing(
    out: Seq<ImportedTxtEntry>,
    m: Map<Seq<char>, (Option<Seq<char>>, Option<Seq<char>>)>,
) -> bool {
    &&& forall|i: int, j: int| 0 <= i < j < out.len() ==> lex_order((#[trigger] out[i]).0@, (#[trigger] out[j]).0@) < 0
    &&& forall|i: int| 0 <= i < out.len() ==> m.contains_key((#[trigger] out[i]).0@) && m[out[i].0@] == (
        opt_text(out[i].1),
        opt_text(out[i].2),
    )
    &&& forall|k: Seq<char>| #[trigger] m.contains_key(k) ==> exists|i: int| 0 <= i < out.len() && (#[trigger] out[i]).0@
        == k
}

/// A copy of an optional text.
fn copy_opt(o: &Option<String>) -> (r: Option<String>)
    ensures
        opt_text(r) == opt_text(*o),
{
    match o {
        Some(s) => Some(s.clone()),
        None => None,
    }
}

/// A copy of an entry.
fn copy_entry(e: &ParsedDyeEntry) -> (r: ParsedDyeEntry)
    ensures
        r.name@ == e.name@,
        entry_value(r) == entry_value(*e),
{
    ParsedDyeEntry { name: e.name.clone(), preset_uuid: copy_opt(&e.preset_uuid), root_template_uuid: copy_opt(&e.root_template_uuid) }
}

/// The position of the entry named `name`, if any.
fn find_name(v: &Vec<ParsedDyeEntry>, name: &str) -> (r: Option<usize>)
    ensures
        match r {
            Some(i) => i < v.len() && v@[i as int].name@ == name@,
            None => forall|i: int| 0 <= i < v.len() ==> (#[trigger] v@[i]).name@ != name@,
        },
{
    let mut i: usize = 0;
    while i < v.len()
        invariant
            i <= v.len(),
            forall|j: int| 0 <= j < i ==> (#[trigger] v@[j]).name@ != name@,
        decreases v.len() - i,
    {
        if str_eq(v[i].name.as_str(), name) {
            return Some(i);
        }
        i += 1;
    }
    None
}

/// The dyes of both files, one entry per name (in first-seen order).
fn merge_entries(combos: &Vec<ParsedDyeEntry>, objects: &Vec<ParsedDyeEntry>) -> (v: Vec<ParsedDyeEntry>)
    ensures
        lists_map(v@, merged_map(combos@, objects@)),
{
    let mut v: Vec<ParsedDyeEntry> = Vec::new();
    let mut i: usize = 0;
    assert(combos@.take(0) =~= Seq::<ParsedDyeEntry>::empty());
    while i < combos.len()
        invariant
            i <= combos.len(),
            lists_map(v@, combos_map(combos@.take(i as int))),
        decreases combos.len() - i,
    {
        let e = &combos[i];
        let ghost m0 = combos_map(combos@.take(i as int));
        proof {
            assert(combos@.take(i + 1).drop_last() =~= combos@.take(i as int));
            assert(combos@.take(i + 1).last() == combos@[i as int]);
        }
        let ghost m1 = combos_map(combos@.take(i + 1));
        assert(m1 == m0.insert(e.name@, entry_value(*e)));
        match find_name(&v, e.name.as_str()) {
            Some(k) => {
                let ghost before = v@;
                v.set(k, copy_entry(e));
                assert forall|k2: Seq<char>| #[trigger] m1.contains_key(k2) implies exists|j: int| 0 <= j < v@.len()
                    && (#[trigger] v@[j]).name@ == k2 by {
                    if k2 == e.name@ {
                        assert(v@[k as int].name@ == k2);
                    } else {
                        assert(m0.contains_key(k2));
                        let j = choose|j: int| 0 <= j < before.len() && (#[trigger] before[j]).name@ == k2;
                        assert(v@[j].name@ == k2);
                    }
                }
            },
            None => {
                let ghost before = v@;
                v.push(copy_entry(e));
                assert forall|k2: Seq<char>| #[trigger] m1.contains_key(k2) implies exists|j: int| 0 <= j < v@.len()
                    && (#[trigger] v@[j]).name@ == k2 by {
                    if k2 == e.name@ {
                        assert(v@[before.len() as int].name@ == k2);
                    } else {
                        assert(m0.contains_key(k2));
                        let j = choose|j: int| 0 <= j < before.len() && (#[trigger] before[j]).name@ == k2;
                        assert(v@[j].name@ == k2);
                    }
                }
            },
        }
        i += 1;
    }
    assert(combos@.take(combos.len() as int) =~= combos@);
    let mut j: usize = 0;
    assert(objects@.take(0) =~= Seq::<ParsedDyeEntry>::empty());
    while j < objects.len()
        invariant
            j <= objects.len(),
            lists_map(v@, merged_map(combos@, objects@.take(j as int))),
        decreases objects.len() - j,
    {
        let e = &objects[j];
        let ghost m0 = merged_map(combos@, objects@.take(j as int));
        proof {
            assert(objects@.take(j + 1).drop_last() =~= objects@.take(j as int));
            assert(objects@.take(j + 1).last() == objects@[j as int]);
        }
        let ghost m1 = merged_map(combos@, objects@.take(j + 1));
        match find_name(&v, e.name.as_str()) {
            Some(k) => {
                assert(m0.contains_key(e.name@));
                match &e.root_template_uuid {
                    Some(r) => {
                        let ghost before = v@;
                        let updated = ParsedDyeEntry {
                            name: v[k].name.clone(),
                            preset_uuid: copy_opt(&v[k].preset_uuid),
                            root_template_uuid: Some(r.clone()),
                        };
                        v.set(k, updated);
                        assert(m1 == m0.insert(e.name@, (m0[e.name@].0, Some(r@))));
                        assert forall|k2: Seq<char>| #[trigger] m1.contains_key(k2) implies exists|jj: int| 0 <= jj
                            < v@.len() && (#[trigger] v@[jj]).name@ == k2 by {
                            if k2 == e.name@ {
                                assert(v@[k as int].name@ == k2);
                            } else {
                                let jj = choose|jj: int| 0 <= jj < before.len() && (#[trigger] before[jj]).name@ == k2;
                                assert(v@[jj].name@ == k2);
                            }
                        }
                    },
                    None => {
                        assert(m1 == m0);
                    },
                }
            },
            None => {
                let ghost before = v@;
                assert(!m0.contains_key(e.name@)) by {
                    if m0.contains_key(e.name@) {
                        let jj = choose|jj: int| 0 <= jj < before.len() && (#[trigger] before[jj]).name@ == e.name@;
                        assert(before[jj].name@ != e.name@);
                    }
                }
                v.push(copy_entry(e));
                assert(m1 == m0.insert(e.name@, entry_value(*e)));
                assert forall|k2: Seq<char>| #[trigger] m1.contains_key(k2) implies exists|jj: int| 0 <= jj < v@.len()
                    && (#[trigger] v@[jj]).name@ == k2 by {
                    if k2 == e.name@ {
                        assert(v@[before.len() as int].name@ == k2);
                    } else {
                        let jj = choose|jj: int| 0 <= jj < before.len() && (#[trigger] before[jj]).name@ == k2;
                        assert(v@[jj].name@ == k2);
                    }
                }
            },
        }
        j += 1;
    }
    assert(objects@.take(objects.len() as int) =~= objects@);
    v
}

/// Sorted by strictly increasing name.
pub open spec fn strictly_sorted(out: Seq<ImportedTxtEntry>) -> bool {
    forall|a: int, b: int| 0 <= a < b < out.len() ==> lex_order((#[trigger] out[a]).0@, (#[trigger] out[b]).0@) < 0
}

/// Inserting an entry at the place where it belongs keeps the order strict.
proof fn lemma_sorted_insert(before: Seq<ImportedTxtEntry>, p: int, x: ImportedTxtEntry)
    requires
        strictly_sorted(before),
        0 <= p <= before.len(),
        forall|a: int| 0 <= a < p ==> lex_order((#[trigger] before[a]).0@, x.0@) < 0,
        forall|a: int| p <= a < before.len() ==> lex_order(x.0@, (#[trigger] before[a]).0@) < 0,
    ensures
        strictly_sorted(before.insert(p, x)),
{
    let out = before.insert(p, x);
    before.insert_ensures(p, x);
    assert forall|a: int, b: int| 0 <= a < b < out.len() implies lex_order((#[trigger] out[a]).0@, (#[trigger] out[b]).0@)
        < 0 by {
        if a < p && b == p {
        } else if a == p && b > p {
            assert(out[b] == before[b - 1]);
        } else if a < p && b > p {
            assert(out[b] == before[b - 1]);
            lemma_lex_order_trans(before[a].0@, x.0@, before[b - 1].0@);
        } else if a > p {
            assert(out[a] == before[a - 1] && out[b] == before[b - 1]);
        }
    }
}

/// Where each listed entry came from (`src`) and where each of the first
/// `i` entries of `v` is listed (`pos`).
pub open spec fn tracks(
    v: Seq<ParsedDyeEntry>,
    i: int,
    out: Seq<ImportedTxtEntry>,
    src: Seq<int>,
    pos: Seq<int>,
) -> bool {
    &&& src.len() == out.len()
    &&& pos.len() == i
    &&& forall|a: int| 0 <= a < out.len() ==> 0 <= #[trigger] src[a] < i && v[src[a]].name@ == out[a].0@
    &&& forall|q: int| 0 <= q < i ==> 0 <= #[trigger] pos[q] < out.len() && out[pos[q]].0@ == v[q].name@
}

/// Inserting the listing entry of `v[i]` at `p` keeps the tracking, with
/// the positions at or after `p` moved up by one.
proof fn lemma_insert_tracks(
    v: Seq<ParsedDyeEntry>,
    i: int,
    before: Seq<ImportedTxtEntry>,
    p: int,
    x: ImportedTxtEntry,
    src: Seq<int>,
    pos: Seq<int>,
)
    requires
        0 <= i < v.len(),
        0 <= p <= before.len(),
        x.0@ == v[i].name@,
        tracks(v, i, before, src, pos),
    ensures
        tracks(
            v,
            i + 1,
            before.insert(p, x),
            src.insert(p, i),
            pos.map_values(|y: int| if y >= p { y + 1 } else { y }).push(p),
        ),
{
    let out = before.insert(p, x);
    before.insert_ensures(p, x);
    src.insert_ensures(p, i);
    let src2 = src.insert(p, i);
    let pos2 = pos.map_values(|y: int| if y >= p { y + 1 } else { y }).push(p);
    assert forall|a: int| 0 <= a < out.len() implies 0 <= #[trigger] src2[a] < i + 1 && v[src2[a]].name@ == out[a].0@ by {
        if a < p {
            assert(src2[a] == src[a] && out[a] == before[a]);
        } else if a > p {
            assert(src2[a] == src[a - 1] && out[a] == before[a - 1]);
        }
    }
    assert forall|q: int| 0 <= q < i + 1 implies 0 <= #[trigger] pos2[q] < out.len() && out[pos2[q]].0@ == v[q].name@ by {
        if q < i {
            let y = pos[q];
            if y >= p {
                assert(pos2[q] == y + 1);
                assert(out[y + 1] == before[y]);
            } else {
                assert(pos2[q] == y);
                assert(out[y] == before[y]);
            }
        }
    }
}

/// The dyes found in a stat file's ItemCombos and Object entries, merged by
/// name and listed by name.
#[verifier::rlimit(40)]
pub fn merge_imported(combos: &Vec<ParsedDyeEntry>, objects: &Vec<ParsedDyeEntry>) -> (out: Vec<ImportedTxtEntry>)
    ensures
        is_import_listing(out@, merged_map(combos@, objects@)),
{
    let v = merge_entries(combos, objects);
    let ghost m = merged_map(combos@, objects@);
    let mut out: Vec<ImportedTxtEntry> = Vec::new();
    let mut i: usize = 0;
    let ghost mut src: Seq<int> = Seq::empty();
    let ghost mut pos: Seq<int> = Seq::empty();
    while i < v.len()
        invariant
            i <= v.len(),
            lists_map(v@, m),
            strictly_sorted(out@),
            forall|a: int| 0 <= a < out@.len() ==> m.contains_key((#[trigger] out@[a]).0@) && m[out@[a].0@] == (
                opt_text(out@[a].1),
                opt_text(out@[a].2),
            ),
            tracks(v@, i as int, out@, src, pos),
        decreases v.len() - i,
    {
        let name = chars_of(v[i].name.as_str());
        let mut p: usize = 0;
        let mut found = false;
        while p < out.len() && !found
            invariant
                i < v.len(),
                p <= out.len(),
                name@ == v@[i as int].name@,
                forall|a: int| 0 <= a < p ==> lex_order((#[trigger] out@[a]).0@, name@) < 0,
                found ==> p < out.len() && lex_order(out@[p as int].0@, name@) >= 0,
            decreases out.len() - p + (if found { 0int } else { 1int }),
        {
            let other = chars_of(out[p].0.as_str());
            if lex_order_of(&other, &name) >= 0 {
                found = true;
            } else {
                p += 1;
            }
        }
        let ghost before = out@;
        let x: ImportedTxtEntry = (v[i].name.clone(), copy_opt(&v[i].preset_uuid), copy_opt(&v[i].root_template_uuid));
        proof {
            assert forall|a: int| 0 <= a < before.len() implies lex_order(x.0@, (#[trigger] before[a]).0@) != 0 by {
                let q = src[a];
                assert(v@[q].name@ == before[a].0@);
                assert(v@[q].name@ != v@[i as int].name@);
                lemma_lex_order_antisym(x.0@, before[a].0@);
            }
            assert forall|a: int| p <= a < before.len() implies lex_order(x.0@, (#[trigger] before[a]).0@) < 0 by {
                lemma_lex_order_antisym(before[p as int].0@, x.0@);
                lemma_lex_order_antisym(x.0@, before[a].0@);
                if a > p {
                    lemma_lex_order_trans(x.0@, before[p as int].0@, before[a].0@);
                }
            }
            lemma_sorted_insert(before, p as int, x);
            lemma_insert_tracks(v@, i as int, before, p as int, x, src, pos);
        }
        out.insert(p, x);
        proof {
            src = src.insert(p as int, i as int);
            pos = pos.map_values(|y: int| if y >= p { y + 1 } else { y }).push(p as int);
            before.insert_ensures(p as int, x);
            assert forall|a: int| 0 <= a < out@.len() implies m.contains_key((#[trigger] out@[a]).0@) && m[out@[a].0@]
                == (opt_text(out@[a].1), opt_text(out@[a].2)) by {
                if a != p {
                    let oa = if a < p { a } else { a - 1 };
                    assert(out@[a] == before[oa]);
                }
            }
        }
        i += 1;
    }
    proof {
        assert forall|k: Seq<char>| #[trigger] m.contains_key(k) implies exists|a: int| 0 <= a < out@.len() && (
        #[trigger] out@[a]).0@ == k by {
            let q = choose|q: int| 0 <= q < v@.len() && (#[trigger] v@[q]).name@ == k;
            let a = pos[q];
            assert(out@[a].0@ == k);
        }
    }
    out
}

} // verus!
