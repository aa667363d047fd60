//! The field converter: the mapping from output field names to templates,
//! the verbatim field names, and the conversion of one row into one
//! bibliography entry.

use vstd::prelude::*;
use crate::bib::bib_entry_new;
use crate::bib::bib_fields;
use crate::bib::bib_key;
use crate::bib::bib_set;
use crate::bib::bib_type;
use crate::bib::stored_name;
use crate::bib::type_tag;
use crate::bib::FieldContent;
use crate::strmap::lemma_with_default_find;
use crate::strmap::spec_find;
use crate::strmap::with_default;
use crate::strmap::StringMap;
use crate::template::bracketed;
use crate::template::lemma_single_placeholder;
use crate::template::spec_substitute;
use crate::template::substitute;
use crate::template::wf_placeholder_key;
use crate::text::contains_str;
use crate::text::contains_string;
use crate::text::str_eq;

verus! {

broadcast use vstd::string::group_string_axioms;

/// Converts rows into bibliography entries according to a field mapping and
/// a set of verbatim field names, both fixed at construction.
pub struct FieldConverter {
    pub map: StringMap,
    pub verbatim_fields: Vec<String>,
}

/// The mapping after the default templates are merged in, earliest default
/// first; every explicit entry is kept unchanged.
pub open spec fn with_default_mappings(m: Seq<(Seq<char>, Seq<char>)>) -> Seq<
    (Seq<char>, Seq<char>),
> {
    with_default(
        with_default(
            with_default(
                with_default(
                    with_default(
                        with_default(
                            with_default(
                                with_default(m, "entrytype"@, "[[type]]"@),
                                "bibtexkey"@,
                                "[[bibtexkey]]"@,
                            ),
                            "title"@,
                            "[[title]]"@,
                        ),
                        "author"@,
                        "[[author]]"@,
                    ),
                    "abstract"@,
                    "[[abstract]]"@,
                ),
                "journal"@,
                "[[journal]]"@,
            ),
            "volume"@,
            "[[volume]]"@,
        ),
        "number"@,
        "[[issue]]"@,
    )
}

/// The verbatim names extended by one name, skipped when already present.
pub open spec fn with_verbatim(v: Seq<Seq<char>>, name: Seq<char>) -> Seq<Seq<char>> {
    if contains_str(v, name) {
        v
    } else {
        v.push(name)
    }
}

/// The verbatim names after the default names are merged in, without
/// duplicates.
pub open spec fn with_default_verbatims(v: Seq<Seq<char>>) -> Seq<Seq<char>> {
    with_verbatim(
        with_verbatim(
            with_verbatim(
                with_verbatim(
                    with_verbatim(
                        with_verbatim(
                            with_verbatim(
                                with_verbatim(with_verbatim(v, "url"@), "file"@),
                                "doi"@,
                            ),
                            "pdf"@,
                        ),
                        "eprint"@,
                    ),
                    "verba"@,
                ),
                "verbb"@,
            ),
            "verbc"@,
        ),
        "urlraw"@,
    )
}

/// The citation key resolved for a row: the bibtexkey template with every
/// unmatched placeholder replaced by the fallback key, or, without such a
/// template, the fallback key itself.
pub open spec fn resolved_key(
    m: Seq<(Seq<char>, Seq<char>)>,
    row: Seq<(Seq<char>, Seq<char>)>,
    fallback: Seq<char>,
) -> Seq<char> {
    match spec_find(m, "bibtexkey"@) {
        Some(t) => spec_substitute(t, row, fallback),
        None => fallback,
    }
}

/// The type name resolved for a row: the entrytype template with every
/// unmatched placeholder replaced by the default type name, or, without such
/// a template, the default type name itself.
pub open spec fn resolved_type(
    m: Seq<(Seq<char>, Seq<char>)>,
    row: Seq<(Seq<char>, Seq<char>)>,
) -> Seq<char> {
    match spec_find(m, "entrytype"@) {
        Some(t) => spec_substitute(t, row, "article"@),
        None => "article"@,
    }
}

/// The fields resolved from the first `n` mapping entries: the two control
/// names are no output fields, unmatched placeholders resolve to nothing,
/// a field whose whole resolution is empty is dropped, and content is
/// tagged verbatim exactly for the named verbatim fields.
pub open spec fn fields_upto(
    m: Seq<(Seq<char>, Seq<char>)>,
    row: Seq<(Seq<char>, Seq<char>)>,
    verb: Seq<Seq<char>>,
    n: int,
) -> Map<Seq<char>, (bool, Seq<char>)>
    decreases n,
{
    if n <= 0 {
        Map::empty()
    } else {
        let prev = fields_upto(m, row, verb, n - 1);
        let k = m[n - 1].0;
        let t = m[n - 1].1;
        if k == "bibtexkey"@ || k == "entrytype"@ {
            prev
        } else {
            let resolved = spec_substitute(t, row, Seq::empty());
            if resolved.len() == 0 {
                prev
            } else {
                prev.insert(stored_name(k), (contains_str(verb, k), resolved))
            }
        }
    }
}

/// All fields resolved from the mapping for a row.
pub open spec fn resolved_fields(
    m: Seq<(Seq<char>, Seq<char>)>,
    row: Seq<(Seq<char>, Seq<char>)>,
    verb: Seq<Seq<char>>,
) -> Map<Seq<char>, (bool, Seq<char>)> {
    fields_upto(m, row, verb, m.len() as int)
}

/// Extends a list of names by one name, skipping names already present.
fn push_verbatim_if_absent(v: &mut Vec<String>, name: &str)
    ensures
        final (v).deep_view() =~= with_verbatim(old(v).deep_view(), name@),
{
    if !contains_string(v, name) {
        v.push(name.to_owned());
        proof {
            assert(v.deep_view() =~= old(v).deep_view().push(name@));
        }
    }
}

impl FieldConverter {
    /// A converter over the given field mapping and verbatim field names.
    pub fn new(replacement_list: StringMap, verbatim_fields: Vec<String>) -> (c: Self)
        ensures
            c.map == replacement_list,
            c.verbatim_fields == verbatim_fields,
    {
        FieldConverter { map: replacement_list, verbatim_fields }
    }

    /// Merges the default templates and the default verbatim names into the
    /// configuration; explicit settings always win.
    pub fn add_defaults(self) -> (c: Self)
        ensures
            c.map@ == with_default_mappings(self.map@),
            c.verbatim_fields.deep_view() == with_default_verbatims(
                self.verbatim_fields.deep_view(),
            ),
            self.map.wf() ==> c.map.wf(),
    {
        let mut c = self;
        c.map.insert_if_absent("entrytype", "[[type]]");
        c.map.insert_if_absent("bibtexkey", "[[bibtexkey]]");
        c.map.insert_if_absent("title", "[[title]]");
        c.map.insert_if_absent("author", "[[author]]");
        c.map.insert_if_absent("abstract", "[[abstract]]");
        c.map.insert_if_absent("journal", "[[journal]]");
        c.map.insert_if_absent("volume", "[[volume]]");
        c.map.insert_if_absent("number", "[[issue]]");
        push_verbatim_if_absent(&mut c.verbatim_fields, "url");
        push_verbatim_if_absent(&mut c.verbatim_fields, "file");
        push_verbatim_if_absent(&mut c.verbatim_fields, "doi");
        push_verbatim_if_absent(&mut c.verbatim_fields, "pdf");
        push_verbatim_if_absent(&mut c.verbatim_fields, "eprint");
        push_verbatim_if_absent(&mut c.verbatim_fields, "verba");
        push_verbatim_if_absent(&mut c.verbatim_fields, "verbb");
        push_verbatim_if_absent(&mut c.verbatim_fields, "verbc");
        push_verbatim_if_absent(&mut c.verbatim_fields, "urlraw");
        c
    }

    /// Converts one row into a bibliography entry: the citation key and the
    /// type name come from the two control templates with their fallbacks,
    /// and every other mapping entry whose resolution is non-empty becomes a
    /// field, tagged verbatim exactly for the named verbatim fields.
    ///
    /// Policy: a resolved type name the bibliography model does not
    /// recognize is carried through as its own tag, so converting a row
    /// that was read never fails.
    #[verifier::loop_isolation(false)]
    pub fn convert_fields(&self, input: StringMap, default_key: String) -> (entry:
        biblatex::Entry)
        ensures
            bib_key(entry) == resolved_key(self.map@, input@, default_key@),
            bib_type(entry) == type_tag(resolved_type(self.map@, input@)),
            bib_fields(entry) == resolved_fields(
                self.map@,
                input@,
                self.verbatim_fields.deep_view(),
            ),
    {
        let key: String = match self.map.get("bibtexkey") {
            Some(t) => substitute(t.as_str(), &input, default_key.as_str()),
            None => default_key.clone(),
        };
        let entry_type: String = match self.map.get("entrytype") {
            Some(t) => substitute(t.as_str(), &input, "article"),
            None => "article".to_owned(),
        };
        let mut entry = bib_entry_new(key, entry_type.as_str());
        let n = self.map.len();
        let mut idx: usize = 0;
        while idx < n
            invariant
                idx <= n,
                bib_key(entry) == resolved_key(self.map@, input@, default_key@),
                bib_type(entry) == type_tag(resolved_type(self.map@, input@)),
                bib_fields(entry) == fields_upto(
                    self.map@,
                    input@,
                    self.verbatim_fields.deep_view(),
                    idx as int,
                ),
            decreases n - idx,
        {
            let k = self.map.key_at(idx);
            let control = str_eq(k.as_str(), "bibtexkey") || str_eq(k.as_str(), "entrytype");
            if !control {
                let resolved = substitute(self.map.value_at(idx).as_str(), &input, "");
                proof {
                    reveal_strlit("");
                    assert(""@ =~= Seq::<char>::empty());
                }
                if !resolved.as_str().is_empty() {
                    let ghost rv = resolved@;
                    let verbatim = contains_string(&self.verbatim_fields, k.as_str());
                    let content = if verbatim {
                        FieldContent::Verbatim(resolved)
                    } else {
                        FieldContent::Normal(resolved)
                    };
                    proof {
                        assert(content@ == (verbatim, rv));
                    }
                    bib_set(&mut entry, k.as_str(), content);
                }
            }
            idx += 1;
        }
        entry
    }
}

/// Law: merging the default templates never overrides an explicit mapping
/// entry, and adds the default author template exactly where `author` was
/// absent.
pub proof fn lemma_defaults_do_not_override(m: Seq<(Seq<char>, Seq<char>)>)
    ensures
        forall|k: Seq<char>| #[trigger] spec_find(m, k) is Some ==> spec_find(
            with_default_mappings(m),
            k,
        ) == spec_find(m, k),
        spec_find(m, "author"@) is None ==> spec_find(with_default_mappings(m), "author"@)
            == Some("[[author]]"@),
{
    let m1 = with_default(m, "entrytype"@, "[[type]]"@);
    let m2 = with_default(m1, "bibtexkey"@, "[[bibtexkey]]"@);
    let m3 = with_default(m2, "title"@, "[[title]]"@);
    let m4 = with_default(m3, "author"@, "[[author]]"@);
    let m5 = with_default(m4, "abstract"@, "[[abstract]]"@);
    let m6 = with_default(m5, "journal"@, "[[journal]]"@);
    let m7 = with_default(m6, "volume"@, "[[volume]]"@);
    assert forall|k: Seq<char>| #[trigger] spec_find(m, k) is Some implies spec_find(
        with_default_mappings(m),
        k,
    ) == spec_find(m, k) by {
        lemma_with_default_find(m, "entrytype"@, "[[type]]"@, k);
        lemma_with_default_find(m1, "bibtexkey"@, "[[bibtexkey]]"@, k);
        lemma_with_default_find(m2, "title"@, "[[title]]"@, k);
        lemma_with_default_find(m3, "author"@, "[[author]]"@, k);
        lemma_with_default_find(m4, "abstract"@, "[[abstract]]"@, k);
        lemma_with_default_find(m5, "journal"@, "[[journal]]"@, k);
        lemma_with_default_find(m6, "volume"@, "[[volume]]"@, k);
        lemma_with_default_find(m7, "number"@, "[[issue]]"@, k);
    }
    if spec_find(m, "author"@) is None {
        let a = "author"@;
        reveal_strlit("author");
        reveal_strlit("entrytype");
        reveal_strlit("bibtexkey");
        reveal_strlit("title");
        assert("author"@.len() == 6);
        assert("entrytype"@.len() == 9);
        assert("bibtexkey"@.len() == 9);
        assert("title"@.len() == 5);
        assert(a != "entrytype"@ && a != "bibtexkey"@ && a != "title"@);
        lemma_with_default_find(m, "entrytype"@, "[[type]]"@, a);
        lemma_with_default_find(m1, "bibtexkey"@, "[[bibtexkey]]"@, a);
        lemma_with_default_find(m2, "title"@, "[[title]]"@, a);
        lemma_with_default_find(m3, "author"@, "[[author]]"@, a);
        lemma_with_default_find(m4, "abstract"@, "[[abstract]]"@, a);
        lemma_with_default_find(m5, "journal"@, "[[journal]]"@, a);
        lemma_with_default_find(m6, "volume"@, "[[volume]]"@, a);
        lemma_with_default_find(m7, "number"@, "[[issue]]"@, a);
    }
}

proof fn lemma_fields_upto_absent(
    m: Seq<(Seq<char>, Seq<char>)>,
    row: Seq<(Seq<char>, Seq<char>)>,
    verb: Seq<Seq<char>>,
    name: Seq<char>,
    n: int,
)
    requires
        0 <= n <= m.len(),
        forall|j: int|
            0 <= j < n ==> ((#[trigger] m[j]).0 == "bibtexkey"@ || m[j].0 == "entrytype"@
                || spec_substitute(m[j].1, row, Seq::empty()).len() == 0 || stored_name(m[j].0)
                != name),
    ensures
        !fields_upto(m, row, verb, n).contains_key(name),
    decreases n,
{
    if n > 0 {
        lemma_fields_upto_absent(m, row, verb, name, n - 1);
    }
}

/// Law: a mapping entry whose whole resolution against the row is empty is
/// omitted — where no other mapping entry writes the same stored name, the
/// entry carries no such field. For names without ASCII uppercase letters
/// the stored name is the name itself, so distinct such names discharge the
/// side condition directly.
pub proof fn lemma_empty_field_omitted(
    m: Seq<(Seq<char>, Seq<char>)>,
    row: Seq<(Seq<char>, Seq<char>)>,
    verb: Seq<Seq<char>>,
    i: int,
)
    requires
        0 <= i < m.len(),
        spec_substitute(m[i].1, row, Seq::empty()).len() == 0,
        forall|j: int|
            0 <= j < m.len() && j != i ==> stored_name((#[trigger] m[j]).0) != stored_name(m[i].0),
    ensures
        !resolved_fields(m, row, verb).contains_key(stored_name(m[i].0)),
{
    lemma_fields_upto_absent(m, row, verb, stored_name(m[i].0), m.len() as int);
}

proof fn lemma_fields_upto_preserved(
    m: Seq<(Seq<char>, Seq<char>)>,
    row: Seq<(Seq<char>, Seq<char>)>,
    verb: Seq<Seq<char>>,
    name: Seq<char>,
    n0: int,
    n: int,
)
    requires
        0 <= n0 <= n <= m.len(),
        forall|j: int|
            n0 <= j < n ==> ((#[trigger] m[j]).0 == "bibtexkey"@ || m[j].0 == "entrytype"@
                || spec_substitute(m[j].1, row, Seq::empty()).len() == 0 || stored_name(m[j].0)
                != name),
    ensures
        fields_upto(m, row, verb, n).contains_key(name) == fields_upto(
            m,
            row,
            verb,
            n0,
        ).contains_key(name),
        fields_upto(m, row, verb, n).contains_key(name) ==> fields_upto(m, row, verb, n)[name]
            == fields_upto(m, row, verb, n0)[name],
    decreases n - n0,
{
    if n > n0 {
        lemma_fields_upto_preserved(m, row, verb, name, n0, n - 1);
    }
}

/// Law: a mapping entry that resolves non-empty becomes a field under its
/// stored (lowercased) name, and its content is tagged verbatim exactly
/// when the entry's name is among the verbatim field names. Later mapping
/// entries writing the same stored name would override it, so none may;
/// for names without ASCII uppercase letters the stored name is the name
/// itself, so distinct such names discharge the side condition directly.
pub proof fn lemma_verbatim_tagging(
    m: Seq<(Seq<char>, Seq<char>)>,
    row: Seq<(Seq<char>, Seq<char>)>,
    verb: Seq<Seq<char>>,
    i: int,
)
    requires
        0 <= i < m.len(),
        m[i].0 != "bibtexkey"@,
        m[i].0 != "entrytype"@,
        spec_substitute(m[i].1, row, Seq::empty()).len() > 0,
        forall|j: int|
            i < j < m.len() ==> ((#[trigger] m[j]).0 == "bibtexkey"@ || m[j].0 == "entrytype"@
                || spec_substitute(m[j].1, row, Seq::empty()).len() == 0 || stored_name(m[j].0)
                != stored_name(m[i].0)),
    ensures
        resolved_fields(m, row, verb).contains_key(stored_name(m[i].0)),
        resolved_fields(m, row, verb)[stored_name(m[i].0)] == (contains_str(verb, m[i].0),
        spec_substitute(m[i].1, row, Seq::empty())),
{
    lemma_fields_upto_preserved(m, row, verb, stored_name(m[i].0), i + 1, m.len() as int);
}

/// Law: an unmatched placeholder in the citation-key template resolves to
/// the supplied fallback key, where the same placeholder in an ordinary
/// field resolves to nothing.
pub proof fn lemma_missing_key_fallback(
    m: Seq<(Seq<char>, Seq<char>)>,
    row: Seq<(Seq<char>, Seq<char>)>,
    fallback: Seq<char>,
    k: Seq<char>,
)
    requires
        wf_placeholder_key(k),
        spec_find(m, "bibtexkey"@) == Some(bracketed(k)),
        spec_find(row, k) is None,
    ensures
        resolved_key(m, row, fallback) == fallback,
        spec_substitute(bracketed(k), row, Seq::empty()).len() == 0,
{
    lemma_single_placeholder(k, row, fallback);
    lemma_single_placeholder(k, row, Seq::empty());
}

/// Law: conversion is deterministic — two entries converted from the same
/// mapping, verbatim names, row and fallback key agree in citation key,
/// type tag and fields.
pub proof fn lemma_conversion_deterministic(
    m: Seq<(Seq<char>, Seq<char>)>,
    row: Seq<(Seq<char>, Seq<char>)>,
    verb: Seq<Seq<char>>,
    fallback: Seq<char>,
    e1: biblatex::Entry,
    e2: biblatex::Entry,
)
    requires
        bib_key(e1) == resolved_key(m, row, fallback),
        bib_type(e1) == type_tag(resolved_type(m, row)),
        bib_fields(e1) == resolved_fields(m, row, verb),
        bib_key(e2) == resolved_key(m, row, fallback),
        bib_type(e2) == type_tag(resolved_type(m, row)),
        bib_fields(e2) == resolved_fields(m, row, verb),
    ensures
        bib_key(e1) == bib_key(e2),
        bib_type(e1) == bib_type(e2),
        bib_fields(e1) == bib_fields(e2),
{
}

} // verus!
