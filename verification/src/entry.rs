//! A bibliography entry built straight from a row, without templates: a
//! simpler sibling of the field converter for callers that already hold
//! finished field values.

use vstd::prelude::*;
use crate::bib::bib_entry_new;
use crate::bib::bib_fields;
use crate::bib::bib_key;
use crate::bib::bib_set;
use crate::bib::bib_type;
use crate::bib::stored_name;
use crate::bib::type_tag;
use crate::bib::FieldContent;
use crate::strmap::spec_find;
use crate::strmap::StringMap;
use crate::text::str_eq;

verus! {

/// Fields taken as-is from the first `n` entries of `m`: the `key` and
/// `entrytype` columns are control values, every other column becomes a
/// normally escaped field under its lowercased name.
pub open spec fn direct_fields_upto(m: Seq<(Seq<char>, Seq<char>)>, n: int) -> Map<
    Seq<char>,
    (bool, Seq<char>),
>
    decreases n,
{
    if n <= 0 {
        Map::empty()
    } else {
        let prev = direct_fields_upto(m, n - 1);
        let k = m[n - 1].0;
        if k == "key"@ || k == "entrytype"@ {
            prev
        } else {
            prev.insert(stored_name(k), (false, m[n - 1].1))
        }
    }
}

/// An entry of the bibliography model, built from one row.
pub struct RowEntry {
    pub item: biblatex::Entry,
}

impl RowEntry {
    /// An empty entry of the default type under the given citation key.
    pub fn new(bibkey: String) -> (s: Self)
        ensures
            bib_key(s.item) == bibkey@,
            bib_type(s.item) == type_tag("article"@),
            bib_fields(s.item) =~= Map::empty(),
    {
        RowEntry { item: bib_entry_new(bibkey, "article") }
    }

    /// Builds an entry straight from a row: the `key` column names the
    /// citation key and the `entrytype` column the type, with their
    /// defaults, and every other column becomes a normally escaped field.
    /// `alt_bibkey` specifies the citation key when the row has no `key`.
    #[verifier::loop_isolation(false)]
    pub fn from_hashmap(map: StringMap, alt_bibkey: String) -> (s: Self)
        ensures
            bib_key(s.item) == (match spec_find(map@, "key"@) {
                Some(k) => k,
                None => alt_bibkey@,
            }),
            bib_type(s.item) == type_tag(
                match spec_find(map@, "entrytype"@) {
                    Some(t) => t,
                    None => "article"@,
                },
            ),
            bib_fields(s.item) == direct_fields_upto(map@, map@.len() as int),
    {
        let key: String = match map.get("key") {
            Some(x) => x.clone(),
            None => alt_bibkey.clone(),
        };
        let entrytype: String = match map.get("entrytype") {
            Some(x) => x.clone(),
            None => "article".to_owned(),
        };
        let mut item = bib_entry_new(key, entrytype.as_str());
        let n = map.len();
        let mut idx: usize = 0;
        while idx < n
            invariant
                idx <= n,
                bib_key(item) == (match spec_find(map@, "key"@) {
                    Some(k) => k,
                    None => alt_bibkey@,
                }),
                bib_type(item) == type_tag(
                    match spec_find(map@, "entrytype"@) {
                        Some(t) => t,
                        None => "article"@,
                    },
                ),
                bib_fields(item) == direct_fields_upto(map@, idx as int),
            decreases n - idx,
        {
            let k = map.key_at(idx);
            let control = str_eq(k.as_str(), "key") || str_eq(k.as_str(), "entrytype");
            if !control {
                bib_set(&mut item, k.as_str(), FieldContent::Normal(map.value_at(idx).clone()));
            }
            idx += 1;
        }
        RowEntry { item }
    }

    /// The underlying bibliography model entry.
    pub fn inner(&self) -> (r: &biblatex::Entry)
        ensures
            *r == self.item,
    {
        &self.item
    }
}

impl Default for RowEntry {
    /// An empty entry of the default type under the key `none`.
    fn default() -> (s: Self)
        ensures
            bib_key(s.item) == "none"@,
            bib_type(s.item) == type_tag("article"@),
            bib_fields(s.item) =~= Map::empty(),
    {
        RowEntry::new("none".to_owned())
    }
}

} // verus!
