//! The bibliography entry model, provided by the `biblatex` crate.
//!
//! An entry is a collection the converter fills: it holds a citation key, a
//! type tag parsed from a type name, and a map from lowercased field names to
//! tagged content. Everything stated about it names what the collection
//! holds; the entry itself stays opaque.

use vstd::prelude::*;
use biblatex::ChunksExt;

verus! {

#[verifier::external_type_specification]
#[verifier::external_body]
pub struct ExBibEntry(biblatex::Entry);

/// Content of one entry field: passed to the output encoder either subject
/// to its normal escaping rules or verbatim.
pub enum FieldContent {
    Normal(String),
    Verbatim(String),
}

impl View for FieldContent {
    type V = (bool, Seq<char>);

    open spec fn view(&self) -> (bool, Seq<char>) {
        match self {
            FieldContent::Normal(s) => (false, s@),
            FieldContent::Verbatim(s) => (true, s@),
        }
    }
}

/// The citation key an entry holds.
pub uninterp spec fn bib_key(e: biblatex::Entry) -> Seq<char>;

/// The type tag an entry holds, as its canonical name.
pub uninterp spec fn bib_type(e: biblatex::Entry) -> Seq<char>;

/// The fields an entry holds: lowercased field name to tagged content, the
/// flag marking verbatim content.
pub uninterp spec fn bib_fields(e: biblatex::Entry) -> Map<Seq<char>, (bool, Seq<char>)>;

/// Canonical name of the type tag parsed from a type name; unrecognized
/// names are carried through rather than rejected.
pub uninterp spec fn type_tag(name: Seq<char>) -> Seq<char>;

/// Unicode lowercasing of a field name, as `str::to_lowercase` computes it.
pub uninterp spec fn lower_of(s: Seq<char>) -> Seq<char>;

/// Text in which no character has an uppercase-to-lowercase mapping: ASCII
/// without the uppercase letters.
pub open spec fn plain_lower(s: Seq<char>) -> bool {
    forall|i: int|
        0 <= i < s.len() ==> (((#[trigger] s[i]) as u32) < 128 && !(65 <= s[i] as u32
            && (s[i] as u32) <= 90))
}

/// The name a field is stored under. Relies on str::to_lowercase leaving
/// text without ASCII uppercase letters unchanged; any other name is
/// lowercased.
pub open spec fn stored_name(s: Seq<char>) -> Seq<char> {
    if plain_lower(s) {
        s
    } else {
        lower_of(s)
    }
}

/// An ASCII whitespace character.
pub open spec fn ascii_space(c: char) -> bool {
    c == ' ' || c == '\t' || c == '\n' || c == '\r' || c == '\u{b}' || c == '\u{c}'
}

/// Date text this crate hands to the BibTeX serializer: ASCII, something
/// left after trimming, whitespace only at the end, no year placeholders,
/// and no zero month. The serializer's date parser does not return on text
/// outside this set; text inside it at worst draws an error.
pub open spec fn date_text_safe(s: Seq<char>) -> bool {
    &&& forall|i: int| 0 <= i < s.len() ==> ((#[trigger] s[i]) as u32) < 128
    &&& exists|i: int| 0 <= i < s.len() && !ascii_space(s[i])
    &&& forall|i: int, j: int|
        0 <= i < j < s.len() && ascii_space(#[trigger] s[i]) ==> ascii_space(#[trigger] s[j])
    &&& forall|i: int| 0 <= i < s.len() ==> (#[trigger] s[i]) != 'x' && s[i] != 'X'
    &&& forall|i: int|
        0 <= i && i + 2 < s.len() && (#[trigger] s[i]) == '-' ==> !(s[i + 1] == '0' && s[i
            + 2] == '0')
}

/// Whether the `date` field, where the entry has one, holds text the BibTeX
/// serializer's date parser reads without panicking.
pub open spec fn bibtex_date_safe(fields: Map<Seq<char>, (bool, Seq<char>)>) -> bool {
    fields.contains_key("date"@) ==> date_text_safe(fields["date"@].1)
}

/// BibLaTeX syntax for an entry; a function of the entry value alone.
pub uninterp spec fn biblatex_text(e: biblatex::Entry) -> Seq<char>;

/// BibTeX syntax for an entry, or nothing where the entry holds a date field
/// BibTeX cannot represent; a function of the entry value alone.
pub uninterp spec fn bibtex_text(e: biblatex::Entry) -> Option<Seq<char>>;

/// Relies on biblatex::Entry::new and biblatex::EntryType::new: a fresh
/// entry holds exactly the given key, the tag parsed from the given type
/// name, and no fields.
#[verifier::external_body]
pub(crate) fn bib_entry_new(key: String, entry_type: &str) -> (e: biblatex::Entry)
    ensures
        bib_key(e) == key@,
        bib_type(e) == type_tag(entry_type@),
        bib_fields(e) =~= Map::empty(),
{
    biblatex::Entry::new(key, biblatex::EntryType::new(entry_type))
}

/// Relies on biblatex::Entry::set, and on str::to_lowercase leaving a name
/// without ASCII uppercase letters unchanged: it stores the given content
/// as a single detached chunk under the lowercased field name, leaving the
/// key and the type tag unchanged.
#[verifier::external_body]
pub(crate) fn bib_set(e: &mut biblatex::Entry, name: &str, content: FieldContent)
    ensures
        bib_key(*final (e)) == bib_key(*old(e)),
        bib_type(*final (e)) == bib_type(*old(e)),
        bib_fields(*final (e)) == bib_fields(*old(e)).insert(lower_of(name@), content@),
        bib_fields(*final (e)) == bib_fields(*old(e)).insert(stored_name(name@), content@),
{
    let chunk = match content {
        FieldContent::Normal(s) => biblatex::Chunk::Normal(s),
        FieldContent::Verbatim(s) => biblatex::Chunk::Verbatim(s),
    };
    e.set(name, vec![biblatex::Spanned::detached(chunk)]);
}

/// Relies on biblatex::Entry::to_biblatex_string: serialization into
/// BibLaTeX syntax never fails.
#[verifier::external_body]
pub(crate) fn bib_to_biblatex_string(e: &biblatex::Entry) -> (r: String)
    ensures
        r@ == biblatex_text(*e),
{
    e.to_biblatex_string()
}

/// Relies on biblatex::Entry::get and the chunk formatter: the verbatim
/// text of the entry's `date` field, where the entry has one. This is the
/// text the serializer's date parser reads.
#[verifier::external_body]
pub(crate) fn bib_date_text(e: &biblatex::Entry) -> (r: Option<String>)
    ensures
        r is Some <==> bib_fields(*e).contains_key("date"@),
        r matches Some(s) ==> s@ == bib_fields(*e)["date"@].1,
{
    e.get("date").map(|chunks| chunks.format_verbatim())
}

/// Relies on biblatex::Entry::to_bibtex_string: on an entry whose date text
/// stays inside the safe set, serialization into BibTeX syntax fails
/// exactly for entries BibTeX cannot represent, and the error is carried as
/// its message. Outside the safe set the serializer's date parser panics,
/// so such entries are excluded here.
#[verifier::external_body]
pub(crate) fn bib_to_bibtex_string(e: &biblatex::Entry) -> (r: Result<String, String>)
    requires
        bibtex_date_safe(bib_fields(*e)),
    ensures
        r is Ok <==> bibtex_text(*e) is Some,
        r matches Ok(s) ==> bibtex_text(*e) == Some(s@),
{
    match e.to_bibtex_string() {
        Ok(s) => Ok(s),
        Err(err) => Err(format!("{}", err)),
    }
}

} // verus!
