use csv2bibtex::converter::FieldConverter;
use csv2bibtex::entry::RowEntry;
use csv2bibtex::strmap::StringMap;

#[test]
fn string_map_keeps_one_value_per_key() {
    let mut m = StringMap::new();
    m.insert("a", "1");
    m.insert("b", "2");
    m.insert("a", "3");
    assert_eq!(m.entries.len(), 2);
    assert_eq!(m.get("a"), Some(&String::from("3")));
    assert_eq!(m.get("b"), Some(&String::from("2")));
    assert_eq!(m.get("c"), None);
    assert!(m.contains_key("a"));
    assert!(!m.contains_key("c"));
}

#[test]
fn defaults_do_not_override_explicit_mappings() {
    // An explicit title mapping survives the defaults; the absent author
    // mapping is added.
    let mut mapping = StringMap::new();
    mapping.insert("title", "[[Document Title]]");
    let converter = FieldConverter::new(mapping, Vec::new()).add_defaults();
    assert_eq!(
        converter.map.get("title"),
        Some(&String::from("[[Document Title]]"))
    );
    assert_eq!(converter.map.get("author"), Some(&String::from("[[author]]")));
}

#[test]
fn default_verbatim_names_are_added_without_duplicates() {
    let converter =
        FieldConverter::new(StringMap::new(), vec![String::from("doi")]).add_defaults();
    let count = converter
        .verbatim_fields
        .iter()
        .filter(|name| name.as_str() == "doi")
        .count();
    assert_eq!(count, 1);
    assert!(converter.verbatim_fields.iter().any(|n| n == "url"));
    assert!(converter.verbatim_fields.iter().any(|n| n == "urlraw"));
}

#[test]
fn empty_resolutions_drop_the_field() {
    let mut mapping = StringMap::new();
    mapping.insert("isbn", "[[ISBNs]]");
    mapping.insert("note", "fixed text");
    let converter = FieldConverter::new(mapping, Vec::new());
    let entry = converter.convert_fields(StringMap::new(), String::from("k1"));

    let mut expected = biblatex::Entry::new(String::from("k1"), biblatex::EntryType::Article);
    expected.set(
        "note",
        vec![biblatex::Spanned::detached(biblatex::Chunk::Normal(
            String::from("fixed text"),
        ))],
    );
    assert_eq!(entry, expected);
}

#[test]
fn missing_key_in_bibtexkey_falls_back() {
    // Unlike an ordinary field, an unmatched placeholder in the bibtexkey
    // template resolves to the supplied fallback key.
    let mut mapping = StringMap::new();
    mapping.insert("bibtexkey", "[[key]]");
    mapping.insert("isbn", "[[key]]");
    let converter = FieldConverter::new(mapping, Vec::new());
    let entry = converter.convert_fields(StringMap::new(), String::from("fallback7"));

    let expected = biblatex::Entry::new(String::from("fallback7"), biblatex::EntryType::Article);
    assert_eq!(entry, expected);
}

#[test]
fn converting_twice_gives_equal_entries() {
    let build = || {
        let mut input = StringMap::new();
        input.insert("author", "alice");
        input.insert("title", "my title");
        let converter = FieldConverter::new(StringMap::new(), Vec::new()).add_defaults();
        converter.convert_fields(input, String::from("entry_0"))
    };
    assert_eq!(build(), build());
}

#[test]
fn row_entry_takes_columns_as_fields() {
    let mut map = StringMap::new();
    map.insert("key", "key1");
    map.insert("entrytype", "misc");
    map.insert("author", "alice");
    let entry = RowEntry::from_hashmap(map, String::from("unused"));

    let mut expected = biblatex::Entry::new(String::from("key1"), biblatex::EntryType::Misc);
    expected.set(
        "author",
        vec![biblatex::Spanned::detached(biblatex::Chunk::Normal(
            String::from("alice"),
        ))],
    );
    assert_eq!(entry.inner(), &expected);
}

#[test]
fn row_entry_defaults_key_and_type() {
    let mut map = StringMap::new();
    map.insert("author", "alice");
    let entry = RowEntry::from_hashmap(map, String::from("alt1"));
    assert_eq!(entry.inner().key, "alt1");
    assert_eq!(entry.inner().entry_type, biblatex::EntryType::Article);

    let fresh = RowEntry::default();
    assert_eq!(fresh.inner().key, "none");
    assert_eq!(fresh.inner().entry_type, biblatex::EntryType::Article);
    assert!(fresh.inner().fields.is_empty());
}
