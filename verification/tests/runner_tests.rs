use csv2bibtex::converter::FieldConverter;
use csv2bibtex::runner::fallback_key;
use csv2bibtex::runner::process_row;
use csv2bibtex::runner::RowOutcome;
use csv2bibtex::strmap::StringMap;

fn default_converter() -> FieldConverter {
    FieldConverter::new(StringMap::new(), Vec::new()).add_defaults()
}

#[test]
fn fallback_key_is_numbered() {
    assert_eq!(fallback_key(0), "entry_0");
    assert_eq!(fallback_key(7), "entry_7");
    assert_eq!(fallback_key(17), "entry_17");
    assert_eq!(fallback_key(1200), "entry_1200");
}

#[test]
fn row_is_converted_with_positional_key() {
    let converter = default_converter();
    let mut row = StringMap::new();
    row.insert("author", "alice");
    row.insert("year", "2000");
    row.insert("title", "my title");

    let outcome = process_row(&converter, Ok(row), 0, false);
    let entry = match outcome {
        RowOutcome::Converted(e) => e,
        _ => panic!("a well-formed row must convert"),
    };

    let mut expected = biblatex::Entry::new(String::from("entry_0"), biblatex::EntryType::Article);
    expected.set(
        "author",
        vec![biblatex::Spanned::detached(biblatex::Chunk::Normal(
            String::from("alice"),
        ))],
    );
    expected.set(
        "title",
        vec![biblatex::Spanned::detached(biblatex::Chunk::Normal(
            String::from("my title"),
        ))],
    );
    // `year` is not a default-mapped field, so it must not appear.
    assert_eq!(entry, expected);
}

#[test]
fn malformed_row_is_skipped_in_lazy_mode() {
    let converter = default_converter();
    let outcome = process_row(
        &converter,
        Err(String::from("record 2 has 2 fields, expected 3")),
        1,
        true,
    );
    assert!(matches!(outcome, RowOutcome::Skipped));
}

#[test]
fn malformed_row_aborts_in_strict_mode() {
    let converter = default_converter();
    let outcome = process_row(
        &converter,
        Err(String::from("record 2 has 2 fields, expected 3")),
        1,
        false,
    );
    let message = match outcome {
        RowOutcome::Fatal(m) => m,
        _ => panic!("a malformed row must abort a strict run"),
    };
    assert_eq!(
        message,
        "record 2 has 2 fields, expected 3. Option \"-l\" might help."
    );
}

#[test]
fn lazy_run_keeps_valid_rows_only() {
    // A malformed row followed by a valid row: the lazy run yields exactly
    // one entry and one skip; the strict run aborts on the malformed row.
    let converter = default_converter();
    let rows = vec![
        Err(String::from("record 1 has 1 field, expected 2")),
        Ok(vec![("author", "alice"), ("title", "my title")]),
    ];

    let mut written = 0;
    let mut skipped = 0;
    for (index, row) in rows.into_iter().enumerate() {
        let row = row.map(|pairs| {
            let mut m = StringMap::new();
            for (k, v) in pairs {
                m.insert(k, v);
            }
            m
        });
        match process_row(&converter, row, index, true) {
            RowOutcome::Converted(_) => written += 1,
            RowOutcome::Skipped => skipped += 1,
            RowOutcome::Fatal(m) => panic!("lazy mode must not abort: {}", m),
        }
    }
    assert_eq!(written, 1);
    assert_eq!(skipped, 1);

    let strict = process_row(
        &converter,
        Err::<StringMap, _>(String::from("record 1 has 1 field, expected 2")),
        0,
        false,
    );
    assert!(matches!(strict, RowOutcome::Fatal(_)));
}
