use csv2bibtex::converter::FieldConverter;
use csv2bibtex::strmap::StringMap;
use csv2bibtex::writer::BiblatexWriter;
use csv2bibtex::writer::BibtexWriter;
use csv2bibtex::writer::WriteError;

fn sample_entry() -> biblatex::Entry {
    let mut input = StringMap::new();
    input.insert("author", "alice");
    input.insert("title", "my title");
    let converter = FieldConverter::new(StringMap::new(), Vec::new()).add_defaults();
    converter.convert_fields(input, String::from("sample"))
}

#[test]
fn biblatex_writer_counts_and_renders() {
    let entry = sample_entry();
    let mut writer = BiblatexWriter::new();
    assert_eq!(writer.get_num_written_entries(), 0);
    writer.write(&entry).unwrap();
    writer.write(&entry).unwrap();
    assert_eq!(writer.get_num_written_entries(), 2);
    let expected_one = "@article{sample,\nauthor = {alice},\ntitle = {my title},\n}";
    let expected = format!("{}\n\n{}\n\n", expected_one, expected_one);
    assert_eq!(writer.output, expected);
}

#[test]
fn bibtex_writer_renders_plain_entries() {
    let entry = sample_entry();
    let mut writer = BibtexWriter::new();
    writer.write(&entry).unwrap();
    assert_eq!(writer.get_num_written_entries(), 1);
    assert_eq!(
        writer.output,
        "@article{sample,\nauthor = {alice},\ntitle = {my title},\n}\n\n"
    );
}

#[test]
fn bibtex_writer_rejects_unrepresentable_entries() {
    // A malformed date cannot be carried into BibTeX syntax; the write must
    // fail without changing the writer.
    let mut input = StringMap::new();
    input.insert("author", "alice");
    input.insert("when", "not-a-date");
    let mut mapping = StringMap::new();
    mapping.insert("date", "[[when]]");
    let converter = FieldConverter::new(mapping, Vec::new());
    let entry = converter.convert_fields(input, String::from("sample"));

    let mut writer = BibtexWriter::new();
    let err = writer.write(&entry).unwrap_err();
    assert!(!err.message().is_empty());
    let WriteError::NotRepresentable(message) = err;
    assert!(!message.is_empty());
    assert_eq!(writer.get_num_written_entries(), 0);
    assert_eq!(writer.output, "");
}

fn entry_with_date(date_cell: &str) -> biblatex::Entry {
    let mut input = StringMap::new();
    input.insert("author", "alice");
    input.insert("when", date_cell);
    let mut mapping = StringMap::new();
    mapping.insert("author", "[[author]]");
    mapping.insert("date", "[[when]]");
    let converter = FieldConverter::new(mapping, Vec::new());
    converter.convert_fields(input, String::from("sample"))
}

#[test]
fn bibtex_writer_refuses_dates_outside_the_safe_set() {
    // Whitespace-only text, text ending in a multi-byte character, and a
    // zero month never reach the date parser; the write fails cleanly and
    // the writer stays unchanged.
    for bad in [" ", "2020\u{5e74}", "2020-00"] {
        let entry = entry_with_date(bad);
        let mut writer = BibtexWriter::new();
        let err = writer.write(&entry).unwrap_err();
        assert!(!err.message().is_empty());
        assert_eq!(writer.get_num_written_entries(), 0);
        assert_eq!(writer.output, "");
    }
}

#[test]
fn bibtex_writer_carries_well_formed_dates() {
    let entry = entry_with_date("2020-05");
    let mut writer = BibtexWriter::new();
    writer.write(&entry).unwrap();
    assert_eq!(writer.get_num_written_entries(), 1);
    assert_eq!(
        writer.output,
        "@article{sample,\nauthor = {alice},\nyear = {2020},\nmonth = {05},\n}\n\n"
    );
}

#[test]
fn taking_the_output_empties_the_buffer_only() {
    let entry = sample_entry();
    let mut writer = BiblatexWriter::new();
    writer.write(&entry).unwrap();
    let first = writer.take_output();
    assert!(!first.is_empty());
    assert_eq!(writer.output, "");
    assert_eq!(writer.get_num_written_entries(), 1);
    writer.write(&entry).unwrap();
    let second = writer.take_output();
    assert_eq!(first, second);
    assert_eq!(writer.get_num_written_entries(), 2);

    let mut plain = BiblatexWriter::new();
    plain.write(&entry).unwrap();
    plain.write(&entry).unwrap();
    assert_eq!(format!("{}{}", first, second), plain.output);
}

#[test]
fn conversion_is_idempotent() {
    // Converting and rendering the same input twice gives byte-identical
    // output.
    let run = || {
        let mut input = StringMap::new();
        input.insert("author", "alice");
        input.insert("year", "2000");
        input.insert("title", "my title");
        let converter = FieldConverter::new(StringMap::new(), Vec::new()).add_defaults();
        let entry = converter.convert_fields(input, String::from("entry_0"));
        let mut writer = BiblatexWriter::new();
        writer.write(&entry).unwrap();
        writer.output
    };
    let first = run();
    let second = run();
    assert_eq!(first, second);
}
