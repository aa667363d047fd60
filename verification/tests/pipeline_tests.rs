use csv2bibtex::converter::FieldConverter;
use csv2bibtex::runner::process_row;
use csv2bibtex::runner::RowOutcome;
use csv2bibtex::strmap::StringMap;
use csv2bibtex::writer::BiblatexWriter;

fn rows_from_csv(data: &[u8], delimiter: u8, lazy: bool) -> Vec<Result<StringMap, String>> {
    let reader = csv::ReaderBuilder::new()
        .has_headers(true)
        .delimiter(delimiter)
        .flexible(lazy)
        .from_reader(data);
    reader
        .into_deserialize::<std::collections::HashMap<String, String>>()
        .map(|record| match record {
            Ok(map) => {
                let mut pairs: Vec<(String, String)> = map.into_iter().collect();
                pairs.sort();
                let mut row = StringMap::new();
                for (k, v) in &pairs {
                    row.insert(k, v);
                }
                Ok(row)
            }
            Err(e) => Err(format!("{}", e)),
        })
        .collect()
}

#[test]
fn end_to_end_single_row() {
    let rows = rows_from_csv(b"author,year,title\nalice,2000,my title", b',', false);
    assert_eq!(rows.len(), 1);

    let converter = FieldConverter::new(StringMap::new(), Vec::new()).add_defaults();
    let mut writer = BiblatexWriter::new();
    for (index, row) in rows.into_iter().enumerate() {
        match process_row(&converter, row, index, false) {
            RowOutcome::Converted(entry) => writer.write(&entry).unwrap(),
            _ => panic!("the row must convert"),
        };
    }

    // One article entry keyed by position; `year` has no default mapping.
    assert_eq!(
        writer.output,
        "@article{entry_0,\nauthor = {alice},\ntitle = {my title},\n}\n\n"
    );
    assert_eq!(writer.get_num_written_entries(), 1);
}

#[test]
fn two_runs_produce_byte_identical_output() {
    // The whole pipeline — parsing, conversion, rendering — is a function
    // of the input text and the configuration alone.
    let data: &[u8] =
        b"Authors,Document Title,Start Page,End Page\nalice,t1,10,20\nbob,t2,30,40";
    let run = |bibtex: bool| {
        let mut mapping = StringMap::new();
        mapping.insert("author", "[[Authors]]");
        mapping.insert("title", "[[Document Title]]");
        mapping.insert("pages", "[[Start Page]]--[[End Page]]");
        let converter = FieldConverter::new(mapping, Vec::new()).add_defaults();
        let mut biblatex_writer = csv2bibtex::writer::BiblatexWriter::new();
        let mut bibtex_writer = csv2bibtex::writer::BibtexWriter::new();
        for (index, row) in rows_from_csv(data, b',', false).into_iter().enumerate() {
            match process_row(&converter, row, index, false) {
                RowOutcome::Converted(entry) => {
                    if bibtex {
                        bibtex_writer.write(&entry).unwrap();
                    } else {
                        biblatex_writer.write(&entry).unwrap();
                    }
                }
                _ => panic!("all rows are well-formed"),
            }
        }
        if bibtex {
            bibtex_writer.output
        } else {
            biblatex_writer.output
        }
    };
    assert_eq!(run(false), run(false));
    assert_eq!(run(true), run(true));
    assert!(run(false).contains("pages = {10--20}"));
}

#[test]
fn lazy_mode_skips_malformed_rows_and_strict_mode_aborts() {
    // The first data row is malformed: one cell holds bytes that are no
    // text at all.
    let data: &[u8] = b"author,title\nalice,\xFFt1\nbob,t2";

    // Strict run: the malformed row aborts the run before anything is
    // written.
    let rows = rows_from_csv(data, b',', false);
    let converter = FieldConverter::new(StringMap::new(), Vec::new()).add_defaults();
    let mut writer = BiblatexWriter::new();
    let mut aborted = false;
    for (index, row) in rows.into_iter().enumerate() {
        match process_row(&converter, row, index, false) {
            RowOutcome::Converted(entry) => writer.write(&entry).unwrap(),
            RowOutcome::Skipped => panic!("a strict run never skips"),
            RowOutcome::Fatal(message) => {
                assert!(message.ends_with(". Option \"-l\" might help."));
                aborted = true;
                break;
            }
        };
    }
    assert!(aborted);
    assert_eq!(writer.get_num_written_entries(), 0);

    // Lazy run: the malformed row is skipped and the valid row written.
    let rows = rows_from_csv(data, b',', true);
    let converter = FieldConverter::new(StringMap::new(), Vec::new()).add_defaults();
    let mut writer = BiblatexWriter::new();
    let mut skipped = 0;
    for (index, row) in rows.into_iter().enumerate() {
        match process_row(&converter, row, index, true) {
            RowOutcome::Converted(entry) => writer.write(&entry).unwrap(),
            RowOutcome::Skipped => skipped += 1,
            RowOutcome::Fatal(message) => panic!("a lazy run never aborts: {}", message),
        };
    }
    assert_eq!(skipped, 1);
    assert_eq!(writer.get_num_written_entries(), 1);
    assert_eq!(
        writer.output,
        "@article{entry_1,\nauthor = {bob},\ntitle = {t2},\n}\n\n"
    );
}
