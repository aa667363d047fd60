use csv2bibtex::strmap::StringMap;
use csv2bibtex::template::substitute;

fn row() -> StringMap {
    let mut m = StringMap::new();
    m.insert("key", "entry1");
    m.insert("Start Page", "1200");
    m.insert("End Page", "1212");
    m
}

#[test]
fn plain_text_passes_through() {
    assert_eq!(substitute("no placeholders", &row(), "fb"), "no placeholders");
    assert_eq!(substitute("", &row(), "fb"), "");
}

#[test]
fn single_placeholder_resolves() {
    assert_eq!(substitute("[[key]]", &row(), "fb"), "entry1");
    assert_eq!(substitute("prefix_[[key]]", &row(), "fb"), "prefix_entry1");
    assert_eq!(substitute("[[key]]_suffix", &row(), "fb"), "entry1_suffix");
}

#[test]
fn keys_may_contain_spaces_and_repeat() {
    let r = row();
    assert_eq!(substitute("[[Start Page]]--[[End Page]]", &r, ""), "1200--1212");
    assert_eq!(substitute("[[Start Page]]--[[Start Page]]", &r, ""), "1200--1200");
}

#[test]
fn missing_keys_take_the_replacement() {
    assert_eq!(substitute("[[absent]]", &row(), "fb"), "fb");
    assert_eq!(substitute("[[absent]]", &row(), ""), "");
    assert_eq!(substitute("p. [[absent]]", &row(), ""), "p. ");
}

#[test]
fn bracket_syntax_is_not_escapable() {
    let r = row();
    // No closing pair, empty key, or a key spanning a line break: no match.
    assert_eq!(substitute("[[key", &r, "fb"), "[[key");
    assert_eq!(substitute("[[]]", &r, "fb"), "[[]]");
    assert_eq!(substitute("[[a\nb]]", &r, "fb"), "[[a\nb]]");
    // The shortest closing pair wins: the key is `key` and the trailing
    // bracket stays literal text.
    assert_eq!(substitute("[[key]]]", &r, "fb"), "entry1]");
    // A second opening bracket pair becomes part of the key.
    assert_eq!(substitute("[[a[[key]]", &r, "fb"), "fb");
}
