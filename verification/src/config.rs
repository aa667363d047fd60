//! The run configuration, and the parsing of its textual settings.
//!
//! Command-line handling itself stays in the surrounding application; the
//! pieces with rules of their own live here: verbosity names, repeatable
//! `field=template` arguments, and the delimiter's tab escape.

use vstd::prelude::*;
use vstd::string::StrSliceExecFns;
use crate::strmap::StringMap;
use crate::text::str_eq;

verus! {

/// Output syntax selector.
#[derive(Debug, Clone, Copy, PartialEq, Eq)]
pub enum OutputType {
    Bibtex,
    Biblatex,
}

impl Default for OutputType {
    /// BibLaTeX is the default output syntax.
    fn default() -> (r: Self)
        ensures
            r is Biblatex,
    {
        OutputType::Biblatex
    }
}

/// Logging verbosity.
#[derive(Debug, Clone, Copy, PartialEq, Eq)]
pub enum LogLevel {
    Debug,
    Info,
    Warn,
    Error,
}

/// Main configuration of one run.
#[derive(Debug)]
pub struct Config {
    pub csv_delimiter: String,
    pub csv_field_mapping: StringMap,
    /// Recover from malformed rows by skipping them.
    pub csv_lazy: bool,
    pub file_input: String,
    pub file_output: String,
    pub log_level: LogLevel,
    pub output_type: OutputType,
    pub mapping_defaults: bool,
    pub verbatim_fields: Vec<String>,
}

impl Default for Config {
    /// Comma-delimited input, an empty mapping widened by the defaults,
    /// strict row handling, and BibLaTeX output at normal verbosity.
    fn default() -> (c: Self)
        ensures
            c.csv_delimiter@ == ","@,
            c.csv_field_mapping@ =~= Seq::<(Seq<char>, Seq<char>)>::empty(),
            !c.csv_lazy,
            c.file_input@ =~= Seq::<char>::empty(),
            c.file_output@ =~= Seq::<char>::empty(),
            c.log_level is Info,
            c.output_type is Biblatex,
            c.mapping_defaults,
            c.verbatim_fields.deep_view() =~= Seq::<Seq<char>>::empty(),
    {
        Config {
            csv_delimiter: ",".to_owned(),
            csv_field_mapping: StringMap::new(),
            csv_lazy: false,
            file_input: String::new(),
            file_output: String::new(),
            log_level: LogLevel::Info,
            output_type: OutputType::Biblatex,
            mapping_defaults: true,
            verbatim_fields: Vec::new(),
        }
    }
}

/// ASCII lowercasing of one character.
pub open spec fn lower_char(c: char) -> char {
    if c == 'A' {
        'a'
    } else if c == 'B' {
        'b'
    } else if c == 'C' {
        'c'
    } else if c == 'D' {
        'd'
    } else if c == 'E' {
        'e'
    } else if c == 'F' {
        'f'
    } else if c == 'G' {
        'g'
    } else if c == 'H' {
        'h'
    } else if c == 'I' {
        'i'
    } else if c == 'J' {
        'j'
    } else if c == 'K' {
        'k'
    } else if c == 'L' {
        'l'
    } else if c == 'M' {
        'm'
    } else if c == 'N' {
        'n'
    } else if c == 'O' {
        'o'
    } else if c == 'P' {
        'p'
    } else if c == 'Q' {
        'q'
    } else if c == 'R' {
        'r'
    } else if c == 'S' {
        's'
    } else if c == 'T' {
        't'
    } else if c == 'U' {
        'u'
    } else if c == 'V' {
        'v'
    } else if c == 'W' {
        'w'
    } else if c == 'X' {
        'x'
    } else if c == 'Y' {
        'y'
    } else if c == 'Z' {
        'z'
    } else {
        c
    }
}

/// Whether `s`, lowercased character by character, reads exactly `kw`.
pub open spec fn matches_lowered(s: Seq<char>, kw: Seq<char>) -> bool {
    s.len() == kw.len() && forall|i: int| 0 <= i < s.len() ==> lower_char(s[i]) == kw[i]
}

/// The verbosity named by `s`, compared case-insensitively.
pub open spec fn log_level_of(s: Seq<char>) -> Option<LogLevel> {
    if matches_lowered(s, "debug"@) {
        Some(LogLevel::Debug)
    } else if matches_lowered(s, "info"@) {
        Some(LogLevel::Info)
    } else if matches_lowered(s, "warn"@) {
        Some(LogLevel::Warn)
    } else if matches_lowered(s, "error"@) {
        Some(LogLevel::Error)
    } else {
        None
    }
}

/// ASCII lowercasing of one character.
fn lower_char_exec(c: char) -> (r: char)
    ensures
        r == lower_char(c),
{
    match c {
        'A' => 'a',
        'B' => 'b',
        'C' => 'c',
        'D' => 'd',
        'E' => 'e',
        'F' => 'f',
        'G' => 'g',
        'H' => 'h',
        'I' => 'i',
        'J' => 'j',
        'K' => 'k',
        'L' => 'l',
        'M' => 'm',
        'N' => 'n',
        'O' => 'o',
        'P' => 'p',
        'Q' => 'q',
        'R' => 'r',
        'S' => 's',
        'T' => 't',
        'U' => 'u',
        'V' => 'v',
        'W' => 'w',
        'X' => 'x',
        'Y' => 'y',
        'Z' => 'z',
        _ => c,
    }
}

/// Compares `s` against an expected lowercase word, case-insensitively.
#[verifier::loop_isolation(false)]
fn eq_lowered(s: &str, kw: &str) -> (r: bool)
    ensures
        r == matches_lowered(s@, kw@),
{
    let n = s.unicode_len();
    if n != kw.unicode_len() {
        return false;
    }
    let mut i: usize = 0;
    while i < n
        invariant
            n == s@.len(),
            n == kw@.len(),
            i <= n,
            forall|k: int| 0 <= k < i ==> lower_char(s@[k]) == kw@[k],
        decreases n - i,
    {
        if lower_char_exec(s.get_char(i)) != kw.get_char(i) {
            return false;
        }
        i += 1;
    }
    true
}

/// Parses a verbosity name; any capitalization is accepted.
pub fn parse_log_level(s: &str) -> (r: Option<LogLevel>)
    ensures
        r == log_level_of(s@),
{
    if eq_lowered(s, "debug") {
        Some(LogLevel::Debug)
    } else if eq_lowered(s, "info") {
        Some(LogLevel::Info)
    } else if eq_lowered(s, "warn") {
        Some(LogLevel::Warn)
    } else if eq_lowered(s, "error") {
        Some(LogLevel::Error)
    } else {
        None
    }
}

/// Position of the first `=` at or after `i`.
pub open spec fn eq_from(s: Seq<char>, i: int) -> Option<int>
    decreases s.len() - i,
{
    if i < 0 || i >= s.len() {
        None
    } else if s[i] == '=' {
        Some(i)
    } else {
        eq_from(s, i + 1)
    }
}

/// The mapping pair in a `field=template` argument: the field name before
/// the first `=`, then the template up to the second `=` or the end;
/// anything after a second `=` is discarded. An argument without `=` has no
/// pair.
pub open spec fn field_assignment_of(s: Seq<char>) -> Option<(Seq<char>, Seq<char>)> {
    match eq_from(s, 0) {
        None => None,
        Some(p) => {
            let value_end = match eq_from(s, p + 1) {
                Some(q) => q,
                None => s.len() as int,
            };
            Some((s.subrange(0, p), s.subrange(p + 1, value_end)))
        },
    }
}

/// Finds the first `=` at or after `from`.
#[verifier::loop_isolation(false)]
fn find_eq(s: &str, from: usize, n: usize) -> (r: Option<usize>)
    requires
        n == s@.len(),
        from <= n,
    ensures
        match r {
            Some(p) => eq_from(s@, from as int) == Some(p as int) && from <= p && p < n,
            None => eq_from(s@, from as int) is None,
        },
{
    let mut i = from;
    while i < n
        invariant
            from <= i <= n,
            eq_from(s@, from as int) == eq_from(s@, i as int),
        decreases n - i,
    {
        if s.get_char(i) == '=' {
            return Some(i);
        }
        i += 1;
    }
    None
}

/// Splits a repeatable `field=template` argument into the pair it assigns.
pub fn parse_field_assignment(s: &str) -> (r: Option<(String, String)>)
    ensures
        match r {
            Some(kv) => field_assignment_of(s@) == Some((kv.0@, kv.1@)),
            None => field_assignment_of(s@) is None,
        },
{
    let n = s.unicode_len();
    match find_eq(s, 0, n) {
        None => None,
        Some(p) => {
            let value_end = match find_eq(s, p + 1, n) {
                Some(q) => q,
                None => n,
            };
            let name = s.substring_char(0, p).to_owned();
            let template = s.substring_char(p + 1, value_end).to_owned();
            Some((name, template))
        },
    }
}

/// The delimiter setting with the two-character tab escape unfolded.
pub fn unescape_delimiter<'a>(s: &'a str) -> (r: &'a str)
    ensures
        r@ == (if s@ == "\\t"@ {
            "\t"@
        } else {
            s@
        }),
{
    if str_eq(s, "\\t") {
        "\t"
    } else {
        s
    }
}

} // verus!
