//! Serialization of entries into an output buffer.
//!
//! Each writer renders successive entries into one of the two concrete
//! syntaxes, separated by blank lines, and counts the entries written. The
//! surrounding application hands the buffer to its output sink.

use vstd::prelude::*;
use vstd::string::StrSliceExecFns;
use vstd::string::StringExecFns;
use crate::bib::ascii_space;
use crate::bib::bib_date_text;
use crate::bib::bib_fields;
use crate::bib::bib_to_biblatex_string;
use crate::bib::bib_to_bibtex_string;
use crate::bib::biblatex_text;
use crate::bib::bibtex_date_safe;
use crate::bib::bibtex_text;
use crate::bib::date_text_safe;

verus! {

/// An ASCII whitespace character.
fn is_ascii_space(c: char) -> (r: bool)
    ensures
        r == ascii_space(c),
{
    c == ' ' || c == '\t' || c == '\n' || c == '\r' || c == '\u{b}' || c == '\u{c}'
}

/// Whether a date text stays inside the set the BibTeX serializer's date
/// parser is known to read without panicking.
#[verifier::loop_isolation(false)]
pub fn date_text_ok(s: &str) -> (r: bool)
    ensures
        r == date_text_safe(s@),
{
    let n = s.unicode_len();
    let mut space_at: usize = 0;
    let mut seen_space = false;
    let mut content_at: usize = 0;
    let mut seen_content = false;
    let mut i: usize = 0;
    while i < n
        invariant
            n == s@.len(),
            i <= n,
            forall|a: int| 0 <= a < i ==> ((#[trigger] s@[a]) as u32) < 128,
            forall|a: int| 0 <= a < i ==> (#[trigger] s@[a]) != 'x' && s@[a] != 'X',
            forall|a: int|
                0 <= a < i && a + 2 < n && (#[trigger] s@[a]) == '-' ==> !(s@[a + 1] == '0'
                    && s@[a + 2] == '0'),
            seen_space ==> space_at < i && ascii_space(s@[space_at as int]),
            seen_space ==> forall|a: int| space_at <= a < i ==> ascii_space(#[trigger] s@[a]),
            seen_space ==> forall|a: int| 0 <= a < space_at ==> !ascii_space(#[trigger] s@[a]),
            !seen_space ==> forall|a: int| 0 <= a < i ==> !ascii_space(#[trigger] s@[a]),
            seen_content ==> content_at < i && !ascii_space(s@[content_at as int]),
            !seen_content ==> forall|a: int| 0 <= a < i ==> ascii_space(#[trigger] s@[a]),
        decreases n - i,
    {
        let c = s.get_char(i);
        if (c as u32) >= 128 {
            return false;
        }
        if c == 'x' || c == 'X' {
            return false;
        }
        if is_ascii_space(c) {
            if !seen_space {
                seen_space = true;
                space_at = i;
            }
        } else {
            if seen_space {
                return false;
            }
            seen_content = true;
            content_at = i;
        }
        if c == '-' && n - i > 2 {
            if s.get_char(i + 1) == '0' && s.get_char(i + 2) == '0' {
                return false;
            }
        }
        i += 1;
    }
    if !seen_content {
        return false;
    }
    proof {
        if seen_space {
            assert forall|a: int, b: int|
                0 <= a < b < n && ascii_space(#[trigger] s@[a]) implies ascii_space(
                #[trigger] s@[b],
            ) by {
                assert(a >= space_at);
            }
        }
        assert(!ascii_space(s@[content_at as int]));
    }
    true
}

/// Failure of a write: the entry uses data its syntax cannot represent.
#[derive(Debug)]
pub enum WriteError {
    NotRepresentable(String),
}

impl WriteError {
    /// The failure, described for the user.
    pub fn message(&self) -> (r: &String)
        ensures
            self matches WriteError::NotRepresentable(m) && r@ == m@,
    {
        match self {
            WriteError::NotRepresentable(m) => m,
        }
    }
}

/// Renders entries into BibLaTeX syntax.
pub struct BiblatexWriter {
    pub output: String,
    pub counter: usize,
}

impl BiblatexWriter {
    /// A writer with an empty buffer.
    pub fn new() -> (w: Self)
        ensures
            w.output@ =~= Seq::<char>::empty(),
            w.counter == 0,
    {
        BiblatexWriter { output: String::new(), counter: 0 }
    }

    /// Appends the entry's BibLaTeX syntax and a blank line to the buffer;
    /// this syntax can render every entry.
    pub fn write(&mut self, entry: &biblatex::Entry) -> (r: Result<(), WriteError>)
        requires
            old(self).counter < usize::MAX,
        ensures
            r is Ok,
            final (self).output@ == old(self).output@ + biblatex_text(*entry) + "\n\n"@,
            final (self).counter == old(self).counter + 1,
    {
        let rendered = bib_to_biblatex_string(entry);
        self.output.append(rendered.as_str());
        self.output.append("\n\n");
        self.counter = self.counter + 1;
        Ok(())
    }

    /// Number of entries written so far.
    pub fn get_num_written_entries(&self) -> (n: usize)
        ensures
            n == self.counter,
    {
        self.counter
    }

    /// Hands out the rendered text and empties the buffer, so a caller can
    /// stream the output without the whole of it staying in memory.
    pub fn take_output(&mut self) -> (r: String)
        ensures
            r@ == old(self).output@,
            final (self).output@ =~= Seq::<char>::empty(),
            final (self).counter == old(self).counter,
    {
        let taken = self.output.clone();
        self.output = String::new();
        taken
    }
}

/// Renders entries into BibTeX syntax.
pub struct BibtexWriter {
    pub output: String,
    pub counter: usize,
}

impl BibtexWriter {
    /// A writer with an empty buffer.
    pub fn new() -> (w: Self)
        ensures
            w.output@ =~= Seq::<char>::empty(),
            w.counter == 0,
    {
        BibtexWriter { output: String::new(), counter: 0 }
    }

    /// Appends the entry's BibTeX syntax and a blank line to the buffer, or
    /// fails, changing nothing, when BibTeX cannot represent the entry. An
    /// entry whose date text leaves the safe set is refused up front, since
    /// the serializer's date parser cannot be trusted to return on it.
    pub fn write(&mut self, entry: &biblatex::Entry) -> (r: Result<(), WriteError>)
        requires
            old(self).counter < usize::MAX,
        ensures
            bibtex_date_safe(bib_fields(*entry)) ==> match bibtex_text(*entry) {
                Some(s) => r is Ok && final (self).output@ == old(self).output@ + s + "\n\n"@
                    && final (self).counter == old(self).counter + 1,
                None => r is Err && final (self).output@ == old(self).output@
                    && final (self).counter == old(self).counter,
            },
            !bibtex_date_safe(bib_fields(*entry)) ==> r is Err && final (self).output@ == old(
                self,
            ).output@ && final (self).counter == old(self).counter,
    {
        match bib_date_text(entry) {
            Some(text) => {
                if !date_text_ok(text.as_str()) {
                    return Err(
                        WriteError::NotRepresentable(
                            "the date field holds text BibTeX output cannot carry".to_owned(),
                        ),
                    );
                }
            },
            None => {},
        }
        match bib_to_bibtex_string(entry) {
            Ok(rendered) => {
                self.output.append(rendered.as_str());
                self.output.append("\n\n");
                self.counter = self.counter + 1;
                Ok(())
            },
            Err(message) => Err(WriteError::NotRepresentable(message)),
        }
    }

    /// Number of entries written so far.
    pub fn get_num_written_entries(&self) -> (n: usize)
        ensures
            n == self.counter,
    {
        self.counter
    }

    /// Hands out the rendered text and empties the buffer, so a caller can
    /// stream the output without the whole of it staying in memory.
    pub fn take_output(&mut self) -> (r: String)
        ensures
            r@ == old(self).output@,
            final (self).output@ =~= Seq::<char>::empty(),
            final (self).counter == old(self).counter,
    {
        let taken = self.output.clone();
        self.output = String::new();
        taken
    }
}

} // verus!
