//! The per-row policy of a conversion run.
//!
//! The surrounding application pulls row results from its record source and
//! performs output; the decision what to do with each result is made here:
//! convert it under a fallback key derived from its position, skip it, or
//! abort the run.

use vstd::prelude::*;
use vstd::string::StringExecFns;
use crate::bib::bib_fields;
use crate::bib::bib_key;
use crate::bib::bib_type;
use crate::bib::type_tag;
use crate::converter::resolved_fields;
use crate::converter::resolved_key;
use crate::converter::resolved_type;
use crate::converter::FieldConverter;
use crate::strmap::StringMap;

verus! {

/// Decimal digit character for `d`.
pub open spec fn spec_digit(d: int) -> char {
    if d == 0 {
        '0'
    } else if d == 1 {
        '1'
    } else if d == 2 {
        '2'
    } else if d == 3 {
        '3'
    } else if d == 4 {
        '4'
    } else if d == 5 {
        '5'
    } else if d == 6 {
        '6'
    } else if d == 7 {
        '7'
    } else if d == 8 {
        '8'
    } else {
        '9'
    }
}

/// Decimal numeral of `n`, most significant digit first.
pub open spec fn spec_decimal(n: nat) -> Seq<char>
    decreases n,
{
    if n < 10 {
        seq![spec_digit(n as int)]
    } else {
        spec_decimal(n / 10).push(spec_digit((n % 10) as int))
    }
}

/// The fallback citation key for the row at `index`.
pub open spec fn fallback_key_of(index: nat) -> Seq<char> {
    "entry_"@ + spec_decimal(index)
}

/// Single-character numeral for a digit.
fn digit_str(d: usize) -> (r: &'static str)
    requires
        d < 10,
    ensures
        r@ =~= seq![spec_digit(d as int)],
{
    if d == 0 {
        proof {
            reveal_strlit("0");
        }
        "0"
    } else if d == 1 {
        proof {
            reveal_strlit("1");
        }
        "1"
    } else if d == 2 {
        proof {
            reveal_strlit("2");
        }
        "2"
    } else if d == 3 {
        proof {
            reveal_strlit("3");
        }
        "3"
    } else if d == 4 {
        proof {
            reveal_strlit("4");
        }
        "4"
    } else if d == 5 {
        proof {
            reveal_strlit("5");
        }
        "5"
    } else if d == 6 {
        proof {
            reveal_strlit("6");
        }
        "6"
    } else if d == 7 {
        proof {
            reveal_strlit("7");
        }
        "7"
    } else if d == 8 {
        proof {
            reveal_strlit("8");
        }
        "8"
    } else {
        proof {
            reveal_strlit("9");
        }
        "9"
    }
}

/// Appends the decimal numeral of `n`.
fn push_decimal(n: usize, out: &mut String)
    ensures
        final (out)@ == old(out)@ + spec_decimal(n as nat),
    decreases n,
{
    if n >= 10 {
        push_decimal(n / 10, out);
        out.append(digit_str(n % 10));
        proof {
            assert(out@ =~= old(out)@ + spec_decimal(n as nat));
        }
    } else {
        out.append(digit_str(n));
        proof {
            assert(out@ =~= old(out)@ + spec_decimal(n as nat));
        }
    }
}

/// The numbered fallback key `entry_<index>`.
pub fn fallback_key(index: usize) -> (r: String)
    ensures
        r@ == fallback_key_of(index as nat),
{
    let mut out = "entry_".to_owned();
    push_decimal(index, &mut out);
    out
}

/// What the orchestration does with one row result.
pub enum RowOutcome {
    /// The row converted; the entry goes to the writer.
    Converted(biblatex::Entry),
    /// The row was malformed and lazy recovery skips it.
    Skipped,
    /// The row was malformed and the run aborts with this message.
    Fatal(String),
}

/// Decides one row: a well-formed row is converted under the fallback key
/// derived from its position; a malformed row is skipped under lazy
/// recovery, and otherwise aborts the run with a hint toward lazy mode.
pub fn process_row(
    converter: &FieldConverter,
    row: Result<StringMap, String>,
    index: usize,
    lazy: bool,
) -> (r: RowOutcome)
    ensures
        match row {
            Ok(m) => r matches RowOutcome::Converted(e) && bib_key(e) == resolved_key(
                converter.map@,
                m@,
                fallback_key_of(index as nat),
            ) && bib_type(e) == type_tag(resolved_type(converter.map@, m@)) && bib_fields(e)
                == resolved_fields(converter.map@, m@, converter.verbatim_fields.deep_view()),
            Err(msg) => if lazy {
                r is Skipped
            } else {
                r matches RowOutcome::Fatal(s) && s@ == msg@ + ". Option \"-l\" might help."@
            },
        },
{
    match row {
        Ok(m) => {
            let key = fallback_key(index);
            RowOutcome::Converted(converter.convert_fields(m, key))
        },
        Err(msg) => {
            if lazy {
                RowOutcome::Skipped
            } else {
                RowOutcome::Fatal(msg.concat(". Option \"-l\" might help."))
            }
        },
    }
}

} // verus!
