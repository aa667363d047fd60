//! The placeholder substitution engine.
//!
//! A template is plain text with embedded placeholders of the form
//! `[[key]]`. Scanning is leftmost and non-greedy: at the first `[[` from
//! which a closing `]]` is reachable, the nearest `]]` ends the placeholder,
//! so the key is the shortest non-empty text between the brackets. A key may
//! not span a line break, and the bracket syntax itself cannot be escaped.
//! Each placeholder is replaced by the row value for its key, or by a
//! caller-chosen replacement when the row lacks the key; text outside
//! placeholders passes through unchanged.

use vstd::prelude::*;
use vstd::string::StrSliceExecFns;
use vstd::string::StringExecFns;
use crate::strmap::spec_find;
use crate::strmap::StringMap;

verus! {

/// Position of the first closing `]]` at or after `j` that is reachable
/// without crossing a line break.
pub open spec fn close_from(t: Seq<char>, j: int) -> Option<int>
    decreases t.len() - j,
{
    if j < 0 || j + 1 >= t.len() {
        None
    } else if t[j] == ']' && t[j + 1] == ']' {
        Some(j)
    } else if t[j] == '\n' {
        None
    } else {
        close_from(t, j + 1)
    }
}

/// The leftmost placeholder beginning at or after `i`: `Some((a, b))` holds
/// the position `a` of its `[[` and the position `b` of its `]]`; the key is
/// the non-empty text in between.
pub open spec fn match_from(t: Seq<char>, i: int) -> Option<(int, int)>
    decreases t.len() - i,
{
    if i < 0 || i + 5 > t.len() {
        None
    } else if t[i] == '[' && t[i + 1] == '[' && t[i + 2] != '\n' {
        match close_from(t, i + 3) {
            Some(j) => Some((i, j)),
            None => match_from(t, i + 1),
        }
    } else {
        match_from(t, i + 1)
    }
}

/// A found closing bracket lies within the text.
pub proof fn lemma_close_from_bounds(t: Seq<char>, j: int)
    ensures
        close_from(t, j) matches Some(c) ==> j <= c && c + 2 <= t.len(),
    decreases t.len() - j,
{
    if !(j < 0 || j + 1 >= t.len()) && !(t[j] == ']' && t[j + 1] == ']') && t[j] != '\n' {
        lemma_close_from_bounds(t, j + 1);
    }
}

/// A found placeholder lies within the text and has a non-empty key.
pub proof fn lemma_match_from_bounds(t: Seq<char>, i: int)
    ensures
        match_from(t, i) matches Some((a, b)) ==> i <= a && a + 3 <= b && b + 2 <= t.len(),
    decreases t.len() - i,
{
    if !(i < 0 || i + 5 > t.len()) {
        if t[i] == '[' && t[i + 1] == '[' && t[i + 2] != '\n' {
            lemma_close_from_bounds(t, i + 3);
            if close_from(t, i + 3) is None {
                lemma_match_from_bounds(t, i + 1);
            }
        } else {
            lemma_match_from_bounds(t, i + 1);
        }
    }
}

/// Resolution of `t` from position `pos` on: each placeholder is replaced by
/// the row value for its key, or by `missing` when the row lacks the key.
pub open spec fn subst_from(
    t: Seq<char>,
    row: Seq<(Seq<char>, Seq<char>)>,
    missing: Seq<char>,
    pos: int,
) -> Seq<char>
    decreases t.len() - pos,
    via subst_from_decreases
{
    match match_from(t, pos) {
        None => t.subrange(pos, t.len() as int),
        Some((i, j)) => {
            let replacement = match spec_find(row, t.subrange(i + 2, j)) {
                Some(v) => v,
                None => missing,
            };
            t.subrange(pos, i) + replacement + subst_from(t, row, missing, j + 2)
        },
    }
}

#[via_fn]
proof fn subst_from_decreases(
    t: Seq<char>,
    row: Seq<(Seq<char>, Seq<char>)>,
    missing: Seq<char>,
    pos: int,
) {
    lemma_match_from_bounds(t, pos);
}

/// Full resolution of a template against a row.
pub open spec fn spec_substitute(
    t: Seq<char>,
    row: Seq<(Seq<char>, Seq<char>)>,
    missing: Seq<char>,
) -> Seq<char> {
    subst_from(t, row, missing, 0)
}

/// Finds the first closing `]]` at or after `start` before any line break.
#[verifier::loop_isolation(false)]
fn find_close(t: &str, start: usize, n: usize) -> (r: Option<usize>)
    requires
        n == t@.len(),
        start <= n,
    ensures
        match r {
            Some(j) => close_from(t@, start as int) == Some(j as int) && start <= j && j + 2
                <= n,
            None => close_from(t@, start as int) is None,
        },
{
    let mut j = start;
    while n - j > 1
        invariant
            start <= j <= n,
            close_from(t@, start as int) == close_from(t@, j as int),
        decreases n - j,
    {
        let c = t.get_char(j);
        if c == ']' && t.get_char(j + 1) == ']' {
            return Some(j);
        }
        if c == '\n' {
            return None;
        }
        j += 1;
    }
    None
}

/// Finds the leftmost placeholder beginning at or after `from`.
#[verifier::loop_isolation(false)]
fn find_match(t: &str, from: usize, n: usize) -> (r: Option<(usize, usize)>)
    requires
        n == t@.len(),
        from <= n,
    ensures
        match r {
            Some(p) => match_from(t@, from as int) == Some((p.0 as int, p.1 as int)) && from
                <= p.0 && p.0 + 3 <= p.1 && p.1 + 2 <= n,
            None => match_from(t@, from as int) is None,
        },
{
    let mut i = from;
    while n - i >= 5
        invariant
            from <= i <= n,
            match_from(t@, from as int) == match_from(t@, i as int),
        decreases n - i,
    {
        if t.get_char(i) == '[' && t.get_char(i + 1) == '[' && t.get_char(i + 2) != '\n' {
            match find_close(t, i + 3, n) {
                Some(j) => {
                    return Some((i, j));
                },
                None => {},
            }
        }
        i += 1;
    }
    None
}

/// Replaces every placeholder in `template` by the row value for its key, or
/// by `missing` where the row has no such key.
#[verifier::loop_isolation(false)]
pub fn substitute(template: &str, row: &StringMap, missing: &str) -> (r: String)
    ensures
        r@ == spec_substitute(template@, row@, missing@),
{
    let n = template.unicode_len();
    let mut out = String::new();
    let mut pos: usize = 0;
    while pos < n
        invariant
            pos <= n,
            out@ + subst_from(template@, row@, missing@, pos as int) == spec_substitute(
                template@,
                row@,
                missing@,
            ),
        decreases n - pos,
    {
        let ghost pos0: int = pos as int;
        let ghost pre_out = out@;
        match find_match(template, pos, n) {
            Some((i, j)) => {
                let lit = template.substring_char(pos, i);
                out.append(lit);
                let key = template.substring_char(i + 2, j);
                match row.get(key) {
                    Some(v) => out.append(v.as_str()),
                    None => out.append(missing),
                }
                proof {
                    let t = template@;
                    let keyv = t.subrange(i + 2, j as int);
                    let rep = match spec_find(row@, keyv) {
                        Some(v) => v,
                        None => missing@,
                    };
                    let rest = subst_from(t, row@, missing@, j + 2);
                    assert(subst_from(t, row@, missing@, pos0) == t.subrange(pos0, i as int)
                        + rep + rest);
                    assert(out@ == pre_out + t.subrange(pos0, i as int) + rep);
                    assert(out@ + rest =~= pre_out + (t.subrange(pos0, i as int) + rep
                        + rest));
                }
                pos = j + 2;
            },
            None => {
                let lit = template.substring_char(pos, n);
                out.append(lit);
                pos = n;
                proof {
                    assert(subst_from(template@, row@, missing@, pos0) == template@.subrange(
                        pos0,
                        n as int,
                    ));
                }
            },
        }
    }
    proof {
        assert(match_from(template@, n as int) is None);
        assert(out@ + subst_from(template@, row@, missing@, n as int) =~= out@);
    }
    out
}

/// A key that a template can carry in one placeholder: non-empty, on one
/// line, without a closing bracket pair, and not ending on a closing
/// bracket.
pub open spec fn wf_placeholder_key(k: Seq<char>) -> bool {
    &&& k.len() >= 1
    &&& forall|i: int| 0 <= i < k.len() ==> k[i] != '\n'
    &&& forall|i: int| 0 <= i && i + 1 < k.len() ==> !(#[trigger] k[i] == ']' && k[i + 1] == ']')
    &&& k[k.len() - 1] != ']'
}

/// The template that consists of one placeholder for `k`.
pub open spec fn bracketed(k: Seq<char>) -> Seq<char> {
    seq!['[', '['] + k + seq![']', ']']
}

proof fn lemma_bracketed_close(k: Seq<char>, j: int)
    requires
        wf_placeholder_key(k),
        3 <= j <= k.len() + 2,
    ensures
        close_from(bracketed(k), j) == Some(k.len() + 2 as int),
    decreases k.len() + 2 - j,
{
    let t = bracketed(k);
    assert(t.len() == k.len() + 4);
    assert(t[k.len() + 2 as int] == ']' && t[k.len() + 3 as int] == ']');
    if j == k.len() + 2 {
    } else {
        assert(t[j] == k[j - 2]);
        assert(t[j + 1] == (if j + 1 < k.len() + 2 {
            k[j - 1]
        } else {
            ']'
        }));
        assert(!(t[j] == ']' && t[j + 1] == ']'));
        assert(t[j] != '\n');
        lemma_bracketed_close(k, j + 1);
    }
}

/// Law: a template that is one placeholder resolves to the row value for
/// its key, or to the replacement for a key the row lacks — the fallback
/// key for the citation-key template, nothing for an ordinary field.
pub proof fn lemma_single_placeholder(
    k: Seq<char>,
    row: Seq<(Seq<char>, Seq<char>)>,
    missing: Seq<char>,
)
    requires
        wf_placeholder_key(k),
    ensures
        spec_substitute(bracketed(k), row, missing) == (match spec_find(row, k) {
            Some(v) => v,
            None => missing,
        }),
{
    let t = bracketed(k);
    assert(t.len() == k.len() + 4);
    assert(t[0] == '[' && t[1] == '[');
    assert(t[2] == k[0]);
    lemma_bracketed_close(k, 3);
    let j = k.len() + 2 as int;
    assert(match_from(t, 0) == Some((0 as int, j)));
    assert(t.subrange(2, j) =~= k);
    assert(match_from(t, j + 2) is None);
    assert(subst_from(t, row, missing, j + 2) =~= Seq::<char>::empty());
    assert(t.subrange(0, 0) =~= Seq::<char>::empty());
    let rep = match spec_find(row, k) {
        Some(v) => v,
        None => missing,
    };
    assert(subst_from(t, row, missing, 0) == t.subrange(0, 0) + rep + subst_from(
        t,
        row,
        missing,
        j + 2,
    ));
    assert(t.subrange(0, 0) + rep + subst_from(t, row, missing, j + 2) =~= rep);
}

} // verus!
