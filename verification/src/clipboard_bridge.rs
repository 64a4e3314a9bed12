//! The page side of the clipboard bridge needs text handed back to
//! `execute_java_script` as a JS literal.

use vstd::prelude::*;
use crate::text::{chars_of, flat_map_chars, lemma_flat_map_chars_step, string_of};

verus! {

/// JS escape of one character inside a single-quoted literal.
pub open spec fn js_char(c: char) -> Seq<char> {
    if c == '\\' {
        seq!['\\', '\\']
    } else if c == '\'' {
        seq!['\\', '\'']
    } else if c == '\n' {
        seq!['\\', 'n']
    } else if c == '\r' {
        seq!['\\', 'r']
    } else {
        seq![c]
    }
}

/// `s` as a single-quoted JS literal (no HTML escaping).
pub open spec fn js_literal_of(s: Seq<char>) -> Seq<char> {
    seq!['\''] + flat_map_chars(s, |c: char| js_char(c)) + seq!['\'']
}

/// JS single-quoted literal for `execute_java_script` (raw JS, no HTML escape).
pub fn js_literal(s: &str) -> (r: String)
    ensures
        r@ == js_literal_of(s@),
{
    let v = chars_of(s);
    let mut body: Vec<char> = Vec::new();
    let mut i: usize = 0;
    while i < v.len()
        invariant
            i <= v@.len(),
            body@ == flat_map_chars(v@.take(i as int), |c: char| js_char(c)),
        decreases v@.len() - i,
    {
        proof {
            lemma_flat_map_chars_step(v@, |c: char| js_char(c), i as int);
        }
        let ch = v[i];
        if ch == '\\' {
            body.push('\\');
            body.push('\\');
        } else if ch == '\'' {
            body.push('\\');
            body.push('\'');
        } else if ch == '\n' {
            body.push('\\');
            body.push('n');
        } else if ch == '\r' {
            body.push('\\');
            body.push('r');
        } else {
            body.push(ch);
        }
        i = i + 1;
    }
    assert(v@.take(v@.len() as int) == v@);
    let mut out: Vec<char> = Vec::new();
    out.push('\'');
    crate::text::push_all(&mut out, body.as_slice());
    out.push('\'');
    string_of(out.as_slice())
}

} // verus!
