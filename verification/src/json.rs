//! JSON string literals, as `serde_json` writes them, for the scripts
//! the browser injects into pages.

use vstd::prelude::*;
use crate::text::{flat_map_chars, hex_digit_lower_spec};

verus! {

/// How JSON writes one character inside a string literal: `"` and `\`
/// behind a backslash, the short escapes `\b \t \n \f \r`, other control
/// characters as `\u00xx` (lower-case hex), everything else as itself.
pub open spec fn json_escape(c: char) -> Seq<char> {
    if c == '"' {
        seq!['\\', '"']
    } else if c == '\\' {
        seq!['\\', '\\']
    } else if c == '\u{8}' {
        seq!['\\', 'b']
    } else if c == '\t' {
        seq!['\\', 't']
    } else if c == '\n' {
        seq!['\\', 'n']
    } else if c == '\u{c}' {
        seq!['\\', 'f']
    } else if c == '\r' {
        seq!['\\', 'r']
    } else if (c as u32) < 0x20 {
        seq![
            '\\',
            'u',
            '0',
            '0',
            hex_digit_lower_spec(((c as u32) / 16) as u8),
            hex_digit_lower_spec(((c as u32) % 16) as u8),
        ]
    } else {
        seq![c]
    }
}

/// The JSON string literal of `s`.
pub open spec fn json_quoted(s: Seq<char>) -> Seq<char> {
    seq!['"'] + flat_map_chars(s, |c: char| json_escape(c)) + seq!['"']
}

/// `serde_json::to_string` on a string: its JSON string literal (escaped
/// as `json_escape` says). Serialising a string into memory does not fail
/// in the crate's source; the `None` arm only carries its `Result` over.
#[verifier::external_body]
pub(crate) fn json_string(s: &str) -> (r: Option<String>)
    ensures
        r is Some,
        r.unwrap()@ == json_quoted(s@),
{
    serde_json::to_string(s).ok()
}

} // verus!
