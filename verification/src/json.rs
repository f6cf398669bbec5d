//! JSON string literals, through `serde_json`, and the small JSON error
//! bodies the proxy answers with.

use vstd::prelude::*;
use crate::text::{decimal, push_str, u64_to_decimal};

verus! {

/// A hexadecimal digit, lower case.
pub open spec fn hex_digit(d: u32) -> char {
    if d < 10 {
        (d + 48) as char
    } else {
        (d + 87) as char
    }
}

/// How `serde_json` writes one character inside a string literal: `"`
/// and `\` behind a backslash; backspace, form feed, line feed,
/// carriage return and tab as `\b`, `\f`, `\n`, `\r`, `\t`; any other
/// character below U+0020 as `\u00` and two lower-case hex digits;
/// everything else as it is.
pub open spec fn json_escaped_char(c: char) -> Seq<char> {
    if c == '"' {
        seq!['\\', '"']
    } else if c == '\\' {
        seq!['\\', '\\']
    } else if c == '\u{8}' {
        seq!['\\', 'b']
    } else if c == '\u{c}' {
        seq!['\\', 'f']
    } else if c == '\n' {
        seq!['\\', 'n']
    } else if c == '\r' {
        seq!['\\', 'r']
    } else if c == '\t' {
        seq!['\\', 't']
    } else if (c as u32) < 0x20 {
        seq!['\\', 'u', '0', '0', hex_digit((c as u32) / 16), hex_digit((c as u32) % 16)]
    } else {
        seq![c]
    }
}

/// The escaped characters of a string.
pub open spec fn json_escape(s: Seq<char>) -> Seq<char>
    decreases s.len(),
{
    if s.len() == 0 {
        Seq::empty()
    } else {
        json_escape(s.drop_last()) + json_escaped_char(s.last())
    }
}

/// The JSON string literal that `serde_json` writes for `s`: its escaped
/// characters between double quotes.
pub closed spec fn json_string(s: Seq<char>) -> Seq<char> {
    seq!['"'] + json_escape(s) + seq!['"']
}

/// Whether `s` holds nothing that JSON escapes: no `"`, no `\` and no
/// control character below U+0020.
pub open spec fn json_plain(s: Seq<char>) -> bool {
    forall|i: int| 0 <= i < s.len() ==> #[trigger] s[i] != '"' && s[i] != '\\' && (s[i] as u32) >= 0x20
}

/// A string with nothing to escape is written unchanged.
proof fn lemma_json_escape_plain(s: Seq<char>)
    requires
        json_plain(s),
    ensures
        json_escape(s) == s,
    decreases s.len(),
{
    if s.len() > 0 {
        let t = s.drop_last();
        assert forall|i: int| 0 <= i < t.len() implies #[trigger] t[i] != '"' && t[i] != '\\' && (t[i] as u32)
            >= 0x20 by {
            assert(t[i] == s[i]);
        }
        lemma_json_escape_plain(t);
        assert(s =~= t.push(s.last()));
    }
}

/// A string with nothing to escape comes back between two double quotes.
pub proof fn lemma_json_string_plain(s: Seq<char>)
    requires
        json_plain(s),
    ensures
        json_string(s) == seq!['"'] + s + seq!['"'],
{
    lemma_json_escape_plain(s);
}

/// `serde_json::to_string` on a string slice: the quoted literal with
/// each character escaped as the escape table of `serde_json::ser` and its
/// `write_char_escape` say (see `json_escaped_char`). Serializing a `str`
/// does not fail.
#[verifier::external_body]
pub(crate) fn json_quote(s: &str) -> (r: String)
    ensures
        r@ == json_string(s@),
{
    serde_json::to_string(s).unwrap_or_default()
}

/// The body `{"error":…,"message":…,"status":…}` of an error response,
/// keys in the order `serde_json` writes an object's keys.
pub open spec fn error_body(error: Seq<char>, message: Seq<char>, status: u16) -> Seq<char> {
    "{\"error\":"@ + json_string(error) + ",\"message\":"@ + json_string(message) + ",\"status\":"@
        + decimal(status as nat) + "}"@
}

/// Builds the JSON body of an error response.
pub fn build_error_body(error: &str, message: &str, status: u16) -> (r: String)
    ensures
        r@ == error_body(error@, message@, status),
{
    let mut out = String::new();
    push_str(&mut out, "{\"error\":");
    let e = json_quote(error);
    push_str(&mut out, e.as_str());
    push_str(&mut out, ",\"message\":");
    let m = json_quote(message);
    push_str(&mut out, m.as_str());
    push_str(&mut out, ",\"status\":");
    let s = u64_to_decimal(status as u64);
    push_str(&mut out, s.as_str());
    push_str(&mut out, "}");
    assert(out@ =~= error_body(error@, message@, status));
    out
}

} // verus!
