//! JSON string literals, as serde_json writes them.

use vstd::prelude::*;

verus! {

/// Declares `serde_json::Error` so that the result of a serialisation can be carried.
#[verifier::external_type_specification]
#[verifier::external_body]
pub struct ExJsonError(serde_json::Error);

/// The lower-case hexadecimal digit for `v` (`0 <= v < 16`).
pub open spec fn hex_digit(v: int) -> char {
    if v < 10 {
        (48 + v) as char
    } else {
        (87 + v) as char
    }
}

/// How serde_json writes one character inside a string literal: a quote and a
/// backslash are escaped, backspace, tab, line feed, form feed and carriage
/// return take their short escapes, other control characters below U+0020 take
/// `\u00XX`, and every other character stands as it is.
pub open spec fn json_escape_char(c: char) -> Seq<char> {
    if c == '"' {
        seq!['\\', '"']
    } else if c == '\\' {
        seq!['\\', '\\']
    } else if c == '\u{8}' {
        seq!['\\', 'b']
    } else if c == '\t' {
        seq!['\\', 't']
    } else if c == '\n' {
        seq!['\\', 'n']
    } else if c == '\u{c}' {
        seq!['\\', 'f']
    } else if c == '\r' {
        seq!['\\', 'r']
    } else if (c as u32) < 0x20 {
        seq![
            '\\',
            'u',
            '0',
            '0',
            hex_digit((c as u32) as int / 16),
            hex_digit((c as u32) as int % 16),
        ]
    } else {
        seq![c]
    }
}

/// The characters of `s`, each written as serde_json writes it inside a string literal.
pub open spec fn json_escaped(s: Seq<char>) -> Seq<char>
    decreases s.len(),
{
    if s.len() == 0 {
        Seq::empty()
    } else {
        json_escape_char(s[0]) + json_escaped(s.drop_first())
    }
}

/// The JSON string literal that serde_json writes for `s`: the escaped
/// characters between double quotes.
pub open spec fn json_str_literal(s: Seq<char>) -> Seq<char> {
    seq!['"'] + json_escaped(s) + seq!['"']
}

/// A character that serde_json writes as it is inside a string literal.
pub open spec fn is_plain_json_char(c: char) -> bool {
    &&& (c as u32) >= 0x20
    &&& c != '"'
    &&& c != '\\'
}

/// Text without quotes, backslashes or control characters is written between
/// double quotes as it is; every other text is longer than that.
pub proof fn lemma_plain_literal(s: Seq<char>)
    ensures
        (forall|i: int| 0 <= i < s.len() ==> is_plain_json_char(#[trigger] s[i]))
            ==> json_escaped(s) == s,
        (forall|i: int| 0 <= i < s.len() ==> is_plain_json_char(#[trigger] s[i]))
            ==> json_str_literal(s) == seq!['"'] + s + seq!['"'],
        json_escaped(s).len() >= s.len(),
        json_str_literal(s)[0] == '"',
        json_str_literal(s).last() == '"',
    decreases s.len(),
{
    if s.len() > 0 {
        lemma_plain_literal(s.drop_first());
        if forall|i: int| 0 <= i < s.len() ==> is_plain_json_char(#[trigger] s[i]) {
            assert forall|i: int| 0 <= i < s.drop_first().len() implies is_plain_json_char(
                #[trigger] s.drop_first()[i],
            ) by {
                assert(s.drop_first()[i] == s[i + 1]);
            }
            assert(is_plain_json_char(s[0]));
            assert(json_escaped(s.drop_first()) == s.drop_first());
            assert(json_escaped(s) =~= s);
        }
    } else {
        assert(json_escaped(s) =~= s);
    }
}

/// Calls `serde_json::to_string` on a string slice. The contract claims that the call
/// succeeds and gives `json_str_literal(s@)`. serde_json serialises a `str` by
/// escaping it (its `ESCAPE` table and `write_char_escape`) into a `Vec<u8>` writer,
/// whose writes cannot fail, so the `Ok` arm is the only one this call can take.
#[verifier::external_body]
pub(crate) fn json_quote(s: &str) -> (r: Result<String, serde_json::Error>)
    ensures
        r is Ok,
        r->Ok_0@ == json_str_literal(s@),
{
    serde_json::to_string(s)
}

/// What a JSON document says of one member: `None` when `body` is not a JSON
/// document, `Some(Some(text))` when it is an object whose member `key` is the
/// string `text`, and `Some(None)` otherwise.
pub uninterp spec fn json_str_member(body: Seq<u8>, key: Seq<char>) -> Option<Option<Seq<char>>>;

/// The view of an optional optional string.
pub open spec fn opt_opt_view(r: Option<Option<String>>) -> Option<Option<Seq<char>>> {
    match r {
        Some(Some(s)) => Some(Some(s@)),
        Some(None) => Some(None),
        None => None,
    }
}

/// Parses `body` with `serde_json::from_slice` into a `serde_json::Value`, then
/// looks up member `key` with `Value::get` and takes it with `Value::as_str`. The
/// contract names the outcome `json_str_member(body@, key@)`; JSON parsing itself
/// is left unstated.
#[verifier::external_body]
pub(crate) fn parse_str_member(body: &[u8], key: &str) -> (r: Option<Option<String>>)
    ensures
        opt_opt_view(r) == json_str_member(body@, key@),
{
    match serde_json::from_slice::<serde_json::Value>(body) {
        Ok(v) => Some(v.get(key).and_then(|m| m.as_str()).map(|t| t.to_string())),
        Err(_) => None,
    }
}

/// The JSON string literal for `s`.
pub fn quoted(s: &str) -> (r: String)
    ensures
        r@ == json_str_literal(s@),
{
    match json_quote(s) {
        Ok(t) => t,
        Err(_) => unreached(),
    }
}

} // verus!
