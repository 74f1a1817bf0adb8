//! The JSON text of the library's enums, in serde's externally tagged form:
//! a variant without data is its name as a JSON string, a variant with data
//! is an object whose one key is the name.

use vstd::prelude::*;
use vstd::string::*;
use crate::text::{digit_char, push_char};

verus! {

/// How `serde_json` writes the character `c` inside a JSON string: a quote
/// and a backslash behind a backslash; backspace, tab, line feed, form feed
/// and carriage return as `\b`, `\t`, `\n`, `\f`, `\r`; any other control
/// character below `0x20` as `\u00` and two lower-case hexadecimal digits;
/// every other character as it is.
pub open spec fn json_escape_char(c: char) -> Seq<char> {
    let u = c as u32;
    if c == '"' {
        seq!['\\', '"']
    } else if c == '\\' {
        seq!['\\', '\\']
    } else if u == 0x08 {
        seq!['\\', 'b']
    } else if u == 0x09 {
        seq!['\\', 't']
    } else if u == 0x0A {
        seq!['\\', 'n']
    } else if u == 0x0C {
        seq!['\\', 'f']
    } else if u == 0x0D {
        seq!['\\', 'r']
    } else if u < 0x20 {
        seq!['\\', 'u', '0', '0', digit_char((u / 16) as nat), digit_char((u % 16) as nat)]
    } else {
        seq![c]
    }
}

/// The characters of `s`, each written as `json_escape_char` writes it.
pub open spec fn json_escaped(s: Seq<char>) -> Seq<char>
    decreases s.len(),
{
    if s.len() == 0 {
        Seq::empty()
    } else {
        json_escaped(s.drop_last()) + json_escape_char(s.last())
    }
}

/// The JSON string literal that `serde_json` writes for the text `s`: `s`
/// between double quotes, escaped.
pub open spec fn json_string_literal(s: Seq<char>) -> Seq<char> {
    seq!['"'] + json_escaped(s) + seq!['"']
}

/// Calls `serde_json::to_string` on a `&str`, which writes the string
/// between double quotes and escapes it with serde_json's table of escapes
/// (`ESCAPE` and `write_char_escape` in its `ser.rs`), as
/// `json_string_literal` spells out. Serializing a string writes into a
/// `Vec` and cannot fail, so the result is always `Ok`.
#[verifier::external_body]
fn json_quote(s: &str) -> (r: Result<String, serde_json::Error>)
    ensures
        r is Ok,
        r->Ok_0@ == json_string_literal(s@),
{
    serde_json::to_string(s)
}

/// The JSON string literal for `s`.
pub fn json_string(s: &str) -> (r: String)
    ensures
        r@ == json_string_literal(s@),
{
    match json_quote(s) {
        Ok(text) => text,
        Err(_) => {
            assert(false);
            String::new()
        },
    }
}

/// The JSON of a variant without data: its name in double quotes.
pub open spec fn unit_variant_json(name: Seq<char>) -> Seq<char> {
    seq!['"'] + name + seq!['"']
}

/// The JSON of a variant with data: an object whose one key is the name and
/// whose value is the JSON of the data.
pub open spec fn newtype_variant_json(name: Seq<char>, value: Seq<char>) -> Seq<char> {
    seq!['{', '"'] + name + seq!['"', ':'] + value + seq!['}']
}

/// The JSON of the variant `name` without data. The name is written as it
/// is; variant names need no escaping.
pub fn unit_variant(name: &str) -> (r: String)
    ensures
        r@ == unit_variant_json(name@),
{
    let mut r = String::new();
    push_char(&mut r, '"');
    r.append(name);
    push_char(&mut r, '"');
    assert(r@ =~= unit_variant_json(name@));
    r
}

/// The JSON of the variant `name` with the data whose JSON is `value`.
pub fn newtype_variant(name: &str, value: &str) -> (r: String)
    ensures
        r@ == newtype_variant_json(name@, value@),
{
    let mut r = String::new();
    push_char(&mut r, '{');
    push_char(&mut r, '"');
    r.append(name);
    push_char(&mut r, '"');
    push_char(&mut r, ':');
    r.append(value);
    push_char(&mut r, '}');
    assert(r@ =~= newtype_variant_json(name@, value@));
    r
}

} // verus!
