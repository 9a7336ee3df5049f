use vstd::prelude::*;
use crate::signing::hex_digit;

verus! {

#[verifier::external_type_specification]
#[verifier::external_body]
pub struct ExJsonError(serde_json::Error);

/// How a JSON string writes one character: quote, backslash and control
/// characters escaped, everything else as it is.
pub open spec fn json_escaped_char(c: char) -> Seq<char> {
    if c == '"' {
        seq!['\\', '"']
    } else if c == '\\' {
        seq!['\\', '\\']
    } else if c == '\u{8}' {
        seq!['\\', 'b']
    } else if c == '\t' {
        seq!['\\', 't']
    } else if c == '\n' {
        seq!['\\', 'n']
    } else if c == '\u{c}' {
        seq!['\\', 'f']
    } else if c == '\r' {
        seq!['\\', 'r']
    } else if (c as u32) < 0x20 {
        seq!['\\', 'u', '0', '0', hex_digit((c as u32) as nat / 16), hex_digit((c as u32) as nat % 16)]
    } else {
        seq![c]
    }
}

pub open spec fn json_escaped(s: Seq<char>) -> Seq<char>
    decreases s.len(),
{
    if s.len() == 0 {
        seq![]
    } else {
        json_escaped(s.drop_last()) + json_escaped_char(s.last())
    }
}

/// `s` as a JSON string literal.
pub open spec fn json_quoted(s: Seq<char>) -> Seq<char> {
    seq!['"'] + json_escaped(s) + seq!['"']
}

/// Relies on `serde_json::to_string` on a `str`: the text between quotes, with
/// '"', '\\' and control characters escaped as its escape table gives them. It
/// writes into a `Vec`, whose writer never fails, so it always succeeds.
#[verifier::external_body]
fn json_string(s: &str) -> (r: Result<String, serde_json::Error>)
    ensures
        r is Ok,
        r matches Ok(t) ==> t@ == json_quoted(s@),
{
    serde_json::to_string(s)
}

/// Appends `s` as a JSON string literal; false where serialization failed.
pub fn push_json_string(out: &mut String, s: &str) -> (ok: bool)
    ensures
        ok,
        final(out)@ == old(out)@ + json_quoted(s@),
{
    match json_string(s) {
        Ok(t) => {
            out.append(t.as_str());
            true
        },
        Err(_) => false,
    }
}

/// Items joined by commas.
pub open spec fn json_list(items: Seq<Seq<char>>) -> Seq<char>
    decreases items.len(),
{
    if items.len() == 0 {
        seq![]
    } else if items.len() == 1 {
        items[0]
    } else {
        json_list(items.drop_last()) + seq![','] + items.last()
    }
}

/// The envelope of a batch request: category "linear" and the list of items.
pub open spec fn batch_body(items: Seq<Seq<char>>) -> Seq<char> {
    "{\"category\":\"linear\",\"request\":["@ + json_list(items) + "]}"@
}

} // verus!
