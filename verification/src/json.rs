//! The JSON boundary.
//!
//! Whether a text is well-formed JSON, and what string value a named field of
//! a JSON object holds, are decided by `serde_json` behind the two trusted
//! functions below; everything the library states about frames goes through
//! the two names `json_wf` and `json_str_field`.
//!
//! Escaping a string for embedding in a JSON document is the library's own
//! verified code: `json_escape` says exactly which characters are replaced,
//! mirroring the escapes that JSON requires (quote, backslash, and control
//! characters).

use vstd::prelude::*;
use vstd::string::StrSliceExecFns;

verus! {

/// Whether `s` is a well-formed JSON document; a property of the text alone.
pub uninterp spec fn json_wf(s: Seq<char>) -> bool;

/// The string value of field `field` when `s` is a well-formed JSON document,
/// its top level an object, the field present and its value a string; `None`
/// otherwise. A function of the two texts alone.
pub uninterp spec fn json_str_field(s: Seq<char>, field: Seq<char>) -> Option<Seq<char>>;

/// Relies on `serde_json::from_str::<serde_json::Value>`: the text parses, or
/// does not, depending on the text alone.
#[verifier::external_body]
pub(crate) fn is_well_formed_json(s: &str) -> (r: bool)
    ensures
        r == json_wf(s@),
{
    serde_json::from_str::<serde_json::Value>(s).is_ok()
}

/// Relies on `serde_json::from_str::<serde_json::Value>` and `Value::get`:
/// together they give the string value of a named field of a JSON object, and
/// `None` when the text does not parse, the top level is not an object, the
/// field is absent, or its value is not a string. Both depend on their
/// arguments alone.
#[verifier::external_body]
pub(crate) fn json_string_field(s: &str, field: &str) -> (r: Option<String>)
    ensures
        r is Some <==> json_str_field(s@, field@) is Some,
        r matches Some(v) ==> json_str_field(s@, field@) == Some(v@),
{
    match serde_json::from_str::<serde_json::Value>(s) {
        Ok(doc) => match doc.get(field) {
            Some(serde_json::Value::String(value)) => Some(value.clone()),
            _ => None,
        },
        Err(_) => None,
    }
}

/// Relies on `String::push`: appends the given character to the end of the
/// string (vstd specifies no method that pushes a single `char`).
pub assume_specification[ String::push ](s: &mut String, ch: char)
    ensures
        final(s)@ == old(s)@.push(ch),
;

/// The lower-case hexadecimal digit for a value below sixteen.
pub open spec fn hex_digit(n: int) -> char {
    if n == 0 { '0' }
    else if n == 1 { '1' }
    else if n == 2 { '2' }
    else if n == 3 { '3' }
    else if n == 4 { '4' }
    else if n == 5 { '5' }
    else if n == 6 { '6' }
    else if n == 7 { '7' }
    else if n == 8 { '8' }
    else if n == 9 { '9' }
    else if n == 10 { 'a' }
    else if n == 11 { 'b' }
    else if n == 12 { 'c' }
    else if n == 13 { 'd' }
    else if n == 14 { 'e' }
    else { 'f' }
}

/// How one character appears inside a JSON string: quote and backslash are
/// escaped, control characters get their short escape or a `\u00XX` escape,
/// every other character stands for itself.
pub open spec fn escape_char(c: char) -> Seq<char> {
    if c == '"' { "\\\""@ }
    else if c == '\\' { "\\\\"@ }
    else if c == '\u{0008}' { "\\b"@ }
    else if c == '\t' { "\\t"@ }
    else if c == '\n' { "\\n"@ }
    else if c == '\u{000C}' { "\\f"@ }
    else if c == '\r' { "\\r"@ }
    else if (c as u32) < 32 {
        "\\u00"@ + seq![hex_digit((c as u32) as int / 16), hex_digit((c as u32) as int % 16)]
    } else {
        seq![c]
    }
}

/// The body of the JSON string that denotes the text `s`.
pub open spec fn json_escape(s: Seq<char>) -> Seq<char>
    decreases s.len(),
{
    if s.len() == 0 {
        Seq::empty()
    } else {
        escape_char(s[0]) + json_escape(s.skip(1))
    }
}

/// Escaping one more character extends the escaped text on the right.
pub proof fn lemma_json_escape_push(s: Seq<char>, c: char)
    ensures
        json_escape(s.push(c)) == json_escape(s) + escape_char(c),
    decreases s.len(),
{
    if s.len() == 0 {
        assert(s.push(c).skip(1) =~= Seq::<char>::empty());
        assert(s.push(c)[0] == c);
        assert(json_escape(s.push(c)) == escape_char(c) + json_escape(Seq::<char>::empty()));
        assert(json_escape(Seq::<char>::empty()) == Seq::<char>::empty());
        assert(json_escape(s.push(c)) =~= json_escape(s) + escape_char(c));
    } else {
        assert(s.push(c).skip(1) =~= s.skip(1).push(c));
        lemma_json_escape_push(s.skip(1), c);
        assert(json_escape(s.push(c)) =~= json_escape(s) + escape_char(c));
    }
}

/// Appends the JSON escape of one character.
fn append_escaped_char(out: &mut String, c: char)
    ensures
        final(out)@ == old(out)@ + escape_char(c),
{
    if c == '"' {
        out.append("\\\"");
    } else if c == '\\' {
        out.append("\\\\");
    } else if c == '\u{0008}' {
        out.append("\\b");
    } else if c == '\t' {
        out.append("\\t");
    } else if c == '\n' {
        out.append("\\n");
    } else if c == '\u{000C}' {
        out.append("\\f");
    } else if c == '\r' {
        out.append("\\r");
    } else if (c as u32) < 32 {
        let n: u32 = c as u32;
        out.append("\\u00");
        out.push(hex_char(n / 16));
        out.push(hex_char(n % 16));
        proof {
            reveal_strlit("\\u00");
            assert(out@ =~= old(out)@ + escape_char(c));
        }
    } else {
        out.push(c);
        proof {
            assert(out@ =~= old(out)@ + escape_char(c));
        }
    }
}

/// The lower-case hexadecimal digit for a value below sixteen.
fn hex_char(n: u32) -> (c: char)
    requires
        n < 16,
    ensures
        c == hex_digit(n as int),
{
    if n == 0 { '0' }
    else if n == 1 { '1' }
    else if n == 2 { '2' }
    else if n == 3 { '3' }
    else if n == 4 { '4' }
    else if n == 5 { '5' }
    else if n == 6 { '6' }
    else if n == 7 { '7' }
    else if n == 8 { '8' }
    else if n == 9 { '9' }
    else if n == 10 { 'a' }
    else if n == 11 { 'b' }
    else if n == 12 { 'c' }
    else if n == 13 { 'd' }
    else if n == 14 { 'e' }
    else { 'f' }
}

/// Appends the JSON escape of every character of `s`, in order.
pub fn append_json_escaped(out: &mut String, s: &str)
    ensures
        final(out)@ == old(out)@ + json_escape(s@),
{
    let n = s.unicode_len();
    let mut i: usize = 0;
    proof {
        assert(s@.take(0) =~= Seq::<char>::empty());
        assert(out@ =~= out@ + json_escape(s@.take(0)));
    }
    while i < n
        invariant
            n as nat == s@.len(),
            i <= n,
            out@ == old(out)@ + json_escape(s@.take(i as int)),
        decreases n - i,
    {
        let c = s.get_char(i);
        let ghost prefix = s@.take(i as int);
        append_escaped_char(out, c);
        i += 1;
        proof {
            lemma_json_escape_push(prefix, c);
            assert(prefix.push(c) =~= s@.take(i as int));
            assert(out@ =~= old(out)@ + json_escape(s@.take(i as int)));
        }
    }
    proof {
        assert(s@.take(n as int) =~= s@);
    }
}

} // verus!
