use vstd::prelude::*;
use vstd::string::StringExecFns;

verus! {

/// A hexadecimal digit in lower case, for `0 <= digit < 16`.
pub open spec fn hex_digit(digit: u32) -> char {
    if digit < 10 {
        (48 + digit) as char
    } else {
        (87 + digit) as char
    }
}

/// How one character stands inside a JSON string written by `serde_json`:
/// the quote, the backslash and the control characters are escaped, every
/// other character stands as it is.
pub open spec fn escaped_char(c: char) -> Seq<char> {
    if c == '"' {
        seq!['\\', '"']
    } else if c == '\\' {
        seq!['\\', '\\']
    } else if c == '\u{8}' {
        seq!['\\', 'b']
    } else if c == '\t' {
        seq!['\\', 't']
    } else if c == '\n' {
        seq!['\\', 'n']
    } else if c == '\u{c}' {
        seq!['\\', 'f']
    } else if c == '\r' {
        seq!['\\', 'r']
    } else if (c as u32) < 32 {
        seq!['\\', 'u', '0', '0', hex_digit((c as u32) / 16), hex_digit((c as u32) % 16)]
    } else {
        seq![c]
    }
}

/// The characters of `text`, each as it stands inside a JSON string.
pub open spec fn escaped(text: Seq<char>) -> Seq<char>
    decreases text.len(),
{
    if text.len() == 0 {
        Seq::empty()
    } else {
        escaped(text.drop_last()) + escaped_char(text.last())
    }
}

/// The JSON text that `serde_json` writes for a string value: the escaped
/// string between double quotes.
pub open spec fn json_string(text: Seq<char>) -> Seq<char> {
    seq!['"'] + escaped(text) + seq!['"']
}

/// Quotes `text` as a JSON string by calling `serde_json::to_string` on it.
///
/// Trusted: `serde_json::to_string` writes a `str` as a double quote, each
/// character escaped as `escaped_char` says (its `ESCAPE` table and
/// `write_char_escape`), and a closing double quote. Serialising a `str` into a `String` writes into a `Vec<u8>`, which
/// cannot fail, so the error arm is never taken.
#[verifier::external_body]
pub(crate) fn quote(text: &str) -> (quoted: String)
    ensures
        quoted@ == json_string(text@),
{
    match serde_json::to_string(text) {
        Ok(quoted) => quoted,
        Err(_) => String::new(),
    }
}

/// `parts` joined with `","` between consecutive parts.
pub open spec fn comma_joined(parts: Seq<Seq<char>>) -> Seq<char>
    decreases parts.len(),
{
    if parts.len() == 0 {
        Seq::empty()
    } else if parts.len() == 1 {
        parts[0]
    } else {
        comma_joined(parts.drop_last()) + ","@ + parts.last()
    }
}

/// The JSON array whose elements are the JSON texts `items`, in order.
pub open spec fn array_text(items: Seq<Seq<char>>) -> Seq<char> {
    "["@ + comma_joined(items) + "]"@
}

pub open spec fn strings_view(items: Seq<String>) -> Seq<Seq<char>> {
    items.map_values(|item: String| item@)
}

/// Writes the JSON array whose elements are the JSON texts in `items`.
pub fn array(items: &Vec<String>) -> (text: String)
    ensures
        text@ == array_text(strings_view(items@)),
{
    let ghost parts = strings_view(items@);
    let mut joined = String::new();
    let mut i: usize = 0;
    while i < items.len()
        invariant
            i <= items.len(),
            parts == strings_view(items@),
            joined@ == comma_joined(parts.take(i as int)),
        decreases items.len() - i,
    {
        if i > 0 {
            joined.append(",");
        }
        joined.append(items[i].as_str());
        assert(parts.take(i + 1).drop_last() =~= parts.take(i as int));
        i = i + 1;
    }
    assert(parts.take(items.len() as int) =~= parts);
    let mut text = String::from_str("[");
    text.append(joined.as_str());
    text.append("]");
    text
}

/// Whether `serde_json` reads the JSON texts `a` and `b` as equal values.
pub uninterp spec fn same_json_value(a: Seq<char>, b: Seq<char>) -> bool;

/// Compares two JSON texts as values: parses each with
/// `serde_json::from_str` into a `serde_json::Value` and compares them with
/// `Value`'s `==`.
///
/// Trusted: the result is what that parse and comparison give, a function of
/// the two texts alone. A text that does not parse equals nothing; the
/// messages compared here are texts `serde_json` wrote, which always parse.
#[verifier::external_body]
pub(crate) fn json_values_equal(a: &str, b: &str) -> (equal: bool)
    ensures
        equal == same_json_value(a@, b@),
{
    match (serde_json::from_str::<serde_json::Value>(a), serde_json::from_str::<serde_json::Value>(b)) {
        (Ok(left), Ok(right)) => left == right,
        _ => false,
    }
}

} // verus!
