//! JSON text of plain strings, as serde_json writes it.
use vstd::prelude::*;

verus! {

/// The lower-case hexadecimal digit of `n`, for `n < 16`.
pub open spec fn hex_digit(n: int) -> char {
    if n < 10 {
        ('0' as int + n) as char
    } else {
        ('a' as int + (n - 10)) as char
    }
}

/// How serde_json writes one character inside a JSON string: `"` and `\`
/// and the control characters below U+0020 are escaped, the five with a short
/// escape by it and the others as `\u00XX`; every other character stands as it is.
pub open spec fn json_char_escape(c: char) -> Seq<char> {
    if c == '"' {
        seq!['\\', '"']
    } else if c == '\\' {
        seq!['\\', '\\']
    } else if c == '\x08' {
        seq!['\\', 'b']
    } else if c == '\t' {
        seq!['\\', 't']
    } else if c == '\n' {
        seq!['\\', 'n']
    } else if c == '\x0c' {
        seq!['\\', 'f']
    } else if c == '\r' {
        seq!['\\', 'r']
    } else if (c as int) < 0x20 {
        seq!['\\', 'u', '0', '0', hex_digit(c as int / 16), hex_digit(c as int % 16)]
    } else {
        seq![c]
    }
}

/// The characters of `s`, each written as `json_char_escape` writes it.
pub open spec fn json_escaped(s: Seq<char>) -> Seq<char>
    decreases s.len(),
{
    if s.len() == 0 {
        Seq::empty()
    } else {
        json_char_escape(s[0]) + json_escaped(s.drop_first())
    }
}

/// The JSON text of the string `s`: its escaped characters between double quotes.
pub open spec fn json_string_text(s: Seq<char>) -> Seq<char> {
    seq!['"'] + json_escaped(s) + seq!['"']
}

/// `serde_json::to_string` of a text: a double quote, each character as
/// `json_char_escape` writes it (serde_json's escape table, ser.rs, writes
/// exactly these), and a double quote. serde_json writes a `str` into a `Vec`
/// of bytes, which cannot fail, so the unwrap never panics.
#[verifier::external_body]
pub(crate) fn json_string(s: &str) -> (text: String)
    ensures
        text@ == json_string_text(s@),
{
    serde_json::to_string(s).unwrap()
}

/// A text with no character that JSON escapes is written as itself.
pub proof fn lemma_json_escaped_plain(s: Seq<char>)
    requires
        forall|i: int| 0 <= i < s.len() ==> json_char_escape(#[trigger] s[i]) == seq![s[i]],
    ensures
        json_escaped(s) == s,
    decreases s.len(),
{
    if s.len() > 0 {
        let t = s.drop_first();
        assert forall|i: int| 0 <= i < t.len() implies json_char_escape(#[trigger] t[i]) == seq![t[i]] by {
            assert(t[i] == s[i + 1]);
        }
        lemma_json_escaped_plain(t);
        assert(json_char_escape(s[0]) == seq![s[0]]);
        assert(json_escaped(s) =~= s);
    }
}

} // verus!
