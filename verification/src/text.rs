//! Joining and comparing texts, and writing a text as a JSON string.

use vstd::prelude::*;
use vstd::string::*;

verus! {

/// `a` followed by `b`.
pub fn join2(a: &str, b: &str) -> (r: String)
    ensures
        r@ == a@ + b@,
{
    let mut out = String::from_str(a);
    out.append(b);
    out
}

/// `a`, `b` and `c` one after the other.
pub fn join3(a: &str, b: &str, c: &str) -> (r: String)
    ensures
        r@ == a@ + b@ + c@,
{
    let mut out = String::from_str(a);
    out.append(b);
    out.append(c);
    out
}

/// Whether `s` is the text `other`.
pub fn same_text(s: &String, other: &str) -> (r: bool)
    ensures
        r == (s@ == other@),
{
    let t = String::from_str(other);
    *s == t
}

/// Whether `c` cannot stand as itself inside a JSON string: a double quote, a
/// backslash or a control character.
pub open spec fn needs_escape(c: char) -> bool {
    c == '"' || c == '\\' || (c as u32) < 0x20
}

/// How `c` is written inside a JSON string: a double quote and a backslash
/// behind a backslash, a control character as `\u00` and its two hexadecimal
/// digits, any other character as itself.
pub open spec fn escaped_char(c: char) -> Seq<char> {
    if c == '"' {
        "\\\""@
    } else if c == '\\' {
        "\\\\"@
    } else if (c as u32) < 0x20 {
        "\\u00"@ + "0123456789abcdef"@.subrange((c as u32 / 16) as int, (c as u32 / 16) as int + 1)
            + "0123456789abcdef"@.subrange((c as u32 % 16) as int, (c as u32 % 16) as int + 1)
    } else {
        seq![c]
    }
}

/// `s` with each of its characters written as inside a JSON string.
pub open spec fn escaped(s: Seq<char>) -> Seq<char>
    decreases s.len(),
{
    if s.len() == 0 {
        Seq::empty()
    } else {
        escaped(s.drop_last()) + escaped_char(s.last())
    }
}

/// The JSON string literal that stands for `s`: its escaped characters
/// between two double quotes.
pub open spec fn json_string(s: Seq<char>) -> Seq<char> {
    "\""@ + escaped(s) + "\""@
}

/// Writes the characters of `text` as they stand inside a JSON string.
pub fn escape(text: &str) -> (r: String)
    ensures
        r@ == escaped(text@),
{
    let len: usize = text.unicode_len();
    let mut out = String::from_str("");
    proof {
        reveal_strlit("");
        reveal_strlit("0123456789abcdef");
        assert(text@.subrange(0, 0) =~= Seq::<char>::empty());
    }
    let mut i: usize = 0;
    while i < len
        invariant
            len == text@.len(),
            i <= len,
            "0123456789abcdef"@.len() == 16,
            out@ == escaped(text@.subrange(0, i as int)),
        decreases len - i,
    {
        let c: char = text.get_char(i);
        let code: u32 = c as u32;
        proof {
            let upto = text@.subrange(0, i as int + 1);
            assert(upto.drop_last() =~= text@.subrange(0, i as int));
            assert(upto.last() == c);
        }
        if c == '"' {
            out.append("\\\"");
        } else if c == '\\' {
            out.append("\\\\");
        } else if code < 0x20 {
            let high: usize = (code / 16) as usize;
            let low: usize = (code % 16) as usize;
            out.append("\\u00");
            out.append("0123456789abcdef".substring_char(high, high + 1));
            out.append("0123456789abcdef".substring_char(low, low + 1));
        } else {
            out.append(text.substring_char(i, i + 1));
            assert(text@.subrange(i as int, i as int + 1) =~= seq![c]);
        }
        i += 1;
    }
    assert(text@.subrange(0, len as int) =~= text@);
    out
}

/// Writes `text` as a JSON string literal.
pub fn quote(text: &str) -> (r: String)
    ensures
        r@ == json_string(text@),
{
    let inner = escape(text);
    join3("\"", inner.as_str(), "\"")
}

/// The value of the hexadecimal digit `c`, written with digits and small
/// letters.
pub open spec fn hex_value(c: char) -> int {
    if (c as u32) <= 0x39 {
        (c as u32) - 0x30
    } else {
        (c as u32) - 0x61 + 10
    }
}

/// The text that `t` stands for inside a JSON string, where `t` is written as
/// `escaped` writes: a backslash and `u00` announce two hexadecimal digits,
/// a backslash before anything else the character behind it.
pub open spec fn unescaped(t: Seq<char>) -> Seq<char>
    decreases t.len(),
{
    if t.len() == 0 {
        Seq::empty()
    } else if t[0] != '\\' || t.len() < 2 {
        seq![t[0]] + unescaped(t.skip(1))
    } else if t[1] != 'u' || t.len() < 6 {
        seq![t[1]] + unescaped(t.skip(2))
    } else {
        seq![((hex_value(t[4]) * 16 + hex_value(t[5])) as u8) as char] + unescaped(t.skip(6))
    }
}

/// Whether `c` is a hexadecimal digit, written as a digit or a small letter.
pub open spec fn is_hex_digit(c: char) -> bool {
    (0x30 <= (c as u32) && (c as u32) <= 0x39) || (0x61 <= (c as u32) && (c as u32) <= 0x66)
}

/// Whether `t` may stand between the double quotes of a JSON string: each
/// character is itself and needs no escape, or is written as `\"`, as `\\`,
/// or as `\u` and four hexadecimal digits.
pub open spec fn is_string_body(t: Seq<char>) -> bool
    decreases t.len(),
{
    if t.len() == 0 {
        true
    } else if !needs_escape(t[0]) {
        is_string_body(t.skip(1))
    } else if t[0] == '\\' && t.len() >= 2 && (t[1] == '"' || t[1] == '\\') {
        is_string_body(t.skip(2))
    } else if t[0] == '\\' && t.len() >= 6 && t[1] == 'u' && is_hex_digit(t[2]) && is_hex_digit(t[3])
        && is_hex_digit(t[4]) && is_hex_digit(t[5]) {
        is_string_body(t.skip(6))
    } else {
        false
    }
}

proof fn lemma_escaped_front(c: char, s: Seq<char>)
    ensures
        escaped(seq![c] + s) == escaped_char(c) + escaped(s),
    decreases s.len(),
{
    let t = seq![c] + s;
    if s.len() == 0 {
        assert(t.drop_last() =~= Seq::<char>::empty());
        assert(escaped(t.drop_last()) =~= Seq::<char>::empty());
        assert(escaped(t) =~= escaped_char(c) + escaped(s));
    } else {
        lemma_escaped_front(c, s.drop_last());
        assert(t.drop_last() =~= seq![c] + s.drop_last());
        assert(t.last() == s.last());
        assert(escaped(t) =~= escaped_char(c) + escaped(s));
    }
}

proof fn lemma_hex_digits(d: int)
    requires
        0 <= d < 16,
    ensures
        "0123456789abcdef"@.len() == 16,
        hex_value("0123456789abcdef"@[d]) == d,
        "0123456789abcdef"@.subrange(d, d + 1).len() == 1,
        "0123456789abcdef"@.subrange(d, d + 1)[0] == "0123456789abcdef"@[d],
        is_hex_digit("0123456789abcdef"@[d]),
{
    reveal_strlit("0123456789abcdef");
}

proof fn lemma_unescape_one(c: char, rest: Seq<char>)
    ensures
        unescaped(escaped_char(c) + rest) == seq![c] + unescaped(rest),
{
    reveal_strlit("\\\"");
    reveal_strlit("\\\\");
    reveal_strlit("\\u00");
    let e = escaped_char(c);
    let t = e + rest;
    if c == '"' || c == '\\' {
        assert(e.len() == 2);
        assert(t[0] == e[0] && t[1] == e[1]);
        assert(t.skip(2) =~= rest);
    } else if (c as u32) < 0x20 {
        let high = (c as u32 / 16) as int;
        let low = (c as u32 % 16) as int;
        lemma_hex_digits(high);
        lemma_hex_digits(low);
        assert(e.len() == 6);
        assert(t[0] == e[0] && t[1] == e[1] && t[4] == e[4] && t[5] == e[5]);
        assert(e[0] == '\\' && e[1] == 'u');
        assert(e[4] == "0123456789abcdef"@[high]);
        assert(e[5] == "0123456789abcdef"@[low]);
        assert(t.skip(6) =~= rest);
        assert(((high * 16 + low) as u8) as char == c);
    } else {
        assert(e.len() == 1);
        assert(t[0] == c);
        assert(t.skip(1) =~= rest);
    }
}

/// What `escaped` writes stands for what it was given: reading the escapes
/// back gives the text itself, whatever characters it holds.
pub proof fn lemma_escaped_reads_back(s: Seq<char>)
    ensures
        unescaped(escaped(s)) == s,
    decreases s.len(),
{
    if s.len() == 0 {
        assert(escaped(s) =~= Seq::<char>::empty());
    } else {
        let c = s[0];
        let rest = s.drop_first();
        assert(s =~= seq![c] + rest);
        lemma_escaped_front(c, rest);
        lemma_unescape_one(c, escaped(rest));
        lemma_escaped_reads_back(rest);
    }
}

proof fn lemma_body_one(c: char, rest: Seq<char>)
    ensures
        is_string_body(escaped_char(c) + rest) == is_string_body(rest),
{
    reveal_strlit("\\\"");
    reveal_strlit("\\\\");
    reveal_strlit("\\u00");
    let e = escaped_char(c);
    let t = e + rest;
    if c == '"' || c == '\\' {
        assert(e.len() == 2);
        assert(t[0] == e[0] && t[1] == e[1]);
        assert(t.skip(2) =~= rest);
    } else if (c as u32) < 0x20 {
        let high = (c as u32 / 16) as int;
        let low = (c as u32 % 16) as int;
        lemma_hex_digits(high);
        lemma_hex_digits(low);
        assert(e.len() == 6);
        assert(t[0] == e[0] && t[1] == e[1] && t[2] == e[2] && t[3] == e[3] && t[4] == e[4] && t[5]
            == e[5]);
        assert(e[0] == '\\' && e[1] == 'u' && e[2] == '0' && e[3] == '0');
        assert(e[4] == "0123456789abcdef"@[high]);
        assert(e[5] == "0123456789abcdef"@[low]);
        assert(t.skip(6) =~= rest);
    } else {
        assert(e.len() == 1);
        assert(t[0] == c);
        assert(t.skip(1) =~= rest);
    }
}

/// What `escaped` writes may stand between the double quotes of a JSON
/// string, whatever characters the text holds.
pub proof fn lemma_escaped_is_a_string_body(s: Seq<char>)
    ensures
        is_string_body(escaped(s)),
    decreases s.len(),
{
    if s.len() == 0 {
        assert(escaped(s) =~= Seq::<char>::empty());
    } else {
        let c = s[0];
        let rest = s.drop_first();
        assert(s =~= seq![c] + rest);
        lemma_escaped_front(c, rest);
        lemma_body_one(c, escaped(rest));
        lemma_escaped_is_a_string_body(rest);
    }
}

} // verus!
