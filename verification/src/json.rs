//! JSON string literals, escaped as `serde_json` escapes them.

use vstd::prelude::*;

use crate::primitives::push_char;

verus! {

/// The lowercase hexadecimal digit of a value below sixteen.
pub open spec fn hex_digit(d: nat) -> char {
    if d < 10 {
        ((d + 0x30) as u8) as char
    } else {
        ((d - 10 + 0x61) as u8) as char
    }
}

/// How one character stands inside a JSON string: quote, backslash and the
/// control characters are escaped (the short forms where JSON has one,
/// `\u00XX` otherwise); every other character stands as it is.
pub open spec fn escape_char(c: char) -> Seq<char> {
    if c == '"' {
        seq!['\\', '"']
    } else if c == '\\' {
        seq!['\\', '\\']
    } else if c == '\u{8}' {
        seq!['\\', 'b']
    } else if c == '\u{c}' {
        seq!['\\', 'f']
    } else if c == '\n' {
        seq!['\\', 'n']
    } else if c == '\r' {
        seq!['\\', 'r']
    } else if c == '\t' {
        seq!['\\', 't']
    } else if (c as u32) < 0x20 {
        seq!['\\', 'u', '0', '0', hex_digit((c as u32 / 16) as nat), hex_digit((c as u32 % 16) as nat)]
    } else {
        seq![c]
    }
}

/// A text with every character escaped.
pub open spec fn escaped(s: Seq<char>) -> Seq<char>
    decreases s.len(),
{
    if s.len() == 0 {
        Seq::empty()
    } else {
        escaped(s.drop_last()) + escape_char(s.last())
    }
}

/// A text as a JSON string literal.
pub open spec fn json_string(s: Seq<char>) -> Seq<char> {
    seq!['"'] + escaped(s) + seq!['"']
}

fn hex(d: u32) -> (c: char)
    requires
        d < 16,
    ensures
        c == hex_digit(d as nat),
{
    if d < 10 {
        ((d + 0x30) as u8) as char
    } else {
        ((d - 10 + 0x61) as u8) as char
    }
}

/// Append the escaped form of one character.
fn push_escaped_char(out: &mut String, c: char)
    ensures
        final(out)@ == old(out)@ + escape_char(c),
{
    if c == '"' {
        push_char(out, '\\');
        push_char(out, '"');
    } else if c == '\\' {
        push_char(out, '\\');
        push_char(out, '\\');
    } else if c == '\u{8}' {
        push_char(out, '\\');
        push_char(out, 'b');
    } else if c == '\u{c}' {
        push_char(out, '\\');
        push_char(out, 'f');
    } else if c == '\n' {
        push_char(out, '\\');
        push_char(out, 'n');
    } else if c == '\r' {
        push_char(out, '\\');
        push_char(out, 'r');
    } else if c == '\t' {
        push_char(out, '\\');
        push_char(out, 't');
    } else if (c as u32) < 0x20 {
        let code = c as u32;
        push_char(out, '\\');
        push_char(out, 'u');
        push_char(out, '0');
        push_char(out, '0');
        push_char(out, hex(code / 16));
        push_char(out, hex(code % 16));
    } else {
        push_char(out, c);
    }
    assert(out@ =~= old(out)@ + escape_char(c));
}

/// Append a text as a JSON string literal.
pub fn push_json_string(out: &mut String, s: &str)
    ensures
        final(out)@ == old(out)@ + json_string(s@),
{
    let ghost text = s@;
    let ghost start = out@;
    push_char(out, '"');
    assert(text.take(0) =~= Seq::<char>::empty());
    for c in it: s.chars()
        invariant
            it.seq() == text,
            text == s@,
            out@ == start + seq!['"'] + escaped(text.take(it.index() as int)),
    {
        let ghost i = it.index() as int;
        assert(c == text[i]);
        assert(text.take(i + 1).drop_last() =~= text.take(i));
        push_escaped_char(out, c);
        assert(out@ =~= start + seq!['"'] + escaped(text.take(i + 1)));
    }
    assert(text.take(text.len() as int) =~= text);
    push_char(out, '"');
    assert(out@ =~= old(out)@ + json_string(s@));
}

} // verus!

verus! {

/// The sixteen lowercase hexadecimal digits.
pub open spec fn hex_digits() -> Seq<char> {
    seq!['0', '1', '2', '3', '4', '5', '6', '7', '8', '9', 'a', 'b', 'c', 'd', 'e', 'f']
}

/// Escaping a text escapes its parts one after the other.
pub proof fn lemma_escaped_concat(a: Seq<char>, b: Seq<char>)
    ensures
        escaped(a + b) == escaped(a) + escaped(b),
    decreases b.len(),
{
    if b.len() == 0 {
        assert(a + b =~= a);
        assert(escaped(a) + escaped(b) =~= escaped(a));
    } else {
        lemma_escaped_concat(a, b.drop_last());
        assert((a + b).drop_last() =~= a + b.drop_last());
        assert((a + b).last() == b.last());
        assert(escaped(a) + escaped(b) =~= escaped(a) + escaped(b.drop_last()) + escape_char(b.last()));
    }
}

/// JSON escaping as `serde_json` writes it: quote and backslash get a
/// backslash; backspace, form feed, newline, carriage return and tab their
/// short escapes; any other character below U+0020 becomes `\u00` and two
/// lowercase hexadecimal digits of its code; every other character (DEL and
/// non-ASCII ones too) stands as it is. A text is escaped character by
/// character, and a JSON string is the escaped text in double quotes.
pub proof fn lemma_escaping(c: char, s: Seq<char>)
    ensures
        escape_char('"') == seq!['\\', '"'],
        escape_char('\\') == seq!['\\', '\\'],
        escape_char('\u{8}') == seq!['\\', 'b'],
        escape_char('\u{c}') == seq!['\\', 'f'],
        escape_char('\n') == seq!['\\', 'n'],
        escape_char('\r') == seq!['\\', 'r'],
        escape_char('\t') == seq!['\\', 't'],
        (c as u32) < 0x20 && c != '\u{8}' && c != '\u{c}' && c != '\n' && c != '\r' && c != '\t'
            ==> escape_char(c) == seq!['\\', 'u', '0', '0', hex_digits()[(c as int) / 16], hex_digits()[(c as int) % 16]],
        (c as u32) >= 0x20 && c != '"' && c != '\\' ==> escape_char(c) == seq![c],
        escaped(s.push(c)) == escaped(s) + escape_char(c),
        json_string(s) == seq!['"'] + escaped(s) + seq!['"'],
{
    assert(s.push(c).drop_last() =~= s);
    if (c as u32) < 0x20 {
        let hi = (c as u32) / 16;
        let lo = (c as u32) % 16;
        assert(hi < 2);
        assert(hex_digit(hi as nat) == hex_digits()[hi as int]);
        assert(hex_digit(lo as nat) == hex_digits()[lo as int]);
    }
}

} // verus!
