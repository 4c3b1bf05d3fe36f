//! Minimal JSON emission for the request bodies the dispatcher sends: string
//! quoting with escaping, and one- and two-field objects. The shell never
//! parses JSON; responses are passed through as opaque text.

use vstd::prelude::*;

use crate::strutil::push_char;

verus! {

/// Lowercase hexadecimal digit character.
pub open spec fn hex_digit(d: int) -> char {
    if d == 0 {
        '0'
    } else if d == 1 {
        '1'
    } else if d == 2 {
        '2'
    } else if d == 3 {
        '3'
    } else if d == 4 {
        '4'
    } else if d == 5 {
        '5'
    } else if d == 6 {
        '6'
    } else if d == 7 {
        '7'
    } else if d == 8 {
        '8'
    } else if d == 9 {
        '9'
    } else if d == 10 {
        'a'
    } else if d == 11 {
        'b'
    } else if d == 12 {
        'c'
    } else if d == 13 {
        'd'
    } else if d == 14 {
        'e'
    } else {
        'f'
    }
}

/// How one character is written inside a JSON string literal: quote and
/// backslash are backslash-escaped, the common control characters get their
/// short escapes, other control characters a `\u00XX` escape, and everything
/// else stands as itself.
pub open spec fn json_escape_char(c: char) -> Seq<char> {
    if c == '"' {
        seq!['\\', '"']
    } else if c == '\\' {
        seq!['\\', '\\']
    } else if c == '\n' {
        seq!['\\', 'n']
    } else if c == '\r' {
        seq!['\\', 'r']
    } else if c == '\t' {
        seq!['\\', 't']
    } else if (c as u32) < 32 {
        seq!['\\', 'u', '0', '0', hex_digit(c as int / 16), hex_digit(c as int % 16)]
    } else {
        seq![c]
    }
}

/// The escaped body of a JSON string literal.
pub open spec fn json_escaped(s: Seq<char>) -> Seq<char>
    decreases s.len(),
{
    if s.len() == 0 {
        Seq::empty()
    } else {
        json_escape_char(s[0]) + json_escaped(s.drop_first())
    }
}

/// A full JSON string literal: quote, escaped body, quote.
pub open spec fn json_quoted(s: Seq<char>) -> Seq<char> {
    seq!['"'] + json_escaped(s) + seq!['"']
}

/// A one-field JSON object; the key is spliced verbatim (callers pass fixed
/// escape-free keys), the value is a quoted string.
pub open spec fn json_obj1(key: Seq<char>, value: Seq<char>) -> Seq<char> {
    seq!['{', '"'] + key + seq!['"', ':'] + json_quoted(value) + seq!['}']
}

/// A two-field JSON object with quoted string values.
pub open spec fn json_obj2(key1: Seq<char>, value1: Seq<char>, key2: Seq<char>, value2: Seq<char>) -> Seq<char> {
    seq!['{', '"'] + key1 + seq!['"', ':'] + json_quoted(value1) + seq![',', '"'] + key2 + seq![
        '"',
        ':',
    ] + json_quoted(value2) + seq!['}']
}

proof fn lemma_json_escaped_push(s: Seq<char>, c: char)
    ensures
        json_escaped(s.push(c)) == json_escaped(s) + json_escape_char(c),
    decreases s.len(),
{
    if s.len() == 0 {
        assert(s =~= Seq::<char>::empty());
        assert(s.push(c)[0] == c);
        assert(s.push(c).drop_first() =~= Seq::<char>::empty());
        assert(json_escaped(s.push(c)) == json_escape_char(c) + json_escaped(
            Seq::<char>::empty(),
        ));
        assert(json_escaped(Seq::<char>::empty()) =~= Seq::<char>::empty());
        assert(json_escaped(s.push(c)) =~= json_escaped(s) + json_escape_char(c));
    } else {
        assert(s.push(c).drop_first() =~= s.drop_first().push(c));
        lemma_json_escaped_push(s.drop_first(), c);
        assert(json_escaped(s.push(c)) =~= json_escaped(s) + json_escape_char(c));
    }
}

fn hex_digit_char(d: u32) -> (c: char)
    requires
        d < 16,
    ensures
        c == hex_digit(d as int),
{
    if d == 0 {
        '0'
    } else if d == 1 {
        '1'
    } else if d == 2 {
        '2'
    } else if d == 3 {
        '3'
    } else if d == 4 {
        '4'
    } else if d == 5 {
        '5'
    } else if d == 6 {
        '6'
    } else if d == 7 {
        '7'
    } else if d == 8 {
        '8'
    } else if d == 9 {
        '9'
    } else if d == 10 {
        'a'
    } else if d == 11 {
        'b'
    } else if d == 12 {
        'c'
    } else if d == 13 {
        'd'
    } else if d == 14 {
        'e'
    } else {
        'f'
    }
}

fn push_escaped(out: &mut String, c: char)
    ensures
        final(out)@ == old(out)@ + json_escape_char(c),
{
    if c == '"' {
        push_char(out, '\\');
        push_char(out, '"');
    } else if c == '\\' {
        push_char(out, '\\');
        push_char(out, '\\');
    } else if c == '\n' {
        push_char(out, '\\');
        push_char(out, 'n');
    } else if c == '\r' {
        push_char(out, '\\');
        push_char(out, 'r');
    } else if c == '\t' {
        push_char(out, '\\');
        push_char(out, 't');
    } else if (c as u32) < 32 {
        push_char(out, '\\');
        push_char(out, 'u');
        push_char(out, '0');
        push_char(out, '0');
        push_char(out, hex_digit_char((c as u32) / 16));
        push_char(out, hex_digit_char((c as u32) % 16));
    } else {
        push_char(out, c);
    }
    proof {
        assert(final(out)@ =~= old(out)@ + json_escape_char(c));
    }
}

/// Write `s` as a JSON string literal.
pub fn json_quote(s: &str) -> (r: String)
    ensures
        r@ == json_quoted(s@),
{
    let len = s.unicode_len();
    let mut out = String::new();
    push_char(&mut out, '"');
    proof {
        assert(out@ =~= seq!['"'] + json_escaped(s@.subrange(0, 0)));
    }
    let mut i: usize = 0;
    while i < len
        invariant
            len == s@.len(),
            i <= len,
            out@ == seq!['"'] + json_escaped(s@.subrange(0, i as int)),
        decreases len - i,
    {
        let c = s.get_char(i);
        push_escaped(&mut out, c);
        proof {
            assert(s@.subrange(0, i + 1) =~= s@.subrange(0, i as int).push(s@[i as int]));
            lemma_json_escaped_push(s@.subrange(0, i as int), s@[i as int]);
            assert(out@ =~= seq!['"'] + json_escaped(s@.subrange(0, i + 1)));
        }
        i += 1;
    }
    push_char(&mut out, '"');
    proof {
        assert(s@.subrange(0, len as int) =~= s@);
        assert(out@ =~= json_quoted(s@));
    }
    out
}

/// Build the one-field object `{"<key>":<quoted value>}`.
pub fn build_obj1(key: &str, value: &str) -> (r: String)
    ensures
        r@ == json_obj1(key@, value@),
{
    let mut out = String::new();
    push_char(&mut out, '{');
    push_char(&mut out, '"');
    out.append(key);
    push_char(&mut out, '"');
    push_char(&mut out, ':');
    out.append(json_quote(value).as_str());
    push_char(&mut out, '}');
    proof {
        assert(out@ =~= json_obj1(key@, value@));
    }
    out
}

/// Build the two-field object `{"<key1>":<quoted value1>,"<key2>":<quoted value2>}`.
pub fn build_obj2(key1: &str, value1: &str, key2: &str, value2: &str) -> (r: String)
    ensures
        r@ == json_obj2(key1@, value1@, key2@, value2@),
{
    let mut out = String::new();
    push_char(&mut out, '{');
    push_char(&mut out, '"');
    out.append(key1);
    push_char(&mut out, '"');
    push_char(&mut out, ':');
    out.append(json_quote(value1).as_str());
    push_char(&mut out, ',');
    push_char(&mut out, '"');
    out.append(key2);
    push_char(&mut out, '"');
    push_char(&mut out, ':');
    out.append(json_quote(value2).as_str());
    push_char(&mut out, '}');
    proof {
        assert(out@ =~= json_obj2(key1@, value1@, key2@, value2@));
    }
    out
}

} // verus!
