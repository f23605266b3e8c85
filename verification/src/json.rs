//! The JSON text that the service puts on the wire, defined as spec
//! functions over character sequences, with verified builders.

use vstd::prelude::*;
use vstd::string::StrSliceExecFns;
use vstd::string::StringExecFns;

verus! {

/// The character for one decimal digit.
pub open spec fn digit_char(d: nat) -> char {
    if d == 0 {
        '0'
    } else if d == 1 {
        '1'
    } else if d == 2 {
        '2'
    } else if d == 3 {
        '3'
    } else if d == 4 {
        '4'
    } else if d == 5 {
        '5'
    } else if d == 6 {
        '6'
    } else if d == 7 {
        '7'
    } else if d == 8 {
        '8'
    } else {
        '9'
    }
}

/// The character for one lower-case hexadecimal digit.
pub open spec fn hex_char(d: nat) -> char {
    if d < 10 {
        digit_char(d)
    } else if d == 10 {
        'a'
    } else if d == 11 {
        'b'
    } else if d == 12 {
        'c'
    } else if d == 13 {
        'd'
    } else if d == 14 {
        'e'
    } else {
        'f'
    }
}

/// A number rendered as exactly two decimal digits, zero-padded.
pub open spec fn two_digits(d: nat) -> Seq<char> {
    seq![digit_char(d / 10 % 10), digit_char(d % 10)]
}

/// A number rendered as exactly four decimal digits, zero-padded.
pub open spec fn four_digits(d: nat) -> Seq<char> {
    seq![
        digit_char(d / 1000 % 10),
        digit_char(d / 100 % 10),
        digit_char(d / 10 % 10),
        digit_char(d % 10),
    ]
}

/// How one character appears inside a JSON string literal: the two-character
/// escapes JSON defines, `\u00XX` for the remaining control characters, and
/// every other character as itself.
pub open spec fn json_escaped_char(c: char) -> Seq<char> {
    if c == '"' {
        "\\\""@
    } else if c == '\\' {
        "\\\\"@
    } else if c == '\u{8}' {
        "\\b"@
    } else if c == '\u{c}' {
        "\\f"@
    } else if c == '\n' {
        "\\n"@
    } else if c == '\r' {
        "\\r"@
    } else if c == '\t' {
        "\\t"@
    } else if (c as u32) < 32 {
        "\\u00"@ + seq![hex_char((c as u32 / 16) as nat), hex_char((c as u32 % 16) as nat)]
    } else {
        seq![c]
    }
}

/// The body of a JSON string literal: each character escaped in order.
pub open spec fn json_escaped(s: Seq<char>) -> Seq<char>
    decreases s.len(),
{
    if s.len() == 0 {
        Seq::empty()
    } else {
        json_escaped(s.drop_last()) + json_escaped_char(s.last())
    }
}

/// A complete JSON string literal: quote, escaped body, quote.
pub open spec fn json_string(s: Seq<char>) -> Seq<char> {
    "\""@ + json_escaped(s) + "\""@
}

/// A JSON boolean literal.
pub open spec fn bool_text(b: bool) -> Seq<char> {
    if b {
        "true"@
    } else {
        "false"@
    }
}

/// Relies on String::push from std: appends the given character at the end.
#[verifier::external_body]
pub(crate) fn push_char(out: &mut String, c: char)
    ensures
        final(out)@ == old(out)@ + seq![c],
{
    out.push(c)
}

fn digit_char_exec(d: u32) -> (c: char)
    requires
        d < 10,
    ensures
        c == digit_char(d as nat),
{
    match d {
        0 => '0',
        1 => '1',
        2 => '2',
        3 => '3',
        4 => '4',
        5 => '5',
        6 => '6',
        7 => '7',
        8 => '8',
        _ => '9',
    }
}

fn hex_char_exec(d: u32) -> (c: char)
    requires
        d < 16,
    ensures
        c == hex_char(d as nat),
{
    match d {
        10 => 'a',
        11 => 'b',
        12 => 'c',
        13 => 'd',
        14 => 'e',
        15 => 'f',
        _ => digit_char_exec(d),
    }
}

/// Appends `d` as two zero-padded decimal digits.
pub(crate) fn push_two_digits(out: &mut String, d: u32)
    requires
        d < 100,
    ensures
        final(out)@ == old(out)@ + two_digits(d as nat),
{
    let hi = digit_char_exec(d / 10);
    let lo = digit_char_exec(d % 10);
    push_char(out, hi);
    push_char(out, lo);
    assert(out@ =~= old(out)@ + two_digits(d as nat));
}

/// Appends `d` as four zero-padded decimal digits.
pub(crate) fn push_four_digits(out: &mut String, d: u32)
    requires
        d < 10000,
    ensures
        final(out)@ == old(out)@ + four_digits(d as nat),
{
    let a = digit_char_exec(d / 1000);
    let b = digit_char_exec(d / 100 % 10);
    let c = digit_char_exec(d / 10 % 10);
    let e = digit_char_exec(d % 10);
    push_char(out, a);
    push_char(out, b);
    push_char(out, c);
    push_char(out, e);
    assert(out@ =~= old(out)@ + four_digits(d as nat));
}

fn push_escaped_char(out: &mut String, c: char)
    ensures
        final(out)@ == old(out)@ + json_escaped_char(c),
{
    if c == '"' {
        out.append("\\\"");
    } else if c == '\\' {
        out.append("\\\\");
    } else if c == '\u{8}' {
        out.append("\\b");
    } else if c == '\u{c}' {
        out.append("\\f");
    } else if c == '\n' {
        out.append("\\n");
    } else if c == '\r' {
        out.append("\\r");
    } else if c == '\t' {
        out.append("\\t");
    } else if (c as u32) < 32 {
        let v: u32 = c as u32;
        out.append("\\u00");
        let hi = hex_char_exec(v / 16);
        let lo = hex_char_exec(v % 16);
        push_char(out, hi);
        push_char(out, lo);
        assert(out@ =~= old(out)@ + json_escaped_char(c));
    } else {
        push_char(out, c);
    }
}

/// Appends the escaped body of a JSON string literal for `s`.
fn push_json_escaped(out: &mut String, s: &str)
    ensures
        final(out)@ == old(out)@ + json_escaped(s@),
{
    let n = s.unicode_len();
    let mut i: usize = 0;
    while i < n
        invariant
            n == s@.len(),
            i <= n,
            out@ == old(out)@ + json_escaped(s@.take(i as int)),
        decreases n - i,
    {
        let c = s.get_char(i);
        push_escaped_char(out, c);
        proof {
            assert(s@.take(i + 1).drop_last() =~= s@.take(i as int));
            assert(s@.take(i + 1).last() == c);
            assert(out@ =~= old(out)@ + json_escaped(s@.take(i + 1)));
        }
        i = i + 1;
    }
    proof {
        assert(s@.take(n as int) =~= s@);
    }
}

/// Appends `s` as a complete JSON string literal.
pub(crate) fn push_json_string(out: &mut String, s: &str)
    ensures
        final(out)@ == old(out)@ + json_string(s@),
{
    out.append("\"");
    push_json_escaped(out, s);
    out.append("\"");
    assert(out@ =~= old(out)@ + json_string(s@));
}

/// Appends a JSON boolean literal.
pub(crate) fn push_bool(out: &mut String, b: bool)
    ensures
        final(out)@ == old(out)@ + bool_text(b),
{
    if b {
        out.append("true");
    } else {
        out.append("false");
    }
}

} // verus!
