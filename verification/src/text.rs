//! Text of string literals.

use vstd::prelude::*;
use vstd::string::*;

verus! {

/// How one character stands inside a string literal: a quote, a backslash,
/// a line feed, a carriage return, a tab and the null character are escaped,
/// any other character stands for itself.
pub open spec fn escaped_char(c: char) -> Seq<char> {
    if c == '"' {
        seq!['\\', '"']
    } else if c == '\\' {
        seq!['\\', '\\']
    } else if c == '\n' {
        seq!['\\', 'n']
    } else if c == '\r' {
        seq!['\\', 'r']
    } else if c == '\t' {
        seq!['\\', 't']
    } else if c == '\0' {
        seq!['\\', '0']
    } else {
        seq![c]
    }
}

/// The characters of a text as they stand inside a string literal.
pub open spec fn escaped(text: Seq<char>) -> Seq<char> {
    text.flat_map(|c: char| escaped_char(c))
}

/// The string literal that denotes a text.
pub open spec fn literal(text: Seq<char>) -> Seq<char> {
    seq!['"'] + escaped(text) + seq!['"']
}

/// Appends one character to a string with std's `String::push`: the string
/// then holds what it held, followed by that character.
#[verifier::external_body]
pub(crate) fn push_char(text: &mut String, c: char)
    ensures
        final(text)@ == old(text)@.push(c),
{
    text.push(c)
}

/// Appends to `out` the character `c` as it stands inside a string literal.
fn push_escaped(out: &mut String, c: char)
    ensures
        final(out)@ == old(out)@ + escaped_char(c),
{
    let ghost before = out@;
    if c == '"' {
        push_char(out, '\\');
        push_char(out, '"');
    } else if c == '\\' {
        push_char(out, '\\');
        push_char(out, '\\');
    } else if c == '\n' {
        push_char(out, '\\');
        push_char(out, 'n');
    } else if c == '\r' {
        push_char(out, '\\');
        push_char(out, 'r');
    } else if c == '\t' {
        push_char(out, '\\');
        push_char(out, 't');
    } else if c == '\0' {
        push_char(out, '\\');
        push_char(out, '0');
    } else {
        push_char(out, c);
    }
    assert(out@ =~= before + escaped_char(c));
}

/// The string literal that denotes `text`.
pub fn quote(text: &str) -> (out: String)
    ensures
        out@ == literal(text@),
{
    let n = text.unicode_len();
    let mut out = String::new();
    push_char(&mut out, '"');
    let mut i: usize = 0;
    assert(text@.take(0) =~= Seq::<char>::empty());
    assert(escaped(text@.take(0)) =~= Seq::<char>::empty());
    assert(out@ =~= seq!['"'] + escaped(text@.take(0)));
    while i < n
        invariant
            n == text@.len(),
            i <= n,
            out@ == seq!['"'] + escaped(text@.take(i as int)),
        decreases n - i,
    {
        let c = text.get_char(i);
        proof {
            text@.lemma_flat_map_take_append(|c: char| escaped_char(c), i as int);
        }
        push_escaped(&mut out, c);
        assert(out@ =~= seq!['"'] + escaped(text@.take(i + 1)));
        i = i + 1;
    }
    assert(text@.take(n as int) =~= text@);
    push_char(&mut out, '"');
    out
}

} // verus!
