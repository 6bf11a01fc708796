//! Names of the items that stand for a record's controls.
//!
//! A field's marker type is named after the record and the field: two
//! underscores, the record's identifier, then the field's identifier with its
//! underscores dropped and the letter that follows each of them, and the
//! first letter, in upper case. The controls type is named after the record
//! alone.

use crate::text::push_char;
use vstd::prelude::*;
use vstd::string::*;

verus! {

/// The ASCII upper-case form of a character; any other character stays.
pub open spec fn upper(c: char) -> char {
    if 'a' <= c && c <= 'z' {
        ((c as u8) - 32) as char
    } else {
        c
    }
}

/// What the character at `i` of an identifier gives to its capitalized form:
/// nothing for an underscore, the upper-case letter at the start of a segment,
/// else the character itself.
pub open spec fn cased_at(s: Seq<char>, i: int) -> Seq<char>
    recommends
        0 <= i < s.len(),
{
    if s[i] == '_' {
        Seq::empty()
    } else if i == 0 || s[i - 1] == '_' {
        seq![upper(s[i])]
    } else {
        seq![s[i]]
    }
}

/// The capitalized form of an identifier: its segments between underscores,
/// each with an upper-case first letter, one after the other.
pub open spec fn pascal_case(s: Seq<char>) -> Seq<char>
    decreases s.len(),
{
    if s.len() == 0 {
        Seq::empty()
    } else {
        pascal_case(s.drop_last()) + cased_at(s, s.len() - 1)
    }
}

/// The name of the marker type of field `field` of record `record`.
pub open spec fn struct_ident(record: Seq<char>, field: Seq<char>) -> Seq<char> {
    "__"@ + record + pascal_case(field)
}

/// The name of the controls type of record `record`.
pub open spec fn control_struct_ident(record: Seq<char>) -> Seq<char> {
    record + "Controls"@
}

/// The capitalized form of a longer identifier starts with that of each of
/// its prefixes.
pub proof fn lemma_pascal_case_step(s: Seq<char>, i: int)
    requires
        0 <= i < s.len(),
    ensures
        pascal_case(s.take(i + 1)) == pascal_case(s.take(i)) + cased_at(s, i),
{
    assert(s.take(i + 1).drop_last() =~= s.take(i));
}

/// A segment without underscores is capitalized by raising its first letter.
pub proof fn lemma_pascal_case_word(s: Seq<char>)
    requires
        forall|i: int| 0 <= i < s.len() ==> s[i] != '_',
    ensures
        pascal_case(s) == if s.len() == 0 {
            s
        } else {
            seq![upper(s[0])] + s.subrange(1, s.len() as int)
        },
    decreases s.len(),
{
    if s.len() == 1 {
        assert(s.drop_last() =~= Seq::<char>::empty());
        assert(pascal_case(s.drop_last()) =~= Seq::<char>::empty());
        assert(pascal_case(s) =~= seq![upper(s[0])] + s.subrange(1, s.len() as int));
    } else if s.len() > 1 {
        let init = s.drop_last();
        lemma_pascal_case_word(init);
        assert(pascal_case(s) =~= seq![upper(s[0])] + s.subrange(1, s.len() as int));
    } else {
        assert(pascal_case(s) =~= s);
    }
}

/// Capitalizing goes segment by segment: an underscore between two parts is
/// dropped and each part is capitalized by itself.
pub proof fn lemma_pascal_case_segments(a: Seq<char>, b: Seq<char>)
    ensures
        pascal_case(a + seq!['_'] + b) == pascal_case(a) + pascal_case(b),
    decreases b.len(),
{
    let s = a + seq!['_'] + b;
    if b.len() == 0 {
        assert(s.drop_last() =~= a);
        assert(pascal_case(b) =~= Seq::<char>::empty());
        assert(pascal_case(s) =~= pascal_case(a));
    } else {
        let init = b.drop_last();
        lemma_pascal_case_segments(a, init);
        assert(s.drop_last() =~= a + seq!['_'] + init);
        let k = s.len() - 1;
        let j = b.len() - 1;
        assert(s[k] == b[j]);
        if j > 0 {
            assert(s[k - 1] == b[j - 1]);
        } else {
            assert(s[k - 1] == '_');
        }
        assert(cased_at(s, k) == cased_at(b, j));
        assert(pascal_case(s) =~= pascal_case(a) + pascal_case(b));
    }
}

/// Two records never share the name of a marker type for a field of the same
/// name: the name tells the record.
pub proof fn lemma_struct_ident_tells_record(r1: Seq<char>, r2: Seq<char>, field: Seq<char>)
    requires
        struct_ident(r1, field) == struct_ident(r2, field),
    ensures
        r1 == r2,
{
    let tail = pascal_case(field);
    let n1 = struct_ident(r1, field);
    let n2 = struct_ident(r2, field);
    let p = "__"@.len() as int;
    assert(n1.len() == p + r1.len() + tail.len());
    assert(n2.len() == p + r2.len() + tail.len());
    assert(r1.len() == r2.len());
    assert forall|i: int| 0 <= i < r1.len() implies r1[i] == r2[i] by {
        assert(n1[p + i] == r1[i]);
        assert(n2[p + i] == r2[i]);
    }
    assert(r1 =~= r2);
}

/// Two records never share the name of their controls type.
pub proof fn lemma_control_struct_ident_tells_record(r1: Seq<char>, r2: Seq<char>)
    requires
        control_struct_ident(r1) == control_struct_ident(r2),
    ensures
        r1 == r2,
{
    let n1 = control_struct_ident(r1);
    let n2 = control_struct_ident(r2);
    assert(n1.len() == r1.len() + "Controls"@.len());
    assert(n2.len() == r2.len() + "Controls"@.len());
    assert forall|i: int| 0 <= i < r1.len() implies r1[i] == r2[i] by {
        assert(n1[i] == r1[i]);
        assert(n2[i] == r2[i]);
    }
    assert(r1 =~= r2);
}

/// The ASCII upper-case form of `c`.
pub fn to_upper(c: char) -> (out: char)
    ensures
        out == upper(c),
{
    if 'a' <= c && c <= 'z' {
        ((c as u8) - 32) as char
    } else {
        c
    }
}

/// The capitalized form of an identifier.
pub fn capitalize(ident: &str) -> (out: String)
    ensures
        out@ == pascal_case(ident@),
{
    let n = ident.unicode_len();
    let mut out = String::new();
    let mut start = true;
    let mut i: usize = 0;
    assert(ident@.take(0) =~= Seq::<char>::empty());
    while i < n
        invariant
            n == ident@.len(),
            i <= n,
            start == (i == 0 || ident@[i - 1] == '_'),
            out@ == pascal_case(ident@.take(i as int)),
        decreases n - i,
    {
        let c = ident.get_char(i);
        let ghost before = out@;
        proof {
            lemma_pascal_case_step(ident@, i as int);
        }
        if c == '_' {
            start = true;
            assert(before + cased_at(ident@, i as int) =~= before);
        } else {
            if start {
                push_char(&mut out, to_upper(c));
            } else {
                push_char(&mut out, c);
            }
            start = false;
            assert(before + cased_at(ident@, i as int) =~= out@);
        }
        i = i + 1;
    }
    assert(ident@.take(n as int) =~= ident@);
    out
}

} // verus!
