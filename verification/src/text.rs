//! Texts that differ at most in the case of ASCII letters.

use vstd::prelude::*;

verus! {

/// The lowercase form of an ASCII character.
pub open spec fn lower_char(c: char) -> char {
    if 'A' <= c <= 'Z' {
        (c as u8 + 32) as char
    } else {
        c
    }
}

/// The lowercase form of a text, as far as it is ASCII.
pub open spec fn lower(text: Seq<char>) -> Seq<char> {
    text.map_values(|c: char| lower_char(c))
}

/// The characters of a text, in lowercase.
fn lowered(text: &str) -> (chars: Vec<char>)
    ensures
        chars@ == lower(text@),
{
    let mut chars: Vec<char> = Vec::new();
    for c in iter: text.chars()
        invariant
            iter.seq() == text@,
            chars@ == lower(text@.take(iter.index() as int)),
    {
        let small = if 'A' <= c && c <= 'Z' {
            (c as u8 + 32) as char
        } else {
            c
        };
        chars.push(small);
        assert(text@.take(iter.index() + 1).drop_last() =~= text@.take(iter.index() as int));
    }
    assert(text@.take(text@.len() as int) =~= text@);
    chars
}

/// Compares two texts, whatever the case of their letters.
pub fn same_text(a: &str, b: &str) -> (same: bool)
    ensures
        same == (lower(a@) == lower(b@)),
{
    let x = lowered(a);
    let y = lowered(b);
    if x.len() != y.len() {
        return false;
    }
    let mut i: usize = 0;
    while i < x.len()
        invariant
            i <= x.len(),
            x.len() == y.len(),
            x@ == lower(a@),
            y@ == lower(b@),
            forall|j: int| 0 <= j < i ==> x@[j] == y@[j],
        decreases x.len() - i,
    {
        if x[i] != y[i] {
            return false;
        }
        i = i + 1;
    }
    assert(x@ =~= y@);
    true
}

} // verus!
