//! Building text one character at a time.

use vstd::prelude::*;

verus! {

/// `String::push` appends the character to the end of the string.
pub assume_specification[ String::push ](s: &mut String, c: char)
    ensures
        final(s)@ == old(s)@.push(c),
;

/// Characters that a JSON string holds as they are: no quote, no backslash
/// and no control character.
pub open spec fn is_plain_char(c: char) -> bool {
    c != '"' && c != '\\' && c as u32 >= 0x20
}

/// Text made of plain characters only.
pub open spec fn is_plain(text: Seq<char>) -> bool {
    forall|i: int| 0 <= i < text.len() ==> is_plain_char(#[trigger] text[i])
}

/// Whether `a` comes before `b` in the order of strings: at the first
/// position where they differ `a` has the smaller character, or `a` ends there
/// and `b` goes on.
pub open spec fn text_less(a: Seq<char>, b: Seq<char>) -> bool {
    exists|k: int| differ_at(a, b, k)
}

/// `a` and `b` agree before position `k`, and there `a` ends or is smaller.
pub open spec fn differ_at(a: Seq<char>, b: Seq<char>, k: int) -> bool {
    &&& 0 <= k <= a.len()
    &&& k < b.len()
    &&& a.take(k) == b.take(k)
    &&& k < a.len() ==> (a[k] as u32) < (b[k] as u32)
}

} // verus!
