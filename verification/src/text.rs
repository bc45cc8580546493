//! Text at the native boundary: strings that are handed on as terminated
//! must not hold a terminator inside.

use vstd::prelude::*;

verus! {

/// `position` is where the first NUL character of `text` stands.
pub open spec fn is_first_nul(text: Seq<char>, position: int) -> bool {
    &&& 0 <= position < text.len()
    &&& text[position] == '\0'
    &&& forall|j: int| 0 <= j < position ==> text[j] != '\0'
}

/// Where the first NUL character of `text` stands, if it holds one.
pub open spec fn first_nul(text: Seq<char>) -> Option<int> {
    if text.contains('\0') {
        Some(choose|position: int| is_first_nul(text, position))
    } else {
        None
    }
}

/// A text has at most one first NUL character.
pub proof fn lemma_first_nul_unique(text: Seq<char>, first: int, second: int)
    requires
        is_first_nul(text, first),
        is_first_nul(text, second),
    ensures
        first == second,
{
}

/// Where the first NUL character of `text` stands, if it holds one.
pub fn nul_position(text: &str) -> (found: Option<usize>)
    ensures
        found is None <==> !text@.contains('\0'),
        found matches Some(position) ==> is_first_nul(text@, position as int),
        found matches Some(position) ==> first_nul(text@) == Some(position as int),
        found is None ==> first_nul(text@) is None,
{
    // The number of characters bounds the position, which so cannot overflow.
    let length = text.unicode_len();
    let mut position: usize = 0;
    for c in iter: text.chars()
        invariant
            position == iter.index(),
            iter.seq() == text@,
            length == text@.len(),
            forall|j: int| 0 <= j < position ==> text@[j] != '\0',
    {
        if c == '\0' {
            proof {
                let chosen = choose|p: int| is_first_nul(text@, p);
                lemma_first_nul_unique(text@, position as int, chosen);
            }
            return Some(position);
        }
        position += 1;
    }
    None
}

} // verus!
