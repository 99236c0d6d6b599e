//! Random note identifiers: unguessable, human-typable strings drawn from a
//! fixed 27-character alphabet that deliberately leaves out visually
//! ambiguous characters (no `0`, `1`, `l`, `i`, `o`, `v`).  No uniqueness
//! check is made against existing notes: at the configured length the
//! namespace is large enough that a collision is an accepted, documented
//! risk, and a colliding id simply opens the existing note.

use crate::text::push_char;
use vstd::prelude::*;

verus! {

/// The fixed id alphabet, in order.
pub open spec fn id_alphabet() -> Seq<char> {
    seq!['2', '3', '4', '5', '7', '9', 'a', 'b', 'c', 'd', 'e', 'f', 'g', 'h', 'j', 'k', 'm', 'n',
        'p', 'q', 'r', 's', 't', 'w', 'x', 'y', 'z']
}

/// Relies on `rand::random_range` over `0..bound`: returns a value drawn
/// from the half-open range, which is non-empty by the precondition.
#[verifier::external_body]
fn random_below(bound: usize) -> (r: usize)
    requires
        bound > 0,
    ensures
        r < bound,
{
    rand::random_range(0..bound)
}

/// Generates a random identifier of exactly `len` characters, each drawn
/// from the fixed 27-character alphabet.
pub fn random_note_id(len: usize) -> (r: String)
    ensures
        r@.len() == len,
        forall|i: int| 0 <= i < r@.len() ==> id_alphabet().contains(#[trigger] r@[i]),
{
    let alphabet = "234579abcdefghjkmnpqrstwxyz";
    proof {
        reveal_strlit("234579abcdefghjkmnpqrstwxyz");
        assert(alphabet@ =~= id_alphabet());
    }
    let mut out = String::new();
    let mut i: usize = 0;
    while i < len
        invariant
            0 <= i <= len,
            alphabet@ == id_alphabet(),
            out@.len() == i,
            forall|j: int| 0 <= j < out@.len() ==> id_alphabet().contains(#[trigger] out@[j]),
        decreases len - i,
    {
        let idx: usize = random_below(27);
        let c = alphabet.get_char(idx);
        proof {
            assert(id_alphabet().contains(alphabet@[idx as int]));
        }
        push_char(&mut out, c);
        i += 1;
    }
    out
}

} // verus!
