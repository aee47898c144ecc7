//! The source of random words.

use vstd::prelude::*;

verus! {

/// One random word. Calls `rand::random::<u32>`, which takes the next word
/// of the thread-local generator and panics only if the system cannot seed
/// that generator. Nothing is claimed of the word: any `u32` may come back.
#[verifier::external_body]
pub(crate) fn random_word() -> u32 {
    rand::random::<u32>()
}

} // verus!
