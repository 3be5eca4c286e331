//! Fresh identifiers.

use crate::model::Text;
use rand::distributions::DistString;
use vstd::prelude::*;

verus! {

/// The number of characters of a generated identifier.
pub const HASH_LENGTH: usize = 32;

/// The characters that a generated identifier is made of.
pub open spec fn alphanumerics() -> Text {
    "ABCDEFGHIJKLMNOPQRSTUVWXYZabcdefghijklmnopqrstuvwxyz0123456789"@
}

/// Whether `text` has the shape of a generated identifier.
pub open spec fn is_hash(text: Text) -> bool {
    &&& text.len() == HASH_LENGTH
    &&& forall|i: int| 0 <= i < text.len() ==> alphanumerics().contains(#[trigger] text[i])
}

/// A generated identifier holds no path separator, so it can stand as one
/// segment of a path.
pub proof fn lemma_hash_is_one_segment(text: Text)
    requires
        is_hash(text),
    ensures
        !text.contains('/'),
{
    reveal_strlit("ABCDEFGHIJKLMNOPQRSTUVWXYZabcdefghijklmnopqrstuvwxyz0123456789");
    assert forall|i: int| 0 <= i < text.len() implies text[i] != '/' by {
        let c = text[i];
        assert(alphanumerics().contains(c));
        let j = choose|j: int| 0 <= j < alphanumerics().len() && alphanumerics()[j] == c;
        assert(alphanumerics()[j] != '/');
    }
}

/// Draws `len` characters with `Alphanumeric.sample_string` of the crate
/// `rand`, on the generator of the calling thread (`rand::thread_rng`). Which
/// characters come is chance; the contract claims what holds of every draw:
/// their number, and that each is an ASCII letter or digit. The call panics
/// where the operating system cannot seed the generator.
#[verifier::external_body]
fn random_alphanumeric(len: usize) -> (token: String)
    ensures
        token@.len() == len,
        forall|i: int| 0 <= i < token@.len() ==> alphanumerics().contains(#[trigger] token@[i]),
{
    rand::distributions::Alphanumeric.sample_string(&mut rand::thread_rng(), len)
}

/// A fresh identifier: `HASH_LENGTH` random letters and digits.
pub fn create_random_hash() -> (hash: String)
    ensures
        is_hash(hash@),
{
    random_alphanumeric(HASH_LENGTH)
}

} // verus!
