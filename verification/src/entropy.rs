//! Fresh values from the randomly keyed hasher of the standard library.
//!
//! Nothing in this file is proved: each item states what is taken on trust
//! of one function of `std`.

use vstd::prelude::*;

verus! {

/// `std::hash::RandomState::new`: a hasher builder with keys of its own,
/// which are chosen at random. Nothing is claimed of the result.
pub assume_specification[ std::hash::RandomState::new ]() -> (state: std::hash::RandomState);

/// `std::hash::BuildHasher::hash_one` on a `RandomState`: the hash of
/// `value` under the keys of `state`. As the keys are random, so is the
/// hash, and nothing is claimed of the result.
#[verifier::external_body]
pub(crate) fn keyed_hash(state: &std::hash::RandomState, value: u64) -> (hash: u64) {
    std::hash::BuildHasher::hash_one(state, value)
}

} // verus!
