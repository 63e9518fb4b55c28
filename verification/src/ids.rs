//! Random identifiers for puppet states.

use vstd::prelude::*;

verus! {

/// Relies on `nanoid::format` with `nanoid::rngs::default` and the url-safe
/// 64-character alphabet: it fills the returned string with exactly `len`
/// characters drawn from that alphabet, each one byte. The characters are
/// random, so nothing more is stated of them.
#[verifier::external_body]
pub(crate) fn random_id(len: usize) -> (r: String)
    ensures
        r@.len() == len,
{
    nanoid::format(nanoid::rngs::default, &nanoid::alphabet::SAFE, len)
}

} // verus!
