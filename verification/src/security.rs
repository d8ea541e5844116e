//! The security algorithm: how a key is derived from a seed. The algorithm is
//! the user's; the library only calls it.

use vstd::prelude::*;

verus! {

/// Derives a key from a level, a seed and a salt.
///
/// `Ok(None)` says that the level needs no key, `Ok(Some(key))` gives the
/// key, and `Err(text)` says why the seed cannot be answered.
pub trait SecurityAlgo {
    fn compute(&self, level: u8, seed: &[u8], salt: &[u8]) -> Result<Option<Vec<u8>>, String>;
}

} // verus!
