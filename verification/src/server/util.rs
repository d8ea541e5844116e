use vstd::prelude::*;

verus! {

/// Draws one byte from `rand::rng()` with `Rng::random::<u8>`. The byte is
/// random, so nothing is claimed of it.
#[verifier::external_body]
fn random_byte() -> (b: u8) {
    rand::Rng::random::<u8>(&mut rand::rng())
}

/// A seed of `num` random bytes.
pub fn gen_seed(num: usize) -> (res: Vec<u8>)
    ensures
        res@.len() == num,
{
    let mut res: Vec<u8> = Vec::new();
    let mut i: usize = 0;
    while i < num
        invariant
            i <= num,
            res@.len() == i,
        decreases num - i,
    {
        res.push(random_byte());
        i += 1;
    }
    res
}

} // verus!
