use vstd::prelude::*;

use rand::rngs::StdRng;

verus! {

#[verifier::external_type_specification]
#[verifier::external_body]
pub struct ExStdRng(StdRng);

/// Relies on rand's `Rng::gen_range` over the half-open range `0..n` of
/// `usize`: it returns a value of the range, and panics when it is empty.
#[verifier::external_body]
fn gen_below(rng: &mut StdRng, n: usize) -> (r: usize)
    requires
        n > 0,
    ensures
        r < n,
{
    rand::Rng::gen_range(rng, 0..n)
}

/// Draws which of the three channels of a color the next nudge changes,
/// each with the same chance.
pub fn random_channel(rng: &mut StdRng) -> (r: usize)
    ensures
        r < 3,
{
    gen_below(rng, 3)
}

/// The channels `rgb` with the one at `channel` replaced by `value`.
pub fn replace_channel<T: Copy>(rgb: [T; 3], channel: usize, value: T) -> (r: [T; 3])
    requires
        channel < 3,
    ensures
        r@ == rgb@.update(channel as int, value),
{
    let mut r = rgb;
    r[channel] = value;
    r
}

} // verus!
