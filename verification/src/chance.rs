use rand::Rng;
use vstd::prelude::*;

verus! {

/// Draws a whole number from `low` to `high`, both included.
///
/// Stands for `Rng::gen_range` of the `rand` crate, called on the generator of
/// the running thread with the range `low..=high`. That function returns a
/// value of the range it is given and panics on an empty one, which is why
/// `low` may not exceed `high`. Which value comes is left open: two draws need
/// not agree.
#[verifier::external_body]
pub(crate) fn draw(low: u32, high: u32) -> (n: u32)
    requires
        low <= high,
    ensures
        low <= n <= high,
{
    rand::thread_rng().gen_range(low..=high)
}

/// Rolls a die of `sides` sides, numbered from one. There is nothing to roll
/// with a die of no sides.
pub fn roll(sides: u32) -> (rolled: Option<u32>)
    ensures
        rolled is None <==> sides == 0,
        rolled matches Some(n) ==> 1 <= n <= sides,
{
    if sides == 0 {
        None
    } else {
        Some(draw(1, sides))
    }
}

} // verus!
