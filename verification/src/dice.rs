//! Dice, drawn from the thread-local random number generator.

use rand::rngs::ThreadRng;
use rand::Rng;
use vstd::prelude::*;

verus! {

/// The handle to the thread-local generator of the `rand` crate. Nothing is
/// known of the state behind it.
#[verifier::external_type_specification]
#[verifier::external_body]
pub struct ExThreadRng(ThreadRng);

/// `rand::thread_rng` hands out the handle to the calling thread's generator.
/// Nothing is claimed of the handle. The call fails only where the system
/// cannot seed the generator, which no argument decides.
pub assume_specification[ rand::thread_rng ]() -> (rng: ThreadRng)
;

/// `Rng::gen_range` on the inclusive range `low..=high`: the value drawn lies
/// in the range, both ends included. Which value it is depends on the
/// generator's state, so nothing more is claimed. The call panics on an empty
/// range, which `low <= high` rules out.
#[verifier::external_body]
fn gen_range_inclusive(rng: &mut ThreadRng, low: i16, high: i16) -> (value: i16)
    requires
        low <= high,
    ensures
        low <= value <= high,
{
    rng.gen_range(low..=high)
}

/// Rolls one die with the given number of sides.
pub fn roll_die(rng: &mut ThreadRng, sides: u8) -> (face: u8)
    requires
        sides >= 1,
    ensures
        1 <= face <= sides,
{
    let value: i16 = gen_range_inclusive(rng, 1, sides as i16);
    value as u8
}

/// Rolls `count` dice with `sides` sides each and adds the faces up.
pub fn roll_dice(rng: &mut ThreadRng, count: u8, sides: u8) -> (total: u32)
    requires
        sides >= 1,
    ensures
        count <= total <= count * sides,
{
    let mut total: u32 = 0;
    let mut rolled: u8 = 0;
    while rolled < count
        invariant
            sides >= 1,
            rolled <= count,
            rolled <= total <= rolled * sides,
        decreases count - rolled,
    {
        let face: u8 = roll_die(rng, sides);
        assert((rolled + 1) * sides == rolled * sides + sides) by (nonlinear_arith);
        assert(rolled * sides <= 255 * 255) by (nonlinear_arith)
            requires
                rolled <= 255,
                sides <= 255,
        ;
        total = total + face as u32;
        rolled = rolled + 1;
    }
    total
}

} // verus!
