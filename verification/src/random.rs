//! Random draws. A draw is 32 bits from a seeded stream; its upper 24
//! bits are a number below 2^24, each value as likely as any other, that
//! stands for the fraction of 2^24 it is: a point of [0, 1). An event
//! with a probability of `level` parts in 2^24 happens where the number
//! falls below `level`.

use vstd::prelude::*;
use rand::rngs::StdRng;
use rand::Rng;

verus! {

/// The seeded generator of the `rand` crate that every stream is drawn
/// from. Nothing of its state is visible here.
#[verifier::external_type_specification]
#[verifier::external_body]
pub struct ExStdRng(rand::rngs::StdRng);

/// Number of values that a draw can stand for: 2^24.
pub const DRAW_RANGE: u32 = 16_777_216;

/// Half of the range: the level of an even chance.
pub const EVEN_CHANCE: u32 = 8_388_608;

/// The number below 2^24 that a draw stands for: its upper 24 bits.
pub open spec fn draw_value(draw: u32) -> nat {
    (draw / 256) as nat
}

/// The draw falls below `level` parts in 2^24.
pub open spec fn falls_below(draw: u32, level: u32) -> bool {
    draw_value(draw) < level
}

/// Draws the next 32 bits of the stream, by `Rng::gen` of the `rand`
/// crate at the type `u32`, which takes the generator's next word. The
/// value is random: nothing is claimed of it, nor of the state in which
/// the generator is left.
#[verifier::external_body]
pub(crate) fn next_draw(rng: &mut StdRng) -> (draw: u32) {
    rng.gen::<u32>()
}

/// Whether a draw falls below `level` parts in 2^24. No draw falls below
/// a level of zero, and every draw falls below a level of 2^24 or more.
pub fn draw_falls_below(draw: u32, level: u32) -> (below: bool)
    ensures
        below == falls_below(draw, level),
        level == 0 ==> !below,
        level >= DRAW_RANGE ==> below,
{
    draw / 256 < level
}

/// A level of 2^24 or more is certain and a level of zero impossible,
/// whatever is drawn; and a draw that falls below a level falls below
/// every higher one.
pub proof fn lemma_levels(draw: u32, level: u32, higher: u32)
    ensures
        draw_value(draw) < DRAW_RANGE,
        !falls_below(draw, 0),
        level >= DRAW_RANGE ==> falls_below(draw, level),
        level <= higher && falls_below(draw, level) ==> falls_below(draw, higher),
{
}

} // verus!
