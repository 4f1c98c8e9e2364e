//! Scoring: crashes feed the high score and the money balance.

use vstd::prelude::*;

use crate::consts::CRASH_SCORE_MULTIPLIER;
use crate::pertubator::Money;

verus! {

/// The running score, in milli-points.
#[derive(Clone, Copy, Debug, PartialEq, Eq, Structural)]
pub struct HighScore(pub u64);

impl HighScore {
    pub fn get(&self) -> (s: u64)
        ensures
            s == self.0,
    {
        self.0
    }

    /// The score as shown to the player: whole points, rounded to nearest
    /// with halves rounding up.
    pub fn rounded_points(&self) -> (p: u64)
        requires
            self.0 <= u64::MAX - 500,
        ensures
            p == (self.0 + 500) / 1000,
    {
        (self.0 + 500) / 1000
    }
}

impl Default for HighScore {
    /// A new round starts at score zero.
    fn default() -> (s: HighScore)
        ensures
            s.0 == 0,
    {
        HighScore(0)
    }
}

/// Accounts one crash: the score grows by the impulse magnitude times the
/// score multiplier, and the money balance by the magnitude in whole units,
/// rounded down.
pub fn update_highscore_money(
    high_score: &mut HighScore,
    money: &mut Money,
    magnitude_milli: u64,
)
    requires
        old(high_score).0 + CRASH_SCORE_MULTIPLIER * magnitude_milli <= u64::MAX,
        magnitude_milli / 1000 <= i32::MAX,
        old(money).0 + magnitude_milli / 1000 <= i32::MAX,
    ensures
        final(high_score).0 == old(high_score).0 + CRASH_SCORE_MULTIPLIER * magnitude_milli,
        final(money).0 == old(money).0 + magnitude_milli as int / 1000,
{
    high_score.0 = high_score.0 + CRASH_SCORE_MULTIPLIER * magnitude_milli;
    let units: u64 = magnitude_milli / 1000;
    money.0 = money.0 + units as i32;
}

} // verus!
