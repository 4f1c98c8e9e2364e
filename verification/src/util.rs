//! Entities with a limited stay in the world.

use vstd::prelude::*;

verus! {

/// A one-shot countdown attached to an entity that is removed when it fires.
///
/// Triggered hazards, debris, smoke and one-shot sounds all carry one.
#[derive(Clone, Copy, Debug, PartialEq, Eq, Structural)]
pub struct Lifetime {
    /// Milliseconds left before the countdown fires.
    pub remaining_ms: u32,
    /// Whether the countdown has yet to fire.  A fresh countdown is armed;
    /// it disarms on the tick it fires, so it fires at most once.
    pub armed: bool,
}

impl Lifetime {
    /// A fresh countdown over the given duration.  A zero duration fires on
    /// the very first tick.
    pub fn new(duration_ms: u32) -> (l: Lifetime)
        ensures
            l.remaining_ms == duration_ms,
            l.armed,
    {
        Lifetime { remaining_ms: duration_ms, armed: true }
    }

    /// Advances the countdown by one frame of `delta_ms` milliseconds.
    ///
    /// Returns true exactly on the tick that exhausts the duration — also
    /// for a zero duration, on its first tick — and never again after that.
    pub fn tick(&mut self, delta_ms: u32) -> (expired: bool)
        ensures
            expired <==> old(self).armed && delta_ms >= old(self).remaining_ms,
            final(self).remaining_ms == (if delta_ms >= old(self).remaining_ms {
                0u32
            } else {
                (old(self).remaining_ms - delta_ms) as u32
            }),
            final(self).armed <==> old(self).armed && delta_ms < old(self).remaining_ms,
    {
        let fires = self.armed && delta_ms >= self.remaining_ms;
        if delta_ms >= self.remaining_ms {
            self.remaining_ms = 0;
            self.armed = false;
        } else {
            self.remaining_ms = self.remaining_ms - delta_ms;
        }
        fires
    }
}

} // verus!
