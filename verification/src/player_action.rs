//! Player action state: the charge/swing status ladder and the tick timer
//! that paces a swing's active window and cooldown.

use vstd::prelude::*;

verus! {

/// Where a chargeable player action stands: at rest, charging (with the
/// time charged so far in milliseconds), active (with its payload), or
/// cooling down.
#[derive(Clone, Copy, Debug, PartialEq, Eq, Structural)]
pub enum PlayerActionStatus<TActiveData> {
    Ready,
    Charging(u64),
    Active(TActiveData),
    Cooldown,
}

impl<TActiveData> Default for PlayerActionStatus<TActiveData> {
    fn default() -> (r: Self)
        ensures
            r == PlayerActionStatus::<TActiveData>::Ready,
    {
        PlayerActionStatus::Ready
    }
}

/// A run-once countdown, advanced by the tick's scaled delta. `finished`
/// latches once the elapsed time reaches the duration; `just_finished`
/// holds only on the tick that crossed the line.
#[derive(Clone, Copy, Debug, PartialEq, Eq, Structural)]
pub struct TickTimer {
    pub duration_ms: u64,
    pub elapsed_ms: u64,
    pub finished: bool,
    pub just_finished: bool,
}

impl TickTimer {
    pub open spec fn spec_wf(self) -> bool {
        &&& self.duration_ms <= 1_000_000_000
        &&& self.elapsed_ms <= self.duration_ms
        &&& (self.finished ==> self.elapsed_ms == self.duration_ms)
        &&& (self.just_finished ==> self.finished)
    }

    pub fn from_ms(duration_ms: u64) -> (r: TickTimer)
        requires
            duration_ms <= 1_000_000_000,
        ensures
            r == (TickTimer { duration_ms, elapsed_ms: 0, finished: false, just_finished: false }),
            r.spec_wf(),
    {
        TickTimer { duration_ms, elapsed_ms: 0, finished: false, just_finished: false }
    }

    /// Advance by one tick's delta; elapsed time saturates at the duration.
    pub fn tick(&mut self, dt_ms: u64)
        requires
            old(self).spec_wf(),
        ensures
            final(self).spec_wf(),
            final(self).duration_ms == old(self).duration_ms,
            final(self).elapsed_ms == vstd::math::min(
                old(self).elapsed_ms + dt_ms,
                old(self).duration_ms as int,
            ),
            final(self).finished == (old(self).elapsed_ms + dt_ms >= old(self).duration_ms),
            final(self).just_finished == (final(self).finished && !old(self).finished),
    {
        let was_finished = self.finished;
        if dt_ms >= self.duration_ms - self.elapsed_ms {
            self.elapsed_ms = self.duration_ms;
        } else {
            self.elapsed_ms = self.elapsed_ms + dt_ms;
        }
        let now_finished = self.elapsed_ms >= self.duration_ms;
        self.just_finished = now_finished && !was_finished;
        self.finished = now_finished;
    }

    pub fn is_finished(&self) -> (r: bool)
        ensures
            r == self.finished,
    {
        self.finished
    }

    pub fn is_just_finished(&self) -> (r: bool)
        ensures
            r == self.just_finished,
    {
        self.just_finished
    }
}

} // verus!
