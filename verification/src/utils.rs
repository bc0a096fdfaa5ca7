use vstd::prelude::*;

verus! {

/// The longest span a `std::time::Duration` can hold, in nanoseconds:
/// `u64::MAX` seconds and 999 999 999 nanoseconds.
pub const MAX_DURATION_NANOS: u128 = 18_446_744_073_709_551_615_999_999_999u128;

/// A one-shot cooldown: once triggered it counts the time that passes and
/// becomes ready again when more than `duration` has elapsed.
///
/// Times are in nanoseconds. `elapsed` is `None` while the timer is ready.
pub struct CooldownTimer {
    pub duration: u128,
    pub elapsed: Option<u128>,
}

impl CooldownTimer {
    /// The timer is ready exactly when it is not counting down.
    pub open spec fn is_ready(self) -> bool {
        self.elapsed is None
    }

    /// The timer with its countdown started from zero.
    pub open spec fn triggered(self) -> CooldownTimer {
        CooldownTimer { duration: self.duration, elapsed: Some(0) }
    }

    /// A tick of `delta` nanoseconds stays within what a `Duration` can hold.
    pub open spec fn can_tick(self, delta: u128) -> bool {
        match self.elapsed {
            Some(e) => e + delta <= MAX_DURATION_NANOS,
            None => true,
        }
    }

    /// The timer after `delta` nanoseconds have passed.
    pub open spec fn ticked(self, delta: u128) -> CooldownTimer {
        match self.elapsed {
            Some(e) => {
                if e + delta > self.duration {
                    CooldownTimer { duration: self.duration, elapsed: None }
                } else {
                    CooldownTimer { duration: self.duration, elapsed: Some((e + delta) as u128) }
                }
            },
            None => self,
        }
    }

    /// Starts the countdown from zero.
    pub fn trigger(&mut self)
        ensures
            *final(self) == old(self).triggered(),
    {
        self.elapsed = Some(0);
    }

    /// Whether the cooldown is over.
    pub fn ready(&self) -> (r: bool)
        ensures
            r == self.is_ready(),
    {
        self.elapsed.is_none()
    }

    /// Lets `delta` nanoseconds pass; a running countdown that goes past
    /// `duration` ends and the timer becomes ready.
    pub fn tick(&mut self, delta: u128)
        requires
            old(self).can_tick(delta),
        ensures
            *final(self) == old(self).ticked(delta),
    {
        if let Some(elapsed) = self.elapsed {
            let total = elapsed + delta;
            if total > self.duration {
                self.elapsed = None;
            } else {
                self.elapsed = Some(total);
            }
        }
    }
}

/// The timer after ticks of each of `deltas` in turn.
pub open spec fn ticked_by_all(timer: CooldownTimer, deltas: Seq<u128>) -> CooldownTimer
    decreases deltas.len(),
{
    if deltas.len() == 0 {
        timer
    } else {
        ticked_by_all(timer, deltas.drop_last()).ticked(deltas.last())
    }
}

/// The time that `deltas` add up to.
pub open spec fn total_time(deltas: Seq<u128>) -> int
    decreases deltas.len(),
{
    if deltas.len() == 0 {
        0
    } else {
        total_time(deltas.drop_last()) + deltas.last()
    }
}

/// A running countdown ends exactly when the time that has passed since it
/// started goes past the duration; until then it counts that time.
pub proof fn lemma_countdown_ends_after_duration(timer: CooldownTimer, deltas: Seq<u128>)
    requires
        timer.elapsed is Some,
        timer.elapsed->0 <= timer.duration,
        timer.elapsed->0 + total_time(deltas) <= MAX_DURATION_NANOS,
    ensures
        ticked_by_all(timer, deltas).duration == timer.duration,
        ticked_by_all(timer, deltas).is_ready() <==> timer.elapsed->0 + total_time(deltas) > timer.duration,
        !ticked_by_all(timer, deltas).is_ready() ==> ticked_by_all(timer, deltas).elapsed
            == Some((timer.elapsed->0 + total_time(deltas)) as u128),
    decreases deltas.len(),
{
    if deltas.len() > 0 {
        lemma_total_time_nonnegative(deltas.drop_last());
        lemma_countdown_ends_after_duration(timer, deltas.drop_last());
    }
}

/// Time only moves forward.
pub proof fn lemma_total_time_nonnegative(deltas: Seq<u128>)
    ensures
        total_time(deltas) >= 0,
    decreases deltas.len(),
{
    if deltas.len() > 0 {
        lemma_total_time_nonnegative(deltas.drop_last());
    }
}

/// A ready timer stays ready however much time passes.
pub proof fn lemma_ready_stays_ready(timer: CooldownTimer, deltas: Seq<u128>)
    requires
        timer.is_ready(),
    ensures
        ticked_by_all(timer, deltas) == timer,
    decreases deltas.len(),
{
    if deltas.len() > 0 {
        lemma_ready_stays_ready(timer, deltas.drop_last());
    }
}

/// A freshly triggered timer is not ready, and becomes ready exactly once more
/// time than its duration has passed.
pub proof fn lemma_trigger_then_wait(timer: CooldownTimer, deltas: Seq<u128>)
    requires
        total_time(deltas) <= MAX_DURATION_NANOS,
    ensures
        !timer.triggered().is_ready(),
        ticked_by_all(timer.triggered(), deltas).is_ready() <==> total_time(deltas) > timer.duration,
{
    lemma_countdown_ends_after_duration(timer.triggered(), deltas);
}

} // verus!
