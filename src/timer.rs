use crate::poll::Poll;
use vstd::prelude::*;

verus! {

/// Abstract state of a timer: its deadline, in ticks of a monotonic clock, and
/// whether that deadline has already been reported.
pub ghost struct TimerView {
    pub deadline: u64,
    pub fired: bool,
}

/// The state after re-arming a timer for `i`, whatever it was before.
pub open spec fn timer_reset(v: TimerView, i: u64) -> TimerView {
    TimerView { deadline: i, fired: false }
}

/// Whether a poll at clock reading `now` reports the deadline: it is due and
/// has not been reported yet.
pub open spec fn poll_fires(v: TimerView, now: u64) -> bool {
    !v.fired && v.deadline <= now
}

/// The state after a poll at clock reading `now`.
pub open spec fn timer_poll(v: TimerView, now: u64) -> TimerView {
    TimerView { deadline: v.deadline, fired: v.fired || poll_fires(v, now) }
}

/// A single-shot deadline notifier that can be re-armed any number of times.
///
/// `poll` is given the current reading of the monotonic clock; a backend
/// registers for a wake-up at the deadline whenever it returns `Pending`.
pub trait AsyncTimer {
    /// The timer's abstract state.
    spec fn state(&self) -> TimerView;

    /// Update the timer to expire at `i`; an earlier pending wait is forgotten.
    fn reset(&mut self, i: u64)
        ensures
            final(self).state() == timer_reset(old(self).state(), i),
    ;

    /// Check whether the timer has expired at clock reading `now`.
    fn poll(&mut self, now: u64) -> (r: Poll<()>)
        ensures
            (r is Ready) == poll_fires(old(self).state(), now),
            final(self).state() == timer_poll(old(self).state(), now),
    ;
}

/// A timer held as plain values.
#[derive(Debug, Clone, Copy, PartialEq, Eq)]
pub struct DeadlineTimer {
    deadline: u64,
    fired: bool,
}

impl DeadlineTimer {
    /// A timer armed to fire at `i`.
    pub fn new(i: u64) -> (r: Self)
        ensures
            r.state() == (TimerView { deadline: i, fired: false }),
    {
        DeadlineTimer { deadline: i, fired: false }
    }

    /// The instant the timer is armed for.
    pub fn deadline(&self) -> (r: u64)
        ensures
            r == self.state().deadline,
    {
        self.deadline
    }
}

impl AsyncTimer for DeadlineTimer {
    closed spec fn state(&self) -> TimerView {
        TimerView { deadline: self.deadline, fired: self.fired }
    }

    fn reset(&mut self, i: u64) {
        self.deadline = i;
        self.fired = false;
    }

    fn poll(&mut self, now: u64) -> (r: Poll<()>) {
        if !self.fired && self.deadline <= now {
            self.fired = true;
            Poll::Ready(())
        } else {
            Poll::Pending
        }
    }
}

/// A reset takes effect on the very next poll: whatever deadline was pending
/// before, the poll is judged against the new deadline alone.
pub proof fn lemma_reset_overrides_pending(v: TimerView, i: u64, now: u64)
    ensures
        poll_fires(timer_reset(v, i), now) == (i <= now),
{
}

/// A deadline is reported once: after a poll has fired, further polls stay
/// pending until the timer is reset.
pub proof fn lemma_fires_once_per_deadline(v: TimerView, now: u64, later: u64)
    requires
        poll_fires(v, now),
    ensures
        !poll_fires(timer_poll(v, now), later),
        poll_fires(timer_reset(timer_poll(v, now), now), now),
{
}

} // verus!
