use crate::poll::{IoError, Poll};
use vstd::prelude::*;

verus! {

/// A single readiness check in flight: each call advances it, until it
/// reports its outcome.
pub trait ReadinessCheck {
    /// Whether one poll may take the check from `self` to `after` with
    /// outcome `r`. A check that states nothing of its polls allows every
    /// step.
    open spec fn polled(&self, after: &Self, r: Poll<Result<(), IoError>>) -> bool {
        true
    }

    /// Advance the check; `Pending` until the awaited condition is observed.
    fn poll_check(&mut self) -> (r: Poll<Result<(), IoError>>)
        ensures
            old(self).polled(final(self), r),
    ;
}

/// A handle for awaiting that a socket is probably writable.
///
/// It is called after a send reported `WouldBlock`; the readiness check made
/// by `poll_writable` itself decides, so a change of readiness between the
/// failed send and the call is not lost.
pub trait UdpPoller {
    /// Well-formedness of the poller's state.
    spec fn inv(&self) -> bool;

    /// Whether the associated socket is likely to be writable now.
    fn poll_writable(&mut self) -> (r: Poll<Result<(), IoError>>)
        requires
            old(self).inv(),
        ensures
            final(self).inv(),
    ;
}

/// Abstract state of a poller adapter: whether a check is in flight, and how
/// many times the factory has been invoked so far.
pub ghost struct AdapterState {
    pub in_flight: bool,
    pub factory_calls: nat,
}

/// State of a freshly made adapter.
pub open spec fn initial_adapter_state() -> AdapterState {
    AdapterState { in_flight: false, factory_calls: 0 }
}

/// One call of `poll_writable` whose outcome is ready or not: the factory is
/// invoked exactly when no check is in flight, and a ready outcome empties the slot.
pub open spec fn adapter_step(s: AdapterState, ready: bool) -> AdapterState {
    AdapterState {
        in_flight: !ready,
        factory_calls: if s.in_flight { s.factory_calls } else { s.factory_calls + 1 },
    }
}

/// The state after a sequence of calls with the given outcomes, in order.
pub open spec fn adapter_run(s: AdapterState, outcomes: Seq<bool>) -> AdapterState
    decreases outcomes.len(),
{
    if outcomes.len() == 0 {
        s
    } else {
        adapter_run(adapter_step(s, outcomes[0]), outcomes.drop_first())
    }
}

/// Within one wait cycle the factory is invoked at most once: over any run of
/// calls in which no outcome but the last is ready, the factory is invoked
/// exactly once if no check was in flight at the start, and never otherwise.
pub proof fn lemma_one_factory_call_per_cycle(s: AdapterState, outcomes: Seq<bool>)
    requires
        forall|i: int| 0 <= i < outcomes.len() - 1 ==> !outcomes[i],
    ensures
        adapter_run(s, outcomes).factory_calls == s.factory_calls + (if !s.in_flight
            && outcomes.len() > 0 {
            1int
        } else {
            0int
        }),
    decreases outcomes.len(),
{
    if outcomes.len() > 0 {
        let next = adapter_step(s, outcomes[0]);
        let rest = outcomes.drop_first();
        assert forall|i: int| 0 <= i < rest.len() - 1 implies !rest[i] by {
            assert(rest[i] == outcomes[i + 1]);
        }
        lemma_one_factory_call_per_cycle(next, rest);
    }
}

/// Readiness is never carried over: the first call on a fresh adapter invokes
/// the factory, and so does the first call after a ready outcome.
pub proof fn lemma_each_cycle_checks_afresh(s: AdapterState, ready: bool)
    ensures
        adapter_step(initial_adapter_state(), ready).factory_calls == 1,
        adapter_step(adapter_step(s, true), ready).factory_calls == adapter_step(
            s,
            true,
        ).factory_calls + 1,
{
}

/// A poller made from a factory of readiness checks.
///
/// The first `poll_writable` of a wait cycle invokes the factory and keeps the
/// check it returns; later calls advance that same check; when it is ready the
/// slot is emptied and its outcome returned.
pub struct UdpPollHelper<F, T> {
    f: F,
    fut: Option<T>,
    calls: Ghost<nat>,
}

impl<F: Fn() -> T, T: ReadinessCheck> UdpPollHelper<F, T> {
    /// The abstract state of this adapter.
    pub closed spec fn state(&self) -> AdapterState {
        AdapterState { in_flight: self.fut is Some, factory_calls: self.calls@ }
    }

    /// The check in flight, if any.
    pub closed spec fn check(&self) -> Option<T> {
        self.fut
    }

    /// The factory this adapter draws checks from.
    pub closed spec fn factory(&self) -> F {
        self.f
    }

    /// Make an adapter with no check in flight.
    pub fn new(f: F) -> (r: Self)
        requires
            f.requires(()),
        ensures
            r.state() == initial_adapter_state(),
            r.check() is None,
            r.factory() == f,
            r.inv(),
    {
        UdpPollHelper { f, fut: None, calls: Ghost(0) }
    }

    /// A short description for diagnostics; the factory and the check in
    /// flight are not shown.
    pub fn debug_string(&self) -> (r: String)
        ensures
            r@ == "UdpWaitHelper { .. }"@,
    {
        "UdpWaitHelper { .. }".to_owned()
    }
}

impl<F: Fn() -> T, T: ReadinessCheck> UdpPoller for UdpPollHelper<F, T> {
    open spec fn inv(&self) -> bool {
        &&& self.factory().requires(())
        &&& self.state().in_flight == (self.check() is Some)
    }

    fn poll_writable(&mut self) -> (r: Poll<Result<(), IoError>>)
        ensures
            final(self).state() == adapter_step(old(self).state(), r is Ready),
            final(self).factory() == old(self).factory(),
            exists|c: T, c2: T|
                {
                    &&& (old(self).check() == Some(c) || (old(self).check() is None
                        && old(self).factory().ensures((), c)))
                    &&& #[trigger] c.polled(&c2, r)
                    &&& final(self).check() == (if r is Ready {
                        None::<T>
                    } else {
                        Some(c2)
                    })
                },
    {
        let mut check = match self.fut.take() {
            Some(c) => c,
            None => {
                self.calls = Ghost(self.calls@ + 1);
                (self.f)()
            },
        };
        let ghost before = check;
        let result = check.poll_check();
        if result.is_pending() {
            self.fut = Some(check);
        }
        assert(before.polled(&check, result));
        result
    }
}

} // verus!
