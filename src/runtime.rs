use crate::poll::IoError;
use crate::socket::AsyncUdpSocket;
use crate::timer::{AsyncTimer, TimerView};
use vstd::prelude::*;

verus! {

/// Abstracts timer construction, background work and socket registration, so
/// that the endpoint does not depend on one concurrency backend.
pub trait Runtime {
    /// The timer type of this runtime.
    type Timer: AsyncTimer;
    /// A self-contained unit of background work with no result.
    type Task;
    /// The raw, already bound operating-system socket that this runtime wraps.
    type RawSocket;
    /// The socket type of this runtime.
    type Socket: AsyncUdpSocket;

    /// Construct a timer armed to fire at `i`.
    fn new_timer(&self, i: u64) -> (r: Self::Timer)
        ensures
            r.state() == (TimerView { deadline: i, fired: false }),
    ;

    /// Drive `task` to completion in the background.
    fn spawn(&self, task: Self::Task);

    /// Convert `t` into the socket type used by this runtime, or report that it
    /// could not be registered.
    fn wrap_udp_socket(&self, t: Self::RawSocket) -> (r: Result<Self::Socket, IoError>);
}

/// A concurrency backend that the endpoint can run on.
#[derive(Debug, Clone, Copy, PartialEq, Eq)]
pub enum Backend {
    /// The Tokio scheduler.
    Tokio,
    /// The async-std scheduler.
    AsyncStd,
}

/// What is known of one backend at the moment a runtime is chosen.
#[derive(Debug, Clone, Copy, PartialEq, Eq)]
pub struct BackendProbe {
    /// The backend probed.
    pub backend: Backend,
    /// Whether support for it was compiled in.
    pub compiled: bool,
    /// Whether its ambient-context check passed (for Tokio: the calling task
    /// runs inside a Tokio runtime; async-std has no such condition).
    pub context_ok: bool,
}

/// Whether the probed backend can be used.
pub open spec fn usable(p: BackendProbe) -> bool {
    p.compiled && p.context_ok
}

/// The first usable backend among `probes`, in their order, if any.
pub open spec fn first_usable(probes: Seq<BackendProbe>) -> Option<Backend>
    decreases probes.len(),
{
    if probes.len() == 0 {
        None
    } else if usable(probes[0]) {
        Some(probes[0].backend)
    } else {
        first_usable(probes.drop_first())
    }
}

/// The order in which backends are tried: Tokio first, then async-std.
pub open spec fn priority_order() -> Seq<Backend> {
    seq![Backend::Tokio, Backend::AsyncStd]
}

/// The backends in the order in which they are tried.
pub fn backend_priority() -> (r: Vec<Backend>)
    ensures
        r@ == priority_order(),
{
    let r = vec![Backend::Tokio, Backend::AsyncStd];
    assert(r@ =~= priority_order());
    r
}

/// Choose a backend: the first of `probes` (given in priority order) that was
/// compiled in and whose ambient-context check passed, or `None` if there is
/// none, in which case the caller supplies a runtime itself.
pub fn default_runtime(probes: &[BackendProbe]) -> (r: Option<Backend>)
    ensures
        r == first_usable(probes@),
{
    let mut i: usize = 0;
    assert(probes@.subrange(0, probes@.len() as int) =~= probes@);
    while i < probes.len()
        invariant
            0 <= i <= probes@.len(),
            first_usable(probes@) == first_usable(probes@.subrange(i as int, probes@.len() as int)),
        decreases probes@.len() - i,
    {
        let p = probes[i];
        let ghost rest = probes@.subrange(i as int, probes@.len() as int);
        assert(rest[0] == p);
        if p.compiled && p.context_ok {
            return Some(p.backend);
        }
        assert(rest.drop_first() =~= probes@.subrange(i + 1, probes@.len() as int));
        i = i + 1;
    }
    None
}

/// With no backend compiled in, selection reports absence and never yields a
/// backend.
pub proof fn lemma_no_backend_no_runtime(probes: Seq<BackendProbe>)
    requires
        forall|i: int| 0 <= i < probes.len() ==> !(#[trigger] probes[i]).compiled,
    ensures
        first_usable(probes) == None::<Backend>,
    decreases probes.len(),
{
    if probes.len() > 0 {
        let rest = probes.drop_first();
        assert forall|i: int| 0 <= i < rest.len() implies !(#[trigger] rest[i]).compiled by {
            assert(rest[i] == probes[i + 1]);
        }
        lemma_no_backend_no_runtime(rest);
    }
}

/// A chosen backend is one that was probed, compiled in and ready.
pub proof fn lemma_chosen_backend_is_usable(probes: Seq<BackendProbe>)
    ensures
        first_usable(probes) matches Some(b) ==> exists|i: int|
            0 <= i < probes.len() && (#[trigger] probes[i]).backend == b && usable(probes[i]),
    decreases probes.len(),
{
    if probes.len() > 0 && !usable(probes[0]) {
        let rest = probes.drop_first();
        lemma_chosen_backend_is_usable(rest);
        if let Some(b) = first_usable(probes) {
            let i = choose|i: int| 0 <= i < rest.len() && (#[trigger] rest[i]).backend == b && usable(rest[i]);
            assert(probes[i + 1] == rest[i]);
        }
    }
}

} // verus!
