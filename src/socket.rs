use crate::poll::{IoError, Poll};
use crate::poller::UdpPoller;
use std::collections::VecDeque;
use vstd::prelude::*;

verus! {

/// Relies on quinn_udp::Transmit, carried through opaque: an outgoing
/// datagram, or a run of equal-sized segments, with its destination and
/// congestion-notification bits.
#[verifier::external_type_specification]
#[verifier::external_body]
pub struct ExTransmit(quinn_udp::Transmit);

/// Relies on quinn_udp::RecvMeta, carried through opaque: what is known of one
/// received datagram (source, length, stride, congestion-notification bits).
#[verifier::external_type_specification]
#[verifier::external_body]
pub struct ExRecvMeta(quinn_udp::RecvMeta);

/// A non-blocking, batched UDP socket, shared by every task that drives I/O
/// for one endpoint.
pub trait AsyncUdpSocket {
    /// The poller type that awaits writability of this socket.
    type Poller: UdpPoller;
    /// The type of the local address.
    type Addr;

    /// Create a helper for awaiting I/O readiness.
    fn create_io_poller(&self) -> (r: Self::Poller)
        ensures
            r.inv(),
    ;

    /// Send datagrams from `transmits`, in order, as far as the socket accepts
    /// them without blocking; return how many were sent, or `WouldBlock` (then
    /// await a poller and try again), or a hard error.
    fn try_send(&self, transmits: &[quinn_udp::Transmit]) -> (r: Result<usize, IoError>)
        ensures
            r matches Ok(n) ==> n <= transmits@.len(),
    ;

    /// Receive datagrams into the leading slots of `bufs` and `meta`, or return
    /// `Pending` if none is available yet (the caller is woken later). Slots
    /// past the count returned are left as they were.
    fn poll_recv(&self, bufs: &mut [Vec<u8>], meta: &mut [quinn_udp::RecvMeta]) -> (r: Poll<
        Result<usize, IoError>,
    >)
        ensures
            final(bufs)@.len() == old(bufs)@.len(),
            final(meta)@.len() == old(meta)@.len(),
            r is Pending ==> final(bufs)@ == old(bufs)@ && final(meta)@ == old(meta)@,
            r matches Poll::Ready(Ok(n)) ==> {
                &&& n <= old(bufs)@.len()
                &&& n <= old(meta)@.len()
                &&& forall|i: int|
                    n <= i < old(bufs)@.len() ==> #[trigger] final(bufs)@[i] == old(bufs)@[i]
                &&& forall|i: int|
                    n <= i < old(meta)@.len() ==> #[trigger] final(meta)@[i] == old(meta)@[i]
            },
    ;

    /// The local address and port that this socket is bound to.
    fn local_addr(&self) -> (r: Result<Self::Addr, IoError>);

    /// Maximum number of datagrams that one transmit may carry; by default one,
    /// that is no send offload.
    fn max_transmit_segments(&self) -> (r: usize)
        ensures
            r >= 1,
        default_ensures
            r == 1,
    {
        default_max_transmit_segments()
    }

    /// Maximum number of datagrams that one receive record may describe; by
    /// default one, that is no receive offload.
    fn max_receive_segments(&self) -> (r: usize)
        ensures
            r >= 1,
        default_ensures
            r == 1,
    {
        default_max_receive_segments()
    }

    /// Whether datagrams might get fragmented; by default the socket makes no
    /// promise that they will not.
    fn may_fragment(&self) -> (r: bool)
        default_ensures
            r,
    {
        default_may_fragment()
    }
}

/// The send batch limit of a socket without send offload: one datagram.
pub fn default_max_transmit_segments() -> (r: usize)
    ensures
        r == 1,
{
    1
}

/// The receive batch limit of a socket without receive offload: one datagram.
pub fn default_max_receive_segments() -> (r: usize)
    ensures
        r == 1,
{
    1
}

/// Whether a socket that makes no fragmentation-avoidance promise may have its
/// datagrams fragmented: it may.
pub fn default_may_fragment() -> (r: bool)
    ensures
        r,
{
    true
}

/// How many datagrams one receive hands out: as many as have arrived, up to
/// the number of slots.
pub open spec fn recv_count(arrived: nat, slots: nat) -> nat {
    if arrived < slots {
        arrived
    } else {
        slots
    }
}

/// The slots after a receive: the first datagrams that arrived, in order, then
/// the slots that were not needed, untouched.
pub open spec fn slots_after_recv<D>(arrived: Seq<D>, slots: Seq<D>) -> Seq<D> {
    let n = recv_count(arrived.len(), slots.len()) as int;
    arrived.take(n) + slots.skip(n)
}

/// The datagrams still waiting after a receive.
pub open spec fn queue_after_recv<D>(arrived: Seq<D>, slots: Seq<D>) -> Seq<D> {
    arrived.skip(recv_count(arrived.len(), slots.len()) as int)
}

/// Hand datagrams that have arrived to the caller's receive slots.
///
/// With nothing waiting, returns `Pending` and changes nothing, so a caller
/// that abandons the wait loses no data. Otherwise moves as many datagrams as
/// fit, oldest first, into the leading slots and returns their count.
pub fn deliver_datagrams<D>(arrived: &mut VecDeque<D>, slots: &mut [D]) -> (r: Poll<usize>)
    ensures
        old(arrived)@.len() == 0 ==> r is Pending && final(arrived)@ == old(arrived)@
            && final(slots)@ == old(slots)@,
        old(arrived)@.len() > 0 ==> r == Poll::Ready(
            recv_count(old(arrived)@.len(), old(slots)@.len()) as usize,
        ),
        final(slots)@ == slots_after_recv(old(arrived)@, old(slots)@),
        final(arrived)@ == queue_after_recv(old(arrived)@, old(slots)@),
{
    if arrived.len() == 0 {
        assert(slots@.skip(0) =~= slots@);
        assert(arrived@.take(0) + slots@.skip(0) =~= slots@);
        assert(arrived@.skip(0) =~= arrived@);
        return Poll::Pending;
    }
    let ghost a0 = arrived@;
    let ghost s0 = slots@;
    let mut i: usize = 0;
    while i < slots.len() && arrived.len() > 0
        invariant
            i <= s0.len(),
            i <= a0.len(),
            slots@.len() == s0.len(),
            arrived@ == a0.skip(i as int),
            slots@ == a0.take(i as int) + s0.skip(i as int),
            i < recv_count(a0.len(), s0.len()) ==> i < s0.len() && i < a0.len(),
        decreases s0.len() - i,
    {
        match arrived.pop_front() {
            Some(d) => {
                assert(d == a0[i as int]);
                slots[i] = d;
                assert(arrived@ =~= a0.skip(i + 1));
                assert(slots@ =~= a0.take(i + 1) + s0.skip(i + 1));
                i = i + 1;
            },
            None => {},
        }
    }
    assert(i == recv_count(a0.len(), s0.len()));
    Poll::Ready(i)
}

/// Abandoning a wait loses nothing: a receive that found nothing waiting
/// left the queue as it was, so once datagrams arrive the next receive hands
/// out at least one of them, oldest first.
pub proof fn lemma_abandoned_wait_keeps_data<D>(
    waiting: Seq<D>,
    slots: Seq<D>,
    incoming: Seq<D>,
    later_slots: Seq<D>,
)
    requires
        waiting.len() == 0,
        incoming.len() > 0,
        later_slots.len() > 0,
    ensures
        queue_after_recv(waiting, slots) == waiting,
        ({
            let queue = queue_after_recv(waiting, slots) + incoming;
            let n = recv_count(queue.len(), later_slots.len()) as int;
            &&& n >= 1
            &&& slots_after_recv(queue, later_slots).take(n) == incoming.take(n)
            &&& queue_after_recv(queue, later_slots) == incoming.skip(n)
        }),
{
    assert(waiting.skip(0) =~= waiting);
    let queue = waiting + incoming;
    assert(queue =~= incoming);
    let n = recv_count(queue.len(), later_slots.len()) as int;
    assert(slots_after_recv(queue, later_slots).take(n) =~= incoming.take(n));
}

/// A receive never hands out more datagrams than there are slots, and slots
/// past the count keep their contents.
pub proof fn lemma_unused_slots_untouched<D>(arrived: Seq<D>, slots: Seq<D>)
    ensures
        ({
            let n = recv_count(arrived.len(), slots.len()) as int;
            &&& n <= slots.len()
            &&& slots_after_recv(arrived, slots).len() == slots.len()
            &&& forall|i: int|
                n <= i < slots.len() ==> #[trigger] slots_after_recv(arrived, slots)[i] == slots[i]
        }),
{
}

} // verus!
