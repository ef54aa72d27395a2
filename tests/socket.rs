use std::collections::VecDeque;

use quinn_runtime::poll::{IoError, Poll};
use quinn_runtime::poller::{ReadinessCheck, UdpPollHelper};
use quinn_runtime::socket::{
    default_max_receive_segments, default_max_transmit_segments, default_may_fragment,
    deliver_datagrams, AsyncUdpSocket,
};

#[test]
fn one_datagram_into_four_slots() {
    let mut arrived: VecDeque<u32> = VecDeque::new();
    arrived.push_back(7);
    let mut slots = [0u32, 1, 2, 3];
    assert_eq!(deliver_datagrams(&mut arrived, &mut slots), Poll::Ready(1));
    assert_eq!(slots, [7, 1, 2, 3]);
    assert!(arrived.is_empty());
}

#[test]
fn nothing_arrived_is_pending() {
    let mut arrived: VecDeque<u32> = VecDeque::new();
    let mut slots = [9u32, 9];
    assert_eq!(deliver_datagrams(&mut arrived, &mut slots), Poll::Pending);
    assert_eq!(slots, [9, 9]);
}

#[test]
fn abandoned_wait_keeps_later_data() {
    let mut arrived: VecDeque<u32> = VecDeque::new();
    let mut slots = [0u32, 0];
    assert_eq!(deliver_datagrams(&mut arrived, &mut slots), Poll::Pending);
    arrived.push_back(42);
    assert_eq!(deliver_datagrams(&mut arrived, &mut slots), Poll::Ready(1));
    assert_eq!(slots, [42, 0]);
}

#[test]
fn more_datagrams_than_slots_keeps_the_rest_in_order() {
    let mut arrived: VecDeque<u32> = VecDeque::from(vec![1, 2, 3, 4, 5]);
    let mut slots = [0u32, 0];
    assert_eq!(deliver_datagrams(&mut arrived, &mut slots), Poll::Ready(2));
    assert_eq!(slots, [1, 2]);
    assert_eq!(arrived, VecDeque::from(vec![3, 4, 5]));
    assert_eq!(deliver_datagrams(&mut arrived, &mut slots), Poll::Ready(2));
    assert_eq!(slots, [3, 4]);
    assert_eq!(deliver_datagrams(&mut arrived, &mut slots), Poll::Ready(1));
    assert_eq!(slots, [5, 4]);
}

#[test]
fn no_slots_hands_out_nothing() {
    let mut arrived: VecDeque<u32> = VecDeque::from(vec![1]);
    let mut slots: [u32; 0] = [];
    assert_eq!(deliver_datagrams(&mut arrived, &mut slots), Poll::Ready(0));
    assert_eq!(arrived.len(), 1);
}

struct Always;

impl ReadinessCheck for Always {
    fn poll_check(&mut self) -> Poll<Result<(), IoError>> {
        Poll::Ready(Ok(()))
    }
}

fn make_check() -> Always {
    Always
}

/// A socket that accepts every datagram and never has any to receive.
struct Sink;

impl AsyncUdpSocket for Sink {
    type Poller = UdpPollHelper<fn() -> Always, Always>;
    type Addr = u16;

    fn create_io_poller(&self) -> Self::Poller {
        UdpPollHelper::new(make_check as fn() -> Always)
    }

    fn try_send(&self, transmits: &[quinn_udp::Transmit]) -> Result<usize, IoError> {
        Ok(transmits.len())
    }

    fn poll_recv(
        &self,
        _bufs: &mut [Vec<u8>],
        _meta: &mut [quinn_udp::RecvMeta],
    ) -> Poll<Result<usize, IoError>> {
        Poll::Pending
    }

    fn local_addr(&self) -> Result<u16, IoError> {
        Ok(4433)
    }
}

#[test]
fn socket_capabilities_default_to_no_offload() {
    let s = Sink;
    assert_eq!(s.max_transmit_segments(), 1);
    assert_eq!(s.max_receive_segments(), 1);
    assert!(s.may_fragment());
    assert_eq!(s.try_send(&[]), Ok(0));
    assert_eq!(s.local_addr(), Ok(4433));
}

#[test]
fn poll_and_error_helpers() {
    assert!(Poll::Ready(3).is_ready());
    assert!(!Poll::Ready(3).is_pending());
    assert!(Poll::<u8>::Pending.is_pending());
    assert!(IoError::WouldBlock.is_would_block());
    assert!(!IoError::Hard(1).is_would_block());
}

#[test]
fn default_capability_values() {
    assert_eq!(default_max_transmit_segments(), 1);
    assert_eq!(default_max_receive_segments(), 1);
    assert!(default_may_fragment());
}
