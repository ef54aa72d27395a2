use quinn_runtime::poll::Poll;
use quinn_runtime::timer::{AsyncTimer, DeadlineTimer};

#[test]
fn timer_pending_before_deadline() {
    let mut t = DeadlineTimer::new(10);
    assert_eq!(t.poll(0), Poll::Pending);
    assert_eq!(t.poll(9), Poll::Pending);
    assert_eq!(t.deadline(), 10);
}

#[test]
fn timer_fires_at_deadline() {
    let mut t = DeadlineTimer::new(10);
    assert_eq!(t.poll(10), Poll::Ready(()));
}

#[test]
fn timer_in_the_past_fires_on_first_poll() {
    let mut t = DeadlineTimer::new(3);
    assert_eq!(t.poll(100), Poll::Ready(()));
}

#[test]
fn timer_fires_once_per_deadline() {
    let mut t = DeadlineTimer::new(5);
    assert_eq!(t.poll(5), Poll::Ready(()));
    assert_eq!(t.poll(6), Poll::Pending);
    assert_eq!(t.poll(1000), Poll::Pending);
}

#[test]
fn timer_reset_to_now_fires_next_poll() {
    let mut t = DeadlineTimer::new(10);
    assert_eq!(t.poll(0), Poll::Pending);
    t.reset(0);
    assert_eq!(t.deadline(), 0);
    assert_eq!(t.poll(0), Poll::Ready(()));
}

#[test]
fn timer_reset_to_later_deadline_postpones() {
    let mut t = DeadlineTimer::new(5);
    t.reset(50);
    assert_eq!(t.poll(10), Poll::Pending);
    assert_eq!(t.poll(50), Poll::Ready(()));
}

#[test]
fn timer_reset_after_firing_rearms() {
    let mut t = DeadlineTimer::new(1);
    assert_eq!(t.poll(1), Poll::Ready(()));
    t.reset(2);
    assert_eq!(t.poll(1), Poll::Pending);
    assert_eq!(t.poll(2), Poll::Ready(()));
}
