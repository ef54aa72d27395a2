//! Runtime-independent asynchronous I/O layer for a QUIC endpoint: timers,
//! non-blocking datagram sockets, writability pollers and the choice of a
//! concurrency backend, each stated as a contract over a plain model.

pub mod poll;
pub mod poller;
pub mod runtime;
pub mod socket;
pub mod timer;
