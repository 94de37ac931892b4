//! Verified core of a non-blocking datagram-socket handle: the rule that ties a
//! handle to a single selector, and the mapping of "would block" into an
//! absent result.

pub mod affinity;
pub mod nonblock;
