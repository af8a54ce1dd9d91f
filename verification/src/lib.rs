//! Live fan-out of the packets of one remote track: a forwarding task pushes
//! what it pulls from the transport onto a bounded broadcast bus, and any
//! number of readers, minted at any time, follow the bus at their own pace.

pub mod bus;
pub mod lifecycle;
pub mod track;
