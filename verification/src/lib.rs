//! Driver core for a half-duplex, daisy-chained servo bus: the packet codec,
//! the register table of the AX-12 actuator and the decisions of one
//! request/response exchange.

pub mod ax12;
pub mod bus;
pub mod packets;
