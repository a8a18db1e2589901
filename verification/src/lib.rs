//! Register maps and link arbitration for analog and digital expansion
//! modules that share one Modbus link.
//!
//! Nothing here touches a connection. An operation of a device selects the
//! device's slave address on the [`ThreadSafeContext`] and stages one
//! request, as a single step; what comes back is the [`link::Exchange`] to
//! put on the wire. Whoever owns the connection performs it while holding
//! the link and hands the [`link::Reply`] to the operation's `decode_`
//! function, which gives the typed result.

pub mod analog_in;
pub mod analog_out;
pub mod common;
pub mod digital;
pub mod link;

pub use link::ThreadSafeContext;
