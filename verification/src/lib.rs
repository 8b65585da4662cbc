//! A relay between a local peer that speaks length-prefixed frames and a
//! header-routed message bus.
//!
//! The crate holds the decisions of the relay and none of its input or
//! output: the wire format of the local frames ([`frame`]), the description
//! of the bus session and of every request made on it ([`session`]), the
//! header tables that go with those requests ([`table`]), and the state
//! machine that says, event by event, what the relay does next ([`relay`]).
//! What holds of every run of that machine is proved in [`laws`].

pub mod error;
pub mod frame;
pub mod laws;
pub mod relay;
pub mod session;
pub mod table;
