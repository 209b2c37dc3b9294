//! Core of a telemetry relay: readings arriving from a message broker are
//! validated, kept in a bounded recency buffer and, while the write gate is
//! open, handed on for storage in a time-series database. A small control
//! endpoint shows the latest reading and opens or closes the write gate.
//!
//! This crate holds the decisions, over plain values. The caller owns the
//! sockets, the locks and the tasks, feeds events in and carries the
//! returned actions out. The one thing the crate reaches out for is the
//! time: the clock for a reading that names none, and the calendar to write
//! a timestamp out.

pub mod buffer;
pub mod clock;
pub mod gate;
pub mod reading;
pub mod relay;
pub mod request_handler;
pub mod sink;
