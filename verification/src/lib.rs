//! Core of a multi-device simulator: each descriptor in a validated set
//! drives one independent worker through a fixed lifecycle — register the
//! device identity, publish a fixed message on a fixed period for a bounded
//! duration, drain pending inbound messages once, and signal completion —
//! while an orchestrator joins exactly one completion signal per worker.
//!
//! The lifecycle decisions live here as a verified state machine; the
//! driver that performs the outside work (transport calls, sleeps, threads)
//! feeds every answer back in as an event.

pub mod clock;
pub mod descriptor;
pub mod orchestrator;
pub mod session;
pub mod worker;
