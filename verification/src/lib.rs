//! Supervisor-side logic of a small thermal-regulation controller.
//!
//! A supervisor talks to a temperature sensor and to a pump over two separate byte links.
//! This crate holds everything that decides or computes: the wire format of the messages,
//! the framing buffer that recovers frames from bytes arriving in arbitrary chunks, the
//! request/response state machine of each link, and the control model that turns readings
//! into the next pump command. Hardware access, timers and task scheduling belong to the
//! program that drives these state machines.

pub mod types;
pub mod framing;
pub mod wire;
pub mod command;
pub mod model;
pub mod link;
pub mod peripherals;

pub mod simulator;
