//! Plain values exchanged with the peripherals.

pub mod pump;
pub mod temperature;
