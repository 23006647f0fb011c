//! Protocol cores for a two-sensor environmental monitor: a software-timed
//! single-wire bus master for a temperature probe, and a frame synchronizer
//! and validator for the byte stream of a CO2 module.
//!
//! Hardware access (pin toggling, microsecond delays, UART reads) is left to
//! the embedding program: every operation here is a pure decision — a schedule
//! of line actions to perform, a state machine to advance on an observed
//! event, or a check on bytes already received.

pub mod framer;
pub mod onewire;
pub mod pipeline;
pub mod temperature;
pub mod validator;
