//! Coordination core for a mobile-barber booking service: the appointment
//! lifecycle state machine, an in-process change-event fan-out, per-viewer
//! stream filtering, and the push-notification planning pipeline.

pub mod bus;
mod clock;
pub mod coordinator;
pub mod dispatch;
pub mod engine;
pub mod gateway;
pub mod laws;
pub mod model;
pub mod records;
pub mod text;
pub mod wire;
