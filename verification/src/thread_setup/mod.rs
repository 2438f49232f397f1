//! Asynchronous thread setup: connection-scoped handles that go from pending to ready or failed.

pub mod bridge;
pub mod channel;
pub mod laws;
pub mod protocol;
pub mod registry;
pub mod waiting;
