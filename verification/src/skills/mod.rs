//! Skills in use: exact token telemetry of skill reads, and the evidence of their invocations.

pub mod attribution;
pub mod attribution_laws;
pub mod counting_laws;
pub mod emission;
pub mod emission_laws;
pub mod invocations;
pub mod order;
pub mod recording_laws;
pub mod table;
pub mod telemetry;
pub mod telemetry_laws;
