//! Verified decision logic of a coding-agent host.

pub mod authorization;
pub mod digest;
pub mod provider;
pub mod skills;
pub mod text;
pub mod text_laws;
pub mod thread_setup;
