//! Announcing commands that can reach credentials, without forwarding the commands.
//!
//! A command is classified locally, and only bounded, safe context is announced: never command
//! text, arguments, environment values, output, prompts, or credentials.

pub mod announce;
pub mod announce_laws;
pub mod classify;
pub mod classify_laws;
pub mod labels;
