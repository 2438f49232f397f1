//! Terminal attribution of provider requests: exact token counts for every item of a request,
//! accepted only from the provider's own receipt for the same terminal response.

pub mod handle;
pub mod items;
pub mod laws;
pub mod receipt;
pub mod stream;
pub mod types;
