//! Client-side logic for withdrawing delegated boost tokens from a remote
//! delegation pool: amount conversion, the confirmation decision, the
//! undelegation session, reply classification and timestamp polling.

pub mod amount;
pub mod text;
pub mod chain;
pub mod confirm;
pub mod poll;
pub mod reply;
pub mod session;
