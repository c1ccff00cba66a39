//! Watches remote directory listings for new entries and relays them to chat channels.
//!
//! The verified core: change detection over listings, the watch registry and the command
//! and invitation rules that drive it, the retry backoff, the session lifecycle of the
//! connection, and the stored form of a session.

pub mod backoff;
pub mod bot;
pub mod json;
pub mod mozilla;
pub mod notify;
pub mod registry;
pub mod session;
pub mod sync;
pub mod text;
