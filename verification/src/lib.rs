//! Local-network peer discovery with pinned peer identities.
//!
//! The crate holds the rules of a discovery node: which announcements count as
//! a discovered peer, how long a peer stays fresh, which background operation
//! is running, and whether a peer's key fingerprint matches the one that was
//! approved for its name. Every function carries a contract over a
//! mathematical model of its data.

pub mod clock;
pub mod command;
pub mod device;
pub mod engine;
pub mod hint;
pub mod text;
pub mod trust;
pub mod pinning;
pub mod runtime;
pub mod scanner;
pub mod scrobbling;
pub mod store;
pub mod table;
