//! Command bridge for a desktop application shell.
//!
//! The shell delegates every named operation to a separate backend
//! process. This crate holds the verified core of that bridge: the
//! payload model and its JSON encoding, the response envelope and its
//! classification into success or failure, and the fixed operation
//! table the host exposes. Process spawning itself is left to the
//! embedding application.

pub mod dispatch;
pub mod envelope;
pub mod json;
pub mod jsonio;
pub mod strings;
pub mod transport;
