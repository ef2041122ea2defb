//! Verified core of a game-engine binding for a Lightning/Spark wallet SDK.
//!
//! The wallet work itself (connecting, paying, syncing, claiming deposits) is
//! done by an external SDK over the network, driven by unverified glue around
//! this crate.  What this crate owns, and what is verified here, is everything
//! the binding decides on its own:
//!
//! * the session state machine (no operation runs without a live session, and
//!   every operation answers with its documented sentinel when there is none),
//! * the translation of engine-side signed sentinel values (`amount <= 0`,
//!   `timeout <= 0`, `offset <= 0`, ...) into the SDK's optional fields,
//! * the translation of SDK results back into the engine-facing records,
//!   including the unsigned-to-signed narrowing at that boundary.

pub mod network;
pub mod outcomes;
pub mod requests;
pub mod session;
