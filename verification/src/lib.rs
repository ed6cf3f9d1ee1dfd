//! Platform-independent core of a windowing and input shell.
//!
//! The crate holds the decisions a display backend has to make: how operating
//! system events map onto application callbacks, how quit negotiation and
//! window lifecycle progress, in which order native resources are acquired and
//! released, and how events travel from the thread that produces them to the
//! thread that renders. Everything that touches the operating system is left
//! to the embedding program, which performs the actions this crate hands out.
pub mod conf;
pub mod event;
pub mod fs;
pub mod native;
