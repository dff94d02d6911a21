//! Directional navigation layer for a tiling window manager's control socket.
//!
//! The manager's native protocol only accepts literal commands (focus a
//! window id, resize an edge).  This library supplies the missing
//! "next"/"prev" semantics: it frames commands for the wire, interprets the
//! manager's replies, and decides, step by step, which fallback command to
//! try when a literal translation is rejected.  All socket traffic is left
//! to the embedding program, which runs the decision machine in
//! [`navigate`] by performing each returned action and feeding the outcome
//! back in.

pub mod command;
pub mod json;
pub mod model;
pub mod navigate;
pub mod text;
pub mod wire;
