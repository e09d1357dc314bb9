//! Verified core of a C interface to the `crossterm` terminal library.
//!
//! The C entry points themselves (thread-local state, raw pointers, terminal
//! I/O) live in the companion application crate; what they decide is
//! computed here, except the one-for-one mapping of the C enums onto
//! crossterm's own enums, which the application makes where it issues the
//! terminal command.

pub mod c_string;
pub mod error_state;
pub mod event_text;
pub mod laws;
pub mod terminal;
