//! Decision logic of an interactive message-queue demo client.
//!
//! The running program connects to a server, registers a named queue with a
//! reply callback once it is signed in, and reads lines from the terminal
//! until the user types "quit".  All network traffic, the async runtime and
//! the terminal itself live outside this crate; what stands here is every
//! decision the program takes, each with a proved contract:
//!
//! - [`session`]: what follows the connection attempt, and which action each
//!   connection lifecycle event triggers (at most one queue registration,
//!   exactly on sign-in, always under the configured queue name);
//! - [`reply`]: the reply produced for a delivered queue message (a fixed
//!   payload, never absent);
//! - [`input`]: when the input loop continues, stops, or aborts;
//! - [`text`]: whitespace trimming and ASCII case-insensitive comparison,
//!   on which the quit test rests.

pub mod input;
pub mod reply;
pub mod session;
pub mod text;
