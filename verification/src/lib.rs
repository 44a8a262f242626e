//! Client-side logic for a character-automation client of an MMO game API.
//!
//! The library holds the parts of the client that are pure logic: the error
//! taxonomy keyed by HTTP status codes, the per-endpoint status-code mappings,
//! the retry schedule with exponential backoff, the cooldown-aware fight-loop
//! state machine, and the framing of request and response texts.  Network I/O,
//! the async runtime and the terminal UI live outside the library and drive it
//! by exchanging plain values.

pub mod errors;
pub mod fight_loop;
pub mod models;
pub mod requests;
pub mod retry;
pub mod schema;
pub mod status;
pub mod timestamps;
pub mod wire;
