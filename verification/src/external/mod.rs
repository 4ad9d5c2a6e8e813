//! What is taken on trust of the code that the library calls: types that carry values of std,
//! tokio and tokio-stream through, and contracts for the functions of theirs that are called.
//!
//! A sending handle of tokio holds nothing but a counted pointer to its channel. Its value stands
//! for the channel that it points to: two handles are equal exactly when they belong to the same
//! channel.

pub mod bounded;
pub mod once;
pub mod task;
pub mod unbounded;
