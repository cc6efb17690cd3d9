//! The state, fetch and update cycle of a "choose your own adventure" story
//! viewer: story arcs fetched from a backend replace the current arc wholesale,
//! and every failed fetch leaves it as it was.
pub mod story;
pub mod fetch;
pub mod cycle;
