//! Prefix-tagged opaque identifiers.
//!
//! An identifier is a string of the shape `prefix_suffix`: a short ASCII tag
//! naming the kind of entity, one underscore, then a random suffix drawn from
//! a URL-safe alphabet (for example `usr_V1StGXR8zrIlHW6dK0Xf3`). The tag
//! makes identifiers self-describing in logs and URLs, while distinct Rust
//! types keep a user id from ever being passed where an order id is expected.
//!
//! The engine in [`engine`] generates, parses and renders the string form;
//! [`typed`] wraps it in a strongly typed value bound to a kind; [`kinds`]
//! holds two ready-made kinds that the documentation and tests use.

pub mod engine;
pub mod error;
pub mod kinds;
pub mod typed;

pub use engine::Id;
pub use error::ParseIdError;
pub use typed::PrefixedId;
pub use typed::TypedId;
