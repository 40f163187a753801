//! Core of a translucent desktop overlay assistant: the visibility /
//! input-transparency state machine of the overlay window, and the
//! model-discovery-and-fallback pipeline that relays a text prompt to a
//! remote generation endpoint and extracts the answer.
//!
//! The host shell owns the actual window handle, the environment and the
//! HTTP client; it drives the state machines here with plain values and
//! performs the outside calls they ask for.

pub mod overlay;
pub mod relay;
pub mod resolve;
pub mod text;
