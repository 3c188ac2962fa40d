//! Webhook dispatch and execution core.
//!
//! Receives webhook deliveries, verifies their authenticity with
//! HMAC-SHA1, matches each event against the registered hooks, and
//! decides how a hook's command invocation is to be run and judged.

pub mod auth;
pub mod delivery;
pub mod hex;
pub mod hook;
pub mod hub;
pub mod json;
pub mod laws;
pub mod project;
pub mod rep;

pub use auth::AuthenticateHook;
pub use delivery::{Delivery, RawEvent};
pub use hook::Hook;
pub use hub::Hub;
pub use rep::{Organization, Payload, Ping, Repository, Sender};
