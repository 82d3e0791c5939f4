//! Single-use confirmation tokens and password hashing for an authentication
//! service.
//!
//! - `service`: issuing and verifying tokens that authorise one action by one
//!   user, once, within a validity window.
//! - `guarantees`: what is proved of the service: round trip, single use,
//!   expiry, separation of purposes.
//! - `store`: the single-use ledger that tells a live token from a spent one.
//! - `codec`: claim sets in an authenticated, encrypted envelope.
//! - `claims`: the claim set and its text.
//! - `encoding`: hexadecimal text.
//! - `password`: hashing passwords and checking them against stored hashes.
//! - `settings`: the configuration the service is started with.
//! - `system`: the clock and the random source.

pub mod claims;
pub mod codec;
pub mod encoding;
pub mod guarantees;
pub mod password;
pub mod service;
pub mod settings;
pub mod store;
pub mod system;
