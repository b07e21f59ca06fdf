//! Time-based one-time passwords (RFC 6238 / RFC 4226).
//!
//! A [`TOTP`] engine holds a shared secret together with its configuration
//! (hash algorithm, digit count, time step, allowed skew, labels) and derives
//! short numeric codes from caller-supplied Unix timestamps. Codes are
//! generated by HMAC-based dynamic truncation and checked against a sliding
//! window of adjacent time steps.

pub mod algorithm;
pub mod digits;
pub mod engine;
pub mod secret;

pub use algorithm::Algorithm;
pub use engine::ConfigError;
pub use engine::TOTP;
pub use secret::DecodeError;
pub use secret::Secret;
