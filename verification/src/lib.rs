//! Timeout-bound clipboard delivery for sensitive values.
//!
//! The crate places a secret on the operating system clipboard for a bounded
//! period and then removes it again, tolerating the fact that the process
//! that performed the copy may already have exited and that other programs
//! may overwrite the clipboard at any moment.
//!
//! The decision logic is verified: parsing the timeout expression, choosing
//! a delivery strategy for the runtime environment, assembling the delivery
//! plan, and deciding after the timeout whether the clipboard may be
//! reverted. The operating-system calls themselves (clipboard access,
//! desktop notifications, base64 transport encoding) are reached through a
//! small set of trusted wrappers around outside crates.

pub mod accessor;
pub mod cmd;
pub mod codec;
pub mod delivery;
pub mod digits;
pub mod errors;
pub mod expiry;
pub mod notify;
pub mod plaintext;
pub mod sim;
pub mod strategy;
pub mod text;
pub mod time;

pub use delivery::{copy_timeout, plaintext_copy, DeliveryOutcome, WorkerSpec};
pub use errors::DeliveryError;
pub use plaintext::Plaintext;
pub use strategy::{EnvFacts, HelperKind, OsFamily, Strategy};
pub use time::{parse_duration, ParseDurationError};
