//! Failure taxonomy of the delivery subsystem.

use vstd::prelude::*;
use crate::text::append_str;

verus! {

/// Why a delivery failed. Failures during the synchronous phase abort the
/// whole operation before anything reaches the clipboard; a detached worker
/// has no channel left to report on, so these values only ever travel to
/// the original caller.
#[derive(Clone, Copy, Debug, PartialEq, Eq, Structural)]
pub enum DeliveryError {
    /// No clipboard context could be acquired.
    ClipboardUnavailable,
    /// A worker process could not be forked or spawned.
    SpawnFailed,
    /// The payload is not valid UTF-8 but the chosen strategy can only
    /// hand text to the clipboard.
    EncodingError,
    /// The caller declined to copy an empty secret.
    EmptySecret,
    /// A user notification could not be delivered (never fatal).
    NotifyFailed,
}

/// The fixed description of each failure.
pub open spec fn spec_error_message(e: DeliveryError) -> Seq<char> {
    match e {
        DeliveryError::ClipboardUnavailable => "failed to access clipboard"@,
        DeliveryError::SpawnFailed => "failed to start clipboard clearing worker"@,
        DeliveryError::EncodingError => "secret is not plain text, cannot copy to clipboard"@,
        DeliveryError::EmptySecret => "secret is empty, did not copy to clipboard"@,
        DeliveryError::NotifyFailed => "failed to notify about cleared clipboard"@,
    }
}

impl DeliveryError {
    /// A human-readable description of the failure.
    pub fn message(&self) -> (r: String)
        ensures
            r@ == spec_error_message(*self),
    {
        let mut s = String::new();
        match self {
            DeliveryError::ClipboardUnavailable => {
                append_str(&mut s, "failed to access clipboard");
            },
            DeliveryError::SpawnFailed => {
                append_str(&mut s, "failed to start clipboard clearing worker");
            },
            DeliveryError::EncodingError => {
                append_str(&mut s, "secret is not plain text, cannot copy to clipboard");
            },
            DeliveryError::EmptySecret => {
                append_str(&mut s, "secret is empty, did not copy to clipboard");
            },
            DeliveryError::NotifyFailed => {
                append_str(&mut s, "failed to notify about cleared clipboard");
            },
        }
        proof {
            assert(Seq::<char>::empty() + spec_error_message(*self) =~= spec_error_message(*self));
        }
        s
    }
}

} // verus!
