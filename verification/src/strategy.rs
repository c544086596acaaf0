//! Choice of a delivery strategy from facts about the runtime environment.
//!
//! A strategy is chosen once per delivery request and never mixed
//! mid-request. The decision table is a pure function of the environment
//! facts and the requested timeout.

use vstd::prelude::*;

verus! {

/// The operating-system family the process runs on.
#[derive(Clone, Copy, Debug, PartialEq, Eq, Structural)]
pub enum OsFamily {
    MacOs,
    Windows,
    /// A Unix-like system with a display server (Linux, the BSDs).
    UnixLike,
    /// Anything else; only the blocking fallback is assumed to work there.
    Other,
}

/// Which pair of helper binaries a polling worker talks to.
#[derive(Clone, Copy, Debug, PartialEq, Eq, Structural)]
pub enum HelperKind {
    /// `wl-copy` / `wl-paste` on Wayland.
    Wayland,
    /// `xclip` / `xsel` on X11.
    X11Bin,
}

/// One of the four delivery strategies.
#[derive(Clone, Copy, Debug, PartialEq, Eq, Structural)]
pub enum Strategy {
    /// Two cooperating detached workers on X11: one owns the selection and
    /// blocks until it is taken over, the other sleeps and consults the
    /// first worker's liveness to decide whether to revert.
    PersistentOwnership,
    /// One detached worker that sleeps, re-reads the clipboard through
    /// helper binaries and reverts only if the contents are unchanged.
    PollingHelper(HelperKind),
    /// A fresh detached instance of the program itself sleeps and then
    /// reverts unconditionally; previous contents travel over its stdin.
    DelegateProcess,
    /// The calling process itself blocks for the timeout, then clears the
    /// clipboard unconditionally.
    BlockingFallback,
}

/// Facts about the runtime environment, gathered by the caller.
///
/// Display-server detection is best effort; a misdetection degrades the
/// chosen strategy but is never fatal.
pub struct EnvFacts {
    pub os: OsFamily,
    /// Whether the display server was detected as Wayland.
    pub wayland: bool,
    /// Whether detaching a worker by forking is available.
    pub can_fork: bool,
    /// Path of the running executable, if it could be determined; the
    /// delegate strategy re-invokes it.
    pub exe: Option<String>,
}

/// The decision table: first match wins.
///
/// A zero timeout needs no strategy at all (set-only delivery), macOS and
/// Windows delegate to a subprocess, Wayland polls through helper binaries,
/// X11 uses persistent selection ownership when forking is available and
/// helper-binary polling when it is not, and any other environment gets the
/// blocking fallback.
pub open spec fn spec_select(env: EnvFacts, timeout: u64) -> Option<Strategy> {
    if timeout == 0 {
        None
    } else if env.os == OsFamily::MacOs || env.os == OsFamily::Windows {
        Some(Strategy::DelegateProcess)
    } else if env.os == OsFamily::UnixLike {
        if env.wayland {
            Some(Strategy::PollingHelper(HelperKind::Wayland))
        } else if env.can_fork {
            Some(Strategy::PersistentOwnership)
        } else {
            Some(Strategy::PollingHelper(HelperKind::X11Bin))
        }
    } else {
        Some(Strategy::BlockingFallback)
    }
}

/// Choose the delivery strategy for this environment and timeout.
pub fn select_strategy(env: &EnvFacts, timeout: u64) -> (r: Option<Strategy>)
    ensures
        r == spec_select(*env, timeout),
{
    if timeout == 0 {
        None
    } else if env.os == OsFamily::MacOs || env.os == OsFamily::Windows {
        Some(Strategy::DelegateProcess)
    } else if env.os == OsFamily::UnixLike {
        if env.wayland {
            Some(Strategy::PollingHelper(HelperKind::Wayland))
        } else if env.can_fork {
            Some(Strategy::PersistentOwnership)
        } else {
            Some(Strategy::PollingHelper(HelperKind::X11Bin))
        }
    } else {
        Some(Strategy::BlockingFallback)
    }
}

/// Whether the strategy hands the payload to the clipboard as text, so that
/// the payload must be valid UTF-8. Persistent ownership stores raw bytes.
pub open spec fn spec_needs_text(s: Strategy) -> bool {
    s != Strategy::PersistentOwnership
}

} // verus!
