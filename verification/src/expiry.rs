//! Phase two: the expiry decision, taken inside a detached worker after
//! the timeout has elapsed.
//!
//! The sleeping itself, forking, and process-liveness probing are the
//! caller's process plumbing; what stands here is every decision and every
//! clipboard action a worker takes once its facts are in hand. There is no
//! cancellation channel between deliveries: a newer delivery simply
//! overwrites the clipboard, and an older worker observes that (by value
//! comparison or by setter liveness) and leaves the clipboard alone.

use vstd::prelude::*;
use vstd::string::StringSliceAdditionalSpecFns;
use vstd::utf8::valid_utf8;
use crate::accessor;
use crate::codec::{base64_decode, base64_of};
use crate::errors::DeliveryError;
use crate::notify::notify_cleared;
use crate::strategy::HelperKind;
use crate::text::str_eq;

verus! {

/// The state a detached worker owns for one delivery. It exists only
/// inside the worker: the parent keeps no handle to it after spawning.
pub struct ExpirySession {
    /// The clipboard contents to revert to.
    pub previous: String,
    /// How long to wait before deciding, in seconds.
    pub timeout_seconds: u64,
    /// Process identity of the setter worker, where the strategy has one;
    /// its liveness stands for "the clipboard is still ours".
    pub setter: Option<i64>,
}

/// The polling worker's decision: the clipboard may be reverted exactly
/// when it still holds what this delivery set, and what is restored then
/// is exactly the previous contents.
pub fn polling_decide(set_text: &str, current: &str, previous: &str) -> (r: Option<String>)
    ensures
        r is Some <==> current@ == set_text@,
        r matches Some(p) ==> p@ == previous@,
{
    if str_eq(current, set_text) {
        Some(previous.to_owned())
    } else {
        None
    }
}

/// The polling worker's whole step, run after the sleep: re-read the
/// clipboard through the helper binaries, revert only if it is unchanged,
/// and notify on clearing. Returns whether it reverted. The decision for
/// every possible read value is `polling_decide`; which value was read is
/// the clipboard's to say.
pub fn polling_expiry_step(
    helper: HelperKind,
    set_text: &str,
    previous: &str,
    appname: &str,
) -> (r: Result<bool, DeliveryError>)
    ensures
        r matches Err(e) ==> e == DeliveryError::ClipboardUnavailable,
{
    let current = match helper {
        HelperKind::Wayland => accessor::wayland_get(),
        HelperKind::X11Bin => accessor::x11bin_get(),
    };
    let current = match current {
        Ok(c) => c,
        Err(e) => {
            return Err(e);
        },
    };
    match polling_decide(set_text, current.as_str(), previous) {
        Some(restore) => {
            let set_res = match helper {
                HelperKind::Wayland => accessor::wayland_set(restore.as_str()),
                HelperKind::X11Bin => accessor::x11bin_set(restore.as_str()),
            };
            match set_res {
                Ok(()) => {},
                Err(e) => {
                    return Err(e);
                },
            }
            notify_cleared(appname);
            Ok(true)
        },
        None => Ok(false),
    }
}

/// The persistent-ownership setter worker: take the clipboard selection
/// with the payload, block until another process takes the selection over,
/// then notify and finish. Its very exit is the signal that the clipboard
/// changed hands.
pub fn persistent_setter_work(payload: &[u8], appname: &str) -> (r: Result<(), DeliveryError>)
    ensures
        r matches Err(e) ==> e == DeliveryError::ClipboardUnavailable,
{
    let clip = match accessor::x11_open() {
        Ok(c) => c,
        Err(e) => {
            return Err(e);
        },
    };
    match accessor::x11_store(&clip, payload) {
        Ok(()) => {},
        Err(e) => {
            return Err(e);
        },
    }
    match accessor::x11_load_wait(&clip) {
        Ok(_) => {},
        Err(e) => {
            return Err(e);
        },
    }
    notify_cleared(appname);
    Ok(())
}

/// The persistent-ownership timer worker's step, run after the sleep: the
/// setter worker still being alive means the clipboard was never taken
/// over, so the previous contents are restored; a dead setter means the
/// clipboard already changed hands and nothing is touched.
pub fn persistent_timer_step(setter_alive: bool, previous: &str) -> (r: Result<
    bool,
    DeliveryError,
>)
    ensures
        r matches Ok(reverted) ==> reverted == setter_alive,
        !setter_alive ==> (r matches Ok(reverted) && !reverted),
        r matches Err(e) ==> e == DeliveryError::ClipboardUnavailable && setter_alive,
{
    if setter_alive {
        proof {
            vstd::utf8::encode_utf8_valid_utf8(previous@);
        }
        match accessor::set(previous.as_bytes()) {
            Ok(()) => Ok(true),
            Err(e) => Err(e),
        }
    } else {
        Ok(false)
    }
}

/// Recover the previous clipboard contents from the base64 line a
/// delegate subprocess reads on its standard input. For the line a
/// delivery actually wrote, this returns exactly the bytes that were
/// encoded.
pub fn delegate_parse(line: &str) -> (r: Option<Vec<u8>>)
    ensures
        r matches Some(v) ==> (forall|p: Seq<u8>| line@ == base64_of(p) ==> v@ == p),
        r matches Some(v) ==> line@ == base64_of(v@),
        r is None ==> (forall|p: Seq<u8>| line@ != base64_of(p)),
{
    base64_decode(line)
}

/// Whether the handshake line cannot be turned back into clipboard text:
/// either it is no transport encoding at all, or what it encodes is not
/// valid UTF-8.
pub open spec fn spec_handshake_rejected(line: Seq<char>) -> bool {
    (forall|p: Seq<u8>| line != base64_of(p)) || (forall|p: Seq<u8>|
        line == base64_of(p) ==> !valid_utf8(p))
}

/// The delegate subprocess's whole step, run after the sleep: decode the
/// handshake line and revert unconditionally. This strategy cannot detect
/// an intervening external change; that asymmetry is accepted where no
/// better primitive exists. An encoding failure is reported exactly when
/// the line is rejected; any other failure is the clipboard itself being
/// unavailable, which can only arise on a decodable line.
pub fn delegate_expiry_step(line: &str, appname: &str) -> (r: Result<(), DeliveryError>)
    ensures
        r matches Err(e) ==> (e == DeliveryError::EncodingError <==> spec_handshake_rejected(
            line@,
        )),
        r matches Err(e) ==> e == DeliveryError::EncodingError || e
            == DeliveryError::ClipboardUnavailable,
        r is Ok ==> (exists|p: Seq<u8>| line@ == base64_of(p) && valid_utf8(p)),
{
    let previous = match delegate_parse(line) {
        Some(v) => v,
        None => {
            return Err(DeliveryError::EncodingError);
        },
    };
    match accessor::set(previous.as_slice()) {
        Ok(()) => {
            proof {
                assert(line@ == base64_of(previous@) && valid_utf8(previous@));
            }
        },
        Err(e) => {
            proof {
                if e == DeliveryError::EncodingError {
                    assert forall|p: Seq<u8>| line@ == base64_of(p) implies !valid_utf8(p) by {
                        assert(previous@ == p);
                    }
                } else {
                    assert(line@ == base64_of(previous@));
                    assert(valid_utf8(previous@));
                }
            }
            return Err(e);
        },
    }
    notify_cleared(appname);
    Ok(())
}

/// The blocking fallback's final step, run in the calling process itself
/// after it slept through the timeout: clear the clipboard to empty
/// unconditionally, then notify.
pub fn blocking_finish(appname: &str) -> (r: Result<(), DeliveryError>)
    ensures
        r matches Err(e) ==> e == DeliveryError::ClipboardUnavailable,
{
    match accessor::native_set("") {
        Ok(()) => {},
        Err(e) => {
            return Err(e);
        },
    }
    notify_cleared(appname);
    Ok(())
}

} // verus!
