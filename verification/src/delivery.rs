//! The delivery orchestrator: the synchronous phase of a copy request.
//!
//! One call snapshots the previous clipboard contents, writes the new
//! payload (except under persistent ownership, where the setter worker
//! writes it), and describes the expiry worker the caller must detach; the
//! call returns as soon as that is done. Detaching the worker, sleeping and
//! the expiry decision itself happen elsewhere: the worker steps live in
//! the expiry module, and the process plumbing around them is the caller's.

use vstd::prelude::*;
use vstd::string::StringSliceAdditionalSpecFns;
use vstd::utf8::{encode_utf8, valid_utf8};
use crate::accessor;
use crate::codec::{base64_encode, base64_of};
use crate::digits::{spec_decimal, u64_decimal};
use crate::errors::DeliveryError;
use crate::plaintext::{spec_line_end, Plaintext};
use crate::strategy::{spec_needs_text, spec_select, select_strategy, EnvFacts, HelperKind, Strategy};
use crate::text::{append_str, bytes_to_str};

verus! {

/// The status line reported after a detached worker took over the expiry.
pub open spec fn spec_report_line(t: nat) -> Seq<char> {
    "Secret copied to clipboard. Clearing after "@ + spec_decimal(t) + " seconds..."@
}

/// The status line reported when the calling process itself must block
/// until the timeout elapses.
pub open spec fn spec_report_line_waiting(t: nat) -> Seq<char> {
    "Secret copied to clipboard. Waiting "@ + spec_decimal(t) + " seconds to clear..."@
}

/// Build the status line for a delivery with the given timeout.
pub fn report_line(timeout: u64, waiting: bool) -> (r: String)
    ensures
        waiting ==> r@ == spec_report_line_waiting(timeout as nat),
        !waiting ==> r@ == spec_report_line(timeout as nat),
{
    let dec = u64_decimal(timeout);
    let mut s: String;
    if waiting {
        s = "Secret copied to clipboard. Waiting ".to_owned();
        append_str(&mut s, dec.as_str());
        append_str(&mut s, " seconds to clear...");
    } else {
        s = "Secret copied to clipboard. Clearing after ".to_owned();
        append_str(&mut s, dec.as_str());
        append_str(&mut s, " seconds...");
    }
    s
}

/// The argument list of the internal clipboard-revert subcommand that a
/// delegate subprocess is invoked with.
pub open spec fn spec_delegate_args(t: nat) -> Seq<Seq<char>> {
    seq![
        "internal"@,
        "clip-revert"@,
        "--previous-base64-stdin"@,
        "--timeout"@,
        spec_decimal(t),
    ]
}

/// Build the delegate subcommand's argument list.
pub fn delegate_args(timeout: u64) -> (r: Vec<String>)
    ensures
        r.deep_view() == spec_delegate_args(timeout as nat),
{
    let mut v: Vec<String> = Vec::new();
    v.push("internal".to_owned());
    v.push("clip-revert".to_owned());
    v.push("--previous-base64-stdin".to_owned());
    v.push("--timeout".to_owned());
    v.push(u64_decimal(timeout));
    proof {
        assert(v.deep_view() =~= spec_delegate_args(timeout as nat));
    }
    v
}

/// The expiry work that remains after the synchronous phase, to be carried
/// out by a detached worker (or, for the blocking fallback, by the caller
/// itself).
#[derive(Debug)]
pub enum WorkerSpec {
    /// Persistent ownership: detach a setter worker that takes the
    /// selection with `payload` and blocks until the selection changes
    /// hands, and a timer worker that sleeps for `timeout` seconds and
    /// reverts to `previous` only if the setter still lives.
    PersistentPair { payload: Vec<u8>, previous: String, timeout: u64 },
    /// Polling: detach one worker that sleeps for `timeout` seconds,
    /// re-reads the clipboard through the helper binaries, and reverts to
    /// `previous` only if the clipboard still equals `set_text`.
    Polling { helper: HelperKind, set_text: String, previous: String, timeout: u64 },
    /// Delegation: spawn `exe` detached with `args` and write
    /// `stdin_line`, the base64 transport encoding of `previous`, as one
    /// line to its standard input; the delegate sleeps and then reverts
    /// unconditionally.
    Delegate { exe: String, args: Vec<String>, stdin_line: String, previous: String, timeout: u64 },
    /// Blocking fallback: the caller itself sleeps for `timeout` seconds
    /// and then clears the clipboard unconditionally.
    BlockingWait { timeout: u64 },
}

/// What the synchronous phase produced: the worker still to be detached,
/// and the status line to show when reporting was requested.
#[derive(Debug)]
pub struct DeliveryOutcome {
    pub worker: Option<WorkerSpec>,
    pub report_line: Option<String>,
}

/// Whether the worker description matches what the decision table demands
/// for this environment, timeout and payload.
pub open spec fn spec_worker_for(w: WorkerSpec, env: EnvFacts, timeout: u64, data: Seq<u8>) -> bool {
    match spec_select(env, timeout) {
        Option::None => false,
        Option::Some(Strategy::PersistentOwnership) => (w matches WorkerSpec::PersistentPair {
            payload,
            previous: _,
            timeout: t,
        } && payload@ == data && t == timeout),
        Option::Some(Strategy::PollingHelper(h)) => (w matches WorkerSpec::Polling {
            helper,
            set_text,
            previous: _,
            timeout: t,
        } && helper == h && encode_utf8(set_text@) == data && t == timeout),
        Option::Some(Strategy::DelegateProcess) => if env.exe is Some {
            (w matches WorkerSpec::Delegate { exe, args, stdin_line, previous, timeout: t }
                && exe@ == env.exe->0@ && args.deep_view() == spec_delegate_args(timeout as nat)
                && stdin_line@ == base64_of(encode_utf8(previous@)) && t == timeout)
        } else {
            (w matches WorkerSpec::BlockingWait { timeout: t } && t == timeout)
        },
        Option::Some(Strategy::BlockingFallback) => (w matches WorkerSpec::BlockingWait {
            timeout: t,
        } && t == timeout),
    }
}

/// Whether this delivery makes the caller itself wait: the blocking
/// fallback, either chosen directly or fallen back to when the delegate
/// strategy finds no executable path.
pub open spec fn spec_caller_waits(env: EnvFacts, timeout: u64) -> bool {
    spec_select(env, timeout) == Option::Some(Strategy::BlockingFallback) || (spec_select(
        env,
        timeout,
    ) == Option::Some(Strategy::DelegateProcess) && env.exe is None)
}

/// The synchronous phase shared by the blocking fallback and by a
/// delegate request that found no executable path.
fn blocking_phase(data: &[u8], timeout: u64) -> (r: Result<WorkerSpec, DeliveryError>)
    ensures
        r matches Err(e) ==> (e == DeliveryError::EncodingError <==> !valid_utf8(data@)),
        r matches Err(e) ==> e == DeliveryError::EncodingError || e
            == DeliveryError::ClipboardUnavailable,
        r matches Ok(w) ==> (w matches WorkerSpec::BlockingWait { timeout: t } && t == timeout),
        r is Ok ==> valid_utf8(data@),
{
    let text = match bytes_to_str(data) {
        Some(t) => t,
        None => {
            return Err(DeliveryError::EncodingError);
        },
    };
    match accessor::native_set(text) {
        Ok(()) => Ok(WorkerSpec::BlockingWait { timeout }),
        Err(e) => Err(e),
    }
}

/// Copy the payload to the clipboard, to be cleared after `timeout`
/// seconds.
///
/// With a zero timeout the payload is only written: no worker is needed
/// and no status line is shown. Otherwise the strategy chosen by the
/// decision table runs its synchronous phase here, and the returned
/// outcome names the expiry worker the caller must detach. An encoding
/// failure is reported exactly when the chosen strategy hands the payload
/// to the clipboard as text and the payload is not valid UTF-8; any other
/// failure is the clipboard itself being unavailable. Nothing is written
/// on a failure reported here, except that a helper-binary write itself
/// may have been the failing step.
pub fn copy_timeout(data: &[u8], timeout: u64, report: bool, env: &EnvFacts) -> (r: Result<
    DeliveryOutcome,
    DeliveryError,
>)
    ensures
        r matches Ok(o) ==> (timeout == 0 ==> o.worker is None && o.report_line is None),
        r matches Ok(o) ==> (timeout > 0 ==> (o.worker matches Some(w) && spec_worker_for(
            w,
            *env,
            timeout,
            data@,
        ))),
        r matches Ok(o) ==> (timeout > 0 ==> (o.report_line is Some <==> report)),
        r matches Ok(o) ==> (o.report_line matches Some(l) ==> l@ == if spec_caller_waits(
            *env,
            timeout,
        ) {
            spec_report_line_waiting(timeout as nat)
        } else {
            spec_report_line(timeout as nat)
        }),
        r matches Err(e) ==> e == DeliveryError::EncodingError || e
            == DeliveryError::ClipboardUnavailable,
        r matches Err(e) ==> (timeout == 0 ==> (e == DeliveryError::EncodingError <==> !valid_utf8(
            data@,
        ))),
        r matches Err(e) ==> (timeout > 0 ==> (e == DeliveryError::EncodingError
            <==> spec_needs_text(spec_select(*env, timeout)->0) && !valid_utf8(data@))),
{
    if timeout == 0 {
        return match accessor::set(data) {
            Ok(()) => Ok(DeliveryOutcome { worker: None, report_line: None }),
            Err(e) => Err(e),
        };
    }
    let strat = match select_strategy(env, timeout) {
        Some(s) => s,
        None => {
            proof {
                assert(false);
            }
            return Err(DeliveryError::ClipboardUnavailable);
        },
    };
    let worker: WorkerSpec = match strat {
        Strategy::PersistentOwnership => {
            // The setter worker writes the payload itself; here only the
            // previous contents are snapshotted.
            let previous = match accessor::get() {
                Ok(p) => p,
                Err(e) => {
                    return Err(e);
                },
            };
            let payload = vstd::slice::slice_to_vec(data);
            WorkerSpec::PersistentPair { payload, previous, timeout }
        },
        Strategy::PollingHelper(h) => {
            let text = match bytes_to_str(data) {
                Some(t) => t.to_owned(),
                None => {
                    return Err(DeliveryError::EncodingError);
                },
            };
            let previous = match h {
                HelperKind::Wayland => accessor::wayland_get(),
                HelperKind::X11Bin => accessor::x11bin_get(),
            };
            let previous = match previous {
                Ok(p) => p,
                Err(e) => {
                    return Err(e);
                },
            };
            let set_res = match h {
                HelperKind::Wayland => accessor::wayland_set(text.as_str()),
                HelperKind::X11Bin => accessor::x11bin_set(text.as_str()),
            };
            match set_res {
                Ok(()) => {},
                Err(e) => {
                    return Err(e);
                },
            }
            WorkerSpec::Polling { helper: h, set_text: text, previous, timeout }
        },
        Strategy::DelegateProcess => {
            match &env.exe {
                Some(exe) => {
                    // A failure to read previous contents is treated as
                    // empty previous contents, not as a fatal error.
                    let previous = match accessor::get() {
                        Ok(p) => p,
                        Err(_) => String::new(),
                    };
                    match accessor::set(data) {
                        Ok(()) => {},
                        Err(e) => {
                            return Err(e);
                        },
                    }
                    let stdin_line = base64_encode(previous.as_str().as_bytes());
                    let args = delegate_args(timeout);
                    WorkerSpec::Delegate {
                        exe: exe.clone(),
                        args,
                        stdin_line,
                        previous,
                        timeout,
                    }
                },
                None => {
                    match blocking_phase(data, timeout) {
                        Ok(w) => w,
                        Err(e) => {
                            return Err(e);
                        },
                    }
                },
            }
        },
        Strategy::BlockingFallback => {
            match blocking_phase(data, timeout) {
                Ok(w) => w,
                Err(e) => {
                    return Err(e);
                },
            }
        },
    };
    let line = if report {
        let waiting = match &worker {
            WorkerSpec::BlockingWait { .. } => true,
            _ => false,
        };
        Some(report_line(timeout, waiting))
    } else {
        None
    };
    Ok(DeliveryOutcome { worker: Some(worker), report_line: line })
}

/// The payload once an optional first-line trim is applied.
pub open spec fn spec_effective(p: Seq<u8>, first_line: bool) -> Seq<u8> {
    if first_line {
        p.take(spec_line_end(p))
    } else {
        p
    }
}

/// Copy a plaintext secret to the clipboard, to be cleared after `timeout`
/// seconds.
///
/// Optionally trims the secret to its first line, refuses an empty secret
/// when `error_empty` is set, and otherwise behaves as `copy_timeout` on
/// the effective bytes.
pub fn plaintext_copy(
    plaintext: Plaintext,
    first_line: bool,
    error_empty: bool,
    report: bool,
    timeout: u64,
    env: &EnvFacts,
) -> (r: Result<DeliveryOutcome, DeliveryError>)
    ensures
        r == Err::<DeliveryOutcome, DeliveryError>(DeliveryError::EmptySecret) <==> (error_empty
            && spec_effective(plaintext@, first_line).len() == 0),
        r matches Ok(o) ==> (timeout == 0 ==> o.worker is None && o.report_line is None),
        r matches Ok(o) ==> (timeout > 0 ==> (o.worker matches Some(w) && spec_worker_for(
            w,
            *env,
            timeout,
            spec_effective(plaintext@, first_line),
        ))),
        r matches Ok(o) ==> (timeout > 0 ==> (o.report_line is Some <==> report)),
        r matches Ok(o) ==> (o.report_line matches Some(l) ==> l@ == if spec_caller_waits(
            *env,
            timeout,
        ) {
            spec_report_line_waiting(timeout as nat)
        } else {
            spec_report_line(timeout as nat)
        }),
        r matches Err(e) ==> e == DeliveryError::EmptySecret || e == DeliveryError::EncodingError
            || e == DeliveryError::ClipboardUnavailable,
        r matches Err(e) ==> (timeout == 0 && e != DeliveryError::EmptySecret ==> (e
            == DeliveryError::EncodingError <==> !valid_utf8(
            spec_effective(plaintext@, first_line),
        ))),
        r matches Err(e) ==> (timeout > 0 && e != DeliveryError::EmptySecret ==> (e
            == DeliveryError::EncodingError <==> spec_needs_text(spec_select(*env, timeout)->0)
            && !valid_utf8(spec_effective(plaintext@, first_line)))),
{
    let effective = if first_line {
        plaintext.first_line()
    } else {
        plaintext
    };
    if error_empty && effective.is_empty() {
        return Err(DeliveryError::EmptySecret);
    }
    copy_timeout(effective.unsecure_ref(), timeout, report, env)
}

} // verus!
