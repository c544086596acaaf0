//! A pure model of the shared clipboard, and the delivery lifecycle run
//! against it.
//!
//! The real clipboard is shared, unsupervised state, so nothing can be
//! proved about what it returns. This model is the same state machine with
//! the environment under control: an external actor's write is an explicit
//! step. Against it, the race behaviour of the expiry decisions is stated
//! and proved: what happens when nobody touched the clipboard, and what
//! happens when somebody did.

use vstd::prelude::*;
use vstd::string::StringSliceAdditionalSpecFns;
use crate::codec::base64_encode;
use crate::expiry::{delegate_parse, polling_decide};
use crate::strategy::{spec_select, EnvFacts, Strategy};

verus! {

/// The clipboard modelled as one shared text value.
pub struct SimClipboard {
    contents: String,
}

impl View for SimClipboard {
    type V = Seq<char>;

    closed spec fn view(&self) -> Seq<char> {
        self.contents@
    }
}

impl SimClipboard {
    /// A clipboard holding the given text.
    pub fn with_text(text: &str) -> (r: SimClipboard)
        ensures
            r@ == text@,
    {
        SimClipboard { contents: text.to_owned() }
    }

    /// Read the clipboard.
    pub fn get(&self) -> (r: String)
        ensures
            r@ == self@,
    {
        self.contents.clone()
    }

    /// Write the clipboard, replacing whatever it held.
    pub fn set(&mut self, text: &str)
        ensures
            final(self)@ == text@,
    {
        self.contents = text.to_owned();
    }
}

/// Setting the clipboard and reading it back, with no other actor in
/// between, returns exactly what was set.
pub fn sim_set_then_get(clip: &mut SimClipboard, text: &str) -> (r: String)
    ensures
        final(clip)@ == text@,
        r@ == text@,
{
    clip.set(text);
    clip.get()
}

/// The polling worker's expiry step against the model. If the clipboard
/// still holds what this delivery set, it is reverted to the previous
/// contents, exactly, the empty string included; if anything else was
/// written in the meantime, the clipboard is left untouched.
pub fn sim_polling_expiry(clip: &mut SimClipboard, set_text: &str, previous: &str) -> (reverted:
    bool)
    ensures
        old(clip)@ == set_text@ ==> final(clip)@ == previous@ && reverted,
        old(clip)@ != set_text@ ==> final(clip)@ == old(clip)@ && !reverted,
{
    let current = clip.get();
    match polling_decide(set_text, current.as_str(), previous) {
        Some(restore) => {
            clip.set(restore.as_str());
            true
        },
        None => false,
    }
}

/// The persistent-ownership timer's expiry step against the model. The
/// setter worker's liveness stands for "no other actor took the clipboard
/// over": alive means revert to the previous contents, dead means leave
/// the clipboard exactly as it is.
pub fn sim_persistent_expiry(clip: &mut SimClipboard, setter_alive: bool, previous: &str) -> (
    reverted: bool)
    ensures
        setter_alive ==> final(clip)@ == previous@ && reverted,
        !setter_alive ==> final(clip)@ == old(clip)@ && !reverted,
{
    if setter_alive {
        clip.set(previous);
        true
    } else {
        false
    }
}

/// What one simulated delivery did.
pub struct SimReport {
    /// Whether the expiry step put the previous contents back.
    pub reverted: bool,
    /// Whether a worker was (notionally) detached.
    pub worker_spawned: bool,
    /// Whether the status line was shown.
    pub report_shown: bool,
    /// How many cleared-clipboard notifications went out.
    pub notifications: u32,
}

/// One whole delivery against the model, for the set-only case and the
/// polling strategy: snapshot, write, optionally an external actor's
/// write while the worker sleeps, then the expiry step.
///
/// A zero timeout writes the payload, detaches no worker, shows no status
/// line and notifies nobody; the payload then stays on the clipboard.
/// With a timeout, if no other actor wrote in between, the clipboard ends
/// exactly at its previous contents and exactly one notification goes
/// out; if another actor wrote something else, that write is left
/// untouched and no notification goes out.
pub fn sim_delivery(
    clip: &mut SimClipboard,
    payload: &str,
    timeout: u64,
    report: bool,
    env: &EnvFacts,
    external: Option<&str>,
) -> (r: SimReport)
    requires
        timeout == 0 || (spec_select(*env, timeout) matches Some(s) && s is PollingHelper),
    ensures
        timeout == 0 ==> final(clip)@ == payload@ && !r.worker_spawned && !r.report_shown
            && r.notifications == 0,
        timeout > 0 && external is None ==> final(clip)@ == old(clip)@ && r.reverted
            && r.notifications == 1,
        external matches Some(e) ==> (timeout > 0 && e@ != payload@ ==> final(clip)@ == e@
            && !r.reverted && r.notifications == 0),
        r.worker_spawned <==> timeout > 0,
        timeout > 0 ==> (r.report_shown <==> report),
{
    if timeout == 0 {
        clip.set(payload);
        return SimReport {
            reverted: false,
            worker_spawned: false,
            report_shown: false,
            notifications: 0,
        };
    }
    // The synchronous phase: snapshot, then write the payload.
    let previous = clip.get();
    clip.set(payload);
    let report_shown = report;
    // What another actor may have written while the worker slept.
    match external {
        Some(e) => clip.set(e),
        None => {},
    }
    // The worker wakes and takes its step.
    let reverted = sim_polling_expiry(clip, payload, previous.as_str());
    let notifications: u32 = if reverted {
        1
    } else {
        0
    };
    SimReport { reverted, worker_spawned: true, report_shown, notifications }
}

/// One whole persistent-ownership delivery against the model: the setter
/// worker takes the selection with the payload and blocks; the timer
/// worker wakes after the timeout and goes by the setter's liveness.
///
/// Exactly one notification goes out per delivery, from the setter at the
/// moment the selection changes hands: either another actor's write
/// before the timeout (the setter exits, the timer later finds it dead
/// and leaves that write untouched), or, with nobody else writing, the
/// timer's own revert, which is itself the takeover that wakes the
/// setter. Either way the clipboard ends without the payload.
pub fn sim_persistent_delivery(clip: &mut SimClipboard, payload: &str, external: Option<&str>) -> (
    r: SimReport)
    ensures
        external is None ==> final(clip)@ == old(clip)@ && r.reverted,
        external matches Some(e) ==> final(clip)@ == e@ && !r.reverted,
        r.notifications == 1,
{
    let previous = clip.get();
    // The setter worker takes the selection with the payload and blocks.
    clip.set(payload);
    match external {
        Some(e) => {
            // Another actor takes the selection over: the setter wakes,
            // notifies once and exits; the timer finds it dead.
            clip.set(e);
            let reverted = sim_persistent_expiry(clip, false, previous.as_str());
            SimReport { reverted, worker_spawned: true, report_shown: false, notifications: 1 }
        },
        None => {
            // Nobody took the selection: the timer finds the setter alive
            // and reverts; that revert is the takeover that wakes the
            // setter, which notifies once and exits.
            let reverted = sim_persistent_expiry(clip, true, previous.as_str());
            SimReport { reverted, worker_spawned: true, report_shown: false, notifications: 1 }
        },
    }
}

/// The delegate handshake round trip: decoding the line a delivery wrote
/// recovers exactly the previous contents' bytes.
pub fn sim_delegate_handshake(previous: &str) -> (r: Option<Vec<u8>>)
    ensures
        r matches Some(v) && v@ == previous.spec_bytes(),
{
    let line = base64_encode(previous.as_bytes());
    delegate_parse(line.as_str())
}

/// One whole delegate delivery against the model. The delegate cannot see
/// whether another actor wrote in between: it reverts unconditionally,
/// external write or not. This asymmetry against the other strategies is
/// deliberate and documented, the price of platforms with no better
/// primitive.
pub fn sim_delegate_delivery(clip: &mut SimClipboard, payload: &str, external: Option<&str>) -> (r:
    SimReport)
    ensures
        final(clip)@ == old(clip)@,
        r.reverted,
{
    let previous = clip.get();
    clip.set(payload);
    // The handshake travels to the subprocess as one base64 line.
    let line = base64_encode(previous.as_str().as_bytes());
    match external {
        Some(e) => clip.set(e),
        None => {},
    }
    // The delegate wakes, decodes the line, and reverts unconditionally.
    let recovered = match delegate_parse(line.as_str()) {
        Some(v) => v,
        None => {
            proof {
                assert(false);
            }
            Vec::new()
        },
    };
    let restore = match crate::text::bytes_to_str(recovered.as_slice()) {
        Some(t) => t,
        None => {
            proof {
                vstd::utf8::encode_utf8_valid_utf8(previous@);
                assert(false);
            }
            ""
        },
    };
    proof {
        vstd::utf8::encode_utf8_decode_utf8(previous@);
        vstd::utf8::encode_utf8_decode_utf8(restore@);
    }
    clip.set(restore);
    SimReport { reverted: true, worker_spawned: true, report_shown: false, notifications: 1 }
}

/// One whole blocking-fallback delivery against the model: the caller
/// itself waits out the timeout, then the clipboard is cleared to empty
/// unconditionally.
pub fn sim_blocking_delivery(clip: &mut SimClipboard, payload: &str) -> (r: SimReport)
    ensures
        final(clip)@ == Seq::<char>::empty(),
        r.notifications == 1,
{
    clip.set(payload);
    // The caller sleeps through the timeout here, then clears.
    clip.set("");
    proof {
        reveal_strlit("");
        assert(""@ =~= Seq::<char>::empty());
    }
    SimReport { reverted: true, worker_spawned: false, report_shown: false, notifications: 1 }
}

} // verus!
