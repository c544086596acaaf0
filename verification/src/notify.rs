//! Best-effort user notification that the clipboard was cleared.
//!
//! A worker that clears the clipboard tries a desktop notification first
//! and falls back to a single line on the error stream; neither outcome
//! ever changes the retain-or-clear decision.

use vstd::prelude::*;
use std::io::Write;
use crate::text::append_str;

verus! {

/// The summary line of the cleared-clipboard notification.
pub open spec fn spec_cleared_summary(appname: Seq<char>) -> Seq<char> {
    "Clipboard cleared - "@ + appname
}

/// The body of the cleared-clipboard notification, also used as the
/// fallback line on the error stream.
pub open spec fn spec_cleared_body() -> Seq<char> {
    "Secret cleared from clipboard"@
}

/// Build the summary line of the cleared-clipboard notification.
pub fn cleared_summary(appname: &str) -> (r: String)
    ensures
        r@ == spec_cleared_summary(appname@),
{
    let mut s = String::new();
    append_str(&mut s, "Clipboard cleared - ");
    append_str(&mut s, appname);
    proof {
        assert(Seq::<char>::empty() + "Clipboard cleared - "@ + appname@ =~= spec_cleared_summary(
            appname@,
        ));
    }
    s
}

/// Relies on `notify_rust::Notification`: the builder calls record the
/// fields and `show` sends the one resulting desktop notification, with a
/// three-second display time; whether it was delivered is returned.
#[verifier::external_body]
fn desktop_notify(appname: &str, summary: &str, body: &str) -> (shown: bool)
{
    let mut n = notify_rust::Notification::new();
    n.appname(appname).summary(summary).body(body).auto_icon().icon("lock").timeout(3000);
    n.show().is_ok()
}

/// Relies on the `writeln` macro writing one line to `std::io::Stderr`.
#[verifier::external_body]
fn stderr_line(line: &str)
{
    let _ = writeln!(std::io::stderr(), "{}", line);
}

/// Tell the user the clipboard was cleared: a desktop notification when
/// possible, otherwise one fallback line on the error stream. Never fails
/// and never changes the clearing outcome; the return value only reports
/// whether the desktop notification was delivered.
pub fn notify_cleared(appname: &str) -> (shown: bool)
{
    let summary = cleared_summary(appname);
    let body = "Secret cleared from clipboard";
    if desktop_notify(appname, summary.as_str(), body) {
        true
    } else {
        stderr_line(body);
        false
    }
}

} // verus!
