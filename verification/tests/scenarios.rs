use prs_clip::sim::{
    sim_blocking_delivery, sim_delegate_delivery, sim_delivery, sim_persistent_delivery,
    sim_persistent_expiry, sim_polling_expiry, sim_set_then_get, SimClipboard,
};
use prs_clip::strategy::{EnvFacts, OsFamily};

fn wayland_env() -> EnvFacts {
    EnvFacts { os: OsFamily::UnixLike, wayland: true, can_fork: true, exe: None }
}

#[test]
fn accessor_set_then_get_is_idempotent() {
    let mut clip = SimClipboard::with_text("before");
    let read = sim_set_then_get(&mut clip, "the payload");
    assert_eq!(read, "the payload");
    assert_eq!(clip.get(), "the payload");
}

#[test]
fn polling_leaves_external_modification_untouched() {
    let mut clip = SimClipboard::with_text("old contents");
    let report = sim_delivery(&mut clip, "s3cr3t", 2, false, &wayland_env(), Some("user copy"));
    assert!(!report.reverted);
    assert_eq!(report.notifications, 0);
    assert_eq!(clip.get(), "user copy");
}

#[test]
fn polling_reverts_when_unmodified() {
    let mut clip = SimClipboard::with_text("old contents");
    let report = sim_delivery(&mut clip, "s3cr3t", 2, false, &wayland_env(), None);
    assert!(report.reverted);
    assert_eq!(report.notifications, 1);
    assert_eq!(clip.get(), "old contents");
}

#[test]
fn polling_reverts_to_empty_previous_contents() {
    let mut clip = SimClipboard::with_text("");
    let report = sim_delivery(&mut clip, "s3cr3t", 2, false, &wayland_env(), None);
    assert!(report.reverted);
    assert_eq!(clip.get(), "");
}

#[test]
fn zero_timeout_writes_and_spawns_nothing() {
    let mut clip = SimClipboard::with_text("old contents");
    let report = sim_delivery(&mut clip, "s3cr3t", 0, true, &wayland_env(), None);
    assert!(!report.worker_spawned);
    assert!(!report.report_shown);
    assert_eq!(report.notifications, 0);
    assert_eq!(clip.get(), "s3cr3t");
}

#[test]
fn end_to_end_delivery_reports_copies_and_clears_once() {
    let mut clip = SimClipboard::with_text("");
    let report = sim_delivery(&mut clip, "s3cr3t", 2, true, &wayland_env(), None);
    assert!(report.worker_spawned);
    assert!(report.report_shown);
    assert_eq!(report.notifications, 1);
    assert_eq!(clip.get(), "");
}

#[test]
fn polling_expiry_compares_byte_for_byte() {
    let mut clip = SimClipboard::with_text("s3cr3t");
    assert!(sim_polling_expiry(&mut clip, "s3cr3t", "previous"));
    assert_eq!(clip.get(), "previous");

    let mut clip = SimClipboard::with_text("s3cr3t ");
    assert!(!sim_polling_expiry(&mut clip, "s3cr3t", "previous"));
    assert_eq!(clip.get(), "s3cr3t ");
}

#[test]
fn persistent_expiry_goes_by_setter_liveness() {
    let mut clip = SimClipboard::with_text("s3cr3t");
    assert!(sim_persistent_expiry(&mut clip, true, "previous"));
    assert_eq!(clip.get(), "previous");

    let mut clip = SimClipboard::with_text("user copy");
    assert!(!sim_persistent_expiry(&mut clip, false, "previous"));
    assert_eq!(clip.get(), "user copy");
}

#[test]
fn persistent_delivery_notifies_exactly_once() {
    let mut clip = SimClipboard::with_text("old contents");
    let undisturbed = sim_persistent_delivery(&mut clip, "s3cr3t", None);
    assert!(undisturbed.reverted);
    assert_eq!(undisturbed.notifications, 1);
    assert_eq!(clip.get(), "old contents");

    let mut clip = SimClipboard::with_text("old contents");
    let raced = sim_persistent_delivery(&mut clip, "s3cr3t", Some("user copy"));
    assert!(!raced.reverted);
    assert_eq!(raced.notifications, 1);
    assert_eq!(clip.get(), "user copy");
}

#[test]
fn delegate_reverts_even_over_an_external_change() {
    let mut clip = SimClipboard::with_text("old contents");
    let report = sim_delegate_delivery(&mut clip, "s3cr3t", Some("user copy"));
    assert!(report.reverted);
    assert_eq!(clip.get(), "old contents");
}

#[test]
fn blocking_fallback_clears_to_empty() {
    let mut clip = SimClipboard::with_text("old contents");
    let report = sim_blocking_delivery(&mut clip, "s3cr3t");
    assert_eq!(report.notifications, 1);
    assert_eq!(clip.get(), "");
}
