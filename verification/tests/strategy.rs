use prs_clip::strategy::{select_strategy, EnvFacts, HelperKind, OsFamily, Strategy};

fn env(os: OsFamily, wayland: bool, can_fork: bool) -> EnvFacts {
    EnvFacts { os, wayland, can_fork, exe: None }
}

#[test]
fn zero_timeout_needs_no_strategy() {
    assert_eq!(select_strategy(&env(OsFamily::UnixLike, false, true), 0), None);
    assert_eq!(select_strategy(&env(OsFamily::MacOs, false, true), 0), None);
}

#[test]
fn macos_and_windows_delegate() {
    assert_eq!(
        select_strategy(&env(OsFamily::MacOs, false, true), 5),
        Some(Strategy::DelegateProcess)
    );
    assert_eq!(
        select_strategy(&env(OsFamily::Windows, false, false), 5),
        Some(Strategy::DelegateProcess)
    );
}

#[test]
fn wayland_polls_with_wayland_helpers() {
    assert_eq!(
        select_strategy(&env(OsFamily::UnixLike, true, true), 5),
        Some(Strategy::PollingHelper(HelperKind::Wayland))
    );
}

#[test]
fn x11_with_fork_owns_the_selection() {
    assert_eq!(
        select_strategy(&env(OsFamily::UnixLike, false, true), 5),
        Some(Strategy::PersistentOwnership)
    );
}

#[test]
fn x11_without_fork_polls_with_x11_helpers() {
    assert_eq!(
        select_strategy(&env(OsFamily::UnixLike, false, false), 5),
        Some(Strategy::PollingHelper(HelperKind::X11Bin))
    );
}

#[test]
fn anything_else_blocks() {
    assert_eq!(
        select_strategy(&env(OsFamily::Other, false, true), 5),
        Some(Strategy::BlockingFallback)
    );
}
