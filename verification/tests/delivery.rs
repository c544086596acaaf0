use prs_clip::delivery::{delegate_args, report_line};
use prs_clip::digits::u64_decimal;
use prs_clip::errors::DeliveryError;
use prs_clip::expiry::{persistent_timer_step, polling_decide};
use prs_clip::text::{bytes_to_str, str_eq};

#[test]
fn report_line_counts_the_seconds() {
    assert_eq!(
        report_line(2, false),
        "Secret copied to clipboard. Clearing after 2 seconds..."
    );
    assert_eq!(
        report_line(90, true),
        "Secret copied to clipboard. Waiting 90 seconds to clear..."
    );
}

#[test]
fn delegate_arguments_spell_the_internal_subcommand() {
    let args = delegate_args(45);
    assert_eq!(
        args,
        vec!["internal", "clip-revert", "--previous-base64-stdin", "--timeout", "45"]
    );
}

#[test]
fn decimal_rendering() {
    assert_eq!(u64_decimal(0), "0");
    assert_eq!(u64_decimal(7), "7");
    assert_eq!(u64_decimal(1234567890), "1234567890");
    assert_eq!(u64_decimal(u64::MAX), "18446744073709551615");
}

#[test]
fn error_messages_name_the_failure() {
    assert_eq!(
        DeliveryError::EmptySecret.message(),
        "secret is empty, did not copy to clipboard"
    );
    assert_eq!(
        DeliveryError::ClipboardUnavailable.message(),
        "failed to access clipboard"
    );
    assert_eq!(
        DeliveryError::EncodingError.message(),
        "secret is not plain text, cannot copy to clipboard"
    );
}

#[test]
fn polling_decision_is_exact() {
    assert_eq!(
        polling_decide("s3cr3t", "s3cr3t", "previous"),
        Some("previous".to_owned())
    );
    assert_eq!(polling_decide("s3cr3t", "something else", "previous"), None);
    assert_eq!(polling_decide("", "", "previous"), Some("previous".to_owned()));
}

#[test]
fn dead_setter_means_no_revert() {
    assert_eq!(persistent_timer_step(false, "previous").unwrap(), false);
}

#[test]
fn text_bridge_accepts_only_utf8() {
    assert_eq!(bytes_to_str(b"plain text"), Some("plain text"));
    assert!(bytes_to_str(&[0xff, 0xfe]).is_none());
}

#[test]
fn set_rejects_a_payload_that_is_not_text() {
    // The UTF-8 check precedes any clipboard access, so this holds with or
    // without a display server.
    assert_eq!(
        prs_clip::accessor::set(&[0xff, 0xfe]),
        Err(DeliveryError::EncodingError)
    );
}

#[test]
fn empty_secret_is_refused_before_anything_is_written() {
    let env = prs_clip::strategy::EnvFacts {
        os: prs_clip::strategy::OsFamily::UnixLike,
        wayland: false,
        can_fork: true,
        exe: None,
    };
    let empty = prs_clip::plaintext::Plaintext::from_bytes(Vec::new());
    let r = prs_clip::delivery::plaintext_copy(empty, false, true, false, 5, &env);
    assert_eq!(r.unwrap_err(), DeliveryError::EmptySecret);

    // A secret whose first line is empty is refused once trimmed to it.
    let nl = prs_clip::plaintext::Plaintext::from_bytes(b"\nsecond line".to_vec());
    let r = prs_clip::delivery::plaintext_copy(nl, true, true, false, 5, &env);
    assert_eq!(r.unwrap_err(), DeliveryError::EmptySecret);
}

#[test]
fn delegate_step_rejects_a_bad_handshake_line() {
    // Both rejections precede any clipboard access, so they hold with or
    // without a display server: a line that is no transport encoding at
    // all, and a line that encodes bytes that are not text.
    assert_eq!(
        prs_clip::expiry::delegate_expiry_step("not base64!", "prs-clip"),
        Err(DeliveryError::EncodingError)
    );
    let line = prs_clip::codec::base64_encode(&[0xff, 0xfe]);
    assert_eq!(
        prs_clip::expiry::delegate_expiry_step(&line, "prs-clip"),
        Err(DeliveryError::EncodingError)
    );
}

#[test]
fn string_equality_goes_by_contents() {
    assert!(str_eq("abc", "abc"));
    assert!(!str_eq("abc", "abd"));
    assert!(!str_eq("abc", "abcd"));
    assert!(str_eq("", ""));
}
