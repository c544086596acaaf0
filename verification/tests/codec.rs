use prs_clip::codec::{base64_decode, base64_encode};
use prs_clip::expiry::delegate_parse;
use prs_clip::sim::sim_delegate_handshake;

#[test]
fn encode_produces_canonical_base64() {
    assert_eq!(base64_encode(b"s3cr3t"), "czNjcjN0");
    assert_eq!(base64_encode(b""), "");
    assert_eq!(base64_encode(b"a"), "YQ==");
}

#[test]
fn decode_inverts_encode() {
    let line = base64_encode(b"previous clipboard contents");
    assert_eq!(base64_decode(&line).unwrap(), b"previous clipboard contents");
}

#[test]
fn decode_rejects_non_base64() {
    assert!(base64_decode("s3cr3t").is_none());
    assert!(base64_decode("not base64!").is_none());
}

#[test]
fn handshake_round_trip_recovers_previous_contents() {
    let recovered = sim_delegate_handshake("what was there before").unwrap();
    assert_eq!(recovered, b"what was there before");
}

#[test]
fn delegate_parse_reads_the_handshake_line() {
    let line = base64_encode("old contents".as_bytes());
    assert_eq!(delegate_parse(&line).unwrap(), b"old contents");
    assert!(delegate_parse("####").is_none());
}
