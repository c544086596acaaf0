use prs_clip::cmd::{ArgNoSync, ArgProperty, CmdCopy, CmdDuplicate, CmdList, CmdNew, CmdShow};
use prs_clip::plaintext::Plaintext;

#[test]
fn first_line_stops_at_the_line_feed() {
    let p = Plaintext::from_bytes(b"password\nuser: alice\n".to_vec());
    assert_eq!(p.first_line().unsecure_ref(), b"password");
}

#[test]
fn first_line_of_single_line_is_the_whole() {
    let p = Plaintext::from_bytes(b"password".to_vec());
    assert_eq!(p.first_line().unsecure_ref(), b"password");
}

#[test]
fn except_first_line_keeps_the_rest() {
    let p = Plaintext::from_bytes(b"password\nuser: alice\n".to_vec());
    assert_eq!(p.except_first_line().unsecure_ref(), b"user: alice\n");
    let single = Plaintext::from_bytes(b"password".to_vec());
    assert_eq!(single.except_first_line().unsecure_ref(), b"");
}

#[test]
fn append_with_separator() {
    let mut p = Plaintext::from_bytes(b"one".to_vec());
    let q = Plaintext::from_bytes(b"two".to_vec());
    p.append(&q, true);
    assert_eq!(p.unsecure_ref(), b"one\ntwo");
    p.append(&q, false);
    assert_eq!(p.unsecure_ref(), b"one\ntwotwo");
}

#[test]
fn emptiness_goes_by_length() {
    assert!(Plaintext::from_bytes(Vec::new()).is_empty());
    assert!(!Plaintext::from_bytes(b" ".to_vec()).is_empty());
}

#[test]
fn command_names() {
    assert_eq!(CmdCopy::name(), "copy");
    assert_eq!(CmdDuplicate::name(), "duplicate");
    assert_eq!(CmdList::name(), "list");
    assert_eq!(CmdNew::name(), "new");
    assert_eq!(CmdShow::name(), "show");
    assert_eq!(ArgNoSync::name(), "no-sync");
    assert_eq!(ArgProperty::name(), "property");
}
