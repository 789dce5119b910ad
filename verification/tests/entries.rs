use keyring::mock::MockCredential;
use keyring::{Entry, Error};
use token_vault::store::{read_secret, remove_secret, write_secret};
use token_vault::TokenResult;

fn fresh_entry() -> Entry {
    Entry::new_with_credential(Box::new(MockCredential::default()))
}

fn fail_next_call(entry: &Entry, err: Error) {
    let mock: &MockCredential = entry.get_credential().downcast_ref().unwrap();
    mock.set_error(err);
}

fn assert_plain_success(r: &TokenResult) {
    assert!(r.success);
    assert_eq!(r.error, None);
    assert_eq!(r.value, None);
}

fn assert_failure(r: &TokenResult, message: &str) {
    assert!(!r.success);
    assert_eq!(r.error, Some(message.to_string()));
    assert_eq!(r.value, None);
}

#[test]
fn write_then_read_yields_the_value() {
    let entry = fresh_entry();
    assert_plain_success(&write_secret(&entry, "xoxb-123"));
    let r = read_secret(&entry);
    assert!(r.success);
    assert_eq!(r.error, None);
    assert_eq!(r.value, Some("xoxb-123".to_string()));
}

#[test]
fn second_write_replaces_the_first() {
    let entry = fresh_entry();
    assert_plain_success(&write_secret(&entry, "first"));
    assert_plain_success(&write_secret(&entry, "second"));
    assert_eq!(read_secret(&entry).value, Some("second".to_string()));
}

#[test]
fn empty_and_non_ascii_secrets_pass_through_unchanged() {
    let entry = fresh_entry();
    assert_plain_success(&write_secret(&entry, ""));
    let r = read_secret(&entry);
    assert!(r.success);
    assert_eq!(r.value, Some(String::new()));
    assert_plain_success(&write_secret(&entry, "pässwörd-密码"));
    assert_eq!(read_secret(&entry).value, Some("pässwörd-密码".to_string()));
}

#[test]
fn read_of_an_entry_never_written_is_a_success_without_value() {
    let entry = fresh_entry();
    assert_plain_success(&read_secret(&entry));
}

#[test]
fn remove_of_an_entry_never_written_succeeds_twice() {
    let entry = fresh_entry();
    assert_plain_success(&remove_secret(&entry));
    assert_plain_success(&remove_secret(&entry));
}

#[test]
fn remove_takes_the_secret_away() {
    let entry = fresh_entry();
    assert_plain_success(&write_secret(&entry, "xoxb-123"));
    assert_plain_success(&remove_secret(&entry));
    assert_plain_success(&read_secret(&entry));
    assert_plain_success(&remove_secret(&entry));
}

#[test]
fn entries_do_not_see_each_other() {
    let one = fresh_entry();
    let two = fresh_entry();
    assert_plain_success(&write_secret(&one, "alpha"));
    assert_plain_success(&read_secret(&two));
    assert_plain_success(&write_secret(&two, "beta"));
    assert_plain_success(&remove_secret(&one));
    assert_eq!(read_secret(&two).value, Some("beta".to_string()));
    assert_plain_success(&read_secret(&one));
}

#[test]
fn failed_write_is_reported_and_writes_nothing() {
    let entry = fresh_entry();
    fail_next_call(&entry, Error::Invalid("user".to_string(), "rejected".to_string()));
    let r = write_secret(&entry, "xoxb-123");
    assert_failure(&r, "Failed to store token: Attribute user is invalid: rejected");
    assert_plain_success(&read_secret(&entry));
}

#[test]
fn write_that_reports_no_entry_is_a_failure() {
    let entry = fresh_entry();
    fail_next_call(&entry, Error::NoEntry);
    let r = write_secret(&entry, "xoxb-123");
    assert_failure(&r, "Failed to store token: No matching entry found in secure storage");
}

#[test]
fn failed_read_is_reported() {
    let entry = fresh_entry();
    assert_plain_success(&write_secret(&entry, "xoxb-123"));
    fail_next_call(&entry, Error::TooLong("service".to_string(), 8));
    let r = read_secret(&entry);
    assert_failure(
        &r,
        "Failed to get token: Attribute 'service' is longer than platform limit of 8 chars",
    );
    assert_eq!(read_secret(&entry).value, Some("xoxb-123".to_string()));
}

#[test]
fn read_of_bytes_that_are_no_text_is_a_failure() {
    let entry = fresh_entry();
    entry.set_secret(&[0x80, 0xbf]).unwrap();
    let r = read_secret(&entry);
    assert_failure(&r, "Failed to get token: Data is not UTF-8 encoded");
}

#[test]
fn failed_removal_is_reported_and_removes_nothing() {
    let entry = fresh_entry();
    assert_plain_success(&write_secret(&entry, "xoxb-123"));
    fail_next_call(&entry, Error::BadEncoding(vec![1, 2]));
    let r = remove_secret(&entry);
    assert_failure(&r, "Failed to delete token: Data is not UTF-8 encoded");
    assert_eq!(read_secret(&entry).value, Some("xoxb-123".to_string()));
}
