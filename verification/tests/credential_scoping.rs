//! Deriving the scoped display credential from host entries.

use grading_sandbox::auth::AuthEntry;
use grading_sandbox::auth::scoped_credential;
use grading_sandbox::auth::wildcard_tag;

fn entry(display: &str, data: &str) -> AuthEntry {
    AuthEntry { display: String::from(display), data: String::from(data) }
}

#[test]
fn wildcard_rewrites_family_tag() {
    assert_eq!(wildcard_tag("0100 host0 MIT-MAGIC 5566"), "ffff host0 MIT-MAGIC 5566");
    assert_eq!(wildcard_tag("abcd"), "ffff");
}

#[test]
fn short_line_is_kept_as_is() {
    assert_eq!(wildcard_tag("ab"), "ab");
    assert_eq!(wildcard_tag(""), "");
}

#[test]
fn scoped_credential_holds_exactly_the_matching_entry() {
    let entries = vec![
        entry(":1", "0100 host1 MIT-MAGIC 1111"),
        entry(":0", "0100 host0 MIT-MAGIC 0000"),
        entry(":2", "0100 host2 MIT-MAGIC 2222"),
    ];
    let scoped = scoped_credential(&entries, ":0");
    assert_eq!(scoped, Some(String::from("ffff host0 MIT-MAGIC 0000")));
    // No other host entry leaks into the scoped credential.
    let line = scoped.unwrap();
    assert!(!line.contains("host1"));
    assert!(!line.contains("host2"));
}

#[test]
fn first_matching_entry_wins() {
    let entries = vec![
        entry(":0", "0100 first"),
        entry(":0", "0100 second"),
    ];
    assert_eq!(scoped_credential(&entries, ":0"), Some(String::from("ffff first")));
}

#[test]
fn missing_display_yields_none() {
    let entries = vec![entry(":1", "0100 host1")];
    assert_eq!(scoped_credential(&entries, ":0"), None);
    assert_eq!(scoped_credential(&Vec::new(), ":0"), None);
}
