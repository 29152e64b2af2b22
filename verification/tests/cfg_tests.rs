use crate_upd_bot::bot::{is_admin, opt, trim};
use crate_upd_bot::cfg::{index_path, index_url, loglevel, pull_delay, BanConfig, BroadcastDelay,
    LogLevel, RetryDelay, UpdateDelay};
use crate_upd_bot::util::{crate_path, has_prefix, str_eq, trim_end_newlines};

#[test]
fn delay_defaults() {
    assert_eq!(BroadcastDelay::default().millis, 250);
    assert_eq!(UpdateDelay::default().millis, 1300);
    assert_eq!(RetryDelay::default().millis, 10_000);
    assert_eq!(pull_delay(), 300_000);
    assert_eq!(loglevel(), LogLevel::Info);
    assert_eq!(index_url(), "https://github.com/rust-lang/crates.io-index.git");
    assert_eq!(index_path(), "./index");
}

#[test]
fn ban_list_membership() {
    let ban = BanConfig { crates: vec![String::from("demo"), String::from("other")] };
    assert!(ban.contains("demo"));
    assert!(ban.contains("other"));
    assert!(!ban.contains("dem"));
    assert!(!ban.contains("demo2"));
    let none = BanConfig::default();
    assert!(!none.contains("demo"));
}

#[test]
fn crate_paths_by_name_length() {
    assert_eq!(crate_path("x"), "1/x");
    assert_eq!(crate_path("xy"), "2/xy");
    assert_eq!(crate_path("xyz"), "3/x/xyz");
    assert_eq!(crate_path("abcd"), "ab/cd/abcd");
    assert_eq!(crate_path("serde"), "se/rd/serde");
    assert_eq!(crate_path("Serde"), "se/rd/serde");
    assert_eq!(crate_path("A"), "1/a");
}

#[test]
fn string_helpers() {
    assert!(str_eq("bors", "bors"));
    assert!(!str_eq("bors", "boss"));
    assert!(!str_eq("bors", "bor"));
    assert!(has_prefix("Merge remote-tracking branch 'x'", "Merge remote-tracking branch"));
    assert!(!has_prefix("Merge", "Merge remote-tracking branch"));
    assert_eq!(trim_end_newlines("message\n\n"), "message");
    assert_eq!(trim_end_newlines("message"), "message");
    assert_eq!(trim_end_newlines("\n"), "");
}

#[test]
fn command_argument_parsing() {
    assert_eq!(opt(""), Ok(None));
    assert_eq!(opt("   "), Ok(None));
    assert_eq!(opt("serde"), Ok(Some(String::from("serde"))));
    assert_eq!(opt("  serde "), Ok(Some(String::from("serde"))));
    assert_eq!(opt("serde tokio"), Err(2));
    assert_eq!(opt(" a b c "), Err(3));
}

#[test]
fn trimming_surrounding_whitespace() {
    assert_eq!(trim("  a  "), "a");
    assert_eq!(trim("a"), "a");
    assert_eq!(trim(" \t\n "), "");
}

#[test]
fn admin_membership() {
    assert!(is_admin(7, &vec![1, 7, 9]));
    assert!(!is_admin(8, &vec![1, 7, 9]));
    assert!(!is_admin(8, &Vec::new()));
}
