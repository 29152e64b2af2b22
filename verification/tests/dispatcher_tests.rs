use crate_upd_bot::cfg::{BanConfig, BroadcastDelay, Config, DbConfig, LogLevel, RetryDelay,
    UpdateDelay};
use crate_upd_bot::classifier::{diff_one, ActionKind, ChangeEvent, DiffLine, FileStatus,
    LineOrigin};
use crate_upd_bot::dispatcher::{action_verb, notify_plan, render_message};
use crate_upd_bot::krate::{Crate, CrateId};

fn demo(yanked: bool) -> Crate {
    Crate {
        id: CrateId { name: String::from("demo"), vers: String::from("1.0.0") },
        yanked,
    }
}

fn config(channel: Option<i64>, banned: Vec<String>) -> Config {
    Config {
        channel,
        error_report_channel_id: None,
        pull_delay: 300_000,
        loglevel: LogLevel::Info,
        index_url: String::from("https://github.com/rust-lang/crates.io-index.git"),
        index_path: String::from("./index"),
        retry_delay: RetryDelay { millis: 10_000 },
        broadcast_delay_millis: BroadcastDelay { millis: 250 },
        update_delay_millis: UpdateDelay { millis: 1300 },
        bot_token: String::from("test-token"),
        db: DbConfig {
            host: String::from("localhost"),
            user: String::from("bot"),
            dbname: String::from("bot"),
        },
        ban: BanConfig { crates: banned },
    }
}

const DEMO_LINKS: &str = "<a href='https://docs.rs/demo/1.0.0'>[docs.rs]</a> <a href='https://crates.io/crates/demo'>[crates.io]</a> <a href='https://lib.rs/crates/demo'>[lib.rs]</a>";

fn demo_message(verb: &str) -> String {
    format!("Crate was {verb}: <code>demo#1.0.0</code> {DEMO_LINKS}")
}

#[test]
fn action_verbs() {
    assert_eq!(action_verb(ActionKind::NewVersion), "updated");
    assert_eq!(action_verb(ActionKind::Retracted), "retracted");
    assert_eq!(action_verb(ActionKind::Unretracted), "unretracted");
}

#[test]
fn message_is_rendered_with_verb_identity_and_links() {
    let msg = render_message(&demo(false), ActionKind::NewVersion);
    assert_eq!(msg, demo_message("updated"));
}

#[test]
fn new_version_without_subscribers_broadcasts_once_silently() {
    // A commit pair introduces demo@1.0.0, demo has no subscribers: one
    // silent broadcast send and nothing else.
    let lines = vec![DiffLine {
        status: FileStatus::Added,
        nfiles: 1,
        origin: LineOrigin::Added,
        content: br#"{"name":"demo","vers":"1.0.0","yanked":false}"#.to_vec(),
    }];
    let event: ChangeEvent = diff_one(&lines).unwrap();
    assert_eq!(event.action, ActionKind::NewVersion);

    let cfg = config(Some(777), Vec::new());
    let plan = notify_plan(&event, &cfg, &Some(Vec::new()));
    assert_eq!(plan.len(), 1);
    assert_eq!(plan[0].chat_id, 777);
    assert!(plan[0].silent);
    assert_eq!(plan[0].pause_after_millis, 0);
    assert_eq!(plan[0].text, demo_message("updated"));
}

#[test]
fn retraction_with_two_subscribers_broadcasts_and_notifies_each_paced() {
    // demo@1.0.0 goes from live to yanked with two subscribers: one silent
    // broadcast, then two normal sends in store order, each paced.
    let lines = vec![
        DiffLine {
            status: FileStatus::Modified,
            nfiles: 2,
            origin: LineOrigin::Removed,
            content: br#"{"name":"demo","vers":"1.0.0","yanked":false}"#.to_vec(),
        },
        DiffLine {
            status: FileStatus::Modified,
            nfiles: 2,
            origin: LineOrigin::Added,
            content: br#"{"name":"demo","vers":"1.0.0","yanked":true}"#.to_vec(),
        },
    ];
    let event = diff_one(&lines).unwrap();
    assert_eq!(event.action, ActionKind::Retracted);

    let cfg = config(Some(777), Vec::new());
    let plan = notify_plan(&event, &cfg, &Some(vec![10, 20]));
    assert_eq!(plan.len(), 3);

    assert_eq!(plan[0].chat_id, 777);
    assert!(plan[0].silent);
    assert_eq!(plan[0].pause_after_millis, 0);

    assert_eq!(plan[1].chat_id, 10);
    assert!(!plan[1].silent);
    assert_eq!(plan[1].pause_after_millis, 250);

    assert_eq!(plan[2].chat_id, 20);
    assert!(!plan[2].silent);
    assert_eq!(plan[2].pause_after_millis, 250);

    for send in &plan {
        assert_eq!(send.text, demo_message("retracted"));
    }
}

#[test]
fn banned_packages_stay_out_of_the_broadcast_channel_only() {
    let event = ChangeEvent { previous: None, next: demo(false), action: ActionKind::NewVersion };
    let cfg = config(Some(777), vec![String::from("demo")]);
    let plan = notify_plan(&event, &cfg, &Some(vec![10]));
    assert_eq!(plan.len(), 1);
    assert_eq!(plan[0].chat_id, 10);
    assert!(!plan[0].silent);
}

#[test]
fn no_channel_means_no_broadcast() {
    let event = ChangeEvent { previous: None, next: demo(false), action: ActionKind::NewVersion };
    let cfg = config(None, Vec::new());
    let plan = notify_plan(&event, &cfg, &Some(vec![10, 20]));
    assert_eq!(plan.len(), 2);
    assert_eq!(plan[0].chat_id, 10);
    assert_eq!(plan[1].chat_id, 20);
}

#[test]
fn store_failure_degrades_to_broadcast_only() {
    let event = ChangeEvent { previous: None, next: demo(false), action: ActionKind::NewVersion };
    let cfg = config(Some(777), Vec::new());
    let plan = notify_plan(&event, &cfg, &None);
    assert_eq!(plan.len(), 1);
    assert_eq!(plan[0].chat_id, 777);
    assert!(plan[0].silent);
}

#[test]
fn store_failure_without_channel_is_a_no_op() {
    let event = ChangeEvent { previous: None, next: demo(false), action: ActionKind::NewVersion };
    let cfg = config(None, Vec::new());
    let plan = notify_plan(&event, &cfg, &None);
    assert!(plan.is_empty());
}

#[test]
fn reference_links_are_exact() {
    let c = demo(false);
    assert_eq!(c.cratesio(), "https://crates.io/crates/demo");
    assert_eq!(c.librs(), "https://lib.rs/crates/demo");
    assert_eq!(c.docsrs(), "https://docs.rs/demo/1.0.0");
    assert_eq!(c.html_links(), DEMO_LINKS);
}
