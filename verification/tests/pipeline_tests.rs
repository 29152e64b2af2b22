use crate_upd_bot::bridge::Bridge;
use crate_upd_bot::classifier::{ActionKind, ChangeEvent, ClassifyError, DiffLine, FileStatus,
    LineOrigin};
use crate_upd_bot::walker::{should_skip, Walker};

fn added_line(content: &[u8]) -> DiffLine {
    DiffLine {
        status: FileStatus::Modified,
        nfiles: 2,
        origin: LineOrigin::Added,
        content: content.to_vec(),
    }
}

const DEMO_LIVE: &[u8] = br#"{"name":"demo","vers":"1.0.0","yanked":false}"#;

#[test]
fn bridge_refuses_a_second_unacknowledged_event() {
    let mut bridge: Bridge<u32> = Bridge::new();
    assert!(bridge.try_send(1).is_ok());
    // The first event has not been acknowledged: the producer must hold the
    // second event and wait.
    assert_eq!(bridge.try_send(2), Err(2));
    // Taking the event for processing does not open the bridge either.
    assert_eq!(bridge.try_recv(), Some(1));
    assert_eq!(bridge.try_send(2), Err(2));
    // Only the acknowledgement does.
    bridge.ack();
    assert!(bridge.try_send(2).is_ok());
}

#[test]
fn bridge_receives_nothing_when_empty() {
    let mut bridge: Bridge<u32> = Bridge::new();
    assert_eq!(bridge.try_recv(), None);
}

#[test]
fn bridge_hands_events_over_in_order_one_at_a_time() {
    let mut bridge: Bridge<u32> = Bridge::new();
    for ev in 0..5u32 {
        assert!(bridge.try_send(ev).is_ok());
        assert!(bridge.try_send(ev + 100).is_err());
        assert_eq!(bridge.try_recv(), Some(ev));
        bridge.ack();
    }
}

#[test]
fn cursor_advances_exactly_once_per_processed_pair_on_success_and_failure() {
    let mut walker = Walker::new(0);
    let mut bridge: Bridge<Result<ChangeEvent, ClassifyError>> = Bridge::new();
    let author = Some(String::from("bors"));
    let message = Some(String::from("Update demo"));

    // A well-formed pair: the event crosses the bridge, and the cursor moves
    // only after the acknowledgement.
    let lines = vec![added_line(DEMO_LIVE)];
    let offered = walker.process_pair(&mut bridge, &author, &message, &lines, 1);
    assert!(offered);
    let res = bridge.try_recv().unwrap();
    assert_eq!(res.unwrap().action, ActionKind::NewVersion);
    bridge.ack();
    walker.advance_after_ack(&bridge);

    // A malformed pair: classification fails, the error still crosses the
    // bridge, and the cursor still advances exactly once.
    let bad: Vec<DiffLine> = Vec::new();
    let offered = walker.process_pair(&mut bridge, &author, &message, &bad, 2);
    assert!(offered);
    let res = bridge.try_recv().unwrap();
    assert!(matches!(res, Err(ClassifyError::MalformedCommit)));
    bridge.ack();
    walker.advance_after_ack(&bridge);
}

#[test]
fn skipped_pairs_leave_the_bridge_untouched() {
    let mut walker = Walker::new(0);
    let mut bridge: Bridge<Result<ChangeEvent, ClassifyError>> = Bridge::new();
    let author = Some(String::from("alice"));
    let message = Some(String::from("manual edit"));
    let lines = vec![added_line(DEMO_LIVE)];
    let offered = walker.process_pair(&mut bridge, &author, &message, &lines, 1);
    assert!(!offered);
    assert!(bridge.try_recv().is_none());
}

#[test]
fn commits_from_other_authors_are_skipped() {
    let lines_msg = Some(String::from("Update demo"));
    assert!(should_skip(&Some(String::from("alice")), &lines_msg));
    assert!(should_skip(&None, &lines_msg));
    assert!(!should_skip(&Some(String::from("bors")), &lines_msg));
}

#[test]
fn removal_request_and_merge_commits_are_skipped() {
    let bors = Some(String::from("bors"));
    assert!(should_skip(&bors, &Some(String::from("Crate version removal request"))));
    assert!(should_skip(&bors, &Some(String::from("Crate version removal request\n"))));
    assert!(should_skip(
        &bors,
        &Some(String::from("Merge remote-tracking branch 'origin/master'")),
    ));
    assert!(!should_skip(&bors, &Some(String::from("Updating crate `demo#1.0.0`"))));
    // An unreadable message matches no pattern.
    assert!(!should_skip(&bors, &None));
}
