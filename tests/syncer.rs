use chain_sync::error::{ConfigError, PassError, SyncError};
use chain_sync::syncer::{resolve_start, Action, Event, Phase, Syncer};

fn machine(from: Option<u64>) -> Syncer {
    Syncer::new(from, 1000).unwrap()
}

/// Feed the events in order and collect the actions.
fn drive(m: &mut Syncer, events: &[Event]) -> Vec<Action> {
    let mut out = Vec::new();
    for e in events {
        assert!(m.accepts(e));
        out.push(m.step(*e));
    }
    out
}

#[test]
fn zero_interval_is_a_config_error() {
    assert_eq!(Syncer::new(None, 0), Err(ConfigError::ZeroInterval));
    let m = Syncer::new(Some(3), 500).unwrap();
    assert_eq!(m.from, Some(3));
    assert_eq!(m.interval_millis, 500);
    assert_eq!(m.phase, Phase::Idle);
}

#[test]
fn cold_start_on_empty_store_starts_at_zero() {
    assert_eq!(resolve_start(None, None), Some(0));
    let mut m = machine(None);
    let acts = drive(&mut m, &[Event::Tick, Event::Cursor(None)]);
    assert_eq!(acts, vec![Action::ReadCursor, Action::ReadHead]);
    assert_eq!(m.phase, Phase::AwaitHead { first: Some(0) });
}

#[test]
fn cold_start_after_stored_cursor() {
    assert_eq!(resolve_start(None, Some(41)), Some(42));
    let mut m = machine(None);
    drive(&mut m, &[Event::Tick, Event::Cursor(Some(41))]);
    assert_eq!(m.phase, Phase::AwaitHead { first: Some(42) });
}

#[test]
fn explicit_start_wins_over_cursor() {
    assert_eq!(resolve_start(Some(100), Some(41)), Some(100));
    let mut m = machine(Some(100));
    let acts = drive(&mut m, &[Event::Tick]);
    // the store is not asked at all
    assert_eq!(acts, vec![Action::ReadHead]);
    assert_eq!(m.phase, Phase::AwaitHead { first: Some(100) });
    assert_eq!(m.from, None);
}

#[test]
fn cursor_at_largest_height_leaves_nothing() {
    assert_eq!(resolve_start(None, Some(u64::MAX)), None);
    let mut m = machine(None);
    let acts = drive(&mut m, &[Event::Tick, Event::Cursor(Some(u64::MAX)), Event::Head(u64::MAX)]);
    assert_eq!(acts, vec![Action::ReadCursor, Action::ReadHead, Action::Synced(u64::MAX)]);
    assert_eq!(m.phase, Phase::Idle);
}

#[test]
fn full_pass_writes_every_height_in_order() {
    let mut m = machine(Some(3));
    let acts = drive(
        &mut m,
        &[Event::Tick, Event::Head(6), Event::Stored, Event::Stored, Event::Stored, Event::Stored],
    );
    assert_eq!(
        acts,
        vec![
            Action::ReadHead,
            Action::Sync(3),
            Action::Sync(4),
            Action::Sync(5),
            Action::Sync(6),
            Action::Synced(6),
        ]
    );
    assert_eq!(m.phase, Phase::Idle);
}

#[test]
fn backfill_up_to_largest_height_does_not_overflow() {
    let mut m = machine(Some(u64::MAX - 1));
    let acts = drive(&mut m, &[Event::Tick, Event::Head(u64::MAX), Event::Stored, Event::Stored]);
    assert_eq!(
        acts,
        vec![
            Action::ReadHead,
            Action::Sync(u64::MAX - 1),
            Action::Sync(u64::MAX),
            Action::Synced(u64::MAX),
        ]
    );
}

#[test]
fn caught_up_pass_fetches_nothing() {
    let mut m = machine(Some(9));
    let acts = drive(&mut m, &[Event::Tick, Event::Head(9)]);
    assert_eq!(acts, vec![Action::ReadHead, Action::Synced(9)]);
    assert_eq!(m.phase, Phase::Idle);
}

#[test]
fn fully_synced_store_reports_head() {
    let mut m = machine(None);
    let acts = drive(&mut m, &[Event::Tick, Event::Cursor(Some(9)), Event::Head(9)]);
    assert_eq!(acts, vec![Action::ReadCursor, Action::ReadHead, Action::Synced(9)]);
}

#[test]
fn failed_pass_resumes_from_store_cursor() {
    let mut m = machine(Some(10));
    let acts = drive(
        &mut m,
        &[Event::Tick, Event::Head(20), Event::Stored, Event::Stored, Event::Failed(PassError::Transport)],
    );
    assert_eq!(
        acts,
        vec![
            Action::ReadHead,
            Action::Sync(10),
            Action::Sync(11),
            Action::Sync(12),
            Action::Failed(PassError::Transport),
        ]
    );
    // heights 10 and 11 were stored; the next pass asks the store
    let acts = drive(&mut m, &[Event::Tick, Event::Cursor(Some(11))]);
    assert_eq!(acts, vec![Action::ReadCursor, Action::ReadHead]);
    assert_eq!(m.phase, Phase::AwaitHead { first: Some(12) });
}

#[test]
fn pending_block_aborts_the_pass() {
    let mut m = machine(Some(5));
    let err = PassError::Source(SyncError::PendingBlock(6));
    let acts = drive(&mut m, &[Event::Tick, Event::Head(8), Event::Stored, Event::Failed(err)]);
    assert_eq!(acts, vec![Action::ReadHead, Action::Sync(5), Action::Sync(6), Action::Failed(err)]);
    assert_eq!(m.phase, Phase::Idle);
    assert!(!m.accepts(&Event::Stored));
    assert_eq!(SyncError::PendingBlock(6).height(), 6);
}

#[test]
fn missing_height_aborts_the_pass() {
    let mut m = machine(Some(5));
    let err = PassError::Source(SyncError::NothingAtHeight(5));
    let acts = drive(&mut m, &[Event::Tick, Event::Head(8), Event::Failed(err)]);
    assert_eq!(acts, vec![Action::ReadHead, Action::Sync(5), Action::Failed(err)]);
    assert_eq!(m.phase, Phase::Idle);
    assert_eq!(SyncError::NothingAtHeight(5).height(), 5);
}

#[test]
fn failures_of_store_and_node_end_the_pass() {
    let mut m = machine(None);
    let acts = drive(&mut m, &[Event::Tick, Event::Failed(PassError::Storage)]);
    assert_eq!(acts, vec![Action::ReadCursor, Action::Failed(PassError::Storage)]);
    let acts = drive(&mut m, &[Event::Tick, Event::Cursor(None), Event::Failed(PassError::Transport)]);
    assert_eq!(acts, vec![Action::ReadCursor, Action::ReadHead, Action::Failed(PassError::Transport)]);
    assert_eq!(m.phase, Phase::Idle);
}

#[test]
fn no_tick_is_taken_during_a_pass() {
    let mut m = machine(Some(0));
    assert!(m.accepts(&Event::Tick));
    drive(&mut m, &[Event::Tick]);
    assert!(!m.accepts(&Event::Tick));
    drive(&mut m, &[Event::Head(3)]);
    assert!(!m.accepts(&Event::Tick));
    drive(&mut m, &[Event::Stored, Event::Stored, Event::Stored, Event::Stored]);
    assert!(m.accepts(&Event::Tick));
}

#[test]
fn cancel_stops_between_heights() {
    let mut m = machine(Some(0));
    let acts = drive(&mut m, &[Event::Tick, Event::Head(100), Event::Stored, Event::Cancel]);
    assert_eq!(acts, vec![Action::ReadHead, Action::Sync(0), Action::Sync(1), Action::Stop]);
    assert_eq!(m.phase, Phase::Stopped);
    assert!(!m.accepts(&Event::Tick));
    assert!(!m.accepts(&Event::Cancel));
}
