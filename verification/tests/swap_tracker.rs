use openswap_maker::maker::swap_tracker::{
    MakerRecoveryPhase, MakerRecoveryState, MakerSwapPhase, MakerSwapRecord, MakerSwapTracker,
    RecordUpdate,
};
use openswap_maker::protocol::common_messages::ProtocolVersion;

fn make_test_record(swap_id: &str, phase: MakerSwapPhase) -> MakerSwapRecord {
    MakerSwapRecord {
        swap_id: swap_id.to_string(),
        protocol: ProtocolVersion::Legacy,
        phase,
        swap_amount_sat: 100_000,
        incoming_count: 2,
        outgoing_count: 2,
        funding_broadcast: true,
        recovery: MakerRecoveryState::default(),
        created_at: 1_700_000_000,
        updated_at: 1_700_000_000,
    }
}

#[test]
fn test_load_or_create_empty() {
    let tracker = MakerSwapTracker::new();
    assert!(tracker.incomplete_swaps().is_empty());
}

#[test]
fn test_save_and_reload() {
    let mut tracker = MakerSwapTracker::new();
    let record = make_test_record("swap1", MakerSwapPhase::Recovering);
    tracker.save_record(record);

    let stored: Vec<MakerSwapRecord> = tracker.all_records().into_iter().cloned().collect();
    let reloaded = MakerSwapTracker::from_records(stored);
    let incomplete = reloaded.incomplete_swaps();
    assert_eq!(incomplete.len(), 1);
    assert_eq!(incomplete[0].swap_id, "swap1");
    assert_eq!(incomplete[0].phase, MakerSwapPhase::Recovering);
}

#[test]
fn test_recovered_with_cleanup_not_in_incomplete() {
    let mut tracker = MakerSwapTracker::new();
    let mut record = make_test_record("swap1", MakerSwapPhase::Recovered);
    record.recovery.phase = MakerRecoveryPhase::CleanedUp;
    tracker.save_record(record);
    assert!(tracker.incomplete_swaps().is_empty());
}

#[test]
fn test_recovered_without_cleanup_in_incomplete() {
    let mut tracker = MakerSwapTracker::new();
    let mut record = make_test_record("swap1", MakerSwapPhase::Recovered);
    record.recovery.phase = MakerRecoveryPhase::HashlockRecovered;
    tracker.save_record(record);
    assert_eq!(tracker.incomplete_swaps().len(), 1);
}

#[test]
fn test_phase_ordering() {
    assert!(MakerSwapPhase::Active < MakerSwapPhase::TakerDropped);
    assert!(MakerSwapPhase::TakerDropped < MakerSwapPhase::Recovering);
    assert!(MakerSwapPhase::Recovering < MakerSwapPhase::Recovered);
    assert!(MakerSwapPhase::Recovered < MakerSwapPhase::Completed);
}

#[test]
fn test_recovery_phase_ordering() {
    assert!(MakerRecoveryPhase::NotStarted < MakerRecoveryPhase::Monitoring);
    assert!(MakerRecoveryPhase::Monitoring < MakerRecoveryPhase::HashlockRecovered);
    assert!(MakerRecoveryPhase::HashlockRecovered < MakerRecoveryPhase::TimelockWaiting);
    assert!(MakerRecoveryPhase::TimelockWaiting < MakerRecoveryPhase::TimelockRecovered);
    assert!(MakerRecoveryPhase::TimelockRecovered < MakerRecoveryPhase::CleanedUp);
}

#[test]
fn saving_a_record_again_replaces_it() {
    let mut tracker = MakerSwapTracker::new();
    tracker.save_record(make_test_record("swap1", MakerSwapPhase::Active));
    tracker.save_record(make_test_record("swap2", MakerSwapPhase::Active));
    tracker.save_record(make_test_record("swap1", MakerSwapPhase::TakerDropped));
    assert_eq!(tracker.incomplete_swaps().len(), 2);
    assert_eq!(
        tracker.get_record("swap1").unwrap().phase,
        MakerSwapPhase::TakerDropped
    );
    assert!(tracker.get_record("swap3").is_none());
}

#[test]
fn a_recovery_is_recorded_step_by_step() {
    let mut tracker = MakerSwapTracker::new();
    tracker.save_record(make_test_record("swap1", MakerSwapPhase::TakerDropped));
    assert!(!tracker.update_record("swap2", RecordUpdate::Recovering, 5));

    assert!(tracker.update_record("swap1", RecordUpdate::Recovering, 5));
    let record = tracker.get_record("swap1").unwrap();
    assert_eq!(record.phase, MakerSwapPhase::Recovering);
    assert_eq!(record.recovery.phase, MakerRecoveryPhase::Monitoring);
    assert_eq!(record.updated_at, 5);

    tracker.update_record("swap1", RecordUpdate::HashlockRecovered(vec![[7u8; 32]]), 6);
    let record = tracker.get_record("swap1").unwrap();
    assert_eq!(record.recovery.incoming_swept, vec![[7u8; 32]]);
    assert_eq!(record.recovery.phase, MakerRecoveryPhase::HashlockRecovered);

    tracker.update_record("swap1", RecordUpdate::CleanedUp, 7);
    assert!(tracker.incomplete_swaps().is_empty());
}

#[test]
fn a_rebuilt_tracker_holds_the_same_records() {
    let mut tracker = MakerSwapTracker::new();
    tracker.save_record(make_test_record("a", MakerSwapPhase::Recovering));
    tracker.save_record(make_test_record("b", MakerSwapPhase::Active));
    let mut done = make_test_record("c", MakerSwapPhase::Completed);
    done.recovery.phase = MakerRecoveryPhase::CleanedUp;
    tracker.save_record(done);
    let mut stored: Vec<MakerSwapRecord> = tracker.all_records().into_iter().cloned().collect();
    stored.reverse();
    let rebuilt = MakerSwapTracker::from_records(stored);
    for id in ["a", "b", "c"] {
        assert_eq!(
            rebuilt.get_record(id).unwrap().phase,
            tracker.get_record(id).unwrap().phase
        );
    }
    let ids: Vec<&str> = rebuilt
        .incomplete_swaps()
        .into_iter()
        .map(|record| record.swap_id.as_str())
        .collect();
    assert_eq!(ids, vec!["b", "a"]);
}

#[test]
fn a_resolved_record_replaces_an_unresolved_one() {
    let mut tracker = MakerSwapTracker::new();
    tracker.save_record(make_test_record("a", MakerSwapPhase::Active));
    tracker.save_record(make_test_record("b", MakerSwapPhase::Active));
    assert_eq!(tracker.incomplete_swaps().len(), 2);
    let mut done = make_test_record("a", MakerSwapPhase::Recovered);
    done.recovery.phase = MakerRecoveryPhase::CleanedUp;
    tracker.save_record(done);
    assert_eq!(tracker.incomplete_swaps().len(), 1);
    assert_eq!(tracker.incomplete_swaps()[0].swap_id, "b");
}

#[test]
fn of_several_records_of_a_swap_the_last_stays() {
    let rebuilt = MakerSwapTracker::from_records(vec![
        make_test_record("a", MakerSwapPhase::Active),
        make_test_record("a", MakerSwapPhase::Recovering),
    ]);
    assert_eq!(rebuilt.all_records().len(), 1);
    assert_eq!(
        rebuilt.get_record("a").unwrap().phase,
        MakerSwapPhase::Recovering
    );
}
