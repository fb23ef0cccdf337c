use openswap_maker::maker::swap_report::{short_txid, short_txids};
use openswap_maker::maker::swap_tracker::{
    MakerRecoveryPhase, MakerRecoveryState, MakerSwapPhase, MakerSwapRecord, MakerSwapTracker,
};
use openswap_maker::protocol::common_messages::ProtocolVersion;

fn txid(last: u8) -> [u8; 32] {
    let mut txid = [0u8; 32];
    txid[31] = last;
    txid[30] = 0xcd;
    txid
}

fn record(id: &str) -> MakerSwapRecord {
    MakerSwapRecord {
        swap_id: id.to_string(),
        protocol: ProtocolVersion::Taproot,
        phase: MakerSwapPhase::Recovering,
        swap_amount_sat: 50_000,
        incoming_count: 1,
        outgoing_count: 20,
        funding_broadcast: true,
        recovery: MakerRecoveryState {
            phase: MakerRecoveryPhase::TimelockRecovered,
            incoming_swept: vec![],
            outgoing_recovered: vec![txid(0xab), txid(1)],
            outgoing_discarded: vec![txid(2)],
        },
        created_at: 1,
        updated_at: 2,
    }
}

#[test]
fn txids_are_shortened() {
    assert_eq!(short_txid(&txid(0xab)), "abcd0000");
    assert_eq!(short_txids(&vec![]), "[]");
    assert_eq!(
        short_txids(&vec![txid(0xab), txid(1)]),
        format!("{:?}", vec!["abcd0000", "01cd0000"])
    );
}

#[test]
fn a_recovery_names_its_transactions() {
    assert_eq!(MakerRecoveryState::default().text(), "phase=NotStarted");
    assert_eq!(
        record("a").recovery.text(),
        "phase=TimelockRecovered out_recovered=[\"abcd0000\", \"01cd0000\"] out_discarded=[\"02cd0000\"]"
    );
}

#[test]
fn a_record_has_two_lines() {
    let text = record("a").text();
    let lines: Vec<&str> = text.lines().collect();
    assert_eq!(
        lines[0],
        "[a] phase=Recovering proto=Taproot amt=50000 in=1 out=20 funded=true"
    );
    assert!(lines[1].starts_with("  recovery: phase=TimelockRecovered"));
    assert_eq!(lines.len(), 2);
}

#[test]
fn a_tracker_lists_its_records() {
    let mut tracker = MakerSwapTracker::new();
    assert_eq!(tracker.text(), "[MakerSwapTracker] (empty)");
    tracker.save_record(record("a"));
    tracker.save_record(record("b"));
    let text = tracker.text();
    assert_eq!(text.lines().count(), 4);
    assert!(text.starts_with("[MakerSwapTracker] [a] phase=Recovering"));
    assert!(text.contains("\n[MakerSwapTracker] [b] phase=Recovering"));
    assert_eq!(tracker.all_records().len(), 2);
}
