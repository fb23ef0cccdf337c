use openswap_maker::chain::{OutPoint, Transaction, TxIn, TxOut};
use openswap_maker::error::MakerError;
use openswap_maker::maker::api2::ConnectionState;
use openswap_maker::maker::recovery::{
    all_resolved, apply_preimage, apply_preimages, begin_recovery, contract_outpoints,
    find_preimage, preimage_opens, PreimageSearch, Recovery, RecoveryAction, RecoveryEvent, RecoveryStart,
};
use openswap_maker::maker::recovery2;
use openswap_maker::maker::recovery2::{
    incoming_output, outgoing_output, restore_broadcasted_contracts_on_reboot_v2, RecoveryV2,
};
use openswap_maker::maker::swap_tracker::RecordUpdate;
use openswap_maker::maker::swapcoin::{IncomingSwapCoin, OutgoingSwapCoin};
use openswap_maker::maker::unified::{UnifiedAction, UnifiedEvent, UnifiedRecovery};
use openswap_maker::protocol::common_messages::ProtocolVersion;
use openswap_maker::protocol::contract2::create_hashlock_script;

fn point(n: u8) -> OutPoint {
    OutPoint {
        txid: [n; 32],
        vout: 0,
    }
}

fn tx(inputs: Vec<(OutPoint, Vec<Vec<u8>>)>) -> Transaction {
    Transaction {
        version: 2,
        lock_time: 0,
        input: inputs
            .into_iter()
            .map(|(previous_output, witness)| TxIn {
                previous_output,
                script_sig: vec![],
                sequence: 0,
                witness,
            })
            .collect(),
        output: vec![TxOut {
            value: 1,
            script_pubkey: vec![0x51],
        }],
    }
}

fn hash160(bytes: &[u8]) -> [u8; 20] {
    bitcoin::hashes::Hash::to_byte_array(
        <bitcoin::hashes::hash160::Hash as bitcoin::hashes::Hash>::hash(bytes),
    )
}

fn sha256(bytes: &[u8]) -> [u8; 32] {
    bitcoin::hashes::Hash::to_byte_array(
        <bitcoin::hashes::sha256::Hash as bitcoin::hashes::Hash>::hash(bytes),
    )
}

fn incoming() -> IncomingSwapCoin {
    IncomingSwapCoin {
        protocol: ProtocolVersion::Legacy,
        swap_id: None,
        my_privkey: None,
        my_pubkey: None,
        other_pubkey: None,
        other_privkey: None,
        contract_tx: tx(vec![]),
        multisig_redeemscript: None,
        contract_redeemscript: Some(vec![1]),
        hashvalue: Some(hash160(&[7u8; 32])),
        hashlock_privkey: [1u8; 32],
        funding_amount: 1,
        others_contract_sig: None,
        hash_preimage: None,
        hashlock_script: None,
        timelock_script: None,
        internal_key: None,
        tap_tweak: None,
    }
}

fn taproot_incoming() -> IncomingSwapCoin {
    IncomingSwapCoin {
        protocol: ProtocolVersion::Taproot,
        contract_redeemscript: None,
        hashvalue: None,
        hashlock_script: Some(create_hashlock_script(&sha256(&[7u8; 32]), &[2u8; 32])),
        ..incoming()
    }
}

fn outgoing(timelock: Option<u32>) -> OutgoingSwapCoin {
    OutgoingSwapCoin {
        protocol: ProtocolVersion::Legacy,
        swap_id: None,
        my_privkey: None,
        my_pubkey: None,
        other_pubkey: None,
        contract_tx: tx(vec![]),
        contract_vout: 0,
        funding_tx: None,
        multisig_redeemscript: None,
        contract_redeemscript: None,
        timelock_privkey: [1u8; 32],
        timelock,
        funding_amount: 1,
        others_contract_sig: None,
        hashlock_script: None,
        timelock_script: None,
        internal_key: None,
        tap_tweak: None,
    }
}

#[test]
fn preimages_are_read_from_witnesses() {
    let mut search = PreimageSearch::new();
    search.scan(&tx(vec![
        (point(1), vec![vec![1], vec![7u8; 32]]),
        (point(2), vec![vec![1], vec![7u8; 31]]),
        (point(3), vec![vec![7u8; 32]]),
    ]));
    assert_eq!(search.preimages, vec![[7u8; 32]]);
    search.scan(&tx(vec![(point(1), vec![vec![1], vec![8u8; 32]])]));
    assert_eq!(search.preimages, vec![[7u8; 32]]);
    assert_eq!(search.seen.len(), 3);
}

#[test]
fn a_preimage_opens_either_hashlock() {
    assert!(preimage_opens(&incoming(), &[7u8; 32]));
    assert!(!preimage_opens(&incoming(), &[8u8; 32]));
    assert!(preimage_opens(&taproot_incoming(), &[7u8; 32]));
    assert!(!preimage_opens(&taproot_incoming(), &[8u8; 32]));
    let preimages = vec![[8u8; 32], [7u8; 32]];
    assert_eq!(find_preimage(&incoming(), &preimages), Some([7u8; 32]));
    assert_eq!(find_preimage(&incoming(), &vec![]), None);
    let mut coin = incoming();
    apply_preimage(&mut coin, [7u8; 32]);
    assert_eq!(coin.hash_preimage, Some([7u8; 32]));
}

#[test]
fn recovery_needs_a_timelock() {
    assert!(matches!(
        begin_recovery(&vec![], None),
        Err(MakerError::General("missing timelock on outgoing swapcoin"))
    ));
    assert!(begin_recovery(&vec![outgoing(None)], None).is_err());
    assert_eq!(
        begin_recovery(&vec![outgoing(Some(9))], Some(false)).unwrap(),
        RecoveryStart::Discard
    );
    for recorded in [None, Some(true)] {
        assert_eq!(
            begin_recovery(&vec![outgoing(Some(9))], recorded).unwrap(),
            RecoveryStart::Monitor { expiry: 9 }
        );
    }
}

#[test]
fn a_known_preimage_is_used_first() {
    let (mut recovery, update, action) = Recovery::monitor(100, 1);
    assert!(matches!(update, RecordUpdate::Recovering));
    assert_eq!(action, RecoveryAction::Check);
    let checked = RecoveryEvent::Checked {
        all_preimages_known: true,
        height: 500,
    };
    assert_eq!(recovery.step(checked).1, RecoveryAction::Sweep);
    let (update, action) = recovery.step(RecoveryEvent::Swept {
        any: true,
        txids: vec![[1u8; 32]],
    });
    assert!(matches!(update, Some(RecordUpdate::HashlockRecovered(txids)) if txids == vec![[1u8; 32]]));
    assert_eq!(action, RecoveryAction::DiscardOutgoing);
    let (update, action) = recovery.step(RecoveryEvent::Discarded);
    assert!(matches!(update, Some(RecordUpdate::CleanedUp)));
    assert_eq!(action, RecoveryAction::ReportHashlock);
    assert_eq!(recovery.step(RecoveryEvent::Rested).1, RecoveryAction::Ignore);
}

#[test]
fn the_timelock_is_used_once_it_has_passed() {
    let (mut recovery, _, _) = Recovery::monitor(100, 1);
    let checked = |height| RecoveryEvent::Checked {
        all_preimages_known: false,
        height,
    };
    assert_eq!(recovery.step(checked(99)).1, RecoveryAction::Rest);
    assert_eq!(recovery.step(RecoveryEvent::Rested).1, RecoveryAction::Check);
    assert_eq!(recovery.step(RecoveryEvent::CheckFailed).1, RecoveryAction::Rest);
    assert_eq!(recovery.step(RecoveryEvent::Rested).1, RecoveryAction::Check);
    let (update, action) = recovery.step(checked(100));
    assert!(matches!(update, Some(RecordUpdate::TimelockWaiting)));
    assert_eq!(action, RecoveryAction::Reclaim);
    let (update, action) = recovery.step(RecoveryEvent::Reclaimed {
        any: true,
        txids: vec![[1u8; 32]],
    });
    assert!(matches!(update, Some(RecordUpdate::TimelockRecovered(txids)) if txids == vec![[1u8; 32]]));
    assert_eq!(action, RecoveryAction::CheckResolved);
    assert_eq!(recovery.step(RecoveryEvent::Resolved(false)).1, RecoveryAction::Rest);
    assert_eq!(recovery.step(RecoveryEvent::Rested).1, RecoveryAction::Check);
    assert_eq!(recovery.step(checked(101)).1, RecoveryAction::Reclaim);
    let (update, _) = recovery.step(RecoveryEvent::Reclaimed {
        any: true,
        txids: vec![[2u8; 32]],
    });
    assert!(matches!(update, Some(RecordUpdate::TimelockRecovered(txids)) if txids.len() == 2));
    let (update, action) = recovery.step(RecoveryEvent::Resolved(true));
    assert!(matches!(update, Some(RecordUpdate::CleanedUp)));
    assert_eq!(action, RecoveryAction::ReportTimelock);
}

fn contracts(id: Option<&str>) -> ConnectionState {
    let mut state = ConnectionState::default();
    state.incoming_contract.swap_id = id.map(str::to_string);
    state.outgoing_contract.swap_id = id.map(str::to_string);
    state
}

#[test]
fn a_claim_comes_before_a_refund() {
    let state = contracts(Some("a"));
    let (mut recovery, timelock) =
        RecoveryV2::begin(state.incoming_contract.clone(), Some(40)).unwrap();
    assert_eq!(timelock, 40);
    assert_eq!(recovery.doing, recovery2::RecoveryAction::CheckIncoming);
    let mut step = |event| recovery.step(event);
    assert_eq!(
        step(recovery2::RecoveryEvent::Spent(false)),
        recovery2::RecoveryAction::LookForPreimage
    );
    assert_eq!(
        step(recovery2::RecoveryEvent::Preimage(None)),
        recovery2::RecoveryAction::CheckMaturity
    );
    assert_eq!(
        step(recovery2::RecoveryEvent::Matured(false)),
        recovery2::RecoveryAction::Wait
    );
    assert_eq!(
        step(recovery2::RecoveryEvent::Waited),
        recovery2::RecoveryAction::CheckIncoming
    );
    step(recovery2::RecoveryEvent::Spent(false));
    step(recovery2::RecoveryEvent::Preimage(None));
    assert_eq!(
        step(recovery2::RecoveryEvent::Matured(true)),
        recovery2::RecoveryAction::CheckOutgoing
    );
    assert_eq!(
        step(recovery2::RecoveryEvent::Spent(true)),
        recovery2::RecoveryAction::LookOnceMore
    );
    assert_eq!(
        step(recovery2::RecoveryEvent::Preimage(Some([7u8; 32]))),
        recovery2::RecoveryAction::ClaimIncoming
    );
    assert_eq!(recovery.incoming.hash_preimage, Some([7u8; 32]));
}

#[test]
fn a_swept_contract_needs_no_recovery() {
    let mut state = contracts(Some("a"));
    state.incoming_contract.other_privkey = Some([5u8; 32]);
    let (mut recovery, _) = RecoveryV2::begin(state.incoming_contract, Some(40)).unwrap();
    assert_eq!(
        recovery.step(recovery2::RecoveryEvent::Spent(true)),
        recovery2::RecoveryAction::Done
    );
}

#[test]
fn an_unspent_outgoing_contract_is_reclaimed() {
    let state = contracts(Some("a"));
    let (mut recovery, _) = RecoveryV2::begin(state.incoming_contract, Some(40)).unwrap();
    recovery.step(recovery2::RecoveryEvent::Spent(false));
    recovery.step(recovery2::RecoveryEvent::Preimage(None));
    recovery.step(recovery2::RecoveryEvent::Matured(true));
    assert_eq!(
        recovery.step(recovery2::RecoveryEvent::Spent(false)),
        recovery2::RecoveryAction::ReclaimOutgoing
    );
    assert!(RecoveryV2::begin(ConnectionState::default().incoming_contract, None).is_err());
}

#[test]
fn contracts_are_paired_after_a_restart() {
    let a = contracts(Some("a"));
    let b = contracts(Some("b"));
    let none = contracts(None);
    let pairs = restore_broadcasted_contracts_on_reboot_v2(
        &vec![
            a.incoming_contract.clone(),
            none.incoming_contract.clone(),
            contracts(Some("c")).incoming_contract,
            b.incoming_contract.clone(),
        ],
        &vec![
            none.outgoing_contract.clone(),
            b.outgoing_contract.clone(),
            a.outgoing_contract.clone(),
        ],
    );
    let ids: Vec<_> = pairs
        .iter()
        .map(|(i, o)| (i.swap_id.clone().unwrap(), o.swap_id.clone().unwrap()))
        .collect();
    assert_eq!(
        ids,
        vec![
            ("a".to_string(), "a".to_string()),
            ("b".to_string(), "b".to_string())
        ]
    );
}

#[test]
fn contracts_are_at_their_first_output() {
    let state = contracts(Some("a"));
    assert_eq!(outgoing_output(&state.outgoing_contract).vout, 0);
    assert_eq!(
        outgoing_output(&state.outgoing_contract).txid,
        incoming_output(&state.incoming_contract).txid
    );
}

#[test]
fn the_unified_recovery_sweeps_or_reclaims() {
    let coins = vec![outgoing(Some(100))];
    let (mut recovery, update) = UnifiedRecovery::begin(1, &coins, Some(true)).unwrap();
    assert_eq!(recovery.doing, UnifiedAction::LookForPreimages);
    assert!(matches!(update, Some(RecordUpdate::Recovering)));
    for (event, action) in [
        (UnifiedEvent::Preimages(true), UnifiedAction::SweepIncoming),
        (UnifiedEvent::Resolved(vec![]), UnifiedAction::ReadHeight),
        (UnifiedEvent::Height(99), UnifiedAction::Wait),
        (UnifiedEvent::Waited, UnifiedAction::LookForPreimages),
        (UnifiedEvent::Preimages(false), UnifiedAction::ReadHeight),
    ] {
        let (updates, next) = recovery.step(event);
        assert!(updates.is_empty());
        assert_eq!(next, action);
    }
    let (updates, next) = recovery.step(UnifiedEvent::Height(100));
    assert!(matches!(updates.as_slice(), [RecordUpdate::TimelockWaiting]));
    assert_eq!(next, UnifiedAction::ReclaimOutgoing);
    let (updates, next) = recovery.step(UnifiedEvent::Resolved(vec![[9u8; 32]]));
    assert!(matches!(
        updates.as_slice(),
        [RecordUpdate::TimelockRecovered(txids), RecordUpdate::CleanedUp] if *txids == vec![[9u8; 32]]
    ));
    assert_eq!(next, UnifiedAction::Recovered);
}

#[test]
fn the_unified_recovery_records_a_sweep() {
    let coins = vec![outgoing(Some(100))];
    let (mut recovery, _) = UnifiedRecovery::begin(1, &coins, Some(true)).unwrap();
    recovery.step(UnifiedEvent::Preimages(true));
    let (updates, next) = recovery.step(UnifiedEvent::Resolved(vec![[8u8; 32]]));
    assert!(matches!(
        updates.as_slice(),
        [RecordUpdate::HashlockRecovered(txids)] if *txids == vec![[8u8; 32]]
    ));
    assert_eq!(next, UnifiedAction::RemoveOutgoing);
    let (updates, next) = recovery.step(UnifiedEvent::Removed);
    assert!(matches!(updates.as_slice(), [RecordUpdate::CleanedUp]));
    assert_eq!(next, UnifiedAction::Recovered);
}

#[test]
fn an_unfunded_swap_is_discarded() {
    let coins = vec![outgoing(Some(100))];
    for recorded in [None, Some(false)] {
        let (mut recovery, update) = UnifiedRecovery::begin(0, &coins, recorded).unwrap();
        assert_eq!(recovery.doing, UnifiedAction::Discard);
        assert!(update.is_none());
        let (updates, next) = recovery.step(UnifiedEvent::Removed);
        assert!(matches!(updates.as_slice(), [RecordUpdate::NothingToRecover]));
        assert_eq!(next, UnifiedAction::Recovered);
    }
    assert!(UnifiedRecovery::begin(0, &vec![], None).is_err());
}

#[test]
fn revealed_preimages_go_to_the_coins_they_open() {
    let mut coins = vec![incoming(), taproot_incoming()];
    assert!(!apply_preimages(&mut coins, &vec![[8u8; 32]]));
    assert!(coins.iter().all(|coin| coin.hash_preimage.is_none()));
    assert!(apply_preimages(&mut coins, &vec![[8u8; 32], [7u8; 32]]));
    assert!(coins.iter().all(|coin| coin.hash_preimage == Some([7u8; 32])));
    coins[0].hash_preimage = Some([1u8; 32]);
    assert!(apply_preimages(&mut coins, &vec![[7u8; 32]]));
    assert_eq!(coins[0].hash_preimage, Some([1u8; 32]));
    assert!(apply_preimages(&mut vec![], &vec![]));
}

#[test]
fn every_contract_output_must_be_spent() {
    let mut first = outgoing(Some(10));
    first.contract_tx = tx(vec![(point(1), vec![])]);
    let mut signed = outgoing(Some(10));
    signed.contract_tx = tx(vec![(point(1), vec![vec![7u8; 64]])]);
    let mut received = incoming();
    received.contract_tx = tx(vec![(point(2), vec![])]);
    let points = contract_outpoints(&vec![first, signed], &vec![3, 4], &vec![received], &vec![5]);
    let vouts: Vec<u32> = points.iter().map(|point| point.vout).collect();
    assert_eq!(vouts, vec![3, 4, 5]);
    assert_eq!(points[0].txid, points[1].txid);
    assert_ne!(points[0].txid, points[2].txid);
    assert!(all_resolved(&vec![]));
    assert!(all_resolved(&vec![false, false]));
    assert!(!all_resolved(&vec![false, true]));
}
