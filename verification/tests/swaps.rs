use openswap_maker::chain::{OutPoint, Transaction, TxOut};
use openswap_maker::error::MakerError;
use openswap_maker::maker::handlers::{
    handle_get_offer, handle_swap_details, handle_taker_hello, restore_state_if_needed,
    ConnectionState, MakerConfig, SwapPhase, MAX_CONCURRENT_SWAPS, NANOS_PER_SEC,
};
use openswap_maker::maker::ongoing_swaps::OngoingSwaps;
use openswap_maker::maker::swap_params::validate_swap_parameters;
use openswap_maker::maker::swapcoin::{OutgoingSwapCoin, TwoKeyScript};
use openswap_maker::protocol::common_messages::{
    FidelityBond, FidelityProof, ProtocolVersion, RateBits, SwapDetails,
};

fn config() -> MakerConfig {
    MakerConfig {
        base_fee: 500,
        amount_relative_fee_pct: RateBits(1),
        time_relative_fee_pct: RateBits(2),
        min_swap_amount: 10_000,
        max_swap_amount: 90_000,
        required_confirms: 1,
        supported_protocols: vec![ProtocolVersion::Legacy, ProtocolVersion::Taproot],
    }
}

fn details(protocol_version: ProtocolVersion) -> SwapDetails {
    SwapDetails {
        id: "swap".to_string(),
        protocol_version,
        amount: 50_000,
        tx_count: 2,
        timelock: 60,
        refund_locktime_offset: 40,
        outgoing_tx_count: Some(3),
    }
}

fn fidelity() -> FidelityProof {
    FidelityProof {
        bond: FidelityBond {
            bond_index: 7,
            outpoint: OutPoint {
                txid: [1u8; 32],
                vout: 0,
            },
            amount: 10_000,
            lock_time: 1_000,
            pubkey: [2u8; 33],
            conf_height: Some(10),
            is_spent: false,
        },
        cert_hash: [5u8; 32],
        cert_sig: vec![1],
    }
}

fn empty_tx() -> Transaction {
    Transaction {
        version: 2,
        lock_time: 0,
        input: vec![],
        output: vec![TxOut {
            value: 1,
            script_pubkey: vec![0x51],
        }],
    }
}

fn outgoing(script: Vec<u8>) -> OutgoingSwapCoin {
    OutgoingSwapCoin {
        protocol: ProtocolVersion::Legacy,
        swap_id: None,
        my_privkey: None,
        my_pubkey: Some([2u8; 33]),
        other_pubkey: Some([3u8; 33]),
        contract_tx: empty_tx(),
        contract_vout: 0,
        funding_tx: None,
        multisig_redeemscript: Some(script),
        contract_redeemscript: None,
        timelock_privkey: [1u8; 32],
        timelock: Some(100),
        funding_amount: 1,
        others_contract_sig: None,
        hashlock_script: None,
        timelock_script: None,
        internal_key: None,
        tap_tweak: None,
    }
}

/// A connection that has accepted a swap of the given amount.
fn accepted(amount: u64) -> ConnectionState {
    let mut state = ConnectionState::new(ProtocolVersion::Legacy, 0);
    let mut terms = details(ProtocolVersion::Legacy);
    terms.amount = amount;
    handle_swap_details(&mut state, &terms, Ok(60)).unwrap();
    state
}

fn validate(details: &SwapDetails, liquidity: Option<u64>) -> Result<u16, MakerError> {
    validate_swap_parameters(&config(), details, liquidity, 5, Ok(30), 20)
}

#[test]
fn a_handshake_leads_to_an_offer() {
    let mut state = ConnectionState::new(ProtocolVersion::Legacy, 7);
    assert_eq!(state.phase, SwapPhase::AwaitingHello);
    let hello = handle_taker_hello(&mut state, &config());
    assert_eq!(hello.supported_protocols.len(), 2);
    assert_eq!(state.phase, SwapPhase::AwaitingOfferRequest);
    assert!(handle_get_offer(&mut state, &config(), [2u8; 33], None).is_err());
    let offer = handle_get_offer(&mut state, &config(), [2u8; 33], Some(fidelity())).unwrap();
    assert_eq!(offer.base_fee, 500);
    assert_eq!((offer.min_size, offer.max_size), (10_000, 90_000));
    assert_eq!(state.phase, SwapPhase::AwaitingSwapDetails);
}

#[test]
fn accepted_details_become_the_state() {
    let state = accepted(50_000);
    assert_eq!(state.swap_id.as_deref(), Some("swap"));
    assert_eq!(state.swap_amount, 50_000);
    assert_eq!(state.refund_locktime_offset, 60);
    assert_eq!(state.phase, SwapPhase::AwaitingContractData);
    assert_eq!(state.outgoing_count(), 3);
    assert!(state.check_swap_id("swap").is_ok());
    assert!(matches!(
        state.check_swap_id("other"),
        Err(MakerError::SwapIdMismatch)
    ));
    assert!(matches!(
        state.expect_phase(SwapPhase::AwaitingHello, SwapPhase::Completed),
        Err(MakerError::UnexpectedPhase(SwapPhase::AwaitingContractData))
    ));
}

#[test]
fn rejected_details_change_nothing() {
    let mut state = ConnectionState::new(ProtocolVersion::Taproot, 0);
    let before = state.phase;
    assert!(handle_swap_details(
        &mut state,
        &details(ProtocolVersion::Legacy),
        Err(MakerError::TooManySwaps)
    )
    .is_err());
    assert_eq!(state.phase, before);
    assert_eq!(state.swap_id, None);
}

#[test]
fn a_connection_times_out_after_whole_seconds() {
    let mut state = ConnectionState::new(ProtocolVersion::Legacy, 0);
    assert!(!state.is_timed_out(2, 3 * NANOS_PER_SEC - 1));
    assert!(state.is_timed_out(2, 3 * NANOS_PER_SEC));
    state.touch(3 * NANOS_PER_SEC);
    assert!(!state.is_timed_out(2, 3 * NANOS_PER_SEC));
}

#[test]
fn legacy_terms_are_validated() {
    let base = details(ProtocolVersion::Legacy);
    assert_eq!(validate(&base, Some(50_000)).unwrap(), 60);
    assert_eq!(validate(&base, None).unwrap(), 60);
    let fails = |change: fn(&mut SwapDetails)| {
        let mut changed = details(ProtocolVersion::Legacy);
        change(&mut changed);
        match validate(&changed, Some(50_000)) {
            Err(MakerError::General(text)) => text,
            _ => panic!("the terms are rejected"),
        }
    };
    assert_eq!(fails(|d| d.amount = 9_999), "Swap amount below minimum");
    assert_eq!(fails(|d| d.amount = 90_001), "Swap amount above maximum");
    assert_eq!(
        fails(|d| d.amount = 50_001),
        "Not enough liquidity for this swap amount"
    );
    assert_eq!(
        fails(|d| d.outgoing_tx_count = Some(0)),
        "Requested outgoing_tx_count is zero"
    );
    assert_eq!(
        fails(|d| d.outgoing_tx_count = Some(6)),
        "Requested outgoing_tx_count exceeds maximum splits"
    );
    assert_eq!(
        fails(|d| d.timelock = 9),
        "Legacy timelock is below minimum reaction time"
    );
    assert_eq!(fails(|d| d.timelock = 65_536), "Swap timelock out of range");
}

#[test]
fn unsupported_protocols_are_rejected() {
    let mut only_legacy = config();
    only_legacy.supported_protocols = vec![ProtocolVersion::Legacy];
    assert!(matches!(
        validate_swap_parameters(
            &only_legacy,
            &details(ProtocolVersion::Taproot),
            None,
            5,
            Ok(30),
            20
        ),
        Err(MakerError::General("Protocol version not supported"))
    ));
}

#[test]
fn taproot_timelocks_are_heights() {
    let mut terms = details(ProtocolVersion::Taproot);
    assert_eq!(validate(&terms, None).unwrap(), 40);
    terms.timelock = 20;
    assert_eq!(validate(&terms, None).unwrap(), 40);
    terms.timelock = 19;
    assert!(matches!(
        validate(&terms, None),
        Err(MakerError::General(
            "Taproot timelock leaves too little contract reaction time"
        ))
    ));
    terms.timelock = u32::MAX;
    terms.refund_locktime_offset = 9;
    assert!(matches!(
        validate(&terms, None),
        Err(MakerError::General(
            "Taproot refund locktime offset is below minimum reaction time"
        ))
    ));
    assert!(matches!(
        validate_swap_parameters(&config(), &terms, None, 5, Err(MakerError::Secp), 20),
        Err(MakerError::Secp)
    ));
}

#[test]
fn a_stored_swap_is_resumed() {
    let mut swaps = OngoingSwaps::new();
    assert!(!swaps.has_ongoing_swaps());
    let state = accepted(50_000);
    swaps
        .store_connection_state("swap", &state, Some(60_000), 5)
        .unwrap();
    let resumed = swaps.get_connection_state("swap").unwrap();
    assert_eq!(resumed.swap_amount, 50_000);
    assert_eq!(resumed.last_activity, 5);
    assert_eq!(resumed.phase, SwapPhase::AwaitingContractData);
    assert!(swaps.get_connection_state("other").is_none());
    assert!(swaps.has_ongoing_swaps());
    swaps.remove_swap_state("swap");
    assert!(!swaps.has_ongoing_swaps());
}

#[test]
fn admission_keeps_to_the_liquidity() {
    let mut swaps = OngoingSwaps::new();
    swaps
        .store_connection_state("a", &accepted(50_000), Some(70_000), 0)
        .unwrap();
    assert_eq!(swaps.reserved_liquidity(), Some(50_000));
    assert!(matches!(
        swaps.store_connection_state("b", &accepted(20_001), Some(70_000), 0),
        Err(MakerError::InsufficientLiquidity {
            available: 70_000,
            reserved: 50_000,
            requested: 20_001
        })
    ));
    assert!(swaps
        .store_connection_state("b", &accepted(20_000), Some(70_000), 0)
        .is_ok());
    assert_eq!(swaps.active_swaps(), 2);
}

#[test]
fn admission_keeps_to_the_number_of_swaps() {
    let mut swaps = OngoingSwaps::new();
    for i in 0..MAX_CONCURRENT_SWAPS {
        swaps
            .store_connection_state(&format!("{}", i), &accepted(10_000), Some(u64::MAX), 0)
            .unwrap();
    }
    assert!(matches!(
        swaps.store_connection_state("more", &accepted(10_000), Some(u64::MAX), 0),
        Err(MakerError::TooManySwaps)
    ));
    let mut done = accepted(10_000);
    done.phase = SwapPhase::Completed;
    swaps.store_connection_state("0", &done, None, 0).unwrap();
    assert!(swaps
        .store_connection_state("more", &accepted(10_000), Some(u64::MAX), 0)
        .is_ok());
}

#[test]
fn repeated_details_only_refresh_the_timer() {
    let mut swaps = OngoingSwaps::new();
    let mut funded = accepted(50_000);
    funded.outgoing_swapcoins.push(outgoing(vec![1]));
    swaps.store_connection_state("swap", &funded, None, 0).unwrap();
    swaps
        .store_connection_state("swap", &accepted(50_000), Some(60_000), 9)
        .unwrap();
    let kept = swaps.get_connection_state("swap").unwrap();
    assert_eq!(kept.outgoing_swapcoins.len(), 1);
    assert_eq!(kept.last_activity, 9);
    assert!(matches!(
        swaps.store_connection_state("swap", &accepted(50_001), Some(60_000), 9),
        Err(MakerError::SwapParamMismatch)
    ));
}

#[test]
fn the_confirmation_height_is_kept() {
    let mut swaps = OngoingSwaps::new();
    let state = accepted(50_000);
    swaps.store_connection_state("swap", &state, None, 0).unwrap();
    swaps.record_confirmation("swap", 321);
    swaps.store_connection_state("swap", &state, None, 1).unwrap();
    assert_eq!(
        swaps.get("swap").unwrap().funding_confirmation_height,
        Some(321)
    );
}

#[test]
fn a_keepalive_keeps_a_swap_from_recovery() {
    let mut swaps = OngoingSwaps::new();
    let mut funded = accepted(50_000);
    funded.outgoing_swapcoins.push(outgoing(vec![1]));
    swaps.store_connection_state("alive", &funded, None, 0).unwrap();
    swaps.store_connection_state("quiet", &funded, None, 0).unwrap();
    swaps.record_activity("alive", 50);
    swaps.record_activity("unknown", 50);
    assert!(swaps.get("unknown").is_none());
    assert_eq!(swaps.get("alive").unwrap().last_activity, 50);
    assert_eq!(swaps.get("alive").unwrap().outgoing_swapcoins.len(), 1);
    let idle = swaps.drain_idle_swaps(&vec![], 101, 100);
    assert_eq!(idle.len(), 1);
    assert_eq!(idle[0].swap_id, "quiet");
    assert!(swaps.get("alive").is_some());
}

#[test]
fn idle_swaps_are_drained() {
    let mut swaps = OngoingSwaps::new();
    let mut funded = accepted(50_000);
    funded.outgoing_swapcoins.push(outgoing(vec![1]));
    swaps.store_connection_state("funded", &funded, None, 0).unwrap();
    swaps
        .store_connection_state("overdue", &funded, None, 100)
        .unwrap();
    swaps
        .store_connection_state("reserved", &accepted(1), None, 0)
        .unwrap();
    swaps.store_connection_state("fresh", &funded, None, 100).unwrap();
    let idle = swaps.drain_idle_swaps(&vec!["overdue".to_string()], 101, 100);
    let ids: Vec<&str> = idle.iter().map(|swap| swap.swap_id.as_str()).collect();
    assert_eq!(ids, vec!["funded", "overdue"]);
    assert_eq!(idle[0].outgoing_swapcoins.len(), 1);
    assert!(swaps.get("reserved").is_none());
    assert!(swaps.get("fresh").is_some());
}

#[test]
fn other_swaps_outputs_are_excluded() {
    let mut swaps = OngoingSwaps::new();
    let point = |n| OutPoint {
        txid: [n; 32],
        vout: 0,
    };
    for n in [1u8, 2] {
        let mut state = accepted(1);
        state.reserve_utxo = vec![point(n)];
        swaps
            .store_connection_state(&format!("{}", n), &state, None, 0)
            .unwrap();
    }
    assert_eq!(swaps.collect_excluded_utxos("1"), vec![point(2)]);
    assert_eq!(swaps.collect_excluded_utxos(""), vec![point(1), point(2)]);
}

#[test]
fn an_outgoing_coin_is_found_by_its_script() {
    let mut swaps = OngoingSwaps::new();
    let mut state = accepted(1);
    state.outgoing_swapcoins = vec![outgoing(vec![1]), outgoing(vec![2])];
    state.outgoing_swapcoins[1].funding_amount = 77;
    state.outgoing_swapcoins[1].my_pubkey = Some([4u8; 33]);
    state.outgoing_swapcoins[1].multisig_redeemscript = None;
    let mut taproot = outgoing(vec![1]);
    taproot.protocol = ProtocolVersion::Taproot;
    state.outgoing_swapcoins.push(taproot);
    swaps.store_connection_state("swap", &state, None, 0).unwrap();
    let pairs = swaps.key_pairs();
    assert_eq!(pairs, vec![([2u8; 33], [3u8; 33]), ([4u8; 33], [3u8; 33])]);
    let scripts: Vec<TwoKeyScript> = pairs
        .into_iter()
        .map(|(my_pubkey, other_pubkey)| TwoKeyScript {
            my_pubkey,
            other_pubkey,
            script: vec![my_pubkey[0], other_pubkey[0]],
        })
        .collect();
    let found = |script: &[u8]| swaps.find_outgoing_swapcoin(script, &scripts);
    assert_eq!(found(&[4, 3]).unwrap().funding_amount, 77);
    assert_eq!(found(&[2, 3]).unwrap().my_pubkey, Some([2u8; 33]));
    assert!(found(&[3, 3]).is_none());
    assert!(swaps.find_outgoing_swapcoin(&[4, 3], &vec![]).is_none());
}

#[test]
fn a_connection_without_coins_is_restored() {
    let mut stored = accepted(50_000);
    stored.outgoing_swapcoins.push(outgoing(vec![1]));
    stored.phase = SwapPhase::AwaitingPrivateKeyHandover;
    let mut state = ConnectionState::new(ProtocolVersion::Legacy, 3);
    restore_state_if_needed(&mut state, "swap", None);
    assert_eq!(state.swap_amount, 0);
    restore_state_if_needed(&mut state, "swap", Some(stored));
    assert_eq!(state.swap_amount, 50_000);
    assert_eq!(state.phase, SwapPhase::AwaitingPrivateKeyHandover);
    assert_eq!(state.last_activity, 3);
    let other = accepted(1);
    restore_state_if_needed(&mut state, "swap", Some(other));
    assert_eq!(state.swap_amount, 50_000);
}

#[test]
fn only_funded_swaps_have_deadlines() {
    let mut swaps = OngoingSwaps::new();
    let mut funded = accepted(50_000);
    funded.outgoing_swapcoins.push(outgoing(vec![1]));
    swaps.store_connection_state("empty", &accepted(1), None, 0).unwrap();
    swaps.store_connection_state("funded", &funded, None, 0).unwrap();
    swaps.record_confirmation("funded", 700);
    let deadlines = swaps.deadlines();
    assert_eq!(deadlines.len(), 1);
    assert_eq!(deadlines[0].swap_id, "funded");
    assert_eq!(deadlines[0].protocol, funded.protocol);
    assert_eq!(deadlines[0].timelock, funded.timelock);
    assert_eq!(deadlines[0].funding_confirmation_height, Some(700));
}
