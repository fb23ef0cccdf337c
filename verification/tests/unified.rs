use openswap_maker::chain::{OutPoint, Transaction, TxIn, TxOut};
use openswap_maker::error::MakerError;
use openswap_maker::maker::handlers::{ConnectionState, MakerConfig, SwapPhase, NANOS_PER_SEC};
use openswap_maker::maker::swap_tracker::MakerSwapPhase;
use openswap_maker::maker::swapcoin::{OutgoingSwapCoin, TwoKeyScript};
use openswap_maker::maker::unified::{
    announce_tick, check_sender_contract, dropped_swap_record, validate_swap_parameters, UnifiedConnectionState,
    UnifiedMakerServerConfig, UnifiedSwaps,
};
use openswap_maker::protocol::common_messages::{ProtocolVersion, RateBits, SwapDetails};

fn config() -> MakerConfig {
    MakerConfig {
        base_fee: 500,
        amount_relative_fee_pct: RateBits(1),
        time_relative_fee_pct: RateBits(2),
        min_swap_amount: 10_000,
        max_swap_amount: 90_000,
        required_confirms: 1,
        supported_protocols: vec![ProtocolVersion::Legacy],
    }
}

fn details(amount: u64, protocol_version: ProtocolVersion) -> SwapDetails {
    SwapDetails {
        id: "swap".to_string(),
        protocol_version,
        amount,
        tx_count: 1,
        timelock: 60,
        refund_locktime_offset: 0,
        outgoing_tx_count: None,
    }
}

fn contract(inputs: usize, outputs: usize) -> Transaction {
    Transaction {
        version: 2,
        lock_time: 0,
        input: (0..inputs)
            .map(|_| TxIn {
                previous_output: OutPoint {
                    txid: [1u8; 32],
                    vout: 0,
                },
                script_sig: vec![],
                sequence: 0,
                witness: vec![],
            })
            .collect(),
        output: (0..outputs)
            .map(|_| TxOut {
                value: 1,
                script_pubkey: vec![],
            })
            .collect(),
    }
}

fn outgoing() -> OutgoingSwapCoin {
    OutgoingSwapCoin {
        protocol: ProtocolVersion::Legacy,
        swap_id: None,
        my_privkey: None,
        my_pubkey: Some([2u8; 33]),
        other_pubkey: Some([3u8; 33]),
        contract_tx: contract(1, 1),
        contract_vout: 0,
        funding_tx: None,
        multisig_redeemscript: Some(vec![0x60]),
        contract_redeemscript: None,
        timelock_privkey: [1u8; 32],
        timelock: Some(100),
        funding_amount: 1,
        others_contract_sig: None,
        hashlock_script: None,
        timelock_script: None,
        internal_key: None,
        tap_tweak: None,
    }
}

fn accepted() -> UnifiedConnectionState {
    let mut state = UnifiedConnectionState::new(ProtocolVersion::Legacy, 0);
    state
        .take_swap_details(&config(), &details(50_000, ProtocolVersion::Legacy))
        .unwrap();
    state.outgoing_swapcoins.push(outgoing());
    state
}

#[test]
fn unified_terms_are_validated() {
    let check = |amount, protocol| validate_swap_parameters(&config(), &details(amount, protocol));
    assert!(check(10_000, ProtocolVersion::Legacy).is_ok());
    assert!(matches!(
        check(9_999, ProtocolVersion::Legacy),
        Err(MakerError::General("Swap amount below minimum"))
    ));
    assert!(matches!(
        check(90_001, ProtocolVersion::Legacy),
        Err(MakerError::General("Swap amount above maximum"))
    ));
    assert!(matches!(
        check(10_000, ProtocolVersion::Taproot),
        Err(MakerError::General("Protocol version not supported"))
    ));
}

#[test]
fn a_unified_connection_goes_through_its_phases() {
    let mut state = UnifiedConnectionState::new(ProtocolVersion::Legacy, 0);
    assert_eq!(state.phase, SwapPhase::AwaitingHello);
    assert_eq!(
        state.take_hello(&config()).supported_protocols,
        vec![ProtocolVersion::Legacy]
    );
    assert!(state.take_offer_request(&config(), [2u8; 33], None).is_err());
    state
        .take_swap_details(&config(), &details(50_000, ProtocolVersion::Legacy))
        .unwrap();
    assert_eq!(state.swap_amount, 50_000);
    assert_eq!(state.phase, SwapPhase::AwaitingContractData);
    assert!(!state.is_timed_out(1, 2 * NANOS_PER_SEC - 1));
    assert!(state.is_timed_out(1, 2 * NANOS_PER_SEC));
    state.touch(2 * NANOS_PER_SEC);
    assert!(!state.is_timed_out(1, 2 * NANOS_PER_SEC));
}

#[test]
fn a_stored_unified_swap_is_given_back() {
    let mut swaps = UnifiedSwaps::new();
    swaps.store_connection_state("swap", &accepted(), 5);
    let state = swaps.get_connection_state("swap", 9).unwrap();
    assert_eq!(state.swap_amount, 50_000);
    assert_eq!(state.swap_id.as_deref(), Some("swap"));
    assert_eq!(state.outgoing_swapcoins.len(), 1);
    assert!(swaps.get_connection_state("other", 9).is_none());
    assert_eq!(swaps.key_pairs(), vec![([2u8; 33], [3u8; 33])]);
    let scripts = vec![TwoKeyScript {
        my_pubkey: [2u8; 33],
        other_pubkey: [3u8; 33],
        script: vec![0x60],
    }];
    assert!(swaps.find_outgoing_swapcoin(&[0x60], &scripts).is_some());
    assert!(swaps.find_outgoing_swapcoin(&[0x61], &scripts).is_none());
    let mut fresh = UnifiedConnectionState::new(ProtocolVersion::Taproot, 0);
    fresh.restore_state_if_needed("swap", Some(state));
    assert_eq!(fresh.swap_amount, 50_000);
    assert_eq!(fresh.protocol, ProtocolVersion::Legacy);
    swaps.remove_swap_state("swap");
    assert!(swaps.get_connection_state("swap", 9).is_none());
}

#[test]
fn idle_unified_swaps_with_coins_are_drained() {
    let mut swaps = UnifiedSwaps::new();
    swaps.store_connection_state("a", &accepted(), 0);
    swaps.store_connection_state("b", &accepted(), 50);
    let mut bare = accepted();
    bare.outgoing_swapcoins.clear();
    swaps.store_connection_state("c", &bare, 0);
    let idle = swaps.drain_idle_swaps(101, 100);
    assert_eq!(idle.len(), 1);
    assert_eq!(idle[0].swap_id, "a");
    assert_eq!(idle[0].swap_amount_sat, 50_000);
    let record = dropped_swap_record(&idle[0], true, 7);
    assert_eq!(record.swap_id, "a");
    assert_eq!(record.phase, MakerSwapPhase::TakerDropped);
    assert_eq!((record.incoming_count, record.outgoing_count), (0, 1));
    assert!(record.funding_broadcast);
    assert_eq!((record.created_at, record.updated_at), (7, 7));
    assert!(swaps.get_connection_state("a", 0).is_none());
    assert!(swaps.get_connection_state("b", 0).is_some());
    assert!(swaps.get_connection_state("c", 0).is_some());
}

#[test]
fn a_sender_contract_spends_one_output_to_one() {
    assert!(check_sender_contract(&contract(1, 1)).is_ok());
    for (inputs, outputs) in [(0, 1), (2, 1), (1, 0), (1, 2)] {
        assert!(check_sender_contract(&contract(inputs, outputs)).is_err());
    }
}

#[test]
fn announcements_are_repeated() {
    assert_eq!(announce_tick(0, 5, 10), (false, 5));
    assert_eq!(announce_tick(5, 5, 10), (true, 0));
}

#[test]
fn the_unified_configuration_has_its_own_defaults() {
    let (amount, time) = (RateBits(0.025f64.to_bits()), RateBits(0.001f64.to_bits()));
    let config = UnifiedMakerServerConfig::with_fees(amount, time);
    assert_eq!(config.data_dir, "./data");
    assert_eq!((config.network_port, config.rpc_port), (6102, 6103));
    assert_eq!(config.zmq_addr, "tcp://127.0.0.1:28332");
    assert_eq!(config.fidelity_amount, 5_000_000);
    assert_eq!(config.fidelity_timelock, 26_000);
    assert_eq!(config.wallet_name, "unified_maker");
    let terms = config.get_config(Some(70_000));
    assert_eq!(terms.base_fee, 1000);
    assert_eq!(terms.amount_relative_fee_pct, amount);
    assert_eq!(terms.time_relative_fee_pct, time);
    assert_eq!(terms.min_swap_amount, 10_000);
    assert_eq!(terms.max_swap_amount, 70_000);
    assert_eq!(terms.required_confirms, 1);
    assert_eq!(
        terms.supported_protocols,
        vec![ProtocolVersion::Legacy, ProtocolVersion::Taproot]
    );
    assert_eq!(config.get_config(None).max_swap_amount, u64::MAX);
}

#[test]
fn a_resumed_swap_reaches_the_handlers_of_its_contracts() {
    let mut swaps = UnifiedSwaps::new();
    let mut stored = accepted();
    stored.outgoing_swapcoins.push(outgoing());
    swaps.store_connection_state("swap", &stored, 0);
    let mut resumed = UnifiedConnectionState::new(ProtocolVersion::Legacy, 1);
    resumed.restore_state_if_needed("swap", swaps.get_connection_state("swap", 1));
    let mut contracts = ConnectionState::new(ProtocolVersion::Legacy, 1);
    contracts.service_fee_sats = 9;
    resumed.lend_to(&mut contracts);
    assert_eq!(contracts.swap_id.as_deref(), Some("swap"));
    assert_eq!(contracts.swap_amount, stored.swap_amount);
    assert_eq!(
        contracts.outgoing_swapcoins.len(),
        stored.outgoing_swapcoins.len()
    );
    assert_eq!(contracts.service_fee_sats, 9);
    contracts.phase = SwapPhase::Completed;
    contracts.outgoing_swapcoins.clear();
    resumed.take_back(&contracts);
    assert_eq!(resumed.phase, SwapPhase::Completed);
    assert!(resumed.outgoing_swapcoins.is_empty());
}
