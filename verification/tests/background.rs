use openswap_maker::chain::{Network, OutPoint, Transaction, TxOut};
use openswap_maker::error::{MakerError, WalletFault};
use openswap_maker::maker::api2::ConnectionState;
use openswap_maker::maker::fidelity::{
    bond_lock_height, liquidity_wait, maker_policy, pending_bond, taproot_policy,
    unconfirmed_bonds, unified_policy, BondAction, BondEvent, BondProgress, BondSetup,
    MAX_LIQUIDITY_WAIT,
};
use openswap_maker::primitives::UriParts;
use openswap_maker::maker::nostr::{
    announcement, announcement_tag, bond_announcement, coinswap_announcement, confirms, expiration,
    host_and_port, relay_address, swap_kind, text_confirms, txid_text, Broadcast, BroadcastAction,
    BroadcastEvent, RelayReply,
};
use openswap_maker::maker::server2::{
    beats_between, fidelity_check, is_broken_off, Announcer, OngoingSwapsV2,
    IDLE_CONNECTION_TIMEOUT,
};
use openswap_maker::protocol::common_messages::{FidelityBond, FidelityProof};
use openswap_maker::protocol::messages2::{
    AckResponse, GetOffer, MakerToTakerMessage, PrivateKeyHandover, SwapDetails,
    TakerToMakerMessage,
};

fn point(n: u8) -> OutPoint {
    OutPoint {
        txid: [n; 32],
        vout: n as u32,
    }
}

fn bond(n: u8) -> FidelityBond {
    FidelityBond {
        bond_index: u32::from(n) * 10,
        outpoint: point(n),
        amount: 10_000,
        lock_time: 1_000,
        pubkey: [2u8; 33],
        conf_height: Some(10),
        is_spent: false,
    }
}

fn proof_of(n: u8) -> FidelityProof {
    FidelityProof {
        bond: bond(n),
        cert_hash: [n; 32],
        cert_sig: vec![1],
    }
}

#[test]
fn a_bond_is_locked_from_the_tip_on() {
    assert_eq!(bond_lock_height(15_000, 800_000).unwrap(), 815_000);
    assert!(matches!(
        bond_lock_height(1, u32::MAX as u64 + 1),
        Err(MakerError::General("backend tip does not fit u32"))
    ));
    assert!(matches!(
        bond_lock_height(1, u32::MAX as u64),
        Err(MakerError::General("fidelity locktime height overflows"))
    ));
    assert!(matches!(
        bond_lock_height(1, 499_999_999),
        Err(MakerError::Wallet(WalletFault::Locktime))
    ));
}

#[test]
fn pending_bonds_are_found() {
    let mut bonds = vec![bond(1), bond(2), bond(3)];
    assert_eq!(pending_bond(&bonds), None);
    bonds[1].conf_height = None;
    bonds[1].is_spent = true;
    bonds[2].conf_height = None;
    assert_eq!(pending_bond(&bonds), Some((30, [3u8; 32])));
    let progress = |conf_height, cert_expiry| BondProgress {
        conf_height,
        cert_expiry,
    };
    assert_eq!(
        unconfirmed_bonds(&vec![
            progress(None, None),
            progress(Some(1), None),
            progress(None, Some(1)),
            progress(None, None)
        ]),
        vec![0, 3]
    );
}

#[test]
fn an_existing_bond_is_proved() {
    let mut setup = BondSetup::begin(maker_policy(), 10_000, 15_000, None);
    assert_eq!(setup.doing, BondAction::FindPending);
    let pending = BondEvent::Pending(Some((4, [9u8; 32])));
    assert_eq!(
        setup.step(pending).unwrap(),
        BondAction::AwaitPending {
            index: 4,
            txid: [9u8; 32]
        }
    );
    assert_eq!(
        setup.step(BondEvent::Confirmed).unwrap(),
        BondAction::FindPending
    );
    assert_eq!(
        setup.step(BondEvent::Pending(None)).unwrap(),
        BondAction::FindHighest
    );
    assert_eq!(
        setup.step(BondEvent::Highest(Some(4), 5)).unwrap(),
        BondAction::ProveExisting { index: 4 }
    );
    assert_eq!(
        setup.step(BondEvent::Proof(proof_of(7))).unwrap(),
        BondAction::Finish
    );
    assert_eq!(setup.finish().unwrap().cert_hash, [7u8; 32]);
}

#[test]
fn a_stale_bond_is_refused() {
    let mut setup = BondSetup::begin(maker_policy(), 10_000, 15_000, None);
    setup.step(BondEvent::Pending(None)).unwrap();
    assert!(matches!(
        setup.step(BondEvent::Highest(Some(5), 5)),
        Err(MakerError::General("fidelity bond index stale"))
    ));
}

#[test]
fn a_new_bond_waits_for_funds() {
    let mut setup = BondSetup::begin(maker_policy(), 10_000, 15_000, None);
    setup.step(BondEvent::Pending(None)).unwrap();
    assert_eq!(
        setup.step(BondEvent::Highest(None, 0)).unwrap(),
        BondAction::ReadTip
    );
    assert_eq!(
        setup.step(BondEvent::Tip(100)).unwrap(),
        BondAction::CheckShutdown
    );
    for attempt in 1..=2 {
        assert_eq!(
            setup.step(BondEvent::Shutdown(false)).unwrap(),
            BondAction::Create {
                amount: 10_000,
                height: 15_100
            }
        );
        let fault = WalletFault::InsufficientFund {
            available: 4_000,
            required: 10_000,
        };
        assert_eq!(
            setup.step(BondEvent::Failed(fault)).unwrap(),
            BondAction::AwaitFunds {
                seconds: 10 * attempt,
                needed: 6_000
            }
        );
        assert_eq!(
            setup.step(BondEvent::Waited(false)).unwrap(),
            BondAction::CheckShutdown
        );
    }
    setup.step(BondEvent::Shutdown(false)).unwrap();
    assert_eq!(
        setup.step(BondEvent::Created(2, [8u8; 32])).unwrap(),
        BondAction::AwaitNew {
            index: 2,
            txid: [8u8; 32]
        }
    );
    assert_eq!(
        setup.step(BondEvent::Confirmed).unwrap(),
        BondAction::ProveNew { index: 2 }
    );
    assert_eq!(
        setup.step(BondEvent::Proof(proof_of(3))).unwrap(),
        BondAction::Save
    );
    assert_eq!(setup.step(BondEvent::Saved).unwrap(), BondAction::Finish);
    assert_eq!(setup.finish().unwrap().cert_hash, [3u8; 32]);
}

#[test]
fn a_set_up_can_be_cut_short() {
    for policy in [maker_policy(), unified_policy(), taproot_policy()] {
        let mut setup = BondSetup::begin(policy, 10_000, 15_000, Some(proof_of(1)));
        setup.step(BondEvent::Pending(None)).unwrap();
        setup.step(BondEvent::Highest(None, 0)).unwrap();
        setup.step(BondEvent::Tip(100)).unwrap();
        let stopped = setup.step(BondEvent::Shutdown(true));
        if policy.keep_previous {
            assert_eq!(stopped.unwrap(), BondAction::Finish);
            assert_eq!(setup.finish().unwrap().cert_hash, [1u8; 32]);
        } else {
            assert!(matches!(
                stopped,
                Err(MakerError::General(
                    "Failed to create fidelity bond due to shutdown"
                ))
            ));
        }
    }
}

#[test]
fn other_wallet_faults_end_a_set_up() {
    let mut setup = BondSetup::begin(maker_policy(), 10_000, 15_000, None);
    setup.step(BondEvent::Pending(None)).unwrap();
    setup.step(BondEvent::Highest(None, 0)).unwrap();
    setup.step(BondEvent::Tip(100)).unwrap();
    setup.step(BondEvent::Shutdown(false)).unwrap();
    assert!(matches!(
        setup.step(BondEvent::Failed(WalletFault::Other)),
        Err(MakerError::Wallet(WalletFault::Other))
    ));
    assert!(setup.finish().is_err());
}

#[test]
fn liquidity_is_looked_at_less_and_less_often() {
    assert_eq!(liquidity_wait(100, 100, 0), None);
    assert_eq!(liquidity_wait(99, 100, 0), Some(10));
    assert_eq!(liquidity_wait(99, 100, 580), Some(590));
    assert_eq!(liquidity_wait(99, 100, 590), Some(MAX_LIQUIDITY_WAIT));
    assert_eq!(liquidity_wait(99, 100, 600), Some(MAX_LIQUIDITY_WAIT));
}

#[test]
fn networks_have_their_own_kinds() {
    let kinds: Vec<u16> = [
        Network::Bitcoin,
        Network::Signet,
        Network::Regtest,
        Network::Testnet,
        Network::Testnet4,
    ]
    .into_iter()
    .map(swap_kind)
    .collect();
    assert_eq!(kinds, vec![37778, 37779, 37780, 37781, 37782]);
}

#[test]
fn an_announcement_names_the_output() {
    let mut txid = [0u8; 32];
    txid[31] = 0x0a;
    let text = txid_text(&txid);
    assert_eq!(text, format!("0a{}", "0".repeat(62)));
    let outpoint = OutPoint { txid, vout: 12 };
    assert_eq!(announcement(&outpoint), format!("{}:12", text));
    assert_eq!(announcement_tag(&outpoint), format!("fidelity:{}:12", text));
    assert_eq!(expiration(100), 86_500);
    let made = bond_announcement(&outpoint, Network::Signet, 100).unwrap();
    assert_eq!(made.kind, 37779);
    assert_eq!(made.content, format!("{}:12", text));
    assert_eq!(made.identifier, format!("fidelity:{}:12", text));
    assert_eq!(made.expires, 86_500);
    let made = coinswap_announcement(&outpoint, 100).unwrap();
    assert_eq!(made.kind, 37778);
    assert_eq!(made.identifier, format!("fidelity:{}:12", text));
    assert!(coinswap_announcement(&outpoint, u64::MAX).is_err());
    assert!(matches!(
        bond_announcement(&outpoint, Network::Signet, u64::MAX),
        Err(MakerError::General("failed to create expiration time"))
    ));
}

#[test]
fn a_relay_has_a_host_and_a_port() {
    let at = |url| relay_address(url).unwrap();
    assert_eq!(at("wss://nos.lol"), ("nos.lol".to_string(), 443));
    assert_eq!(at("ws://relay.example/path"), ("relay.example".to_string(), 80));
    assert_eq!(at("ws://relay.example:7000"), ("relay.example".to_string(), 7000));
    assert_eq!(at("wss://me@relay.example:7000/"), ("relay.example".to_string(), 7000));
    for url in ["https://nos.lol", "nos.lol", "", "wss:// nos.lol", "/path", "wss://"] {
        assert!(matches!(
            relay_address(url),
            Err(MakerError::General("invalid relay url"))
        ));
    }
}

#[test]
fn a_relay_needs_a_scheme_and_a_host() {
    let parts = |scheme: Option<&str>, host: Option<&str>, port| {
        host_and_port(Some(UriParts {
            scheme: scheme.map(str::to_string),
            host: host.map(str::to_string),
            port,
        }))
    };
    let host = "h".to_string();
    assert_eq!(parts(Some("wss"), Some("h"), None).unwrap(), (host.clone(), 443));
    assert_eq!(parts(Some("ws"), Some("h"), None).unwrap(), (host.clone(), 80));
    assert_eq!(parts(Some("ws"), Some("h"), Some(7000)).unwrap(), (host, 7000));
    assert!(parts(Some("wss"), None, None).is_err());
    assert!(parts(Some("http"), Some("h"), None).is_err());
    assert!(parts(None, Some("h"), None).is_err());
    assert!(host_and_port(None).is_err());
}

#[test]
fn a_relay_confirms_an_event() {
    let id = "ab".repeat(32);
    assert!(text_confirms(&format!(r#"["OK","{id}",true,""]"#)).is_ok());
    for text in [
        format!(r#"["OK","{id}",false,"spam"]"#),
        r#"["NOTICE","true"]"#.to_string(),
        "no json".to_string(),
        String::new(),
    ] {
        assert!(matches!(
            text_confirms(&text),
            Err(MakerError::General("nostr relay did not confirm event"))
        ));
    }
    assert!(confirms(RelayReply::Status(true)).is_ok());
    assert!(confirms(RelayReply::Status(false)).is_err());
    assert!(confirms(RelayReply::Other).is_err());
}

#[test]
fn an_announcement_is_retried_at_each_relay() {
    let mut broadcast = Broadcast::begin(2);
    assert_eq!(
        broadcast.doing,
        BroadcastAction::Publish {
            relay: 0,
            attempt: 1
        }
    );
    for attempt in 2..=3 {
        assert_eq!(
            broadcast.step(BroadcastEvent::Published(false)),
            BroadcastAction::Pause
        );
        assert_eq!(
            broadcast.step(BroadcastEvent::Paused),
            BroadcastAction::Publish { relay: 0, attempt }
        );
    }
    assert_eq!(
        broadcast.step(BroadcastEvent::Published(false)),
        BroadcastAction::Publish {
            relay: 1,
            attempt: 1
        }
    );
    assert!(!broadcast.accepted);
    assert_eq!(
        broadcast.step(BroadcastEvent::Published(true)),
        BroadcastAction::Finish
    );
    assert!(broadcast.accepted);
    assert_eq!(Broadcast::begin(0).doing, BroadcastAction::Finish);
}

#[test]
fn an_announcement_can_be_stopped() {
    let mut broadcast = Broadcast::begin(3);
    assert_eq!(
        broadcast.step(BroadcastEvent::Stop),
        BroadcastAction::Finish
    );
    assert!(!broadcast.accepted);
}

fn details(id: &str) -> TakerToMakerMessage {
    TakerToMakerMessage::SwapDetails(SwapDetails {
        id: id.to_string(),
        amount: 10_000,
        no_of_tx: 1,
        timelock: 20,
    })
}

fn handover(id: &str) -> TakerToMakerMessage {
    TakerToMakerMessage::PrivateKeyHandover(PrivateKeyHandover {
        id: id.to_string(),
        secret_key: [5u8; 32],
    })
}

fn ack() -> Option<MakerToTakerMessage> {
    Some(MakerToTakerMessage::AckResponse(AckResponse {
        tweakable_point: None,
    }))
}

#[test]
fn a_message_finds_the_state_of_its_swap() {
    let mut swaps = OngoingSwapsV2::new();
    let offer = TakerToMakerMessage::GetOffer(GetOffer {
        id: "a".to_string(),
        protocol_version_min: 1,
        protocol_version_max: 1,
        number_of_transactions: 1,
    });
    assert!(swaps.state_for(&offer).is_ok());
    assert!(swaps.state_for(&details("a")).is_ok());
    assert!(matches!(
        swaps.state_for(&handover("a")),
        Err(MakerError::General("No connection state found"))
    ));
    let mut state = ConnectionState::default();
    state.swap_amount = 10_000;
    swaps.keep(&"a".to_string(), &state, &ack(), 0);
    assert!(matches!(
        swaps.state_for(&details("a")),
        Err(MakerError::General(
            "Protocol violation: Found duplicate Swap Details message"
        ))
    ));
    assert_eq!(swaps.state_for(&handover("a")).unwrap().swap_amount, 10_000);
}

fn with_contracts(n: u8) -> ConnectionState {
    let mut state = ConnectionState::default();
    state.incoming_contract.contract_txid = Some([n; 32]);
    state.outgoing_contract.contract_tx = Transaction {
        version: 2,
        lock_time: n as u32,
        input: vec![],
        output: vec![TxOut {
            value: 1,
            script_pubkey: vec![0x51],
        }],
    };
    state.reserve_utxo = vec![point(n)];
    state
}

#[test]
fn exchanged_contracts_are_watched() {
    let mut swaps = OngoingSwapsV2::new();
    swaps.keep(&"a".to_string(), &with_contracts(1), &ack(), 0);
    swaps.keep(&"b".to_string(), &ConnectionState::default(), &ack(), 0);
    swaps.keep(&"c".to_string(), &with_contracts(3), &ack(), 0);
    let watched = swaps.watched_contracts();
    assert_eq!(watched.len(), 2);
    assert_eq!(watched[0].swap_id, "a");
    assert_eq!(
        watched[0].incoming,
        OutPoint {
            txid: [1u8; 32],
            vout: 0
        }
    );
    assert_ne!(watched[0].outgoing.txid, watched[1].outgoing.txid);
    assert_eq!(swaps.excluded_utxos("a"), vec![point(3)]);
    let broken = swaps.take_broken("a").unwrap();
    assert!(broken.contracts.is_some());
    assert!(swaps.take_broken("a").is_none());
}

#[test]
fn silent_swaps_are_dropped() {
    let mut swaps = OngoingSwapsV2::new();
    swaps.keep(&"a".to_string(), &with_contracts(1), &ack(), 0);
    swaps.keep(&"b".to_string(), &ConnectionState::default(), &ack(), 1);
    assert!(swaps.take_idle(IDLE_CONNECTION_TIMEOUT).is_none());
    let dropped = swaps.take_idle(IDLE_CONNECTION_TIMEOUT + 1).unwrap();
    assert_eq!(dropped.swap_id, "a");
    assert!(dropped.contracts.is_some());
    assert!(swaps.take_idle(IDLE_CONNECTION_TIMEOUT + 1).is_none());
    let dropped = swaps.take_idle(IDLE_CONNECTION_TIMEOUT + 2).unwrap();
    assert_eq!(dropped.swap_id, "b");
    assert!(dropped.contracts.is_none());
    assert!(swaps.is_empty());
}

#[test]
fn a_handover_completes_a_swap() {
    let mut swaps = OngoingSwapsV2::new();
    let state = with_contracts(1);
    swaps.keep(&"a".to_string(), &state, &ack(), 0);
    let sent = MakerToTakerMessage::PrivateKeyHandover(PrivateKeyHandover {
        id: "a".to_string(),
        secret_key: [5u8; 32],
    });
    assert!(swaps.complete("a", &state, &ack().unwrap()).is_none());
    assert!(!swaps.is_empty());
    assert!(swaps.complete("a", &state, &sent).is_some());
    assert!(swaps.is_empty());
}

#[test]
fn contracts_on_the_chain_break_a_swap_off() {
    assert!(!is_broken_off(false, false));
    assert!(is_broken_off(true, false));
    assert!(is_broken_off(false, true));
}

#[test]
fn a_due_fidelity_check_waits_for_the_swaps() {
    assert_eq!(beats_between(600, 3), 200);
    assert_eq!(fidelity_check(200, 200, false), (false, 200));
    assert_eq!(fidelity_check(200, 200, true), (true, 201));
    assert_eq!(fidelity_check(201, 200, true), (false, 202));
}

#[test]
fn a_new_bond_is_announced_at_once() {
    let mut announcer = Announcer::new();
    assert!(!announcer.is_due(None));
    assert!(announcer.is_due(Some(point(1))));
    assert!(!announcer.is_due(Some(point(1))));
    assert!(announcer.is_due(Some(point(2))));
    for _ in 0..900 {
        announcer.tick();
    }
    assert!(announcer.is_due(Some(point(2))));
}

#[test]
fn a_stop_while_waiting_for_funds_follows_the_policy() {
    let waiting = |policy, proof| {
        let mut setup = BondSetup::begin(policy, 10_000, 15_000, proof);
        if policy.adopt_pending {
            setup.step(BondEvent::Pending(None)).unwrap();
        }
        setup.step(BondEvent::Highest(None, 0)).unwrap();
        setup.step(BondEvent::Tip(100)).unwrap();
        setup.step(BondEvent::Shutdown(false)).unwrap();
        let fault = WalletFault::InsufficientFund {
            available: 4_000,
            required: 10_000,
        };
        setup.step(BondEvent::Failed(fault)).unwrap();
        setup
    };
    assert!(matches!(
        waiting(maker_policy(), Some(proof_of(1))).step(BondEvent::Waited(true)),
        Err(MakerError::General("Shutdown requested"))
    ));
    let mut unified = waiting(unified_policy(), Some(proof_of(1)));
    assert_eq!(
        unified.step(BondEvent::Waited(true)).unwrap(),
        BondAction::CheckShutdown
    );
    assert_eq!(
        unified.step(BondEvent::Shutdown(true)).unwrap(),
        BondAction::Finish
    );
    assert_eq!(unified.finish().unwrap().cert_hash, [1u8; 32]);
    let mut taproot = waiting(taproot_policy(), None);
    assert_eq!(
        taproot.step(BondEvent::Waited(true)).unwrap(),
        BondAction::CheckShutdown
    );
    assert!(matches!(
        taproot.step(BondEvent::Shutdown(true)),
        Err(MakerError::General("Failed to create fidelity bond due to shutdown"))
    ));
}
