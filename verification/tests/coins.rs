use openswap_maker::chain::{Transaction, TxOut};
use openswap_maker::error::MakerError;
use openswap_maker::maker::handlers::ConnectionState;
use openswap_maker::maker::legacy_verification::{
    verify_contract_sigs, verify_legacy_privkey_handover, SignatureCheck,
};
use openswap_maker::maker::server::{after_handling, group_by_swap, ConnectionLimiter};
use openswap_maker::maker::swapcoin::{
    has_unfinished_outgoing_swapcoin, IncomingSwapCoin, OutgoingSwapCoin,
};
use openswap_maker::maker::taproot_verification::verify_taproot_privkey_handover;
use openswap_maker::protocol::common_messages::{ProtocolVersion, SwapPrivkey};
use openswap_maker::protocol::error::ProtocolError;

fn key_of(secret: [u8; 32]) -> [u8; 33] {
    let secp = bitcoin::secp256k1::Secp256k1::new();
    let secret = bitcoin::secp256k1::SecretKey::from_slice(&secret).unwrap();
    bitcoin::secp256k1::PublicKey::from_secret_key(&secp, &secret).serialize()
}

fn contract_tx() -> Transaction {
    Transaction {
        version: 2,
        lock_time: 0,
        input: vec![],
        output: vec![TxOut {
            value: 1,
            script_pubkey: vec![0x51],
        }],
    }
}

fn incoming(swap_id: Option<&str>) -> IncomingSwapCoin {
    IncomingSwapCoin {
        protocol: ProtocolVersion::Legacy,
        swap_id: swap_id.map(|id| id.to_string()),
        my_privkey: None,
        my_pubkey: Some(key_of([1u8; 32])),
        other_pubkey: Some(key_of([2u8; 32])),
        other_privkey: None,
        contract_tx: contract_tx(),
        multisig_redeemscript: None,
        contract_redeemscript: None,
        hashvalue: None,
        hashlock_privkey: [3u8; 32],
        funding_amount: 1,
        others_contract_sig: None,
        hash_preimage: None,
        hashlock_script: None,
        timelock_script: None,
        internal_key: None,
        tap_tweak: None,
    }
}

fn outgoing(swap_id: Option<&str>) -> OutgoingSwapCoin {
    OutgoingSwapCoin {
        protocol: ProtocolVersion::Legacy,
        swap_id: swap_id.map(|id| id.to_string()),
        my_privkey: None,
        my_pubkey: Some(key_of([1u8; 32])),
        other_pubkey: Some(key_of([2u8; 32])),
        contract_tx: contract_tx(),
        contract_vout: 0,
        funding_tx: None,
        multisig_redeemscript: None,
        contract_redeemscript: None,
        timelock_privkey: [4u8; 32],
        timelock: Some(100),
        funding_amount: 1,
        others_contract_sig: None,
        hashlock_script: None,
        timelock_script: None,
        internal_key: None,
        tap_tweak: None,
    }
}

fn handed_over(byte: u8) -> Vec<SwapPrivkey> {
    vec![SwapPrivkey {
        identifier: vec![],
        key: [byte; 32],
    }]
}

fn check(signature: u8, valid: Result<(), ProtocolError>) -> Vec<SignatureCheck> {
    let bare = bitcoin::Transaction {
        version: bitcoin::transaction::Version::TWO,
        lock_time: bitcoin::absolute::LockTime::ZERO,
        input: vec![],
        output: vec![bitcoin::TxOut {
            value: bitcoin::Amount::from_sat(1),
            script_pubkey: bitcoin::ScriptBuf::from_bytes(vec![0x51]),
        }],
    };
    vec![SignatureCheck {
        signature: vec![signature],
        contract: *AsRef::<[u8; 32]>::as_ref(&bare.compute_txid()),
        funding_amount: 1,
        my_pubkey: key_of([1u8; 32]),
        other_pubkey: key_of([2u8; 32]),
        valid,
    }]
}

fn verify(
    receivers: &Vec<SignatureCheck>,
    senders: &Vec<SignatureCheck>,
    coins_in: &Vec<IncomingSwapCoin>,
    coins_out: &Vec<OutgoingSwapCoin>,
) -> Result<(), MakerError> {
    verify_contract_sigs(&vec![vec![7]], &vec![vec![8]], receivers, senders, coins_in, coins_out)
}

#[test]
fn contract_signatures_are_accepted_where_each_is_valid() {
    let (coins_in, coins_out) = (vec![incoming(None)], vec![outgoing(None)]);
    let good = |signature| check(signature, Ok(()));
    let bad = |signature| check(signature, Err(ProtocolError::General("bad")));
    verify(&good(7), &good(8), &coins_in, &coins_out).unwrap();
    let failed = verify(&bad(7), &good(8), &coins_in, &coins_out).unwrap_err();
    assert!(matches!(
        failed,
        MakerError::ItemContract {
            what: "Receiver signature {} verification failed: {}",
            index: 0,
            cause: ProtocolError::General("bad"),
        }
    ));
    assert_eq!(
        failed.description().unwrap(),
        "Receiver signature 0 verification failed: General(\"bad\")"
    );
    assert!(matches!(
        verify(&good(7), &bad(8), &coins_in, &coins_out),
        Err(MakerError::ItemContract {
            what: "Sender signature {} verification failed: {}",
            index: 0,
            cause: ProtocolError::General("bad"),
        })
    ));
}

#[test]
fn a_signature_check_is_of_its_own_coin() {
    let (coins_in, coins_out) = (vec![incoming(None)], vec![outgoing(None)]);
    let good = |signature| check(signature, Ok(()));
    let another = |result: Result<(), MakerError>| {
        matches!(
            result,
            Err(MakerError::ItemContract {
                index: 0,
                cause: ProtocolError::General("Signature was held against another coin"),
                ..
            })
        )
    };
    assert!(another(verify(&good(8), &good(8), &coins_in, &coins_out)));
    assert!(another(verify(&good(7), &good(7), &coins_in, &coins_out)));
    let mut other = good(7);
    other[0].contract = [0u8; 32];
    assert!(another(verify(&other, &good(8), &coins_in, &coins_out)));
    let mut other = good(7);
    other[0].other_pubkey = key_of([9u8; 32]);
    assert!(another(verify(&other, &good(8), &coins_in, &coins_out)));
    let mut other = good(8);
    other[0].funding_amount = 2;
    assert!(another(verify(&good(7), &other, &coins_in, &coins_out)));
    assert!(matches!(
        verify(&good(7), &vec![], &coins_in, &coins_out),
        Err(MakerError::ItemContract {
            cause: ProtocolError::General("Signature was not checked"),
            ..
        })
    ));
}

#[test]
fn contract_signatures_need_both_keys() {
    let mut coin = incoming(None);
    coin.my_pubkey = None;
    assert!(matches!(
        verify(&check(7, Ok(())), &vec![], &vec![coin], &vec![]),
        Err(MakerError::General("Incoming swapcoin missing my_pubkey"))
    ));
    let mut coin = outgoing(None);
    coin.other_pubkey = None;
    assert!(matches!(
        verify(&vec![], &check(8, Ok(())), &vec![], &vec![coin]),
        Err(MakerError::General(
            "Outgoing swapcoin missing other_pubkey for signature verification"
        ))
    ));
}

#[test]
fn handed_over_keys_are_those_of_the_coins() {
    let coins = vec![incoming(None)];
    verify_legacy_privkey_handover(&handed_over(2), &coins).unwrap();
    verify_taproot_privkey_handover(&handed_over(2), &coins).unwrap();
    assert!(matches!(
        verify_legacy_privkey_handover(&handed_over(5), &coins),
        Err(MakerError::General(
            "Privkey derives pubkey that doesn't match expected other_pubkey"
        ))
    ));
    assert!(verify_taproot_privkey_handover(&handed_over(5), &coins).is_err());
}

#[test]
fn each_coin_gets_one_key() {
    let coins = vec![incoming(None), incoming(None)];
    assert!(matches!(
        verify_legacy_privkey_handover(&handed_over(2), &coins),
        Err(MakerError::CountMismatch {
            first: 1,
            second: 2,
            ..
        })
    ));
    assert!(matches!(
        verify_taproot_privkey_handover(&handed_over(2), &coins),
        Err(MakerError::CountMismatch {
            first: 1,
            second: 2,
            ..
        })
    ));
    let mut coin = incoming(None);
    coin.other_pubkey = None;
    assert!(matches!(
        verify_legacy_privkey_handover(&handed_over(2), &vec![coin]),
        Err(MakerError::General(
            "Missing other_pubkey on incoming swapcoin during handover verification"
        ))
    ));
}

#[test]
fn coins_are_grouped_by_their_swap() {
    let groups = group_by_swap(
        vec![incoming(Some("a")), incoming(Some("b")), incoming(Some("a"))],
        vec![outgoing(Some("c")), outgoing(Some("b"))],
    )
    .unwrap();
    assert_eq!(groups.len(), 3);
    for i in 0..3 {
        let group = groups.value_at(i);
        let expected = match groups.key_at(i).as_str() {
            "a" => (2, 0),
            "b" => (1, 1),
            "c" => (0, 1),
            other => panic!("unexpected swap {other}"),
        };
        assert_eq!((group.incoming.len(), group.outgoing.len()), expected);
    }
}

#[test]
fn coins_of_no_swap_are_not_grouped() {
    assert!(matches!(
        group_by_swap(vec![incoming(None)], vec![]),
        Err(MakerError::General(
            "Persisted incoming swapcoin missing swap id"
        ))
    ));
    assert!(matches!(
        group_by_swap(vec![], vec![outgoing(Some("a")), outgoing(None)]),
        Err(MakerError::General(
            "Persisted outgoing swapcoin missing swap id"
        ))
    ));
}

#[test]
fn unfinished_coins_are_found_by_their_swap() {
    let coins = vec![outgoing(None), outgoing(Some("a"))];
    assert!(has_unfinished_outgoing_swapcoin(&coins, "a"));
    assert!(!has_unfinished_outgoing_swapcoin(&coins, "b"));
    assert!(!has_unfinished_outgoing_swapcoin(&vec![], "a"));
}

#[test]
fn a_handled_message_establishes_a_swap() {
    let mut limiter = ConnectionLimiter::new(0);
    let mut permit = limiter.try_acquire(0).unwrap();
    let tokens = limiter.tokens_left();
    let mut state = ConnectionState::new(ProtocolVersion::Legacy, 0);
    after_handling(&mut state, &mut permit, &mut limiter, 5);
    assert_eq!(state.last_activity, 5);
    assert!(permit.is_pending());
    assert_eq!(limiter.counts(), (1, 1));
    state.swap_id = Some("a".to_string());
    after_handling(&mut state, &mut permit, &mut limiter, 7);
    assert_eq!(state.last_activity, 7);
    assert!(!permit.is_pending());
    assert_eq!(limiter.counts(), (1, 0));
    assert_eq!(limiter.tokens_left(), tokens);
}
