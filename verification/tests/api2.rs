use bitcoin::secp256k1::{PublicKey, Secp256k1, SecretKey};
use openswap_maker::chain::{OutPoint, Transaction, TxOut};
use openswap_maker::error::MakerError;
use openswap_maker::maker::api2::{
    build_outgoing_contract, check_funds, create_offer, create_unsigned_spending_tx,
    finish_handover, finish_senders_contract, name_contracts, outgoing_contract_amount,
    prepare_sweep, read_tweak, sign_jointly, sign_sweep, signing_order, sweep_contract,
    take_senders_contract, take_swap_details, validate_swap_parameters, ConnectionState, BASE_FEE, MIN_CONTRACT_REACTION_TIME,
};
use openswap_maker::protocol::common_messages::{FidelityBond, FidelityProof, RateBits};
use openswap_maker::protocol::contract2::{
    calculate_contract_sighash, create_hashlock_script, create_taproot_script,
    create_timelock_script, extract_hash_from_hashlock,
};
use openswap_maker::protocol::error::ProtocolError;
use openswap_maker::protocol::messages2::{
    PrivateKeyHandover, SendersContract, SerializableScalar, SwapDetails,
};
use openswap_maker::protocol::musig2::get_aggregated_pubkey;

fn key(byte: u8) -> [u8; 33] {
    let secret = SecretKey::from_slice(&[byte; 32]).unwrap();
    PublicKey::from_secret_key(&Secp256k1::new(), &secret).serialize()
}

fn x(byte: u8) -> [u8; 32] {
    let mut out = [0u8; 32];
    out.copy_from_slice(&key(byte)[1..]);
    out
}

fn contract_tx(value: u64) -> Transaction {
    Transaction {
        version: 2,
        lock_time: 0,
        input: vec![],
        output: vec![TxOut {
            value,
            script_pubkey: vec![0x51],
        }],
    }
}

fn details(amount: u64, timelock: u16, no_of_tx: u8) -> SwapDetails {
    SwapDetails {
        id: "swap".to_string(),
        amount,
        no_of_tx,
        timelock,
    }
}

fn senders_contract() -> SendersContract {
    SendersContract {
        id: "swap".to_string(),
        contract_txs: vec![[3u8; 32]],
        pubkeys_a: vec![key(5)],
        hashlock_scripts: vec![create_hashlock_script(&[7u8; 32], &x(1))],
        timelock_scripts: vec![create_timelock_script(40, &x(5))],
        next_party_tweakable_point: key(6),
        internal_key: get_aggregated_pubkey(&key(1), &key(5)),
        tap_tweak: Some(SerializableScalar(vec![8u8; 32])),
    }
}

fn fidelity() -> FidelityProof {
    FidelityProof {
        bond: FidelityBond {
            bond_index: 7,
            outpoint: OutPoint {
                txid: [1u8; 32],
                vout: 0,
            },
            amount: 10_000,
            lock_time: 1_000,
            pubkey: key(9),
            conf_height: Some(10),
            is_spent: false,
        },
        cert_hash: [5u8; 32],
        cert_sig: vec![1],
    }
}

/// A state in which the sender's contract has been taken over.
fn received() -> ConnectionState {
    let mut state = ConnectionState::default();
    take_swap_details(&mut state, &details(50_000, 20, 1), [1u8; 32], key(1), 60_000).unwrap();
    let message = senders_contract();
    let tweak = read_tweak(&message).unwrap();
    take_senders_contract(&mut state, &message, tweak, contract_tx(50_000));
    state
}

#[test]
fn an_offer_needs_a_fidelity_proof() {
    let mut state = ConnectionState::default();
    assert!(matches!(
        create_offer(&mut state, [1u8; 32], key(1), 70_000, None, RateBits(1), RateBits(2)),
        Err(MakerError::General("No fidelity proof available"))
    ));
    assert_eq!(state.incoming_contract.my_privkey, Some([1u8; 32]));
}

#[test]
fn an_offer_names_the_terms() {
    let mut state = ConnectionState::default();
    let offer = create_offer(
        &mut state,
        [1u8; 32],
        key(1),
        70_000,
        Some(fidelity()),
        RateBits(1),
        RateBits(2),
    )
    .unwrap();
    assert_eq!(offer.tweakable_point, key(1));
    assert_eq!(offer.base_fee, BASE_FEE);
    assert_eq!(offer.minimum_locktime, MIN_CONTRACT_REACTION_TIME);
    assert_eq!((offer.min_size, offer.max_size), (10_000, 70_000));
    assert_eq!(state.incoming_contract.my_pubkey, Some(key(1)));
}

#[test]
fn proposed_details_are_validated() {
    let check = |amount, timelock, count| {
        validate_swap_parameters(&details(amount, timelock, count), 60_000)
    };
    assert!(check(10_000, 20, 1).is_ok());
    assert!(check(60_000, 20, 10).is_ok());
    assert!(matches!(
        check(9_999, 20, 1),
        Err(MakerError::General("Swap amount below minimum"))
    ));
    assert!(matches!(
        check(60_001, 20, 1),
        Err(MakerError::General("Insufficient liquidity"))
    ));
    assert!(matches!(
        check(10_000, 19, 1),
        Err(MakerError::General("Timelock too short"))
    ));
    for count in [0, 11] {
        assert!(matches!(
            check(10_000, 20, count),
            Err(MakerError::General("Invalid transaction count"))
        ));
    }
}

#[test]
fn rejected_details_change_no_terms() {
    let mut state = ConnectionState::default();
    assert!(
        take_swap_details(&mut state, &details(1, 20, 1), [1u8; 32], key(1), 60_000).is_err()
    );
    assert_eq!((state.swap_amount, state.timelock), (0, 0));
    assert_eq!(state.incoming_contract.my_privkey, Some([1u8; 32]));
}

#[test]
fn a_tweak_must_be_a_scalar() {
    let mut message = senders_contract();
    message.tap_tweak = Some(SerializableScalar(vec![0xffu8; 32]));
    assert!(matches!(
        read_tweak(&message),
        Err(ProtocolError::ScalarOutOfRange)
    ));
    message.tap_tweak = None;
    assert_eq!(read_tweak(&message).unwrap(), None);
}

#[test]
fn a_senders_contract_is_taken_over() {
    let state = received();
    assert_eq!(state.incoming_contract.contract_txid, Some([3u8; 32]));
    assert_eq!(state.incoming_contract.other_pubkey, Some(key(5)));
    assert_eq!(state.incoming_contract.funding_amount, 50_000);
    assert_eq!(state.incoming_contract.tap_tweak, Some([8u8; 32]));
    assert_eq!(state.outgoing_contract.other_pubkey, Some(key(6)));
}

#[test]
fn the_outgoing_contract_has_the_hash_of_the_incoming_one() {
    let mut state = received();
    let script = build_outgoing_contract(&mut state, 1, [2u8; 32], key(2)).unwrap();
    assert_eq!(script.len(), 34);
    assert_eq!(
        extract_hash_from_hashlock(&state.outgoing_contract.hashlock_script).unwrap(),
        [7u8; 32]
    );
    assert_eq!(
        state.outgoing_contract.hashlock_script,
        create_hashlock_script(&[7u8; 32], &x(6))
    );
    assert_eq!(
        state.outgoing_contract.timelock_script,
        create_timelock_script(20, &x(2))
    );
    assert_eq!(
        state.outgoing_contract.internal_key,
        get_aggregated_pubkey(&key(2), &key(6))
    );
}

#[test]
fn an_outgoing_contract_can_fail() {
    let mut state = received();
    assert!(matches!(
        build_outgoing_contract(&mut state, 2, [2u8; 32], key(2)),
        Err(MakerError::General("Expected exactly one contract transaction"))
    ));
    assert!(matches!(
        build_outgoing_contract(&mut state, 1, [0u8; 32], key(2)),
        Err(MakerError::Secp)
    ));
    assert!(matches!(
        build_outgoing_contract(&mut state, 1, [2u8; 32], [0u8; 33]),
        Err(MakerError::Protocol(ProtocolError::Secp))
    ));
    state.incoming_contract.hashlock_script = vec![];
    assert!(matches!(
        build_outgoing_contract(&mut state, 1, [2u8; 32], key(2)),
        Err(MakerError::Protocol(ProtocolError::General(
            "Invalid hashlock script format"
        )))
    ));
    state.outgoing_contract.other_pubkey = None;
    assert!(matches!(
        build_outgoing_contract(&mut state, 1, [2u8; 32], key(2)),
        Err(MakerError::General("other pubkey not found"))
    ));
}

#[test]
fn the_swap_must_be_funded() {
    let state = received();
    assert!(check_funds(&state, 50_000).is_ok());
    assert!(matches!(
        check_funds(&state, 49_999),
        Err(MakerError::General("Insufficient funds for swap"))
    ));
    assert_eq!(outgoing_contract_amount(50_000, 700), 49_300);
}

#[test]
fn the_maker_answers_with_its_contract() {
    let mut state = received();
    build_outgoing_contract(&mut state, 1, [2u8; 32], key(2)).unwrap();
    let tx = contract_tx(49_300);
    let txid = bitcoin::Transaction {
        version: bitcoin::transaction::Version(2),
        lock_time: bitcoin::absolute::LockTime::ZERO,
        input: vec![],
        output: vec![bitcoin::TxOut {
            value: bitcoin::Amount::from_sat(49_300),
            script_pubkey: bitcoin::ScriptBuf::from_bytes(vec![0x51]),
        }],
    }
    .compute_txid();
    let txid = bitcoin::hashes::Hash::to_byte_array(txid);
    let answer = finish_senders_contract(&mut state, tx, 49_300, 50_000, &vec![0x51]).unwrap();
    assert_eq!(answer.contract_txs, vec![txid]);
    assert_eq!(answer.pubkeys_a, vec![key(2)]);
    assert_eq!(
        answer.hashlock_scripts,
        vec![state.outgoing_contract.hashlock_script.clone()]
    );
    assert_eq!(answer.internal_key, state.outgoing_contract.internal_key);
    assert_eq!(
        answer.tap_tweak.unwrap().0,
        state.outgoing_contract.tap_tweak.unwrap().to_vec()
    );
    assert_eq!(state.outgoing_contract.funding_amount, 49_300);
}

#[test]
fn no_answer_without_a_contract_to_sign_for() {
    let mut state = received();
    build_outgoing_contract(&mut state, 1, [2u8; 32], key(2)).unwrap();
    state.incoming_contract.internal_key = Some([0xffu8; 32]);
    assert!(matches!(
        finish_senders_contract(&mut state, contract_tx(1), 1, 50_000, &vec![0x51]),
        Err(MakerError::General("Failed to calculate sighash"))
    ));
    state.incoming_contract.internal_key = None;
    assert!(matches!(
        finish_senders_contract(&mut state, contract_tx(1), 1, 50_000, &vec![0x51]),
        Err(MakerError::General("internal key not found"))
    ));
    state.incoming_contract.contract_txid = None;
    assert!(matches!(
        finish_senders_contract(&mut state, contract_tx(1), 1, 50_000, &vec![0x51]),
        Err(MakerError::General("contract txid not found"))
    ));
}

#[test]
fn a_sweep_pays_the_contract_less_the_fee() {
    let tx = create_unsigned_spending_tx([3u8; 32], 50_000, &vec![0x51]);
    assert_eq!(tx.output[0].value, 49_000);
    assert_eq!(
        tx.input[0].previous_output,
        OutPoint {
            txid: [3u8; 32],
            vout: 0
        }
    );
}

#[test]
fn keys_sign_in_lexicographic_order() {
    let (first, second) = if key(1) < key(2) {
        (key(1), key(2))
    } else {
        (key(2), key(1))
    };
    let order = signing_order(&first, &second);
    assert_eq!((order.first, order.second, order.mine_first), (first, second, true));
    let order = signing_order(&second, &first);
    assert_eq!((order.first, order.second, order.mine_first), (first, second, false));
}

#[test]
fn a_sweep_is_prepared_and_signed() {
    let state = received();
    let contract = &state.incoming_contract;
    let tx = create_unsigned_spending_tx([3u8; 32], 50_000, &vec![0x51]);
    let expected = calculate_contract_sighash(
        &tx,
        50_000,
        &contract.hashlock_script,
        &contract.timelock_script,
        &contract.internal_key.unwrap(),
    )
    .unwrap();
    let sweep = prepare_sweep(contract, tx, 50_000).unwrap();
    assert_eq!(sweep.hash, expected);
    assert_eq!(sweep.my_privkey, [1u8; 32]);
    assert_eq!(sweep.tap_tweak, [8u8; 32]);
    let signed = sign_sweep(sweep.tx, &[6u8; 64]).unwrap();
    assert_eq!(signed.input[0].witness, vec![vec![6u8; 64]]);
    let mut empty = contract_tx(1);
    empty.input.clear();
    assert!(matches!(
        sign_sweep(empty, &[6u8; 64]),
        Err(MakerError::General("Failed to access witness for signing"))
    ));
}

/// A contract that the keys of [1; 32] and [5; 32] can spend together, and its
/// output key.
fn joint_contract() -> (ConnectionState, [u8; 32]) {
    let mut state = received();
    let contract = &mut state.incoming_contract;
    let (_, output) = create_taproot_script(
        &contract.hashlock_script,
        &contract.timelock_script,
        &contract.internal_key.unwrap(),
    )
    .unwrap();
    contract.tap_tweak = Some(output.tap_tweak);
    (state, output.output_key)
}

fn is_valid(signature: &[u8], hash: [u8; 32], output_key: [u8; 32]) -> bool {
    Secp256k1::verification_only()
        .verify_schnorr(
            &bitcoin::secp256k1::schnorr::Signature::from_slice(signature).unwrap(),
            &bitcoin::secp256k1::Message::from_digest(hash),
            &bitcoin::secp256k1::XOnlyPublicKey::from_slice(&output_key).unwrap(),
        )
        .is_ok()
}

#[test]
fn the_key_handed_over_makes_the_sweep_valid() {
    let (state, output_key) = joint_contract();
    let tx = || create_unsigned_spending_tx([3u8; 32], 50_000, &vec![0x51]);
    let hash = prepare_sweep(&state.incoming_contract, tx(), 50_000).unwrap().hash;
    let signed = sweep_contract(&state.incoming_contract, tx(), 50_000, &[5u8; 32]).unwrap();
    assert!(is_valid(&signed.input[0].witness[0], hash, output_key));
    let forged = sweep_contract(&state.incoming_contract, tx(), 50_000, &[6u8; 32]).unwrap();
    assert!(!is_valid(&forged.input[0].witness[0], hash, output_key));
}

#[test]
fn either_order_of_keys_signs() {
    let (mut state, _) = joint_contract();
    let tx = || create_unsigned_spending_tx([3u8; 32], 50_000, &vec![0x51]);
    for (mine, other) in [(1u8, 5u8), (5u8, 1u8)] {
        let contract = &mut state.incoming_contract;
        contract.my_privkey = Some([mine; 32]);
        contract.other_pubkey = Some(key(other));
        let (_, output) = create_taproot_script(
            &contract.hashlock_script,
            &contract.timelock_script,
            &contract.internal_key.unwrap(),
        )
        .unwrap();
        let sweep = prepare_sweep(contract, tx(), 50_000).unwrap();
        let signature = sign_jointly(&sweep, &[other; 32]).unwrap();
        assert!(is_valid(&signature, sweep.hash, output.output_key));
    }
}

#[test]
fn a_joint_signature_can_fail() {
    let (state, _) = joint_contract();
    let tx = create_unsigned_spending_tx([3u8; 32], 50_000, &vec![0x51]);
    let mut sweep = prepare_sweep(&state.incoming_contract, tx, 50_000).unwrap();
    assert!(matches!(sign_jointly(&sweep, &[0u8; 32]), Err(MakerError::Secp)));
    sweep.order.second = [0u8; 33];
    assert!(matches!(
        sign_jointly(&sweep, &[5u8; 32]),
        Err(MakerError::Protocol(ProtocolError::Secp))
    ));
    sweep.tap_tweak = [0xffu8; 32];
    assert!(matches!(
        sign_jointly(&sweep, &[5u8; 32]),
        Err(MakerError::Protocol(ProtocolError::ScalarOutOfRange))
    ));
}

#[test]
fn a_sweep_needs_every_part() {
    let tx = || create_unsigned_spending_tx([3u8; 32], 50_000, &vec![0x51]);
    let fails = |change: fn(&mut ConnectionState)| {
        let mut state = received();
        change(&mut state);
        prepare_sweep(&state.incoming_contract, tx(), 50_000).unwrap_err()
    };
    assert!(matches!(
        fails(|s| s.incoming_contract.my_privkey = None),
        MakerError::General("private key not found")
    ));
    assert!(matches!(
        fails(|s| s.incoming_contract.my_privkey = Some([0u8; 32])),
        MakerError::Secp
    ));
    assert!(matches!(
        fails(|s| s.incoming_contract.tap_tweak = None),
        MakerError::General("tap tweak not found")
    ));
    assert!(matches!(
        fails(|s| s.incoming_contract.internal_key = None),
        MakerError::General("internal key not found")
    ));
    assert!(matches!(
        fails(|s| s.incoming_contract.internal_key = Some([0xffu8; 32])),
        MakerError::General("Failed to calculate sighash")
    ));
    assert!(matches!(
        fails(|s| s.incoming_contract.other_pubkey = None),
        MakerError::General("other pubkey not found")
    ));
}

#[test]
fn keys_are_exchanged() {
    let mut state = received();
    let handover = PrivateKeyHandover {
        id: "swap".to_string(),
        secret_key: [5u8; 32],
    };
    assert!(matches!(
        finish_handover(&mut state, &handover),
        Err(MakerError::General("private key not found"))
    ));
    state.outgoing_contract.my_privkey = Some([2u8; 32]);
    let answer = finish_handover(&mut state, &handover).unwrap();
    assert_eq!(answer.secret_key, [2u8; 32]);
    assert_eq!(answer.id, "swap");
    assert_eq!(state.incoming_contract.other_privkey, Some([5u8; 32]));
}

#[test]
fn contracts_are_named_after_their_swap() {
    let mut state = ConnectionState::default();
    let txid = openswap_maker::maker::nostr::txid_text(
        &state.incoming_contract.contract_tx.compute_txid(),
    );
    let nanos = 1_700_000_000_000_000_000_123u128;
    name_contracts(&mut state, nanos);
    let name = format!("{nanos}-{txid}");
    assert_eq!(state.incoming_contract.swap_id, Some(name.clone()));
    assert_eq!(state.outgoing_contract.swap_id, Some(name));
}
