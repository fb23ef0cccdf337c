use bitcoin::secp256k1::{PublicKey, Scalar, Secp256k1, SecretKey};
use openswap_maker::chain::{Network, OutPoint, Transaction, TxIn, TxOut};
use openswap_maker::protocol::common_messages::{
    AckSwapDetails, GetOffer, PrivateKeyHandover, ProtocolVersion, SwapDetails, TakerHello,
};
use openswap_maker::protocol::contract2::{
    calculate_contract_sighash, check_taproot_hashlock_has_pubkey, create_hashlock_script,
    create_taproot_script, create_timelock_script, extract_hash_from_hashlock, p2tr_script, x_only,
};
use openswap_maker::protocol::error::ProtocolError;
use openswap_maker::protocol::legacy_messages::{LegacyTakerMessage, ReqContractSigsForSender};
use openswap_maker::protocol::messages2::TakerToMakerMessage as TaprootMessage;
use openswap_maker::protocol::messages2::{self};
use openswap_maker::primitives::SigningSession;
use openswap_maker::protocol::musig2::{get_aggregated_pubkey, key_before};
use openswap_maker::protocol::musig_interface::{
    aggregate_partial_signatures_compat, generate_new_nonce_pair_compat,
    generate_partial_signature_compat, get_aggregated_nonce_compat, get_aggregated_pubkey_compat,
};
use openswap_maker::protocol::router::{Route, TakerToMakerMessage};
use openswap_maker::protocol::taproot::{
    create_claim_tx, create_hashlock_witness, create_refund_tx, create_timelock_witness,
    hashlock_witness, timelock_witness, validate_hashlock, validate_timelock, CoinSwapTaproot,
};
use openswap_maker::protocol::taproot_messages::{SerializableScalar, TaprootTakerMessage};

fn secret(byte: u8) -> SecretKey {
    SecretKey::from_slice(&[byte; 32]).unwrap()
}

fn public(byte: u8) -> PublicKey {
    PublicKey::from_secret_key(&Secp256k1::new(), &secret(byte))
}

fn key(byte: u8) -> [u8; 33] {
    public(byte).serialize()
}

fn x(byte: u8) -> [u8; 32] {
    public(byte).x_only_public_key().0.serialize()
}

fn point() -> OutPoint {
    OutPoint {
        txid: [4u8; 32],
        vout: 3,
    }
}

#[test]
fn the_hash_of_a_hashlock_is_read_back() {
    let script = create_hashlock_script(&[7u8; 32], &x(2));
    assert_eq!(extract_hash_from_hashlock(&script).unwrap(), [7u8; 32]);
}

#[test]
fn other_scripts_have_no_hash() {
    assert!(matches!(
        extract_hash_from_hashlock(&[0xa8, 1, 7]),
        Err(ProtocolError::General("Invalid hashlock script format"))
    ));
    assert!(matches!(
        extract_hash_from_hashlock(&create_timelock_script(100, &x(2))),
        Err(ProtocolError::General(
            "Failed to extract hash from hashlock script"
        ))
    ));
}

#[test]
fn a_hashlock_names_the_key_of_the_nonce() {
    let nonce = [5u8; 32];
    let expected = public(1)
        .add_exp_tweak(&Secp256k1::new(), &Scalar::from_be_bytes(nonce).unwrap())
        .unwrap();
    let script = create_hashlock_script(&[7u8; 32], &expected.x_only_public_key().0.serialize());
    assert!(check_taproot_hashlock_has_pubkey(&script, &key(1), &nonce).is_ok());
    assert!(matches!(
        check_taproot_hashlock_has_pubkey(&script, &key(1), &[6u8; 32]),
        Err(ProtocolError::General(
            "Taproot hashlock pubkey doesn't match nonce-derived key"
        ))
    ));
    assert!(matches!(
        check_taproot_hashlock_has_pubkey(&script, &key(1), &[0xffu8; 32]),
        Err(ProtocolError::Secp)
    ));
}

#[test]
fn the_x_coordinate_is_the_x_only_key() {
    assert_eq!(x_only(&key(9)), x(9));
}

#[test]
fn the_taproot_output_is_that_of_the_script_tree() {
    let hashlock = create_hashlock_script(&[7u8; 32], &x(2));
    let timelock = create_timelock_script(500, &x(3));
    let (script, output) = create_taproot_script(&hashlock, &timelock, &x(1)).unwrap();
    let info = bitcoin::taproot::TaprootBuilder::new()
        .add_leaf(1, hashlock.into())
        .unwrap()
        .add_leaf(1, timelock.into())
        .unwrap()
        .finalize(&Secp256k1::new(), public(1).x_only_public_key().0)
        .unwrap();
    assert_eq!(
        script,
        bitcoin::ScriptBuf::new_p2tr_tweaked(info.output_key()).into_bytes()
    );
    assert_eq!(
        output.tap_tweak,
        info.tap_tweak().to_scalar().to_be_bytes()
    );
    assert_eq!(script, p2tr_script(&output.output_key));
    assert_ne!(output.output_key, x(1));
}

#[test]
fn a_key_off_the_curve_has_no_taproot_output() {
    assert!(matches!(
        create_taproot_script(&[0x51], &[0x52], &[0xffu8; 32]),
        Err(ProtocolError::TaprootBuilder)
    ));
}

fn spending(inputs: usize) -> Transaction {
    Transaction {
        version: 2,
        lock_time: 0,
        input: (0..inputs)
            .map(|_| TxIn {
                previous_output: point(),
                script_sig: vec![],
                sequence: 0,
                witness: vec![],
            })
            .collect(),
        output: vec![TxOut {
            value: 49_000,
            script_pubkey: vec![0x51],
        }],
    }
}

#[test]
fn the_hash_to_sign_is_that_of_a_key_spend() {
    let hashlock = create_hashlock_script(&[7u8; 32], &x(2));
    let timelock = create_timelock_script(500, &x(3));
    let (script, _) = create_taproot_script(&hashlock, &timelock, &x(1)).unwrap();
    let hash =
        calculate_contract_sighash(&spending(1), 50_000, &hashlock, &timelock, &x(1)).unwrap();
    let tx = bitcoin::Transaction {
        version: bitcoin::transaction::Version(2),
        lock_time: bitcoin::absolute::LockTime::ZERO,
        input: vec![bitcoin::TxIn {
            previous_output: bitcoin::OutPoint::new(<bitcoin::Txid as bitcoin::hashes::Hash>::from_byte_array([4u8; 32]), 3),
            script_sig: bitcoin::ScriptBuf::new(),
            sequence: bitcoin::Sequence(0),
            witness: bitcoin::Witness::new(),
        }],
        output: vec![bitcoin::TxOut {
            value: bitcoin::Amount::from_sat(49_000),
            script_pubkey: bitcoin::ScriptBuf::from_bytes(vec![0x51]),
        }],
    };
    let spent = bitcoin::TxOut {
        value: bitcoin::Amount::from_sat(50_000),
        script_pubkey: bitcoin::ScriptBuf::from_bytes(script),
    };
    let expected = bitcoin::sighash::SighashCache::new(&tx)
        .taproot_key_spend_signature_hash(
            0,
            &bitcoin::sighash::Prevouts::All(&[spent]),
            bitcoin::TapSighashType::Default,
        )
        .unwrap();
    assert_eq!(hash, bitcoin::hashes::Hash::to_byte_array(expected));
}

#[test]
fn only_a_transaction_with_one_input_is_hashed() {
    let hashlock = create_hashlock_script(&[7u8; 32], &x(2));
    let timelock = create_timelock_script(500, &x(3));
    for inputs in [0, 2] {
        assert!(matches!(
            calculate_contract_sighash(&spending(inputs), 50_000, &hashlock, &timelock, &x(1)),
            Err(ProtocolError::TaprootSighash)
        ));
    }
    assert!(matches!(
        calculate_contract_sighash(&spending(1), 50_000, &hashlock, &timelock, &[0xffu8; 32]),
        Err(ProtocolError::TaprootBuilder)
    ));
}

#[test]
fn both_parties_aggregate_to_the_same_key() {
    let one = get_aggregated_pubkey(&key(1), &key(2)).unwrap();
    let other = get_aggregated_pubkey(&key(2), &key(1)).unwrap();
    assert_eq!(one, other);
    assert_ne!(one, x(1));
    assert_ne!(one, x(2));
    assert_ne!(one, get_aggregated_pubkey(&key(1), &key(3)).unwrap());
}

#[test]
fn nonces_are_new_and_add_up() {
    let one = generate_new_nonce_pair_compat(&key(1)).unwrap().public();
    let other = generate_new_nonce_pair_compat(&key(1)).unwrap().public();
    assert_ne!(one, other);
    let sum = get_aggregated_nonce_compat(&vec![one, other]).unwrap();
    assert_eq!(Some(sum), get_aggregated_nonce_compat(&vec![other, one]));
    assert!(sum != one && sum != other);
    assert!(get_aggregated_nonce_compat(&vec![one, [9u8; 66]]).is_none());
    assert!(matches!(
        generate_new_nonce_pair_compat(&[0u8; 33]),
        Err(ProtocolError::Secp)
    ));
}

#[test]
fn aggregation_reports_what_is_no_key() {
    assert_eq!(
        get_aggregated_pubkey_compat(&key(1), &key(2)).unwrap(),
        get_aggregated_pubkey(&key(1), &key(2)).unwrap()
    );
    assert!(matches!(
        get_aggregated_pubkey_compat(&[0u8; 33], &key(2)),
        Err(ProtocolError::Secp)
    ));
}

#[test]
fn nothing_is_aggregated_with_what_is_no_key() {
    assert!(get_aggregated_pubkey(&key(1), &[0u8; 33]).is_none());
}

#[test]
fn keys_are_ordered_by_their_bytes() {
    let mut low = [2u8; 33];
    let high = [2u8; 33];
    assert!(!key_before(&low, &high));
    low[32] = 1;
    assert!(key_before(&low, &high));
    assert!(!key_before(&high, &low));
    assert_eq!(key_before(&key(1), &key(2)), key(1) < key(2));
}

#[test]
fn a_scalar_is_read_back_where_it_is_one() {
    let scalar = SerializableScalar::from_bytes(vec![1u8; 32]);
    assert_eq!(scalar.to_scalar().unwrap(), [1u8; 32]);
    assert!(SerializableScalar::from_bytes(vec![1u8; 31]).to_scalar().is_err());
    assert!(matches!(
        SerializableScalar::from_bytes(vec![0xffu8; 32]).to_scalar(),
        Err(ProtocolError::ScalarOutOfRange)
    ));
}

#[test]
fn the_contract_pays_the_receiver_or_the_sender() {
    let contract = CoinSwapTaproot::new(&x(1), &x(2), &[9u8; 20], 700).unwrap();
    let claim = bitcoin::script::Builder::new()
        .push_opcode(bitcoin::opcodes::all::OP_HASH160)
        .push_slice([9u8; 20])
        .push_opcode(bitcoin::opcodes::all::OP_EQUALVERIFY)
        .push_x_only_key(&public(2).x_only_public_key().0)
        .push_opcode(bitcoin::opcodes::all::OP_CHECKSIG)
        .into_bytes();
    assert_eq!(contract.hashlock_script, claim);
    let script = contract.script_pubkey();
    assert_eq!(script.len(), 34);
    assert_eq!(&script[..2], &[0x51, 32]);
    assert_eq!(&script[2..], &contract.output_key);
}

#[test]
fn the_contract_has_an_address_on_each_network() {
    let contract = CoinSwapTaproot::new(&x(1), &x(2), &[9u8; 20], 700).unwrap();
    let script = bitcoin::ScriptBuf::from_bytes(contract.script_pubkey());
    let expected = |network| bitcoin::Address::from_script(&script, network).unwrap().to_string();
    let main = contract.address(Network::Bitcoin);
    assert_eq!(main, expected(bitcoin::Network::Bitcoin));
    assert!(main.starts_with("bc1p"));
    assert_eq!(contract.address(Network::Testnet), expected(bitcoin::Network::Testnet));
    assert_eq!(contract.address(Network::Regtest), expected(bitcoin::Network::Regtest));
    assert!(contract.address(Network::Regtest).starts_with("bcrt1p"));
}

#[test]
fn the_refund_waits_for_the_lock_time() {
    let contract = CoinSwapTaproot::new(&x(1), &x(2), &[9u8; 20], 700).unwrap();
    let refund = bitcoin::script::Builder::new()
        .push_x_only_key(&public(1).x_only_public_key().0)
        .push_opcode(bitcoin::opcodes::all::OP_CHECKSIGVERIFY)
        .push_lock_time(bitcoin::absolute::LockTime::from_consensus(700))
        .push_opcode(bitcoin::opcodes::all::OP_CLTV)
        .into_bytes();
    assert_eq!(contract.timelock_script, refund);
}

#[test]
fn a_contract_needs_a_key_on_the_curve() {
    assert!(matches!(
        CoinSwapTaproot::new(&[0xffu8; 32], &x(2), &[9u8; 20], 700),
        Err(ProtocolError::TaprootBuilder)
    ));
}

#[test]
fn spends_pay_the_amount_less_the_fee() {
    let claim = create_claim_tx(point(), 10_000, &[0x51], 300).unwrap();
    assert_eq!(claim.output[0].value, 9_700);
    assert_eq!(claim.output[0].script_pubkey, vec![0x51]);
    assert_eq!(claim.lock_time, 0);
    assert_eq!(claim.input[0].sequence, 0xffff_ffff);
    assert_eq!(claim.input[0].previous_output, point());
    let refund = create_refund_tx(point(), 10_000, &[0x52], 700, 10_000).unwrap();
    assert_eq!(refund.output[0].value, 0);
    assert_eq!(refund.lock_time, 700);
    assert_eq!(refund.input[0].sequence, 0);
}

#[test]
fn spends_need_the_fee() {
    assert!(matches!(
        create_claim_tx(point(), 299, &[0x51], 300),
        Err(ProtocolError::InsufficientFunds)
    ));
    assert!(matches!(
        create_refund_tx(point(), 0, &[0x51], 700, 1),
        Err(ProtocolError::InsufficientFunds)
    ));
}

#[test]
fn witnesses_end_in_the_script_and_its_control_block() {
    let contract = CoinSwapTaproot::new(&x(1), &x(2), &[9u8; 20], 700).unwrap();
    let claim = hashlock_witness(vec![1], &[2], &contract, Some(vec![3])).unwrap();
    assert_eq!(
        claim,
        vec![vec![1], vec![2], contract.hashlock_script.clone(), vec![3]]
    );
    let refund = timelock_witness(vec![1], &contract, Some(vec![3])).unwrap();
    assert_eq!(refund, vec![vec![1], contract.timelock_script.clone(), vec![3]]);
    assert!(matches!(
        hashlock_witness(vec![1], &[2], &contract, None),
        Err(ProtocolError::General("Control block not found"))
    ));
    assert!(matches!(
        timelock_witness(vec![1], &contract, None),
        Err(ProtocolError::General("Control block not found"))
    ));
}

#[test]
fn control_blocks_prove_the_scripts() {
    let contract = CoinSwapTaproot::new(&x(1), &x(2), &[9u8; 20], 700).unwrap();
    let output = bitcoin::secp256k1::XOnlyPublicKey::from_slice(&contract.output_key).unwrap();
    let claim = create_hashlock_witness(vec![1], &[2], &contract).unwrap();
    let refund = create_timelock_witness(vec![1], &contract).unwrap();
    assert_eq!((claim.len(), refund.len()), (4, 3));
    for (script, block) in [(&claim[2], &claim[3]), (&refund[1], &refund[2])] {
        let block = bitcoin::taproot::ControlBlock::decode(block).unwrap();
        let script = bitcoin::Script::from_bytes(script);
        assert!(block.verify_taproot_commitment(&Secp256k1::new(), output, script));
    }
    let broken = CoinSwapTaproot {
        internal_key: [0xffu8; 32],
        ..contract
    };
    assert!(create_hashlock_witness(vec![1], &[2], &broken).is_err());
    assert!(create_timelock_witness(vec![1], &broken).is_err());
}

#[test]
fn a_preimage_opens_its_hash_only() {
    let hash = bitcoin::hashes::Hash::to_byte_array(
        <bitcoin::hashes::hash160::Hash as bitcoin::hashes::Hash>::hash(b"preimage"),
    );
    assert!(validate_hashlock(b"preimage", &hash).is_ok());
    assert!(matches!(
        validate_hashlock(b"preimages", &hash),
        Err(ProtocolError::General("Invalid preimage for hashlock"))
    ));
}

#[test]
fn a_lock_time_passes_at_its_height() {
    assert!(validate_timelock(700, 699).is_err());
    assert!(validate_timelock(700, 700).is_ok());
}

fn details() -> SwapDetails {
    SwapDetails {
        id: "swap".to_string(),
        protocol_version: ProtocolVersion::Legacy,
        amount: 1,
        tx_count: 1,
        timelock: 1,
        refund_locktime_offset: 1,
        outgoing_tx_count: None,
    }
}

fn handover() -> PrivateKeyHandover {
    PrivateKeyHandover {
        id: "swap".to_string(),
        privkeys: vec![],
    }
}

#[test]
fn messages_go_to_the_handler_of_their_protocol() {
    assert!(matches!(
        TakerToMakerMessage::TakerHello(TakerHello).route(),
        Route::Hello
    ));
    assert!(matches!(
        TakerToMakerMessage::GetOffer(GetOffer).route(),
        Route::Offer
    ));
    match TakerToMakerMessage::SwapDetails(details()).route() {
        Route::Details(details) => assert_eq!(details.id, "swap"),
        _ => panic!("details are routed to validation"),
    }
    assert!(matches!(
        TakerToMakerMessage::LegacyPrivateKeyHandover(handover()).route(),
        Route::Legacy(LegacyTakerMessage::PrivateKeyHandover(_))
    ));
    assert!(matches!(
        TakerToMakerMessage::TaprootPrivateKeyHandover(handover()).route(),
        Route::Taproot(TaprootTakerMessage::PrivateKeyHandover(_))
    ));
}

#[test]
fn messages_carry_the_id_of_their_swap() {
    assert_eq!(
        TaprootTakerMessage::PrivateKeyHandover(handover()).swap_id(),
        "swap"
    );
    let request = ReqContractSigsForSender {
        id: "other".to_string(),
        txs_info: vec![],
        hashvalue: [0u8; 20],
        locktime: 0,
    };
    assert_eq!(
        LegacyTakerMessage::ReqContractSigsForSender(request).swap_id(),
        "other"
    );
}

#[test]
fn a_request_for_an_offer_belongs_to_no_swap() {
    let request = TaprootMessage::GetOffer(messages2::GetOffer {
        id: "swap".to_string(),
        protocol_version_min: 1,
        protocol_version_max: 1,
        number_of_transactions: 1,
    });
    assert_eq!(request.swap_id(), "");
    assert_eq!(request.name(), "GetOffer");
    let details = TaprootMessage::SwapDetails(messages2::SwapDetails {
        id: "swap".to_string(),
        amount: 1,
        no_of_tx: 1,
        timelock: 1,
    });
    assert_eq!(details.swap_id(), "swap");
    assert_eq!(details.name(), "SwapDetails");
}

#[test]
fn an_acceptance_carries_the_point() {
    assert_eq!(AckSwapDetails::accept([2u8; 33]).tweakable_point, Some([2u8; 33]));
}

#[test]
fn three_keys_sign_together() {
    let keys = vec![key(1), key(2), key(3)];
    let pairs: Vec<_> = keys
        .iter()
        .map(|key| generate_new_nonce_pair_compat(key).unwrap())
        .collect();
    let nonces = pairs.iter().map(|pair| pair.public()).collect();
    let session = SigningSession {
        message: [5u8; 32],
        nonce: get_aggregated_nonce_compat(&nonces).unwrap(),
        tap_tweak: [6u8; 32],
        keys: keys.clone(),
    };
    let parts: Vec<[u8; 32]> = pairs
        .into_iter()
        .zip([1u8, 2, 3])
        .map(|(pair, byte)| {
            generate_partial_signature_compat(&session, pair, &[byte; 32]).unwrap()
        })
        .collect();
    let signature = aggregate_partial_signatures_compat(&session, &parts).unwrap();
    let points: Vec<_> = keys
        .iter()
        .map(|key| secp256k1::PublicKey::from_slice(key).unwrap())
        .collect();
    let refs: Vec<_> = points.iter().collect();
    let mut cache = secp256k1::musig::KeyAggCache::new(&refs);
    let tweak = secp256k1::Scalar::from_be_bytes([6u8; 32]).unwrap();
    let output_key = cache.pubkey_xonly_tweak_add(&tweak).unwrap();
    let signature = secp256k1::schnorr::Signature::from_byte_array(signature);
    assert!(secp256k1::schnorr::verify(
        &signature,
        &[5u8; 32],
        &output_key.x_only_public_key().0
    )
    .is_ok());
    let unsigned = SigningSession {
        tap_tweak: [0xffu8; 32],
        ..session
    };
    assert!(matches!(
        aggregate_partial_signatures_compat(&unsigned, &parts),
        Err(ProtocolError::ScalarOutOfRange)
    ));
}
