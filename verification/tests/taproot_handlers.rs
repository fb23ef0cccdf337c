use bitcoin::secp256k1::{PublicKey, Scalar, Secp256k1, SecretKey};
use openswap_maker::chain::{Transaction, TxOut};
use openswap_maker::error::MakerError;
use openswap_maker::maker::handlers::{ConnectionState, SwapPhase};
use openswap_maker::maker::legacy_handlers::complete_swap;
use openswap_maker::maker::taproot_handlers::{
    build_next_contract, build_taproot_incoming, check_contract_data, contract_outpoint,
    finish_taproot_contract, process_taproot_handover, relative_timelock, taproot_outgoing_amount,
};
use openswap_maker::protocol::common_messages::{
    PrivateKeyHandover, ProtocolVersion, SwapPrivkey,
};
use openswap_maker::protocol::contract2::{
    create_hashlock_script, create_timelock_script, extract_hash_from_hashlock, p2tr_script,
};
use openswap_maker::protocol::error::ProtocolError;
use openswap_maker::protocol::musig2::get_aggregated_pubkey;
use openswap_maker::protocol::taproot_messages::{SerializableScalar, TaprootContractData};

fn public(secret: [u8; 32]) -> [u8; 33] {
    let secret = SecretKey::from_slice(&secret).unwrap();
    PublicKey::from_secret_key(&Secp256k1::new(), &secret).serialize()
}

fn x(key: [u8; 33]) -> [u8; 32] {
    let mut out = [0u8; 32];
    out.copy_from_slice(&key[1..]);
    out
}

fn tweaked(secret: [u8; 32], nonce: [u8; 32]) -> [u8; 32] {
    SecretKey::from_slice(&secret)
        .unwrap()
        .add_tweak(&Scalar::from_be_bytes(nonce).unwrap())
        .unwrap()
        .secret_bytes()
}

const MINE: [u8; 32] = [1u8; 32];
const NONCE: [u8; 32] = [2u8; 32];

fn contract_tx() -> Transaction {
    Transaction {
        version: 2,
        lock_time: 0,
        input: vec![],
        output: vec![
            TxOut {
                value: 5,
                script_pubkey: vec![],
            },
            TxOut {
                value: 49_000,
                script_pubkey: vec![0x51],
            },
        ],
    }
}

fn data() -> TaprootContractData {
    TaprootContractData::new(
        "swap".to_string(),
        vec![public([5u8; 32])],
        public([6u8; 32]),
        get_aggregated_pubkey(&public(MINE), &public([5u8; 32])).unwrap(),
        SerializableScalar::from_bytes(vec![8u8; 32]),
        create_hashlock_script(&[7u8; 32], &x(public(tweaked(MINE, NONCE)))),
        create_timelock_script(500, &x(public([5u8; 32]))),
        vec![contract_tx()],
        vec![50_000],
        Some(NONCE),
        Some([9u8; 32]),
    )
}

#[test]
fn the_hashlock_key_comes_from_the_nonce() {
    assert_eq!(
        check_contract_data(&data(), &MINE, &public(MINE)).unwrap(),
        tweaked(MINE, NONCE)
    );
}

#[test]
fn contract_data_can_be_rejected() {
    let fails = |change: fn(&mut TaprootContractData)| {
        let mut changed = data();
        change(&mut changed);
        check_contract_data(&changed, &MINE, &public(MINE)).unwrap_err()
    };
    assert!(matches!(
        fails(|d| d.hashlock_nonce = None),
        MakerError::General("Missing hashlock_nonce in TaprootContractData")
    ));
    assert!(matches!(
        fails(|d| d.hashlock_nonce = Some([0xffu8; 32])),
        MakerError::General("Hashlock key derivation failed")
    ));
    assert!(matches!(
        fails(|d| d.hashlock_nonce = Some([3u8; 32])),
        MakerError::Contract {
            what: "Hashlock pubkey mismatch: {}",
            ..
        }
    ));
    assert!(matches!(
        fails(|d| d.contract_txs.clear()),
        MakerError::General("No contract transaction from taker")
    ));
}

#[test]
fn the_incoming_coin_holds_the_contract() {
    let coin = build_taproot_incoming(&data(), [3u8; 32], &MINE, 1).unwrap();
    assert_eq!(coin.protocol, ProtocolVersion::Taproot);
    assert_eq!(coin.my_pubkey, Some(public(MINE)));
    assert_eq!(coin.other_pubkey, Some(public([5u8; 32])));
    assert_eq!(coin.funding_amount, 50_000);
    assert_eq!(coin.tap_tweak, Some([8u8; 32]));
    let mut sparse = data();
    sparse.pubkeys.clear();
    sparse.amounts.clear();
    let coin = build_taproot_incoming(&sparse, [3u8; 32], &MINE, 77).unwrap();
    assert_eq!(coin.other_pubkey, Some(public([6u8; 32])));
    assert_eq!(coin.funding_amount, 77);
    sparse.tap_tweak = SerializableScalar::from_bytes(vec![]);
    assert!(matches!(
        build_taproot_incoming(&sparse, [3u8; 32], &MINE, 77),
        Err(MakerError::Protocol(_))
    ));
    assert!(matches!(
        build_taproot_incoming(&sparse, [3u8; 32], &[0u8; 32], 77),
        Err(MakerError::Secp)
    ));
}

#[test]
fn the_next_contract_has_the_hash_and_the_next_key() {
    let outgoing_nonce = [4u8; 32];
    let timelock_key = [10u8; 32];
    let contract = build_next_contract(&data(), &MINE, 480, &outgoing_nonce, timelock_key).unwrap();
    let my_key = public(tweaked(MINE, outgoing_nonce));
    assert_eq!(contract.pubkey, my_key);
    assert_eq!(
        extract_hash_from_hashlock(&contract.hashlock_script).unwrap(),
        [7u8; 32]
    );
    let next = PublicKey::from_slice(&public([6u8; 32]))
        .unwrap()
        .add_exp_tweak(&Secp256k1::new(), &Scalar::from_be_bytes([9u8; 32]).unwrap())
        .unwrap()
        .serialize();
    assert_eq!(
        contract.hashlock_script,
        create_hashlock_script(&[7u8; 32], &x(next))
    );
    assert_eq!(
        contract.timelock_script,
        create_timelock_script(480, &x(public(timelock_key)))
    );
    assert_eq!(
        Some(contract.internal_key),
        get_aggregated_pubkey(&my_key, &public([6u8; 32]))
    );
    assert_eq!(contract.script_pubkey, p2tr_script(&contract.output.output_key));
}

#[test]
fn the_next_contract_can_fail() {
    let build = |data: &TaprootContractData, timelock, nonce: [u8; 32], key| {
        build_next_contract(data, &MINE, timelock, &nonce, key).unwrap_err()
    };
    assert!(matches!(
        build(&data(), 480, [0xffu8; 32], [10u8; 32]),
        MakerError::General("Outgoing key derivation failed")
    ));
    assert!(matches!(
        build(&data(), 480, [4u8; 32], [0u8; 32]),
        MakerError::Secp
    ));
    assert!(matches!(
        build(&data(), 500_000_000, [4u8; 32], [10u8; 32]),
        MakerError::General("Invalid locktime height")
    ));
    let mut other = data();
    other.next_hashlock_nonce = Some([0xffu8; 32]);
    assert!(matches!(
        build(&other, 480, [4u8; 32], [10u8; 32]),
        MakerError::Contract {
            what: "Next hop key derivation: {}",
            cause: ProtocolError::Secp
        }
    ));
    other.hashlock_script.clear();
    assert!(matches!(
        build(&other, 480, [4u8; 32], [10u8; 32]),
        MakerError::Contract {
            what: "Invalid hashlock script: {}",
            ..
        }
    ));
}

#[test]
fn a_height_is_turned_into_blocks() {
    assert_eq!(relative_timelock(500, 480), 20);
    assert_eq!(relative_timelock(480, 500), 0);
    assert_eq!(taproot_outgoing_amount(50_000, 700).unwrap(), 49_300);
    assert!(taproot_outgoing_amount(699, 700).is_err());
}

#[test]
fn the_maker_answers_with_its_taproot_contract() {
    let mut state = ConnectionState::new(ProtocolVersion::Taproot, 0);
    let incoming = build_taproot_incoming(&data(), [3u8; 32], &MINE, 1).unwrap();
    let contract = build_next_contract(&data(), &MINE, 480, &[4u8; 32], [10u8; 32]).unwrap();
    let (hashlock, tweak) = (contract.hashlock_script.clone(), contract.output.tap_tweak);
    let answer = finish_taproot_contract(
        &mut state,
        &data(),
        incoming,
        contract,
        contract_tx(),
        1,
        &public(MINE),
    );
    assert_eq!(answer.id, "swap");
    assert_eq!(answer.hashlock_script, hashlock);
    assert_eq!(answer.tap_tweak_scalar().unwrap(), tweak);
    assert_eq!(answer.amounts, vec![49_000]);
    assert_eq!(state.incoming_swapcoins.len(), 1);
    let coin = &state.outgoing_swapcoins[0];
    assert_eq!(coin.funding_amount, 49_000);
    assert_eq!(coin.contract_vout, 1);
    assert_eq!(contract_outpoint(&contract_tx(), 1).vout, 1);
}

#[test]
fn taproot_keys_are_exchanged() {
    let mut state = ConnectionState::new(ProtocolVersion::Taproot, 0);
    let incoming = build_taproot_incoming(&data(), [3u8; 32], &MINE, 1).unwrap();
    let contract = build_next_contract(&data(), &MINE, 480, &[4u8; 32], [10u8; 32]).unwrap();
    finish_taproot_contract(
        &mut state,
        &data(),
        incoming,
        contract,
        contract_tx(),
        1,
        &public(MINE),
    );
    state.swap_id = Some("swap".to_string());
    let handover = |byte| PrivateKeyHandover {
        id: "swap".to_string(),
        privkeys: vec![SwapPrivkey {
            identifier: vec![],
            key: [byte; 32],
        }],
    };
    let coins = std::mem::take(&mut state.outgoing_swapcoins);
    assert!(matches!(
        process_taproot_handover(&mut state, handover(5)),
        Err(MakerError::General("No outgoing swapcoin found"))
    ));
    state.outgoing_swapcoins = coins;
    let key = state.outgoing_swapcoins[0].my_privkey.take();
    assert!(matches!(
        process_taproot_handover(&mut state, handover(5)),
        Err(MakerError::General("No private key in outgoing swapcoin"))
    ));
    assert_eq!(state.incoming_swapcoins[0].other_privkey, None);
    state.outgoing_swapcoins[0].my_privkey = key;
    let answer = process_taproot_handover(&mut state, handover(5)).unwrap();
    assert_eq!(answer.privkeys[0].key, tweaked(MINE, [4u8; 32]));
    assert_eq!(state.incoming_swapcoins[0].other_privkey, Some([5u8; 32]));
    complete_swap(&mut state);
    assert_eq!(state.phase, SwapPhase::Completed);
}
