use bitcoin::absolute::LockTime;
use bitcoin::opcodes::all::{OP_CHECKSIG, OP_CLTV, OP_DROP, OP_DUP, OP_EQUALVERIFY};
use bitcoin::script;
use bitcoin::secp256k1::Secp256k1;
use openswap_maker::chain::{OutPoint, Transaction, TxIn, TxOut};
use openswap_maker::maker::taproot_verification::verify_taproot_contract_data;
use openswap_maker::protocol::contract2::{create_hashlock_script, create_timelock_script};
use openswap_maker::protocol::taproot_messages::{SerializableScalar, TaprootContractData};

const MAKER_TIMELOCK: u32 = 300;
const REFUND_LOCKTIME_STEP: u16 = 20;

fn keypair(byte: u8) -> bitcoin::secp256k1::Keypair {
    let secp = Secp256k1::new();
    let secret = bitcoin::secp256k1::SecretKey::from_slice(&[byte; 32]).unwrap();
    bitcoin::secp256k1::Keypair::from_secret_key(&secp, &secret)
}

fn x_only(byte: u8) -> bitcoin::secp256k1::XOnlyPublicKey {
    bitcoin::secp256k1::XOnlyPublicKey::from_keypair(&keypair(byte)).0
}

fn output_script(
    internal_key: [u8; 32],
    hashlock_script: Vec<u8>,
    timelock_script: Vec<u8>,
) -> (Vec<u8>, SerializableScalar) {
    let secp = Secp256k1::new();
    let internal_key = bitcoin::secp256k1::XOnlyPublicKey::from_slice(&internal_key).unwrap();
    let tap_info = bitcoin::taproot::TaprootBuilder::new()
        .add_leaf(1, hashlock_script.into())
        .unwrap()
        .add_leaf(1, timelock_script.into())
        .unwrap()
        .finalize(&secp, internal_key)
        .unwrap();
    (
        bitcoin::ScriptBuf::new_p2tr_tweaked(tap_info.output_key()).into_bytes(),
        SerializableScalar::from_bytes(tap_info.tap_tweak().to_scalar().to_be_bytes().to_vec()),
    )
}

fn contract_tx(script_pubkey: Vec<u8>, amount: u64) -> Transaction {
    Transaction {
        version: 2,
        lock_time: 0,
        input: vec![TxIn {
            previous_output: OutPoint {
                txid: [0u8; 32],
                vout: 0,
            },
            script_sig: vec![],
            sequence: 0xffff_ffff,
            witness: vec![],
        }],
        output: vec![TxOut {
            value: amount,
            script_pubkey,
        }],
    }
}

fn valid_contract_data() -> TaprootContractData {
    let internal_key = x_only(1).serialize();
    let script_key = x_only(2).serialize();
    let hash = [7u8; 32];
    let hashlock_script = create_hashlock_script(&hash, &script_key);
    let timelock_script =
        create_timelock_script(MAKER_TIMELOCK + REFUND_LOCKTIME_STEP as u32, &script_key);
    let amount = 50_000;
    let (script_pubkey, tap_tweak) = output_script(
        internal_key,
        hashlock_script.clone(),
        timelock_script.clone(),
    );

    TaprootContractData::new(
        "test-swap".to_string(),
        Vec::new(),
        bitcoin::secp256k1::PublicKey::from_keypair(&keypair(3)).serialize(),
        internal_key,
        tap_tweak,
        hashlock_script,
        timelock_script,
        vec![contract_tx(script_pubkey, amount)],
        vec![amount],
        None,
        None,
    )
}

fn refresh_output_script(data: &mut TaprootContractData) {
    let (script_pubkey, tap_tweak) = output_script(
        data.internal_key,
        data.hashlock_script.clone(),
        data.timelock_script.clone(),
    );
    data.contract_txs[0].output[0].script_pubkey = script_pubkey;
    data.tap_tweak = tap_tweak;
}

fn verify(data: &TaprootContractData) -> Result<(), openswap_maker::error::MakerError> {
    verify_taproot_contract_data(data, MAKER_TIMELOCK, REFUND_LOCKTIME_STEP)
}

#[test]
fn rejects_amount_that_does_not_match_contract_output() {
    let mut data = valid_contract_data();
    data.amounts[0] += 1;

    assert!(verify(&data).is_err());
}

#[test]
fn rejects_hashlock_script_with_wrong_template() {
    let mut data = valid_contract_data();
    data.hashlock_script = script::Builder::new()
        .push_opcode(OP_DUP)
        .push_slice([7u8; 32])
        .push_opcode(OP_EQUALVERIFY)
        .push_x_only_key(&x_only(2))
        .push_opcode(OP_CHECKSIG)
        .into_bytes();
    refresh_output_script(&mut data);

    assert!(verify(&data).is_err());
}

#[test]
fn rejects_timelock_script_with_wrong_template() {
    let mut data = valid_contract_data();
    let timelock = LockTime::from_height(MAKER_TIMELOCK + REFUND_LOCKTIME_STEP as u32).unwrap();
    data.timelock_script = script::Builder::new()
        .push_lock_time(timelock)
        .push_opcode(OP_DROP)
        .push_opcode(OP_CLTV)
        .push_x_only_key(&x_only(2))
        .push_opcode(OP_CHECKSIG)
        .into_bytes();
    refresh_output_script(&mut data);

    assert!(verify(&data).is_err());
}

#[test]
fn rejects_tap_tweak_that_does_not_match_script_tree() {
    let mut data = valid_contract_data();
    data.tap_tweak = SerializableScalar::from_bytes([1u8; 32].to_vec());

    assert!(verify(&data).is_err());
}

#[test]
fn accepts_matching_contract_data() {
    assert!(verify(&valid_contract_data()).is_ok());
}

#[test]
fn rejects_a_lock_time_other_than_the_agreed_one() {
    let data = valid_contract_data();
    assert!(verify_taproot_contract_data(&data, MAKER_TIMELOCK + 1, REFUND_LOCKTIME_STEP).is_err());
}

#[test]
fn scripts_are_those_of_the_bitcoin_crate() {
    let key = x_only(2).serialize();
    for height in [1u32, 16, 17, 127, 128, 255, 256, 320, 32_768, 499_999_999, 500_000_000, u32::MAX] {
        let expected = script::Builder::new()
            .push_lock_time(LockTime::from_consensus(height))
            .push_opcode(OP_CLTV)
            .push_opcode(OP_DROP)
            .push_x_only_key(&x_only(2))
            .push_opcode(OP_CHECKSIG)
            .into_bytes();
        assert_eq!(create_timelock_script(height, &key), expected);
    }
    let hashlock = create_hashlock_script(&[7u8; 32], &key);
    assert_eq!(hashlock.len(), 69);
    assert_eq!(&hashlock[..3], &[0xa8, 32, 7]);
}
