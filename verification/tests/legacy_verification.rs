use openswap_maker::chain::{OutPoint, Transaction, TxIn, TxOut};
use openswap_maker::error::MakerError;
use openswap_maker::maker::legacy_verification::{
    expected_taker_locktime, sender_output_terms, verify_req_contract_sigs_for_sender,
    SenderContractChecks, SenderOutputTerms,
};
use openswap_maker::protocol::error::ProtocolError;
use openswap_maker::protocol::legacy_messages::ContractTxInfoForSender;

const REFUND_LOCKTIME_STEP: u16 = 20;

fn pubkey(byte: u8) -> [u8; 33] {
    let secp = bitcoin::secp256k1::Secp256k1::new();
    let secret = bitcoin::secp256k1::SecretKey::from_slice(&[byte; 32]).unwrap();
    bitcoin::secp256k1::PublicKey::from_secret_key(&secp, &secret).serialize()
}

const HASHVALUE: [u8; 20] = [7u8; 20];

fn sum_with(key: [u8; 33], nonce: [u8; 32]) -> [u8; 33] {
    let secp = bitcoin::secp256k1::Secp256k1::new();
    bitcoin::secp256k1::PublicKey::from_slice(&key)
        .unwrap()
        .add_exp_tweak(&secp, &bitcoin::secp256k1::Scalar::from_be_bytes(nonce).unwrap())
        .unwrap()
        .serialize()
}

/// The terms of a contract whose lock time is a step later than `locktime`.
fn contract_terms(locktime: u16) -> SenderOutputTerms {
    SenderOutputTerms {
        hashlock_pubkey: sum_with(pubkey(1), [3u8; 32]),
        timelock_pubkey: pubkey(4),
        hashvalue: HASHVALUE,
        locktime: locktime.wrapping_add(REFUND_LOCKTIME_STEP),
    }
}

fn passed(terms: SenderOutputTerms) -> Vec<SenderContractChecks> {
    vec![SenderContractChecks {
        is_multisig: Ok(()),
        has_our_key: Ok(()),
        terms: Some(terms),
        output_valid: Ok(()),
    }]
}

/// One sender contract of a lock time that is a step later than `locktime`.
fn sender_contract(
    locktime: u16,
) -> (Vec<ContractTxInfoForSender>, Vec<SenderContractChecks>, [u8; 33]) {
    let senders_contract_tx = Transaction {
        version: 2,
        lock_time: 0,
        input: vec![TxIn {
            previous_output: OutPoint {
                txid: [0u8; 32],
                vout: 0,
            },
            script_sig: vec![],
            sequence: 0xffff_ffff,
            witness: vec![],
        }],
        output: vec![TxOut {
            value: 50_000,
            script_pubkey: vec![0u8; 34],
        }],
    };
    (
        vec![ContractTxInfoForSender {
            multisig_nonce: [2u8; 32],
            hashlock_nonce: [3u8; 32],
            timelock_pubkey: pubkey(4),
            senders_contract_tx,
            multisig_redeemscript: vec![0x52],
            funding_input_value: 60_000,
        }],
        passed(contract_terms(locktime)),
        pubkey(1),
    )
}

#[test]
fn locktime_that_overflows_the_refund_step_is_rejected() {
    let (txs_info, checks, tweakable_pubkey) = sender_contract(u16::MAX);

    let error = verify_req_contract_sigs_for_sender(
        &txs_info,
        &checks,
        &tweakable_pubkey,
        &HASHVALUE,
        u16::MAX,
        REFUND_LOCKTIME_STEP,
    )
    .unwrap_err();

    assert!(matches!(
        error,
        MakerError::General("Sender contract locktime overflows the refund step")
    ));
}

#[test]
fn normal_locktime_is_accepted() {
    let locktime = 100;
    let (txs_info, checks, tweakable_pubkey) = sender_contract(locktime);

    verify_req_contract_sigs_for_sender(
        &txs_info,
        &checks,
        &tweakable_pubkey,
        &HASHVALUE,
        locktime,
        REFUND_LOCKTIME_STEP,
    )
    .unwrap();
}

#[test]
fn the_takers_lock_time_is_a_step_later() {
    assert_eq!(expected_taker_locktime(100, REFUND_LOCKTIME_STEP).unwrap(), 120);
    assert!(expected_taker_locktime(65_530, REFUND_LOCKTIME_STEP).is_err());
}

#[test]
fn a_failed_check_rejects_the_request() {
    let (txs_info, _, key) = sender_contract(100);
    for k in 0..3 {
        let fail = |i: usize| {
            if i == k {
                Err(ProtocolError::General("bad"))
            } else {
                Ok(())
            }
        };
        let checks = vec![SenderContractChecks {
            is_multisig: fail(0),
            has_our_key: fail(1),
            terms: Some(contract_terms(100)),
            output_valid: fail(2),
        }];
        assert!(
            verify_req_contract_sigs_for_sender(&txs_info, &checks, &key, &HASHVALUE, 100, REFUND_LOCKTIME_STEP)
                .is_err()
        );
    }
}

#[test]
fn a_contract_has_one_input_and_one_output() {
    let (mut txs_info, checks, key) = sender_contract(100);
    txs_info[0].senders_contract_tx.input.clear();
    assert!(matches!(
        verify_req_contract_sigs_for_sender(&txs_info, &checks, &key, &HASHVALUE, 100, REFUND_LOCKTIME_STEP),
        Err(MakerError::Structure {
            index: 0,
            inputs: 0,
            outputs: 1,
            ..
        })
    ));
}

#[test]
fn a_nonce_must_give_a_key() {
    let (mut txs_info, checks, key) = sender_contract(100);
    txs_info[0].hashlock_nonce = [0xffu8; 32];
    assert!(
        verify_req_contract_sigs_for_sender(&txs_info, &checks, &key, &HASHVALUE, 100, REFUND_LOCKTIME_STEP)
            .is_err()
    );
}

#[test]
fn the_terms_of_a_contract_come_from_the_request() {
    let (txs_info, _, key) = sender_contract(100);
    let terms =
        sender_output_terms(&txs_info[0], &key, &HASHVALUE, 100, REFUND_LOCKTIME_STEP, 0).unwrap();
    assert_eq!(terms, contract_terms(100));
    assert_eq!(terms.locktime, 120);
    assert!(matches!(
        sender_output_terms(&txs_info[0], &key, &HASHVALUE, u16::MAX, REFUND_LOCKTIME_STEP, 0),
        Err(MakerError::General("Sender contract locktime overflows the refund step"))
    ));
}

#[test]
fn an_output_of_other_terms_is_rejected() {
    let (txs_info, _, key) = sender_contract(100);
    let verify = |terms| {
        verify_req_contract_sigs_for_sender(
            &txs_info,
            &passed(terms),
            &key,
            &HASHVALUE,
            100,
            REFUND_LOCKTIME_STEP,
        )
    };
    let right = contract_terms(100);
    assert!(verify(right).is_ok());
    assert!(verify(SenderOutputTerms { locktime: 100, ..right }).is_err());
    assert!(verify(SenderOutputTerms { hashvalue: [8u8; 20], ..right }).is_err());
    assert!(verify(SenderOutputTerms { timelock_pubkey: pubkey(5), ..right }).is_err());
    assert!(verify(SenderOutputTerms { hashlock_pubkey: pubkey(5), ..right }).is_err());
    let mut unchecked = passed(right);
    unchecked[0].terms = None;
    assert!(matches!(
        verify_req_contract_sigs_for_sender(
            &txs_info,
            &unchecked,
            &key,
            &HASHVALUE,
            100,
            REFUND_LOCKTIME_STEP
        ),
        Err(MakerError::ItemContract { index: 0, .. })
    ));
}
