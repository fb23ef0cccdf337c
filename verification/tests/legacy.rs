use bitcoin::secp256k1::{PublicKey, Scalar, Secp256k1, SecretKey};
use openswap_maker::chain::{OutPoint, Transaction, TxIn, TxOut};
use openswap_maker::error::{MakerError, WalletFault};
use openswap_maker::maker::funding::{
    funded_outputs, initialize_openswap, single_funding, NextHopContract,
};
use openswap_maker::maker::funding_proof::{
    required_depth, verify_proof_of_funding, FundingCheck, FundingFacts,
};
use openswap_maker::maker::handlers::{ConnectionState, SwapPhase};
use openswap_maker::maker::legacy_funding::{
    begin_fee_rounds, check_funding_terms, find_funding_output_index, finish_proof_of_funding,
    outgoing_amount, settle_fee_round, take_incoming_coins, FeeRound, IncomingContract,
};
use openswap_maker::maker::legacy_handlers::{
    answer_sender_request, check_sender_terms, check_signature_terms, complete_swap, contract_bindings,
    emit_maker_success_report, finish_funding, is_rebroadcast, plan_funding,
    process_legacy_handover, process_req_contract_sigs_for_recvr, settle_broadcast,
    take_contract_sigs, FundingStep,
};
use openswap_maker::maker::legacy_verification::SignatureCheck;
use openswap_maker::maker::nostr::txid_text;
use openswap_maker::maker::server::plan_completion;
use openswap_maker::maker::swapcoin::{IncomingSwapCoin, OutgoingSwapCoin};
use openswap_maker::maker::unified;
use openswap_maker::maker::watches::{all_outputs, watch_outgoing};
use openswap_maker::protocol::common_messages::{
    PrivateKeyHandover, ProtocolVersion, RateBits, SwapPrivkey,
};
use openswap_maker::protocol::error::ProtocolError;
use openswap_maker::protocol::legacy_messages::{
    ContractTxInfoForRecvr, ContractTxInfoForSender, FundingTxInfo, NextHopInfo, ProofOfFunding,
    ReqContractSigsForRecvr, ReqContractSigsForSender, RespContractSigsForRecvrAndSender,
};

fn public(byte: u8) -> [u8; 33] {
    let secret = SecretKey::from_slice(&[byte; 32]).unwrap();
    PublicKey::from_secret_key(&Secp256k1::new(), &secret).serialize()
}

fn tweaked(secret: u8, nonce: u8) -> [u8; 32] {
    SecretKey::from_slice(&[secret; 32])
        .unwrap()
        .add_tweak(&Scalar::from_be_bytes([nonce; 32]).unwrap())
        .unwrap()
        .secret_bytes()
}

fn public_of(secret: [u8; 32]) -> [u8; 33] {
    let secret = SecretKey::from_slice(&secret).unwrap();
    PublicKey::from_secret_key(&Secp256k1::new(), &secret).serialize()
}

fn p2wsh(script: &[u8]) -> Vec<u8> {
    bitcoin::Script::from_bytes(script).to_p2wsh().to_bytes()
}

fn tx(lock_time: u32, spends: Option<OutPoint>, outputs: Vec<(u64, Vec<u8>)>) -> Transaction {
    Transaction {
        version: 2,
        lock_time,
        input: spends
            .into_iter()
            .map(|previous_output| TxIn {
                previous_output,
                script_sig: vec![],
                sequence: 0,
                witness: vec![],
            })
            .collect(),
        output: outputs
            .into_iter()
            .map(|(value, script_pubkey)| TxOut {
                value,
                script_pubkey,
            })
            .collect(),
    }
}

fn point(n: u8) -> OutPoint {
    OutPoint {
        txid: [n; 32],
        vout: 0,
    }
}

fn txid(tx: &Transaction) -> [u8; 32] {
    all_outputs(&vec![tx.clone()])[0].txid
}

fn funding_info() -> FundingTxInfo {
    FundingTxInfo {
        funding_tx: tx(
            1,
            Some(point(9)),
            vec![(5, vec![0x51]), (50_000, p2wsh(&[0x52, 0xae]))],
        ),
        funding_tx_merkleproof: String::new(),
        multisig_redeemscript: vec![0x52, 0xae],
        multisig_nonce: [2u8; 32],
        contract_redeemscript: vec![0x53],
        hashlock_nonce: [3u8; 32],
    }
}

fn proof_of_funding() -> ProofOfFunding {
    ProofOfFunding {
        id: "swap".to_string(),
        confirmed_funding_txes: vec![funding_info()],
        next_openswap_info: vec![NextHopInfo {
            next_multisig_pubkey: public(5),
            next_hashlock_pubkey: public(6),
            next_multisig_nonce: [7u8; 32],
            next_hashlock_nonce: [8u8; 32],
        }],
        refund_locktime: 60,
        contract_feerate: RateBits(4),
    }
}

fn state(phase: SwapPhase) -> ConnectionState {
    let mut state = ConnectionState::new(ProtocolVersion::Legacy, 0);
    state.swap_id = Some("swap".to_string());
    state.swap_amount = 50_000;
    state.tx_count = 1;
    state.timelock = 60;
    state.phase = phase;
    state
}

fn incoming() -> IncomingSwapCoin {
    IncomingSwapCoin {
        protocol: ProtocolVersion::Legacy,
        swap_id: None,
        my_privkey: None,
        my_pubkey: Some(public(1)),
        other_pubkey: Some(public(5)),
        other_privkey: None,
        contract_tx: tx(2, Some(point(1)), vec![(1, vec![0x51])]),
        multisig_redeemscript: None,
        contract_redeemscript: None,
        hashvalue: None,
        hashlock_privkey: [1u8; 32],
        funding_amount: 50_000,
        others_contract_sig: None,
        hash_preimage: None,
        hashlock_script: None,
        timelock_script: None,
        internal_key: None,
        tap_tweak: None,
    }
}

fn outgoing() -> OutgoingSwapCoin {
    OutgoingSwapCoin {
        protocol: ProtocolVersion::Legacy,
        swap_id: None,
        my_privkey: Some([6u8; 32]),
        my_pubkey: Some(public(6)),
        other_pubkey: Some(public(7)),
        contract_tx: tx(3, Some(point(2)), vec![(1, vec![0x52]), (2, vec![0x53])]),
        contract_vout: 0,
        funding_tx: None,
        multisig_redeemscript: Some(vec![0x60]),
        contract_redeemscript: Some(vec![0x61]),
        timelock_privkey: [4u8; 32],
        timelock: Some(60),
        funding_amount: 49_000,
        others_contract_sig: None,
        hashlock_script: None,
        timelock_script: None,
        internal_key: None,
        tap_tweak: None,
    }
}

fn facts(unspent: bool) -> FundingFacts {
    FundingFacts {
        outpoint: OutPoint {
            txid: txid(&funding_info().funding_tx),
            vout: 1,
        },
        depth: 2,
        confirmed: Ok(()),
        unspent,
        height: Some(700),
        is_multisig: Ok(()),
        has_our_key: Ok(()),
        hashlock_has_our_key: Ok(()),
        matches_signed_contract: Ok(()),
        hashvalue: Ok([9u8; 20]),
    }
}

#[test]
fn a_proof_of_funding_is_verified() {
    let proved =
        verify_proof_of_funding(&proof_of_funding(), vec![Ok(70)], vec![facts(true)], 2).unwrap();
    assert_eq!(proved, ([9u8; 20], Some(700)));
}

#[test]
fn a_proof_of_funding_can_fail() {
    let verify = |locktime, facts| {
        verify_proof_of_funding(&proof_of_funding(), vec![locktime], vec![facts], 2).unwrap_err()
    };
    assert!(matches!(
        verify(Ok(69), facts(true)),
        MakerError::General("Next hop locktime too close to current hop locktime")
    ));
    assert!(matches!(
        verify(Err(ProtocolError::Secp), facts(true)),
        MakerError::Protocol(ProtocolError::Secp)
    ));
    assert!(matches!(
        verify(Ok(70), facts(false)),
        MakerError::General("Funding output already spent")
    ));
    let mut foreign = facts(true);
    foreign.has_our_key = Err(ProtocolError::General("no key"));
    assert!(matches!(
        verify(Ok(70), foreign),
        MakerError::Protocol(ProtocolError::General("no key"))
    ));
    let mut empty = proof_of_funding();
    empty.confirmed_funding_txes.clear();
    assert!(verify_proof_of_funding(&empty, vec![], vec![], 2).is_err());
}

#[test]
fn a_funding_that_does_not_confirm_is_rejected_first() {
    let mut late = facts(false);
    late.confirmed = Err(MakerError::Wallet(WalletFault::Other));
    assert!(matches!(
        verify_proof_of_funding(&proof_of_funding(), vec![Ok(70)], vec![late], 2),
        Err(MakerError::Wallet(WalletFault::Other))
    ));
    let mut late = facts(true);
    late.confirmed = Err(MakerError::Wallet(WalletFault::Other));
    assert!(matches!(
        verify_proof_of_funding(&proof_of_funding(), vec![Ok(69)], vec![late], 2),
        Err(MakerError::General("Next hop locktime too close to current hop locktime"))
    ));
}

#[test]
fn the_required_depth_has_a_least_value() {
    assert_eq!(required_depth(0, 1), 1);
    assert_eq!(required_depth(1, 1), 1);
    assert_eq!(required_depth(6, 1), 6);
}

#[test]
fn a_funding_output_is_proved_once() {
    let mut twice = proof_of_funding();
    twice.confirmed_funding_txes.push(funding_info());
    assert!(matches!(
        verify_proof_of_funding(
            &twice,
            vec![Ok(70), Ok(70)],
            vec![facts(true), facts(true)],
            2
        ),
        Err(MakerError::General("Duplicate funding outpoint"))
    ));
}

#[test]
fn all_contracts_have_one_hash() {
    let mut two = proof_of_funding();
    let mut other = funding_info();
    other.funding_tx.lock_time = 2;
    two.confirmed_funding_txes.push(other);
    let second = OutPoint {
        txid: txid(&two.confirmed_funding_txes[1].funding_tx),
        vout: 1,
    };
    let mut changed = facts(true);
    changed.outpoint = second;
    changed.hashvalue = Ok([8u8; 20]);
    assert!(matches!(
        verify_proof_of_funding(&two, vec![Ok(70), Ok(70)], vec![facts(true), changed], 2),
        Err(MakerError::General("Hash values in contracts do not match"))
    ));
    let mut earlier = facts(true);
    earlier.outpoint = second;
    earlier.height = Some(600);
    assert_eq!(
        verify_proof_of_funding(&two, vec![Ok(70), Ok(70)], vec![facts(true), earlier], 2).unwrap(),
        ([9u8; 20], Some(600))
    );
}

#[test]
fn a_funding_output_is_located() {
    let check = FundingCheck::begin(&proof_of_funding()).unwrap();
    let found = check.locate(&funding_info(), 60, Ok(70)).unwrap();
    assert_eq!(found.vout, 1);
    assert_eq!(found.txid, txid(&funding_info().funding_tx));
    assert_eq!(find_funding_output_index(&funding_info()).unwrap(), 1);
    let mut other = funding_info();
    other.multisig_redeemscript = vec![0x54];
    assert!(check.locate(&other, 60, Ok(70)).is_err());
    assert!(find_funding_output_index(&other).is_err());
}

#[test]
fn the_unified_maker_asks_for_confirmations() {
    let facts = |confirmations| unified::UnifiedFundingFacts {
        outpoint: OutPoint {
            txid: txid(&funding_info().funding_tx),
            vout: 1,
        },
        confirmations,
        is_multisig: Ok(()),
        has_our_key: Ok(()),
        hashlock_has_our_key: Ok(()),
        matches_signed_contract: Ok(true),
        hashvalue: Ok([9u8; 20]),
    };
    let verify = |locktime, facts| {
        unified::verify_proof_of_funding(&proof_of_funding(), vec![Ok(locktime)], vec![facts], 2)
    };
    assert_eq!(verify(80, facts(Some(2))).unwrap(), [9u8; 20]);
    assert!(matches!(
        verify(79, facts(Some(2))),
        Err(MakerError::General(
            "Next hop locktime too close to current hop locktime"
        ))
    ));
    assert!(matches!(
        verify(80, facts(Some(1))),
        Err(MakerError::General(
            "Funding tx not confirmed to required depth"
        ))
    ));
    assert!(matches!(
        verify(80, facts(None)),
        Err(MakerError::General("Funding tx output doesn't exist"))
    ));
    let mut other = facts(Some(2));
    other.outpoint.vout = 0;
    assert!(matches!(
        verify(80, other),
        Err(MakerError::General("Facts of another funding output"))
    ));
    let mut other = facts(Some(2));
    other.matches_signed_contract = Ok(false);
    assert!(matches!(
        verify(80, other),
        Err(MakerError::General(
            "Provided contract does not match sender contract tx, rejecting"
        ))
    ));
}

#[test]
fn funding_keeps_to_the_terms() {
    let agreed = state(SwapPhase::AwaitingContractData);
    assert_eq!(check_funding_terms(&agreed, &proof_of_funding()).unwrap(), 50_000);
    let fails = |change: fn(&mut ConnectionState)| {
        let mut changed = state(SwapPhase::AwaitingContractData);
        change(&mut changed);
        check_funding_terms(&changed, &proof_of_funding()).unwrap_err()
    };
    assert!(matches!(
        fails(|s| s.phase = SwapPhase::AwaitingHello),
        MakerError::UnexpectedPhase(SwapPhase::AwaitingHello)
    ));
    assert!(matches!(
        fails(|s| s.swap_id = None),
        MakerError::SwapIdMismatch
    ));
    assert!(matches!(
        fails(|s| s.timelock = 61),
        MakerError::General("ProofOfFunding refund locktime does not match the negotiated timelock")
    ));
    assert!(matches!(
        fails(|s| s.tx_count = 2),
        MakerError::General("ProofOfFunding tx count does not match the negotiated tx count")
    ));
    assert!(matches!(
        fails(|s| s.swap_amount = 49_999),
        MakerError::General("ProofOfFunding incoming amount exceeds the negotiated swap amount")
    ));
}

#[test]
fn incoming_coins_have_derived_keys() {
    let mut swap = state(SwapPhase::AwaitingContractData);
    let my_key = public_of(tweaked(1, 2));
    let contract = IncomingContract {
        pubkeys: Ok((my_key, public(5))),
        contract_tx: Ok(tx(4, None, vec![])),
    };
    take_incoming_coins(
        &mut swap,
        &proof_of_funding(),
        vec![contract],
        &[1u8; 32],
        [9u8; 20],
    )
    .unwrap();
    let coin = &swap.incoming_swapcoins[0];
    assert_eq!(coin.my_privkey, Some(tweaked(1, 2)));
    assert_eq!(coin.my_pubkey, Some(my_key));
    assert_eq!(coin.other_pubkey, Some(public(5)));
    assert_eq!(coin.hashlock_privkey, tweaked(1, 3));
    assert_eq!(coin.funding_amount, 50_000);
    assert_eq!(coin.hashvalue, Some([9u8; 20]));
}

#[test]
fn incoming_coins_can_fail() {
    let take = |pubkeys, contract_tx, key: [u8; 32]| {
        let mut swap = state(SwapPhase::AwaitingContractData);
        let contract = IncomingContract {
            pubkeys,
            contract_tx,
        };
        take_incoming_coins(&mut swap, &proof_of_funding(), vec![contract], &key, [9u8; 20])
            .unwrap_err()
    };
    let keys = || Ok((public(4), public(5)));
    assert!(matches!(
        take(Err(ProtocolError::Secp), Ok(tx(4, None, vec![])), [1u8; 32]),
        MakerError::Protocol(ProtocolError::Secp)
    ));
    assert!(matches!(
        take(keys(), Ok(tx(4, None, vec![])), [0xffu8; 32]),
        MakerError::Secp
    ));
    assert!(matches!(
        take(keys(), Err(ProtocolError::General("bad")), [1u8; 32]),
        MakerError::Protocol(ProtocolError::General("bad"))
    ));
}

#[test]
fn fees_are_settled_in_rounds() {
    assert_eq!(outgoing_amount(50_000, 700, 300).unwrap(), 49_000);
    assert_eq!(outgoing_amount(1_000, 700, 300).unwrap(), 0);
    assert!(matches!(
        outgoing_amount(999, 700, 300),
        Err(MakerError::General("Swap fee exceeds incoming amount"))
    ));
    let mut swap = state(SwapPhase::AwaitingContractData);
    let first = begin_fee_rounds(&mut swap, 50_000, 700, 150, 2).unwrap();
    assert_eq!(
        first,
        FeeRound {
            round: 1,
            mining_fee: 300,
            amount: 49_000
        }
    );
    assert_eq!(swap.service_fee_sats, 700);
    assert_eq!(settle_fee_round(first, 50_000, 700, 300).unwrap(), None);
    let second = settle_fee_round(first, 50_000, 700, 400).unwrap().unwrap();
    assert_eq!(
        second,
        FeeRound {
            round: 2,
            mining_fee: 400,
            amount: 48_900
        }
    );
    let third = settle_fee_round(second, 50_000, 700, 500).unwrap().unwrap();
    assert!(matches!(
        settle_fee_round(third, 50_000, 700, 600),
        Err(MakerError::General(
            "Maker funding fee did not converge within input limit"
        ))
    ));
    assert!(settle_fee_round(first, 50_000, 700, 50_000).is_err());
}

#[test]
fn the_maker_tells_of_its_funding() {
    let mut swap = state(SwapPhase::AwaitingContractData);
    swap.incoming_swapcoins.push(incoming());
    let funding = tx(5, Some(point(3)), vec![(1, vec![1]), (2, vec![2])]);
    let told = finish_proof_of_funding(
        &mut swap,
        &proof_of_funding(),
        vec![funding.clone()],
        vec![outgoing()],
    )
    .unwrap();
    assert_eq!(told.receivers_contract_txs.len(), 1);
    let info = &told.senders_contract_txs_info[0];
    assert_eq!(info.timelock_pubkey, public(4));
    assert_eq!(info.multisig_redeemscript, vec![0x60]);
    assert_eq!(info.contract_redeemscript, vec![0x61]);
    assert_eq!(info.funding_amount, 49_000);
    assert_eq!((info.multisig_nonce, info.hashlock_nonce), ([7u8; 32], [8u8; 32]));
    assert_eq!(swap.phase, SwapPhase::AwaitingSignaturesOrPreimage);
    assert_eq!(swap.reserve_utxo, all_outputs(&vec![funding]));
    assert_eq!(swap.outgoing_swapcoins[0].swap_id.as_deref(), Some("swap"));
    assert_eq!(swap.pending_funding_txes.len(), 1);
}

fn sender_request() -> ReqContractSigsForSender {
    ReqContractSigsForSender {
        id: "swap".to_string(),
        txs_info: vec![ContractTxInfoForSender {
            multisig_nonce: [2u8; 32],
            hashlock_nonce: [3u8; 32],
            timelock_pubkey: public(4),
            senders_contract_tx: tx(6, Some(point(6)), vec![(1, vec![0x66])]),
            multisig_redeemscript: vec![0x52],
            funding_input_value: 60_000,
        }],
        hashvalue: [9u8; 20],
        locktime: 60,
    }
}

#[test]
fn a_sender_keeps_to_the_terms() {
    let agreed = state(SwapPhase::AwaitingContractData);
    assert!(check_sender_terms(&agreed, &sender_request()).is_ok());
    let mut later = sender_request();
    later.locktime = 61;
    assert!(matches!(
        check_sender_terms(&agreed, &later),
        Err(MakerError::General(
            "Sender contract locktime does not match the negotiated timelock"
        ))
    ));
    let bindings = contract_bindings(&sender_request().txs_info);
    assert_eq!(bindings[0].prevout, point(6));
    assert_eq!(bindings[0].script_pubkey, vec![0x66]);
}

#[test]
fn a_senders_contracts_are_signed() {
    let answer =
        answer_sender_request(sender_request(), &[1u8; 32], vec![Ok(vec![1, 2])]).unwrap();
    assert_eq!(answer.id, "swap");
    assert_eq!(answer.sigs, vec![vec![1, 2]]);
    assert!(matches!(
        answer_sender_request(sender_request(), &[1u8; 32], vec![Err(ProtocolError::Secp)]),
        Err(MakerError::General("Failed to sign contract transaction"))
    ));
    assert!(matches!(
        answer_sender_request(sender_request(), &[0xffu8; 32], vec![Ok(vec![1])]),
        Err(MakerError::General("Failed to derive multisig privkey"))
    ));
}

fn signatures(receivers: usize, senders: usize) -> RespContractSigsForRecvrAndSender {
    RespContractSigsForRecvrAndSender {
        id: "swap".to_string(),
        receivers_sigs: vec![vec![1]; receivers],
        senders_sigs: vec![vec![2]; senders],
    }
}

#[test]
fn contract_signatures_are_taken_over() {
    let mut swap = state(SwapPhase::AwaitingSignaturesOrPreimage);
    swap.incoming_swapcoins.push(incoming());
    swap.outgoing_swapcoins.push(outgoing());
    let checked = |signature: u8, valid| {
        let (contract, amount, ours, other) = if signature == 1 {
            let coin = incoming();
            (coin.contract_tx, coin.funding_amount, coin.my_pubkey, coin.other_pubkey)
        } else {
            let coin = outgoing();
            (coin.contract_tx, coin.funding_amount, coin.my_pubkey, coin.other_pubkey)
        };
        vec![SignatureCheck {
            signature: vec![signature],
            contract: txid(&contract),
            funding_amount: amount,
            my_pubkey: ours.unwrap(),
            other_pubkey: other.unwrap(),
            valid,
        }]
    };
    let (receivers, senders) = (checked(1, Ok(())), checked(2, Ok(())));
    assert!(matches!(
        take_contract_sigs(&mut swap, &signatures(2, 1), &receivers, &senders),
        Err(MakerError::General("Invalid number of receiver signatures"))
    ));
    assert!(matches!(
        take_contract_sigs(&mut swap, &signatures(1, 0), &receivers, &senders),
        Err(MakerError::General("Invalid number of sender signatures"))
    ));
    let invalid = checked(2, Err(ProtocolError::Secp));
    assert!(take_contract_sigs(&mut swap, &signatures(1, 1), &receivers, &invalid).is_err());
    assert!(take_contract_sigs(&mut swap, &signatures(1, 1), &senders, &senders).is_err());
    assert_eq!(swap.incoming_swapcoins[0].others_contract_sig, None);
    take_contract_sigs(&mut swap, &signatures(1, 1), &receivers, &senders).unwrap();
    assert_eq!(swap.incoming_swapcoins[0].others_contract_sig, Some(vec![1]));
    assert_eq!(swap.outgoing_swapcoins[0].others_contract_sig, Some(vec![2]));
}

#[test]
fn funding_is_broadcast_last() {
    let mut swap = state(SwapPhase::AwaitingSignaturesOrPreimage);
    swap.incoming_swapcoins.push(incoming());
    swap.outgoing_swapcoins.push(outgoing());
    swap.pending_funding_txes.push(tx(5, None, vec![]));
    let (watches, steps) = plan_funding(&swap);
    assert_eq!(watches.len(), 2);
    assert_eq!(
        steps,
        vec![
            FundingStep::Watch(0),
            FundingStep::Watch(1),
            FundingStep::EnsureWatchtower,
            FundingStep::SaveIncoming(0),
            FundingStep::SaveOutgoing(0),
            FundingStep::Broadcast(0),
        ]
    );
    finish_funding(&mut swap);
    assert!(swap.funding_broadcast);
    assert_eq!(swap.phase, SwapPhase::AwaitingPrivateKeyHandover);
}

#[test]
fn a_known_transaction_counts_as_broadcast() {
    let fault = |code, message: &str| {
        MakerError::Wallet(WalletFault::Rpc {
            code,
            message: message.to_string(),
        })
    };
    assert!(is_rebroadcast(&fault(-27, "")));
    assert!(is_rebroadcast(&fault(-25, "Transaction already in block chain")));
    assert!(is_rebroadcast(&fault(-25, "error: Txn-Already-In-Mempool!")));
    assert!(is_rebroadcast(&fault(-25, "already in utxo set")));
    assert!(!is_rebroadcast(&fault(-25, "missing inputs")));
    assert!(!is_rebroadcast(&MakerError::Secp));
    assert!(settle_broadcast(Ok(()), false).is_ok());
    assert!(settle_broadcast(Err(MakerError::Secp), true).is_ok());
    assert!(settle_broadcast(Err(fault(-27, "")), false).is_ok());
    assert!(settle_broadcast(Err(MakerError::Secp), false).is_err());
}

#[test]
fn a_receivers_contract_spends_our_funding() {
    let funding = tx(5, Some(point(3)), vec![(1, vec![1])]);
    let request = |spent| ReqContractSigsForRecvr {
        id: "swap".to_string(),
        txs: vec![ContractTxInfoForRecvr {
            multisig_redeemscript: vec![0x60],
            contract_tx: tx(7, Some(spent), vec![(1, vec![1])]),
        }],
    };
    let mut coin = outgoing();
    coin.funding_tx = Some(funding.clone());
    let swap = state(SwapPhase::AwaitingPrivateKeyHandover);
    let ours = OutPoint {
        txid: txid(&funding),
        vout: 0,
    };
    let process = |spent, coin, signed| {
        process_req_contract_sigs_for_recvr(&swap, request(spent), &vec![coin], vec![signed])
    };
    let answer = process(ours, Some(coin.clone()), Ok(vec![3])).unwrap();
    assert_eq!(answer.sigs, vec![vec![3]]);
    assert!(matches!(
        process(point(9), Some(coin.clone()), Ok(vec![3])),
        Err(MakerError::ItemTxid {
            what: "Receiver contract tx {} spends from {} but expected {}",
            index: 0,
            ..
        })
    ));
    assert_eq!(
        process(point(9), Some(coin.clone()), Ok(vec![3])).unwrap_err().description().unwrap(),
        format!(
            "Receiver contract tx 0 spends from {} but expected {}",
            txid_text(&point(9).txid),
            txid_text(&txid(&funding))
        )
    );
    assert!(matches!(
        process(ours, None, Ok(vec![3])),
        Err(MakerError::General("Could not find matching outgoing swapcoin"))
    ));
    assert!(matches!(
        process(ours, Some(coin.clone()), Err(ProtocolError::Secp)),
        Err(MakerError::General("Failed to sign receiver contract tx"))
    ));
    coin.my_privkey = None;
    assert!(matches!(
        process(ours, Some(coin), Ok(vec![3])),
        Err(MakerError::General("No private key in outgoing swapcoin"))
    ));
}

fn handover(keys: Vec<u8>) -> PrivateKeyHandover {
    PrivateKeyHandover {
        id: "swap".to_string(),
        privkeys: keys
            .into_iter()
            .map(|byte| SwapPrivkey {
                identifier: vec![],
                key: [byte; 32],
            })
            .collect(),
    }
}

#[test]
fn private_keys_are_exchanged() {
    let mut swap = state(SwapPhase::AwaitingPrivateKeyHandover);
    swap.incoming_swapcoins.push(incoming());
    assert!(matches!(
        process_legacy_handover(&mut swap, handover(vec![5])),
        Err(MakerError::General("No outgoing swapcoin found"))
    ));
    swap.outgoing_swapcoins.push(outgoing());
    assert!(process_legacy_handover(&mut swap, handover(vec![])).is_err());
    assert!(process_legacy_handover(&mut swap, handover(vec![4])).is_err());
    assert_eq!(swap.incoming_swapcoins[0].other_privkey, None);
    let answer = process_legacy_handover(&mut swap, handover(vec![5])).unwrap();
    assert_eq!(answer.privkeys.len(), 1);
    assert_eq!(answer.privkeys[0].key, [6u8; 32]);
    assert_eq!(swap.incoming_swapcoins[0].other_privkey, Some([5u8; 32]));
}

#[test]
fn a_completed_swap_is_reported_and_unwatched() {
    let mut swap = state(SwapPhase::AwaitingPrivateKeyHandover);
    swap.incoming_swapcoins.push(incoming());
    swap.outgoing_swapcoins.push(outgoing());
    swap.service_fee_sats = 700;
    let report = emit_maker_success_report(&swap);
    assert_eq!((report.incoming_total, report.outgoing_total), (50_000, 49_000));
    assert_eq!(report.service_fee_sats, 700);
    assert_eq!(report.incoming_txid, Some(txid(&incoming().contract_tx)));
    assert!(plan_completion(&swap).is_none());
    complete_swap(&mut swap);
    assert_eq!(swap.phase, SwapPhase::Completed);
    let plan = plan_completion(&swap).unwrap();
    assert_eq!(plan.remove.as_deref(), Some("swap"));
    assert_eq!(plan.unwatch.len(), 3);
}

#[test]
fn every_output_of_a_contract_is_watched() {
    let watches = watch_outgoing(&vec![outgoing()]);
    assert_eq!(watches.len(), 2);
    assert_eq!(watches[1].outpoint.vout, 1);
    assert_eq!(watches[1].script_pubkey, vec![0x53]);
    assert_eq!(watches[0].outpoint.txid, txid(&outgoing().contract_tx));
}

#[test]
fn a_contract_is_funded_by_one_transaction() {
    let funding = || tx(5, None, vec![(1, vec![1]), (2, vec![2])]);
    let (found, position) = single_funding(vec![funding()], &vec![1]).unwrap();
    assert_eq!(found.output.len(), 2);
    assert_eq!(position, 1);
    assert!(single_funding(vec![], &vec![]).is_err());
    let outputs = funded_outputs(&vec![funding(), funding()], &vec![1, 0], 2, 1);
    assert_eq!(outputs.len(), 1);
    assert_eq!(outputs[0].amount, 2);
    assert_eq!(outputs[0].outpoint.vout, 1);
}

#[test]
fn funded_outputs_become_the_coins_of_the_next_hop() {
    let funding = || tx(5, None, vec![(1, vec![1]), (2, vec![2])]);
    let outputs = funded_outputs(&vec![funding()], &vec![1], 1, 1);
    let next = || {
        vec![NextHopInfo {
            next_multisig_pubkey: public(7),
            next_hashlock_pubkey: public(8),
            next_multisig_nonce: [9u8; 32],
            next_hashlock_nonce: [10u8; 32],
        }]
    };
    let contract = |my_privkey: [u8; 32], contract_tx| {
        vec![NextHopContract {
            my_privkey,
            timelock_privkey: [3u8; 32],
            multisig_redeemscript: vec![4],
            contract_redeemscript: vec![5],
            contract_tx,
        }]
    };
    let coins =
        initialize_openswap(&outputs, contract([6u8; 32], Ok(funding())), &next(), 50).unwrap();
    assert_eq!(coins.len(), 1);
    assert_eq!(coins[0].my_pubkey, Some(public(6)));
    assert_eq!(coins[0].other_pubkey, Some(public(7)));
    assert_eq!(coins[0].timelock, Some(50));
    assert_eq!(coins[0].funding_amount, 2);
    assert_eq!(coins[0].contract_redeemscript, Some(vec![5]));
    assert_eq!(txid(&coins[0].contract_tx), txid(&funding()));
    let failed = Err(ProtocolError::General("bad"));
    assert!(matches!(
        initialize_openswap(&outputs, contract([6u8; 32], failed), &next(), 50),
        Err(MakerError::Protocol(ProtocolError::General("bad")))
    ));
    assert!(matches!(
        initialize_openswap(&outputs, contract([0u8; 32], Ok(funding())), &next(), 50),
        Err(MakerError::Secp)
    ));
}

#[test]
fn signatures_are_counted_before_they_are_checked() {
    let mut swap = state(SwapPhase::AwaitingSignaturesOrPreimage);
    swap.incoming_swapcoins.push(incoming());
    swap.outgoing_swapcoins.push(outgoing());
    assert!(check_signature_terms(&swap, &signatures(1, 1)).is_ok());
    assert!(matches!(
        check_signature_terms(&swap, &signatures(0, 1)),
        Err(MakerError::General("Invalid number of receiver signatures"))
    ));
    assert!(matches!(
        check_signature_terms(&swap, &signatures(1, 0)),
        Err(MakerError::General("Invalid number of sender signatures"))
    ));
    let mut other = signatures(1, 1);
    other.id = "other".to_string();
    assert!(matches!(
        check_signature_terms(&swap, &other),
        Err(MakerError::SwapIdMismatch)
    ));
    assert!(matches!(
        check_signature_terms(&state(SwapPhase::AwaitingHello), &signatures(0, 0)),
        Err(MakerError::UnexpectedPhase(SwapPhase::AwaitingHello))
    ));
}

#[test]
fn facts_of_another_output_or_depth_prove_nothing() {
    let verify = |facts| {
        verify_proof_of_funding(&proof_of_funding(), vec![Ok(70)], vec![facts], 2).unwrap_err()
    };
    let mut other = facts(true);
    other.outpoint.vout = 0;
    assert!(matches!(
        verify(other),
        MakerError::General("Facts of another funding output or depth")
    ));
    let mut shallow = facts(true);
    shallow.depth = 1;
    assert!(matches!(
        verify(shallow),
        MakerError::General("Facts of another funding output or depth")
    ));
}
