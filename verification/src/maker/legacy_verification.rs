//! Verification of a taker's legacy messages.

use crate::chain::{
    bytes_equal, hash_equal, key_equal, txid_equal, Hash160, PublicKey, Transaction,
    TransactionModel, Txid,
};
use crate::error::MakerError;
use crate::maker::swapcoin::{IncomingSwapCoin, OutgoingSwapCoin};
use crate::maker::taproot_verification::{
    handover_keys_verdict, lemma_handover_keys, verify_handover_keys,
};
use crate::primitives::{add_to_point, compute_txid, public_key_of, tweaked_point, txid_of};
use crate::protocol::common_messages::SwapPrivkey;
use crate::protocol::error::ProtocolError;
use crate::protocol::legacy_messages::ContractTxInfoForSender;
use vstd::prelude::*;

verus! {

/// The terms of the contract that the output of a sender's contract transaction
/// must pay to.
#[derive(Debug, Clone, Copy, PartialEq, Eq)]
pub struct SenderOutputTerms {
    /// The maker's key, which spends with the preimage.
    pub hashlock_pubkey: PublicKey,
    /// The sender's key, which spends after the lock time.
    pub timelock_pubkey: PublicKey,
    /// The hash that the contract is locked to.
    pub hashvalue: Hash160,
    /// The lock time in blocks.
    pub locktime: u16,
}

/// What the contract scripts say of a sender's contract transaction.
#[derive(Debug)]
pub struct SenderContractChecks {
    /// Whether the script is one of two keys.
    pub is_multisig: Result<(), ProtocolError>,
    /// Whether the maker's key is one of them.
    pub has_our_key: Result<(), ProtocolError>,
    /// The terms of the contract that the output was held against, where there
    /// were any.
    pub terms: Option<SenderOutputTerms>,
    /// Whether the first output pays to the contract of these terms.
    pub output_valid: Result<(), ProtocolError>,
}

/// What the sender's contract at `i` is rejected for. `terms` are those that
/// its output must have been held against.
pub open spec fn sender_contract_verdict(
    info: ContractTxInfoForSender,
    checks: SenderContractChecks,
    terms: Result<SenderOutputTerms, MakerError>,
    i: usize,
) -> Result<(), MakerError> {
    match (checks.is_multisig, checks.has_our_key) {
        (Err(cause), _) => Err(
            MakerError::ItemContract {
                what: "Sender contract {} invalid multisig redeemscript: {}",
                index: i,
                cause,
            },
        ),
        (_, Err(cause)) => Err(
            MakerError::ItemContract {
                what: "Sender contract {} multisig doesn't contain maker's pubkey: {}",
                index: i,
                cause,
            },
        ),
        _ => if !is_one_to_one(info.senders_contract_tx) {
            Err(
                MakerError::Structure {
                    what: "Sender contract tx {} has invalid structure: {} inputs, {} outputs",
                    index: i,
                    inputs: info.senders_contract_tx.input@.len() as usize,
                    outputs: info.senders_contract_tx.output@.len() as usize,
                },
            )
        } else {
            match terms {
                Err(e) => Err(e),
                Ok(terms) => if checks.terms != Some(terms) {
                    Err(
                        MakerError::ItemContract {
                            what: "Sender contract {} output invalid: {}",
                            index: i,
                            cause: ProtocolError::General("Output was held against other terms"),
                        },
                    )
                } else {
                    match checks.output_valid {
                        Err(cause) => Err(
                            MakerError::ItemContract {
                                what: "Sender contract {} output invalid: {}",
                                index: i,
                                cause,
                            },
                        ),
                        Ok(_) => Ok(()),
                    }
                },
            }
        },
    }
}

/// Whether a transaction has exactly one input and one output.
pub open spec fn is_one_to_one(tx: Transaction) -> bool {
    tx.input@.len() == 1 && tx.output@.len() == 1
}

/// The lock time that a taker's contract must have: the maker's plus the step,
/// where that is a number of blocks.
pub open spec fn taker_locktime(locktime: u16, refund_locktime_step: u16) -> Result<
    u16,
    MakerError,
> {
    if locktime + refund_locktime_step > u16::MAX {
        Err(MakerError::General("Sender contract locktime overflows the refund step"))
    } else {
        Ok((locktime + refund_locktime_step) as u16)
    }
}

/// The lock time that a taker's contract must have.
pub fn expected_taker_locktime(locktime: u16, refund_locktime_step: u16) -> (r: Result<
    u16,
    MakerError,
>)
    ensures
        r == taker_locktime(locktime, refund_locktime_step),
{
    match locktime.checked_add(refund_locktime_step) {
        Some(sum) => Ok(sum),
        None => Err(MakerError::General("Sender contract locktime overflows the refund step")),
    }
}

/// The terms of the contract that the sender's contract transaction at `i` must
/// pay to: the maker's key is derived from the nonce, and the lock time is a
/// step later than the maker's.
pub open spec fn output_terms(
    info: ContractTxInfoForSender,
    tweakable_pubkey: PublicKey,
    hashvalue: Hash160,
    locktime: u16,
    refund_locktime_step: u16,
    i: usize,
) -> Result<SenderOutputTerms, MakerError> {
    match (
        taker_locktime(locktime, refund_locktime_step),
        tweaked_point(tweakable_pubkey, info.hashlock_nonce),
    ) {
        (Err(e), _) => Err(e),
        (_, None) => Err(
            MakerError::Item { what: "Sender contract {} hashlock key derivation failed", index: i },
        ),
        (Ok(blocks), Some(key)) => Ok(
            SenderOutputTerms {
                hashlock_pubkey: key,
                timelock_pubkey: info.timelock_pubkey,
                hashvalue,
                locktime: blocks,
            },
        ),
    }
}

/// The terms of the contract that the sender's contract transaction at `i` must
/// pay to.
pub fn sender_output_terms(
    info: &ContractTxInfoForSender,
    tweakable_pubkey: &PublicKey,
    hashvalue: &Hash160,
    locktime: u16,
    refund_locktime_step: u16,
    i: usize,
) -> (r: Result<SenderOutputTerms, MakerError>)
    ensures
        r == output_terms(
            *info,
            *tweakable_pubkey,
            *hashvalue,
            locktime,
            refund_locktime_step,
            i,
        ),
{
    let locktime: u16 = match expected_taker_locktime(locktime, refund_locktime_step) {
        Err(e) => {
            return Err(e);
        },
        Ok(blocks) => blocks,
    };
    match add_to_point(tweakable_pubkey, &info.hashlock_nonce) {
        None => Err(
            MakerError::Item { what: "Sender contract {} hashlock key derivation failed", index: i },
        ),
        Some(hashlock_pubkey) => Ok(
            SenderOutputTerms {
                hashlock_pubkey,
                timelock_pubkey: info.timelock_pubkey,
                hashvalue: *hashvalue,
                locktime,
            },
        ),
    }
}

/// Whether two contracts have the same terms.
fn same_terms(a: &SenderOutputTerms, b: &SenderOutputTerms) -> (r: bool)
    ensures
        r == (*a == *b),
{
    key_equal(&a.hashlock_pubkey, &b.hashlock_pubkey) && key_equal(
        &a.timelock_pubkey,
        &b.timelock_pubkey,
    ) && hash_equal(&a.hashvalue, &b.hashvalue) && a.locktime == b.locktime
}

/// The reason of the first rejected contract from `i` on.
pub open spec fn sender_contracts_verdict(
    txs_info: Seq<ContractTxInfoForSender>,
    checks: Seq<SenderContractChecks>,
    tweakable_pubkey: PublicKey,
    hashvalue: Hash160,
    locktime: u16,
    refund_locktime_step: u16,
    i: int,
) -> Result<(), MakerError>
    decreases txs_info.len() - i,
{
    if i < 0 || i >= txs_info.len() {
        Ok(())
    } else {
        match sender_contract_verdict(
            txs_info[i],
            checks[i],
            output_terms(
                txs_info[i],
                tweakable_pubkey,
                hashvalue,
                locktime,
                refund_locktime_step,
                i as usize,
            ),
            i as usize,
        ) {
            Err(e) => Err(e),
            Ok(_) => sender_contracts_verdict(
                txs_info,
                checks,
                tweakable_pubkey,
                hashvalue,
                locktime,
                refund_locktime_step,
                i + 1,
            ),
        }
    }
}

/// What a request for signatures of a sender's contracts is rejected for.
pub open spec fn sender_request_verdict(
    txs_info: Seq<ContractTxInfoForSender>,
    checks: Seq<SenderContractChecks>,
    tweakable_pubkey: PublicKey,
    hashvalue: Hash160,
    locktime: u16,
    refund_locktime_step: u16,
) -> Result<(), MakerError> {
    if txs_info.len() == 0 {
        Err(MakerError::General("Empty sender contract txs info from taker"))
    } else {
        match taker_locktime(locktime, refund_locktime_step) {
            Err(e) => Err(e),
            Ok(_) => sender_contracts_verdict(
                txs_info,
                checks,
                tweakable_pubkey,
                hashvalue,
                locktime,
                refund_locktime_step,
                0,
            ),
        }
    }
}

/// A copy of a check's outcome.
fn outcome_of(check: &Result<(), ProtocolError>) -> (r: Option<ProtocolError>)
    ensures
        r is None <==> *check is Ok,
        r is Some ==> *check == Err::<(), ProtocolError>(r->0),
{
    match check {
        Ok(_) => None,
        Err(e) => Some(copy_error(e)),
    }
}

/// A copy of a protocol error.
pub fn copy_error(e: &ProtocolError) -> (r: ProtocolError)
    ensures
        r == *e,
{
    match e {
        ProtocolError::General(text) => ProtocolError::General(text),
        ProtocolError::Secp => ProtocolError::Secp,
        ProtocolError::WrongMessage { expected, received } => ProtocolError::WrongMessage {
            expected,
            received,
        },
        ProtocolError::WrongNumOfSigs { expected, received } => ProtocolError::WrongNumOfSigs {
            expected: *expected,
            received: *received,
        },
        ProtocolError::WrongNumOfContractTxs { expected, received } =>
            ProtocolError::WrongNumOfContractTxs { expected: *expected, received: *received },
        ProtocolError::WrongNumOfPrivkeys { expected, received } =>
            ProtocolError::WrongNumOfPrivkeys { expected: *expected, received: *received },
        ProtocolError::IncorrectFundingAmount { expected, found } =>
            ProtocolError::IncorrectFundingAmount { expected: *expected, found: *found },
        ProtocolError::ScalarOutOfRange => ProtocolError::ScalarOutOfRange,
        ProtocolError::TaprootBuilder => ProtocolError::TaprootBuilder,
        ProtocolError::TaprootSighash => ProtocolError::TaprootSighash,
        ProtocolError::InsufficientFunds => ProtocolError::InsufficientFunds,
        ProtocolError::MusigTweak => ProtocolError::MusigTweak,
    }
}

/// Checks one contract of a sender.
fn verify_sender_contract(
    info: &ContractTxInfoForSender,
    checks: &SenderContractChecks,
    terms: Result<SenderOutputTerms, MakerError>,
    i: usize,
) -> (r: Result<(), MakerError>)
    ensures
        r == sender_contract_verdict(*info, *checks, terms, i),
{
    if let Some(cause) = outcome_of(&checks.is_multisig) {
        return Err(
            MakerError::ItemContract {
                what: "Sender contract {} invalid multisig redeemscript: {}",
                index: i,
                cause,
            },
        );
    }
    if let Some(cause) = outcome_of(&checks.has_our_key) {
        return Err(
            MakerError::ItemContract {
                what: "Sender contract {} multisig doesn't contain maker's pubkey: {}",
                index: i,
                cause,
            },
        );
    }
    let inputs = info.senders_contract_tx.input.len();
    let outputs = info.senders_contract_tx.output.len();
    if inputs != 1 || outputs != 1 {
        return Err(
            MakerError::Structure {
                what: "Sender contract tx {} has invalid structure: {} inputs, {} outputs",
                index: i,
                inputs,
                outputs,
            },
        );
    }
    let expected = match terms {
        Err(e) => {
            return Err(e);
        },
        Ok(expected) => expected,
    };
    let held_against_them = match &checks.terms {
        None => false,
        Some(terms) => same_terms(terms, &expected),
    };
    if !held_against_them {
        return Err(
            MakerError::ItemContract {
                what: "Sender contract {} output invalid: {}",
                index: i,
                cause: ProtocolError::General("Output was held against other terms"),
            },
        );
    }
    if let Some(cause) = outcome_of(&checks.output_valid) {
        return Err(
            MakerError::ItemContract { what: "Sender contract {} output invalid: {}", index: i, cause },
        );
    }
    Ok(())
}

/// Verify sender contract transactions before signing. `checks` holds, for
/// each of them, what its scripts say; its output must have been held against
/// the terms that [`sender_output_terms`] gives.
pub fn verify_req_contract_sigs_for_sender(
    txs_info: &Vec<ContractTxInfoForSender>,
    checks: &Vec<SenderContractChecks>,
    tweakable_pubkey: &PublicKey,
    hashvalue: &Hash160,
    locktime: u16,
    refund_locktime_step: u16,
) -> (r: Result<(), MakerError>)
    requires
        checks@.len() == txs_info@.len(),
    ensures
        r == sender_request_verdict(
            txs_info@,
            checks@,
            *tweakable_pubkey,
            *hashvalue,
            locktime,
            refund_locktime_step,
        ),
{
    if txs_info.len() == 0 {
        return Err(MakerError::General("Empty sender contract txs info from taker"));
    }
    match expected_taker_locktime(locktime, refund_locktime_step) {
        Err(e) => {
            return Err(e);
        },
        Ok(_) => {},
    }
    let mut i: usize = 0;
    while i < txs_info.len()
        invariant
            i <= txs_info.len(),
            txs_info@.len() > 0,
            checks@.len() == txs_info@.len(),
            taker_locktime(locktime, refund_locktime_step) is Ok,
            sender_contracts_verdict(
                txs_info@,
                checks@,
                *tweakable_pubkey,
                *hashvalue,
                locktime,
                refund_locktime_step,
                0,
            ) == sender_contracts_verdict(
                txs_info@,
                checks@,
                *tweakable_pubkey,
                *hashvalue,
                locktime,
                refund_locktime_step,
                i as int,
            ),
        decreases txs_info.len() - i,
    {
        let terms = sender_output_terms(
            &txs_info[i],
            tweakable_pubkey,
            hashvalue,
            locktime,
            refund_locktime_step,
            i,
        );
        match verify_sender_contract(&txs_info[i], &checks[i], terms, i) {
            Err(e) => {
                return Err(e);
            },
            Ok(_) => {},
        }
        i += 1;
    }
    Ok(())
}

/// Whether a sender's contract passes every check, and its output was held
/// against the contract of the maker's key from the nonce, the sender's key, the
/// hash of the request and a lock time that is a step later than the maker's.
pub open spec fn acceptable_sender_contract(
    info: ContractTxInfoForSender,
    checks: SenderContractChecks,
    tweakable_pubkey: PublicKey,
    hashvalue: Hash160,
    locktime: u16,
    refund_locktime_step: u16,
) -> bool {
    let key = tweaked_point(tweakable_pubkey, info.hashlock_nonce);
    &&& checks.is_multisig is Ok
    &&& checks.has_our_key is Ok
    &&& is_one_to_one(info.senders_contract_tx)
    &&& key is Some
    &&& checks.terms == Some(
        SenderOutputTerms {
            hashlock_pubkey: key->0,
            timelock_pubkey: info.timelock_pubkey,
            hashvalue,
            locktime: (locktime + refund_locktime_step) as u16,
        },
    )
    &&& checks.output_valid is Ok
}

/// A request is accepted exactly where it holds a contract, its lock time
/// leaves room for the step, and every contract passes every check against the
/// terms of the request.
pub proof fn law_sender_request_accepted(
    txs_info: Seq<ContractTxInfoForSender>,
    checks: Seq<SenderContractChecks>,
    tweakable_pubkey: PublicKey,
    hashvalue: Hash160,
    locktime: u16,
    refund_locktime_step: u16,
)
    ensures
        sender_request_verdict(
            txs_info,
            checks,
            tweakable_pubkey,
            hashvalue,
            locktime,
            refund_locktime_step,
        ) is Ok <==> {
            &&& txs_info.len() > 0
            &&& locktime + refund_locktime_step <= u16::MAX
            &&& forall|i: int|
                0 <= i < txs_info.len() ==> #[trigger] acceptable_sender_contract(
                    txs_info[i],
                    checks[i],
                    tweakable_pubkey,
                    hashvalue,
                    locktime,
                    refund_locktime_step,
                )
        },
{
    if locktime + refund_locktime_step <= u16::MAX {
        lemma_sender_contracts(
            txs_info,
            checks,
            tweakable_pubkey,
            hashvalue,
            locktime,
            refund_locktime_step,
            0,
        );
    }
}

/// The contracts from `i` on are accepted exactly where each passes.
proof fn lemma_sender_contracts(
    txs_info: Seq<ContractTxInfoForSender>,
    checks: Seq<SenderContractChecks>,
    tweakable_pubkey: PublicKey,
    hashvalue: Hash160,
    locktime: u16,
    refund_locktime_step: u16,
    i: int,
)
    requires
        0 <= i <= txs_info.len(),
        locktime + refund_locktime_step <= u16::MAX,
    ensures
        sender_contracts_verdict(
            txs_info,
            checks,
            tweakable_pubkey,
            hashvalue,
            locktime,
            refund_locktime_step,
            i,
        ) is Ok <==> forall|j: int|
            i <= j < txs_info.len() ==> #[trigger] acceptable_sender_contract(
                txs_info[j],
                checks[j],
                tweakable_pubkey,
                hashvalue,
                locktime,
                refund_locktime_step,
            ),
    decreases txs_info.len() - i,
{
    if i < txs_info.len() {
        lemma_sender_contracts(
            txs_info,
            checks,
            tweakable_pubkey,
            hashvalue,
            locktime,
            refund_locktime_step,
            i + 1,
        );
        let passes = acceptable_sender_contract(
            txs_info[i],
            checks[i],
            tweakable_pubkey,
            hashvalue,
            locktime,
            refund_locktime_step,
        );
        let terms = output_terms(
            txs_info[i],
            tweakable_pubkey,
            hashvalue,
            locktime,
            refund_locktime_step,
            i as usize,
        );
        assert(passes == (sender_contract_verdict(
            txs_info[i],
            checks[i],
            terms,
            i as usize,
        ) is Ok));
    }
}

/// What came of holding a signature against the contract transaction of a
/// coin.
#[derive(Debug)]
pub struct SignatureCheck {
    /// The signature.
    pub signature: Vec<u8>,
    /// The contract transaction.
    pub contract: Txid,
    /// The amount that the contract transaction spends, in satoshis.
    pub funding_amount: u64,
    /// The maker's key of the script of two keys.
    pub my_pubkey: PublicKey,
    /// The key that must have signed.
    pub other_pubkey: PublicKey,
    /// Whether the signature is that key's over the contract transaction.
    pub valid: Result<(), ProtocolError>,
}

impl SignatureCheck {
    /// Whether the check is of this signature and this coin.
    pub open spec fn is_of(
        &self,
        signature: Seq<u8>,
        contract: TransactionModel,
        funding_amount: u64,
        my_pubkey: PublicKey,
        other_pubkey: PublicKey,
    ) -> bool {
        &&& self.signature@ == signature
        &&& self.contract == txid_of(contract)
        &&& self.funding_amount == funding_amount
        &&& self.my_pubkey == my_pubkey
        &&& self.other_pubkey == other_pubkey
    }
}

/// The check at a position, where there is one.
pub open spec fn check_at(checks: Seq<SignatureCheck>, i: int) -> Option<SignatureCheck> {
    if 0 <= i < checks.len() {
        Some(checks[i])
    } else {
        None
    }
}

/// What a signature is rejected for: it must have been held against its own
/// coin, and be valid there.
pub open spec fn signature_verdict(
    check: Option<SignatureCheck>,
    signature: Seq<u8>,
    contract: TransactionModel,
    funding_amount: u64,
    my_pubkey: PublicKey,
    other_pubkey: PublicKey,
) -> Result<(), ProtocolError> {
    match check {
        Some(check) => if check.is_of(
            signature,
            contract,
            funding_amount,
            my_pubkey,
            other_pubkey,
        ) {
            match check.valid {
                Ok(_) => Ok(()),
                Err(cause) => Err(cause),
            }
        } else {
            Err(ProtocolError::General("Signature was held against another coin"))
        },
        None => Err(ProtocolError::General("Signature was not checked")),
    }
}

/// Looks at what came of holding a signature against a coin.
fn check_signature(
    checks: &Vec<SignatureCheck>,
    i: usize,
    signature: &[u8],
    contract: &Transaction,
    funding_amount: u64,
    my_pubkey: &PublicKey,
    other_pubkey: &PublicKey,
) -> (r: Result<(), ProtocolError>)
    ensures
        r == signature_verdict(
            check_at(checks@, i as int),
            signature@,
            contract@,
            funding_amount,
            *my_pubkey,
            *other_pubkey,
        ),
{
    if i >= checks.len() {
        return Err(ProtocolError::General("Signature was not checked"));
    }
    let check = &checks[i];
    let txid = compute_txid(contract);
    if !bytes_equal(check.signature.as_slice(), signature) || !txid_equal(&check.contract, &txid)
        || check.funding_amount != funding_amount || !key_equal(&check.my_pubkey, my_pubkey)
        || !key_equal(&check.other_pubkey, other_pubkey) {
        return Err(ProtocolError::General("Signature was held against another coin"));
    }
    match &check.valid {
        Ok(_) => Ok(()),
        Err(cause) => Err(copy_error(cause)),
    }
}

/// What a receiver's signature at `i` is rejected for. `check` is what came of
/// holding it against the coin.
pub open spec fn receiver_sig_verdict(
    coin: IncomingSwapCoin,
    signature: Seq<u8>,
    check: Option<SignatureCheck>,
    i: usize,
) -> Result<(), MakerError> {
    if coin.other_pubkey is None {
        Err(
            MakerError::General(
                "Incoming swapcoin missing other_pubkey for signature verification",
            ),
        )
    } else if coin.my_pubkey is None {
        Err(MakerError::General("Incoming swapcoin missing my_pubkey"))
    } else {
        match signature_verdict(
            check,
            signature,
            coin.contract_tx@,
            coin.funding_amount,
            coin.my_pubkey->0,
            coin.other_pubkey->0,
        ) {
            Err(cause) => Err(
                MakerError::ItemContract {
                    what: "Receiver signature {} verification failed: {}",
                    index: i,
                    cause,
                },
            ),
            Ok(_) => Ok(()),
        }
    }
}

/// What a sender's signature at `i` is rejected for. `check` is what came of
/// holding it against the coin.
pub open spec fn sender_sig_verdict(
    coin: OutgoingSwapCoin,
    signature: Seq<u8>,
    check: Option<SignatureCheck>,
    i: usize,
) -> Result<(), MakerError> {
    if coin.other_pubkey is None {
        Err(
            MakerError::General(
                "Outgoing swapcoin missing other_pubkey for signature verification",
            ),
        )
    } else if coin.my_pubkey is None {
        Err(MakerError::General("Outgoing swapcoin missing my_pubkey"))
    } else {
        match signature_verdict(
            check,
            signature,
            coin.contract_tx@,
            coin.funding_amount,
            coin.my_pubkey->0,
            coin.other_pubkey->0,
        ) {
            Err(cause) => Err(
                MakerError::ItemContract {
                    what: "Sender signature {} verification failed: {}",
                    index: i,
                    cause,
                },
            ),
            Ok(_) => Ok(()),
        }
    }
}

/// The reason of the first rejected receiver signature from `i` on. Only
/// positions that both lists have are looked at.
pub open spec fn receiver_sigs_verdict(
    coins: Seq<IncomingSwapCoin>,
    signatures: Seq<Vec<u8>>,
    checks: Seq<SignatureCheck>,
    i: int,
) -> Result<(), MakerError>
    decreases coins.len() - i,
{
    if i < 0 || i >= coins.len() || i >= signatures.len() {
        Ok(())
    } else {
        match receiver_sig_verdict(coins[i], signatures[i]@, check_at(checks, i), i as usize) {
            Err(e) => Err(e),
            Ok(_) => receiver_sigs_verdict(coins, signatures, checks, i + 1),
        }
    }
}

/// The reason of the first rejected sender signature from `i` on.
pub open spec fn sender_sigs_verdict(
    coins: Seq<OutgoingSwapCoin>,
    signatures: Seq<Vec<u8>>,
    checks: Seq<SignatureCheck>,
    i: int,
) -> Result<(), MakerError>
    decreases coins.len() - i,
{
    if i < 0 || i >= coins.len() || i >= signatures.len() {
        Ok(())
    } else {
        match sender_sig_verdict(coins[i], signatures[i]@, check_at(checks, i), i as usize) {
            Err(e) => Err(e),
            Ok(_) => sender_sigs_verdict(coins, signatures, checks, i + 1),
        }
    }
}

/// What the taker's contract signatures are rejected for.
pub open spec fn contract_sigs_verdict(
    receivers_sigs: Seq<Vec<u8>>,
    senders_sigs: Seq<Vec<u8>>,
    receivers_checks: Seq<SignatureCheck>,
    senders_checks: Seq<SignatureCheck>,
    incoming: Seq<IncomingSwapCoin>,
    outgoing: Seq<OutgoingSwapCoin>,
) -> Result<(), MakerError> {
    match receiver_sigs_verdict(incoming, receivers_sigs, receivers_checks, 0) {
        Err(e) => Err(e),
        Ok(_) => sender_sigs_verdict(outgoing, senders_sigs, senders_checks, 0),
    }
}

/// Verify the taker's contract signatures. `receivers_checks` and
/// `senders_checks` hold what came of holding each against the coin at the
/// same position.
pub fn verify_contract_sigs(
    receivers_sigs: &Vec<Vec<u8>>,
    senders_sigs: &Vec<Vec<u8>>,
    receivers_checks: &Vec<SignatureCheck>,
    senders_checks: &Vec<SignatureCheck>,
    incoming_swapcoins: &Vec<IncomingSwapCoin>,
    outgoing_swapcoins: &Vec<OutgoingSwapCoin>,
) -> (r: Result<(), MakerError>)
    ensures
        r == contract_sigs_verdict(
            receivers_sigs@,
            senders_sigs@,
            receivers_checks@,
            senders_checks@,
            incoming_swapcoins@,
            outgoing_swapcoins@,
        ),
{
    let mut i: usize = 0;
    while i < incoming_swapcoins.len() && i < receivers_sigs.len()
        invariant
            i <= incoming_swapcoins.len(),
            i <= receivers_sigs.len(),
            receiver_sigs_verdict(incoming_swapcoins@, receivers_sigs@, receivers_checks@, 0) == receiver_sigs_verdict(
                incoming_swapcoins@,
                receivers_sigs@,
                receivers_checks@,
                i as int,
            ),
        decreases incoming_swapcoins.len() - i,
    {
        let coin = &incoming_swapcoins[i];
        let other_pubkey = match &coin.other_pubkey {
            Some(key) => key,
            None => {
                return Err(
                    MakerError::General(
                        "Incoming swapcoin missing other_pubkey for signature verification",
                    ),
                );
            },
        };
        let my_pubkey = match &coin.my_pubkey {
            Some(key) => key,
            None => {
                return Err(MakerError::General("Incoming swapcoin missing my_pubkey"));
            },
        };
        if let Err(cause) = check_signature(
            receivers_checks,
            i,
            receivers_sigs[i].as_slice(),
            &coin.contract_tx,
            coin.funding_amount,
            my_pubkey,
            other_pubkey,
        ) {
            return Err(
                MakerError::ItemContract {
                    what: "Receiver signature {} verification failed: {}",
                    index: i,
                    cause,
                },
            );
        }
        i += 1;
    }
    let mut k: usize = 0;
    while k < outgoing_swapcoins.len() && k < senders_sigs.len()
        invariant
            k <= outgoing_swapcoins.len(),
            k <= senders_sigs.len(),
            receiver_sigs_verdict(
                incoming_swapcoins@,
                receivers_sigs@,
                receivers_checks@,
                0,
            ) is Ok,
            sender_sigs_verdict(outgoing_swapcoins@, senders_sigs@, senders_checks@, 0) == sender_sigs_verdict(
                outgoing_swapcoins@,
                senders_sigs@,
                senders_checks@,
                k as int,
            ),
        decreases outgoing_swapcoins.len() - k,
    {
        let coin = &outgoing_swapcoins[k];
        let other_pubkey = match &coin.other_pubkey {
            Some(key) => key,
            None => {
                return Err(
                    MakerError::General(
                        "Outgoing swapcoin missing other_pubkey for signature verification",
                    ),
                );
            },
        };
        let my_pubkey = match &coin.my_pubkey {
            Some(key) => key,
            None => {
                return Err(MakerError::General("Outgoing swapcoin missing my_pubkey"));
            },
        };
        if let Err(cause) = check_signature(
            senders_checks,
            k,
            senders_sigs[k].as_slice(),
            &coin.contract_tx,
            coin.funding_amount,
            my_pubkey,
            other_pubkey,
        ) {
            return Err(
                MakerError::ItemContract {
                    what: "Sender signature {} verification failed: {}",
                    index: k,
                    cause,
                },
            );
        }
        k += 1;
    }
    Ok(())
}

/// Whether an incoming coin knows both keys, and a signature was held against it and
/// found valid.
pub open spec fn receiver_signed(
    coin: IncomingSwapCoin,
    signature: Seq<u8>,
    check: Option<SignatureCheck>,
) -> bool {
    &&& coin.other_pubkey is Some
    &&& coin.my_pubkey is Some
    &&& check is Some
    &&& check->0.is_of(
        signature,
        coin.contract_tx@,
        coin.funding_amount,
        coin.my_pubkey->0,
        coin.other_pubkey->0,
    )
    &&& check->0.valid is Ok
}

/// Whether an outgoing coin knows both keys, and a signature was held against it and
/// found valid.
pub open spec fn sender_signed(
    coin: OutgoingSwapCoin,
    signature: Seq<u8>,
    check: Option<SignatureCheck>,
) -> bool {
    &&& coin.other_pubkey is Some
    &&& coin.my_pubkey is Some
    &&& check is Some
    &&& check->0.is_of(
        signature,
        coin.contract_tx@,
        coin.funding_amount,
        coin.my_pubkey->0,
        coin.other_pubkey->0,
    )
    &&& check->0.valid is Ok
}

/// Where there is a signature for every coin, the signatures are accepted
/// exactly where every coin knows both keys and every signature was held
/// against its own coin and found valid.
pub proof fn law_contract_sigs_accepted(
    receivers_sigs: Seq<Vec<u8>>,
    senders_sigs: Seq<Vec<u8>>,
    receivers_checks: Seq<SignatureCheck>,
    senders_checks: Seq<SignatureCheck>,
    incoming: Seq<IncomingSwapCoin>,
    outgoing: Seq<OutgoingSwapCoin>,
)
    requires
        receivers_sigs.len() == incoming.len(),
        senders_sigs.len() == outgoing.len(),
    ensures
        contract_sigs_verdict(
            receivers_sigs,
            senders_sigs,
            receivers_checks,
            senders_checks,
            incoming,
            outgoing,
        ) is Ok <==> {
            &&& forall|i: int|
                0 <= i < incoming.len() ==> receiver_signed(
                    #[trigger] incoming[i],
                    receivers_sigs[i]@,
                    check_at(receivers_checks, i),
                )
            &&& forall|i: int|
                0 <= i < outgoing.len() ==> sender_signed(
                    #[trigger] outgoing[i],
                    senders_sigs[i]@,
                    check_at(senders_checks, i),
                )
        },
{
    lemma_receiver_sigs(receivers_sigs, receivers_checks, incoming, 0);
    lemma_sender_sigs(senders_sigs, senders_checks, outgoing, 0);
}

/// The receiver signatures from `i` on are accepted exactly where each is.
proof fn lemma_receiver_sigs(
    signatures: Seq<Vec<u8>>,
    checks: Seq<SignatureCheck>,
    coins: Seq<IncomingSwapCoin>,
    i: int,
)
    requires
        signatures.len() == coins.len(),
        0 <= i <= coins.len(),
    ensures
        receiver_sigs_verdict(coins, signatures, checks, i) is Ok <==> forall|j: int|
            i <= j < coins.len() ==> receiver_signed(
                #[trigger] coins[j],
                signatures[j]@,
                check_at(checks, j),
            ),
    decreases coins.len() - i,
{
    if i < coins.len() {
        lemma_receiver_sigs(signatures, checks, coins, i + 1);
        assert(coins[i] == coins[i]);
    }
}

/// The sender signatures from `i` on are accepted exactly where each is.
proof fn lemma_sender_sigs(
    signatures: Seq<Vec<u8>>,
    checks: Seq<SignatureCheck>,
    coins: Seq<OutgoingSwapCoin>,
    i: int,
)
    requires
        signatures.len() == coins.len(),
        0 <= i <= coins.len(),
    ensures
        sender_sigs_verdict(coins, signatures, checks, i) is Ok <==> forall|j: int|
            i <= j < coins.len() ==> sender_signed(
                #[trigger] coins[j],
                signatures[j]@,
                check_at(checks, j),
            ),
    decreases coins.len() - i,
{
    if i < coins.len() {
        lemma_sender_sigs(signatures, checks, coins, i + 1);
        assert(coins[i] == coins[i]);
    }
}

/// What a legacy private key handover is rejected for.
pub open spec fn legacy_handover_verdict(
    privkeys: Seq<SwapPrivkey>,
    incoming: Seq<IncomingSwapCoin>,
) -> Result<(), MakerError> {
    if privkeys.len() != incoming.len() {
        Err(
            MakerError::CountMismatch {
                what: "Privkey count {} doesn't match incoming swapcoin count {}",
                first: privkeys.len() as usize,
                second: incoming.len() as usize,
            },
        )
    } else {
        handover_keys_verdict(
            privkeys,
            incoming,
            0,
            "Missing other_pubkey on incoming swapcoin during handover verification",
            "Privkey derives pubkey that doesn't match expected other_pubkey",
        )
    }
}

/// Verify legacy private key handover from the taker.
pub fn verify_legacy_privkey_handover(
    privkeys: &Vec<SwapPrivkey>,
    incoming_swapcoins: &Vec<IncomingSwapCoin>,
) -> (r: Result<(), MakerError>)
    ensures
        r == legacy_handover_verdict(privkeys@, incoming_swapcoins@),
{
    if privkeys.len() != incoming_swapcoins.len() {
        return Err(
            MakerError::CountMismatch {
                what: "Privkey count {} doesn't match incoming swapcoin count {}",
                first: privkeys.len(),
                second: incoming_swapcoins.len(),
            },
        );
    }
    verify_handover_keys(
        privkeys,
        incoming_swapcoins,
        "Missing other_pubkey on incoming swapcoin during handover verification",
        "Privkey derives pubkey that doesn't match expected other_pubkey",
    )
}

/// A key handover is accepted exactly where every key is the secret of the
/// other party's key in the coin at the same position.
pub proof fn law_legacy_handover_accepted(
    privkeys: Seq<SwapPrivkey>,
    incoming: Seq<IncomingSwapCoin>,
)
    ensures
        legacy_handover_verdict(privkeys, incoming) is Ok <==> privkeys.len() == incoming.len()
            && forall|i: int|
            0 <= i < privkeys.len() ==> incoming[i].other_pubkey is Some && public_key_of(
                (#[trigger] privkeys[i]).key,
            ) == incoming[i].other_pubkey,
{
    if privkeys.len() == incoming.len() {
        lemma_handover_keys(
            privkeys,
            incoming,
            0,
            "Missing other_pubkey on incoming swapcoin during handover verification",
            "Privkey derives pubkey that doesn't match expected other_pubkey",
        );
    }
}

/// A contract that the maker signs pays to terms that are the maker's: the
/// hashlock key is its own moved by the nonce, the hash is that of the swap,
/// the refund is the sender's, and comes exactly the step later than the
/// maker's own.
pub proof fn law_signed_contract_pays_the_maker(
    txs_info: Seq<ContractTxInfoForSender>,
    checks: Seq<SenderContractChecks>,
    tweakable_pubkey: PublicKey,
    hashvalue: Hash160,
    locktime: u16,
    refund_locktime_step: u16,
    i: int,
)
    requires
        sender_request_verdict(
            txs_info,
            checks,
            tweakable_pubkey,
            hashvalue,
            locktime,
            refund_locktime_step,
        ) is Ok,
        0 <= i < txs_info.len(),
    ensures
        checks[i].is_multisig is Ok,
        checks[i].has_our_key is Ok,
        checks[i].output_valid is Ok,
        txs_info[i].senders_contract_tx.input@.len() == 1,
        txs_info[i].senders_contract_tx.output@.len() == 1,
        checks[i].terms matches Some(terms) && {
            &&& tweaked_point(tweakable_pubkey, txs_info[i].hashlock_nonce) == Some(
                terms.hashlock_pubkey,
            )
            &&& terms.timelock_pubkey == txs_info[i].timelock_pubkey
            &&& terms.hashvalue == hashvalue
            &&& terms.locktime - locktime == refund_locktime_step
        },
{
    law_sender_request_accepted(
        txs_info,
        checks,
        tweakable_pubkey,
        hashvalue,
        locktime,
        refund_locktime_step,
    );
    assert(acceptable_sender_contract(
        txs_info[i],
        checks[i],
        tweakable_pubkey,
        hashvalue,
        locktime,
        refund_locktime_step,
    ));
}

/// The terms that a contract must have are known exactly where the later lock
/// time is a number of blocks and the nonce moves the maker's key to a key.
pub proof fn law_terms_are_the_makers(
    info: ContractTxInfoForSender,
    tweakable_pubkey: PublicKey,
    hashvalue: Hash160,
    locktime: u16,
    refund_locktime_step: u16,
    i: usize,
)
    ensures
        taker_locktime(locktime, refund_locktime_step) is Ok <==> locktime + refund_locktime_step
            <= 65_535,
        taker_locktime(locktime, refund_locktime_step) matches Ok(blocks) ==> blocks - locktime
            == refund_locktime_step,
        output_terms(info, tweakable_pubkey, hashvalue, locktime, refund_locktime_step, i) is Ok
            <==> locktime + refund_locktime_step <= 65_535 && tweaked_point(
            tweakable_pubkey,
            info.hashlock_nonce,
        ) is Some,
        output_terms(info, tweakable_pubkey, hashvalue, locktime, refund_locktime_step, i) matches Ok(
            terms,
        ) ==> {
            &&& tweaked_point(tweakable_pubkey, info.hashlock_nonce) == Some(terms.hashlock_pubkey)
            &&& terms.timelock_pubkey == info.timelock_pubkey
            &&& terms.hashvalue == hashvalue
            &&& terms.locktime - locktime == refund_locktime_step
        },
        output_terms(info, tweakable_pubkey, hashvalue, locktime, refund_locktime_step, i) matches Err(
            MakerError::Item { index, .. },
        ) ==> index == i,
{
}

/// A contract that was held against the terms that it must have, and whose
/// checks all passed, is accepted, whatever else it says; a rejection names
/// its position.
pub proof fn law_proper_sender_contract_is_accepted(
    info: ContractTxInfoForSender,
    checks: SenderContractChecks,
    terms: SenderOutputTerms,
    i: usize,
)
    ensures
        sender_contract_verdict(info, checks, Ok(terms), i) is Ok <==> {
            &&& checks.is_multisig is Ok
            &&& checks.has_our_key is Ok
            &&& info.senders_contract_tx.input@.len() == 1
            &&& info.senders_contract_tx.output@.len() == 1
            &&& checks.terms == Some(terms)
            &&& checks.output_valid is Ok
        },
        sender_contract_verdict(info, checks, Ok(terms), i) is Err ==> ({
            ||| sender_contract_verdict(info, checks, Ok(terms), i) matches Err(
                MakerError::ItemContract { index, .. },
            ) && index == i
            ||| sender_contract_verdict(info, checks, Ok(terms), i) matches Err(
                MakerError::Structure { index, .. },
            ) && index == i
        }),
        checks.is_multisig is Err ==> (sender_contract_verdict(info, checks, Ok(terms), i) matches Err(
            MakerError::ItemContract { cause, .. },
        ) && cause == checks.is_multisig->Err_0),
{
}

/// A signature that the maker accepts was held against the contract
/// transaction, the amount and both keys of the coin that it is for, and is
/// valid there.
pub proof fn law_accepted_signature_is_for_its_coin(
    receivers_sigs: Seq<Vec<u8>>,
    senders_sigs: Seq<Vec<u8>>,
    receivers_checks: Seq<SignatureCheck>,
    senders_checks: Seq<SignatureCheck>,
    incoming: Seq<IncomingSwapCoin>,
    outgoing: Seq<OutgoingSwapCoin>,
    i: int,
)
    requires
        receivers_sigs.len() == incoming.len(),
        senders_sigs.len() == outgoing.len(),
        contract_sigs_verdict(
            receivers_sigs,
            senders_sigs,
            receivers_checks,
            senders_checks,
            incoming,
            outgoing,
        ) is Ok,
    ensures
        0 <= i < incoming.len() ==> {
            &&& i < receivers_checks.len()
            &&& receivers_checks[i].valid is Ok
            &&& receivers_checks[i].signature@ == receivers_sigs[i]@
            &&& receivers_checks[i].contract == txid_of(incoming[i].contract_tx@)
            &&& receivers_checks[i].funding_amount == incoming[i].funding_amount
            &&& Some(receivers_checks[i].my_pubkey) == incoming[i].my_pubkey
            &&& Some(receivers_checks[i].other_pubkey) == incoming[i].other_pubkey
        },
        0 <= i < outgoing.len() ==> {
            &&& i < senders_checks.len()
            &&& senders_checks[i].valid is Ok
            &&& senders_checks[i].signature@ == senders_sigs[i]@
            &&& senders_checks[i].contract == txid_of(outgoing[i].contract_tx@)
            &&& senders_checks[i].funding_amount == outgoing[i].funding_amount
            &&& Some(senders_checks[i].my_pubkey) == outgoing[i].my_pubkey
            &&& Some(senders_checks[i].other_pubkey) == outgoing[i].other_pubkey
        },
{
    law_contract_sigs_accepted(
        receivers_sigs,
        senders_sigs,
        receivers_checks,
        senders_checks,
        incoming,
        outgoing,
    );
    if 0 <= i < incoming.len() {
        assert(receiver_signed(
            incoming[i],
            receivers_sigs[i]@,
            check_at(receivers_checks, i),
        ));
    }
    if 0 <= i < outgoing.len() {
        assert(sender_signed(outgoing[i], senders_sigs[i]@, check_at(senders_checks, i)));
    }
}

/// A valid signature that was held against its coin is accepted on either
/// side, and the position and the cause of an invalid one are reported.
pub proof fn law_valid_signature_is_accepted(
    coin: IncomingSwapCoin,
    own: OutgoingSwapCoin,
    check: SignatureCheck,
    i: usize,
)
    requires
        coin.my_pubkey == Some(check.my_pubkey),
        coin.other_pubkey == Some(check.other_pubkey),
        coin.funding_amount == check.funding_amount,
        txid_of(coin.contract_tx@) == check.contract,
        own.my_pubkey == Some(check.my_pubkey),
        own.other_pubkey == Some(check.other_pubkey),
        own.funding_amount == check.funding_amount,
        txid_of(own.contract_tx@) == check.contract,
    ensures
        receiver_sig_verdict(coin, check.signature@, Some(check), i) is Ok <==> check.valid is Ok,
        sender_sig_verdict(own, check.signature@, Some(check), i) is Ok <==> check.valid is Ok,
        check.valid is Err ==> (receiver_sig_verdict(coin, check.signature@, Some(check), i) matches Err(
            MakerError::ItemContract { index, cause, .. },
        ) && index == i && cause == check.valid->Err_0),
        check.valid is Err ==> (sender_sig_verdict(own, check.signature@, Some(check), i) matches Err(
            MakerError::ItemContract { index, cause, .. },
        ) && index == i && cause == check.valid->Err_0),
        receiver_sig_verdict(coin, check.signature@, None, i) is Err,
        sender_sig_verdict(own, check.signature@, None, i) is Err,
{
}

/// A rejection tells what came and what was needed: the number of keys before
/// that of coins, and of a contract its inputs before its outputs.
pub proof fn law_rejections_tell_the_counts(
    privkeys: Seq<SwapPrivkey>,
    incoming: Seq<IncomingSwapCoin>,
    info: ContractTxInfoForSender,
    checks: SenderContractChecks,
    terms: SenderOutputTerms,
    i: usize,
)
    requires
        privkeys.len() <= usize::MAX,
        incoming.len() <= usize::MAX,
    ensures
        privkeys.len() != incoming.len() ==> (legacy_handover_verdict(privkeys, incoming) matches Err(
            MakerError::CountMismatch { first, second, .. },
        ) && first == privkeys.len() && second == incoming.len()),
        checks.is_multisig is Ok && checks.has_our_key is Ok && (
        info.senders_contract_tx.input@.len() != 1 || info.senders_contract_tx.output@.len() != 1)
            ==> (sender_contract_verdict(info, checks, Ok(terms), i) matches Err(
            MakerError::Structure { index, inputs, outputs, .. },
        ) && index == i && inputs == info.senders_contract_tx.input@.len() && outputs
            == info.senders_contract_tx.output@.len()),
        checks.is_multisig is Ok && checks.has_our_key is Err ==> (sender_contract_verdict(
            info,
            checks,
            Ok(terms),
            i,
        ) matches Err(MakerError::ItemContract { cause, .. }) && cause
            == checks.has_our_key->Err_0),
        checks.is_multisig is Ok && checks.has_our_key is Ok
            && info.senders_contract_tx.input@.len() == 1
            && info.senders_contract_tx.output@.len() == 1 && checks.terms == Some(terms)
            && checks.output_valid is Err ==> (sender_contract_verdict(
            info,
            checks,
            Ok(terms),
            i,
        ) matches Err(MakerError::ItemContract { cause, .. }) && cause
            == checks.output_valid->Err_0),
{
    assert(info.senders_contract_tx.input.len() == info.senders_contract_tx.input@.len());
    assert(info.senders_contract_tx.output.len() == info.senders_contract_tx.output@.len());
}

/// Keys that do not open a coin are told apart from a coin that knows no key to
/// be opened with.
pub proof fn law_handover_reasons(
    privkeys: Seq<SwapPrivkey>,
    incoming: Seq<IncomingSwapCoin>,
)
    requires
        privkeys.len() == incoming.len(),
        privkeys.len() > 0,
    ensures
        incoming[0].other_pubkey is None ==> legacy_handover_verdict(privkeys, incoming) == Err::<
            (),
            MakerError,
        >(
            MakerError::General(
                "Missing other_pubkey on incoming swapcoin during handover verification",
            ),
        ),
        incoming[0].other_pubkey is Some && public_key_of(privkeys[0].key)
            != incoming[0].other_pubkey ==> legacy_handover_verdict(privkeys, incoming) == Err::<
            (),
            MakerError,
        >(
            MakerError::General("Privkey derives pubkey that doesn't match expected other_pubkey"),
        ),
{
}

} // verus!
