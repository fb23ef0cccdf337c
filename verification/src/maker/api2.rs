//! The maker of the first taproot protocol.

use crate::chain::{
    copy_bytes, key_equal, InputModel, OutPoint, OutputModel, Preimage, PublicKey, SecretKey, Transaction,
    TransactionModel, TxIn, TxOut, Txid, XOnlyPublicKey,
};
use crate::error::MakerError;
use crate::maker::nostr::txid_text;
use crate::maker::rpc::cookie::hex_text;
use crate::maker::swapcoin::{
    copy_outpoints, copy_text, copy_tx, text_model, tx_model,
};
use crate::primitives::{
    aggregated_key, aggregated_nonce, compute_txid, derive_public_key, hashlock_bytes,
    instructions_of, public_key_of, timelock_bytes, txid_of, SessionModel, SigningSession,
};
use crate::protocol::common_messages::{FidelityProof, RateBits};
use crate::protocol::contract2::{
    calculate_contract_sighash, contract_sighash, create_hashlock_script,
    create_taproot_script, create_timelock_script, extract_hash_from_hashlock, hash_among,
    p2tr_bytes, taproot_commitment, x_coordinate, x_only,
};
use crate::protocol::error::ProtocolError;
use crate::protocol::messages2::{
    Offer, PrivateKeyHandover, SenderContractFromMaker, SendersContract, SerializableScalar,
    SwapDetails,
};
use crate::protocol::musig2::{get_aggregated_pubkey, in_order, key_before};
use crate::protocol::musig_interface::{
    aggregate_partial_signatures_compat, generate_new_nonce_pair_compat,
    generate_partial_signature_compat, get_aggregated_nonce_compat, session_verdict,
};
use crate::protocol::taproot_messages::{array_of, lemma_array_of, SerializableScalar as ScalarBytes};
use crate::settings::{decimal, decimal_text_wide};
use vstd::prelude::*;
use vstd::string::StringExecFns;

verus! {

/// How a maker behaves during a swap; all but the first are for rehearsing
/// failures.
#[derive(Debug, Clone, Copy, PartialEq, Eq, Structural)]
pub enum MakerBehavior {
    /// Normal, honest behavior.
    Normal,
    /// Close the connection before handing over the private key.
    CloseAtPrivateKeyHandover,
    /// Close the connection on receiving the sender's contract.
    CloseAtContractSigsExchange,
    /// Close the connection after sweeping the incoming contract, before the
    /// handover.
    CloseAfterSweep,
}

/// The least difference in lock time, in blocks, between incoming and outgoing
/// contracts.
pub const MIN_CONTRACT_REACTION_TIME: u16 = 20;

/// The base fee in satoshis.
pub const BASE_FEE: u64 = 100;

/// The smallest swap amount in satoshis.
pub const MIN_SWAP_AMOUNT: u64 = 10_000;

/// The most contract transactions of a swap.
pub const MAX_CONTRACT_TXS: u8 = 10;

/// What sweeping a contract costs in satoshis.
pub const SWEEP_FEE: u64 = 1000;

/// The contract that the maker receives.
#[derive(Debug)]
pub struct IncomingSwapCoinV2 {
    pub my_privkey: Option<SecretKey>,
    pub my_pubkey: Option<PublicKey>,
    pub other_pubkey: Option<PublicKey>,
    pub hashlock_script: Vec<u8>,
    pub timelock_script: Vec<u8>,
    pub contract_tx: Transaction,
    pub contract_txid: Option<Txid>,
    pub tap_tweak: Option<[u8; 32]>,
    pub internal_key: Option<XOnlyPublicKey>,
    pub spending_tx: Option<Transaction>,
    pub hash_preimage: Option<Preimage>,
    pub other_privkey: Option<SecretKey>,
    pub hashlock_privkey: SecretKey,
    pub funding_amount: u64,
    pub swap_id: Option<String>,
}

/// What such a contract holds.
pub struct IncomingV2Model {
    pub my_privkey: Option<SecretKey>,
    pub my_pubkey: Option<PublicKey>,
    pub other_pubkey: Option<PublicKey>,
    pub hashlock_script: Seq<u8>,
    pub timelock_script: Seq<u8>,
    pub contract_tx: TransactionModel,
    pub contract_txid: Option<Txid>,
    pub tap_tweak: Option<[u8; 32]>,
    pub internal_key: Option<XOnlyPublicKey>,
    pub spending_tx: Option<TransactionModel>,
    pub hash_preimage: Option<Preimage>,
    pub other_privkey: Option<SecretKey>,
    pub hashlock_privkey: SecretKey,
    pub funding_amount: u64,
    pub swap_id: Option<Seq<char>>,
}

impl View for IncomingSwapCoinV2 {
    type V = IncomingV2Model;

    open spec fn view(&self) -> IncomingV2Model {
        IncomingV2Model {
            my_privkey: self.my_privkey,
            my_pubkey: self.my_pubkey,
            other_pubkey: self.other_pubkey,
            hashlock_script: self.hashlock_script@,
            timelock_script: self.timelock_script@,
            contract_tx: self.contract_tx@,
            contract_txid: self.contract_txid,
            tap_tweak: self.tap_tweak,
            internal_key: self.internal_key,
            spending_tx: tx_model(self.spending_tx),
            hash_preimage: self.hash_preimage,
            other_privkey: self.other_privkey,
            hashlock_privkey: self.hashlock_privkey,
            funding_amount: self.funding_amount,
            swap_id: text_model(self.swap_id),
        }
    }
}

impl Clone for IncomingSwapCoinV2 {
    fn clone(&self) -> (r: Self)
        ensures
            r@ == self@,
    {
        IncomingSwapCoinV2 {
            my_privkey: self.my_privkey,
            my_pubkey: self.my_pubkey,
            other_pubkey: self.other_pubkey,
            hashlock_script: copy_bytes(self.hashlock_script.as_slice()),
            timelock_script: copy_bytes(self.timelock_script.as_slice()),
            contract_tx: self.contract_tx.clone(),
            contract_txid: self.contract_txid,
            tap_tweak: self.tap_tweak,
            internal_key: self.internal_key,
            spending_tx: copy_tx(&self.spending_tx),
            hash_preimage: self.hash_preimage,
            other_privkey: self.other_privkey,
            hashlock_privkey: self.hashlock_privkey,
            funding_amount: self.funding_amount,
            swap_id: copy_text(&self.swap_id),
        }
    }
}

/// The contract that the maker sends.
#[derive(Debug)]
pub struct OutgoingSwapCoinV2 {
    pub my_privkey: Option<SecretKey>,
    pub my_pubkey: Option<PublicKey>,
    pub other_pubkey: Option<PublicKey>,
    pub tap_tweak: Option<[u8; 32]>,
    pub internal_key: Option<XOnlyPublicKey>,
    pub hashlock_script: Vec<u8>,
    pub timelock_script: Vec<u8>,
    pub contract_tx: Transaction,
    pub hash_preimage: Option<Preimage>,
    pub other_privkey: Option<SecretKey>,
    pub timelock_privkey: SecretKey,
    pub funding_amount: u64,
    pub swap_id: Option<String>,
}

/// What such a contract holds.
pub struct OutgoingV2Model {
    pub my_privkey: Option<SecretKey>,
    pub my_pubkey: Option<PublicKey>,
    pub other_pubkey: Option<PublicKey>,
    pub tap_tweak: Option<[u8; 32]>,
    pub internal_key: Option<XOnlyPublicKey>,
    pub hashlock_script: Seq<u8>,
    pub timelock_script: Seq<u8>,
    pub contract_tx: TransactionModel,
    pub hash_preimage: Option<Preimage>,
    pub other_privkey: Option<SecretKey>,
    pub timelock_privkey: SecretKey,
    pub funding_amount: u64,
    pub swap_id: Option<Seq<char>>,
}

impl View for OutgoingSwapCoinV2 {
    type V = OutgoingV2Model;

    open spec fn view(&self) -> OutgoingV2Model {
        OutgoingV2Model {
            my_privkey: self.my_privkey,
            my_pubkey: self.my_pubkey,
            other_pubkey: self.other_pubkey,
            tap_tweak: self.tap_tweak,
            internal_key: self.internal_key,
            hashlock_script: self.hashlock_script@,
            timelock_script: self.timelock_script@,
            contract_tx: self.contract_tx@,
            hash_preimage: self.hash_preimage,
            other_privkey: self.other_privkey,
            timelock_privkey: self.timelock_privkey,
            funding_amount: self.funding_amount,
            swap_id: text_model(self.swap_id),
        }
    }
}

impl Clone for OutgoingSwapCoinV2 {
    fn clone(&self) -> (r: Self)
        ensures
            r@ == self@,
    {
        OutgoingSwapCoinV2 {
            my_privkey: self.my_privkey,
            my_pubkey: self.my_pubkey,
            other_pubkey: self.other_pubkey,
            tap_tweak: self.tap_tweak,
            internal_key: self.internal_key,
            hashlock_script: copy_bytes(self.hashlock_script.as_slice()),
            timelock_script: copy_bytes(self.timelock_script.as_slice()),
            contract_tx: self.contract_tx.clone(),
            hash_preimage: self.hash_preimage,
            other_privkey: self.other_privkey,
            timelock_privkey: self.timelock_privkey,
            funding_amount: self.funding_amount,
            swap_id: copy_text(&self.swap_id),
        }
    }
}

/// The state of a swap.
#[derive(Debug)]
pub struct ConnectionState {
    /// Swap amount in satoshis.
    pub swap_amount: u64,
    /// Lock time in blocks.
    pub timelock: u16,
    /// The contract that the maker receives.
    pub incoming_contract: IncomingSwapCoinV2,
    /// The contract that the maker sends.
    pub outgoing_contract: OutgoingSwapCoinV2,
    /// Outputs reserved for this swap.
    pub reserve_utxo: Vec<OutPoint>,
}

/// What such a state holds.
pub struct StateV2Model {
    pub swap_amount: u64,
    pub timelock: u16,
    pub incoming_contract: IncomingV2Model,
    pub outgoing_contract: OutgoingV2Model,
    pub reserve_utxo: Seq<OutPoint>,
}

impl View for ConnectionState {
    type V = StateV2Model;

    open spec fn view(&self) -> StateV2Model {
        StateV2Model {
            swap_amount: self.swap_amount,
            timelock: self.timelock,
            incoming_contract: self.incoming_contract@,
            outgoing_contract: self.outgoing_contract@,
            reserve_utxo: self.reserve_utxo@,
        }
    }
}

impl Clone for ConnectionState {
    fn clone(&self) -> (r: Self)
        ensures
            r@ == self@,
    {
        ConnectionState {
            swap_amount: self.swap_amount,
            timelock: self.timelock,
            incoming_contract: self.incoming_contract.clone(),
            outgoing_contract: self.outgoing_contract.clone(),
            reserve_utxo: copy_outpoints(&self.reserve_utxo),
        }
    }
}

/// A transaction of version two without inputs and outputs.
pub open spec fn empty_tx_model() -> TransactionModel {
    TransactionModel { version: 2, lock_time: 0, input: seq![], output: seq![] }
}

/// A transaction of version two without inputs and outputs.
fn empty_tx() -> (r: Transaction)
    ensures
        r@ == empty_tx_model(),
{
    let r = Transaction { version: 2, lock_time: 0, input: Vec::new(), output: Vec::new() };
    assert(r@.input =~= seq![]);
    assert(r@.output =~= seq![]);
    r
}

/// The key that stands where none has been chosen yet.
pub open spec fn dummy_key() -> SecretKey {
    array_of(Seq::new(32, |i: int| 1u8))
}

impl ConnectionState {
    /// Whether nothing has been exchanged yet.
    pub open spec fn is_fresh(&self) -> bool {
        &&& self.swap_amount == 0
        &&& self.timelock == 0
        &&& self.reserve_utxo@.len() == 0
        &&& self.incoming_contract@ == (IncomingV2Model {
            my_privkey: None,
            my_pubkey: None,
            other_pubkey: None,
            hashlock_script: seq![],
            timelock_script: seq![],
            contract_tx: empty_tx_model(),
            contract_txid: None,
            tap_tweak: None,
            internal_key: None,
            spending_tx: None,
            hash_preimage: None,
            other_privkey: None,
            hashlock_privkey: dummy_key(),
            funding_amount: 0,
            swap_id: None,
        })
        &&& self.outgoing_contract@ == (OutgoingV2Model {
            my_privkey: None,
            my_pubkey: None,
            other_pubkey: None,
            tap_tweak: None,
            internal_key: None,
            hashlock_script: seq![],
            timelock_script: seq![],
            contract_tx: empty_tx_model(),
            hash_preimage: None,
            other_privkey: None,
            timelock_privkey: dummy_key(),
            funding_amount: 0,
            swap_id: None,
        })
    }
}

impl Default for ConnectionState {
    fn default() -> (r: Self)
        ensures
            r.is_fresh(),
    {
        let key: SecretKey = [1u8; 32];
        proof {
            assert(key@ =~= Seq::new(32, |i: int| 1u8));
            lemma_array_of(key, Seq::new(32, |i: int| 1u8));
        }
        let incoming_contract = IncomingSwapCoinV2 {
            my_privkey: None,
            my_pubkey: None,
            other_pubkey: None,
            hashlock_script: Vec::new(),
            timelock_script: Vec::new(),
            contract_tx: empty_tx(),
            contract_txid: None,
            tap_tweak: None,
            internal_key: None,
            spending_tx: None,
            hash_preimage: None,
            other_privkey: None,
            hashlock_privkey: key,
            funding_amount: 0,
            swap_id: None,
        };
        let outgoing_contract = OutgoingSwapCoinV2 {
            my_privkey: None,
            my_pubkey: None,
            other_pubkey: None,
            tap_tweak: None,
            internal_key: None,
            hashlock_script: Vec::new(),
            timelock_script: Vec::new(),
            contract_tx: empty_tx(),
            hash_preimage: None,
            other_privkey: None,
            timelock_privkey: key,
            funding_amount: 0,
            swap_id: None,
        };
        assert(incoming_contract@.hashlock_script =~= seq![]);
        assert(incoming_contract@.timelock_script =~= seq![]);
        assert(outgoing_contract@.hashlock_script =~= seq![]);
        assert(outgoing_contract@.timelock_script =~= seq![]);
        ConnectionState {
            swap_amount: 0,
            timelock: 0,
            incoming_contract,
            outgoing_contract,
            reserve_utxo: Vec::new(),
        }
    }
}

/// The state with the maker's key of the incoming contract.
pub open spec fn keyed(state: StateV2Model, privkey: SecretKey, pubkey: PublicKey) -> StateV2Model {
    StateV2Model {
        incoming_contract: IncomingV2Model {
            my_privkey: Some(privkey),
            my_pubkey: Some(pubkey),
            ..state.incoming_contract
        },
        ..state
    }
}

/// The state with the terms of the swap.
pub open spec fn with_terms(state: StateV2Model, details: SwapDetails) -> StateV2Model {
    StateV2Model { swap_amount: details.amount, timelock: details.timelock, ..state }
}

/// The offer under the maker's key of the incoming contract.
pub open spec fn offered(
    pubkey: PublicKey,
    spendable: u64,
    fidelity: FidelityProof,
    amount_relative_fee: RateBits,
    time_relative_fee: RateBits,
) -> Offer {
    Offer {
        tweakable_point: pubkey,
        base_fee: BASE_FEE,
        amount_relative_fee,
        time_relative_fee,
        minimum_locktime: MIN_CONTRACT_REACTION_TIME,
        fidelity,
        min_size: MIN_SWAP_AMOUNT,
        max_size: spendable,
    }
}

/// The state once the outgoing contract is funded.
pub open spec fn funded(
    state: StateV2Model,
    contract_tx: TransactionModel,
    amount: u64,
) -> StateV2Model {
    StateV2Model {
        outgoing_contract: OutgoingV2Model {
            contract_tx,
            funding_amount: amount,
            ..state.outgoing_contract
        },
        ..state
    }
}

/// The state with the key that the other party handed over.
pub open spec fn handed_key(state: StateV2Model, key: SecretKey) -> StateV2Model {
    StateV2Model {
        incoming_contract: IncomingV2Model { other_privkey: Some(key), ..state.incoming_contract },
        ..state
    }
}

/// Takes over the maker's key of the incoming contract and makes the offer.
/// Without a fidelity proof there is none, but the key is taken over.
/// `spendable` is the wallet's balance.
pub fn create_offer(
    state: &mut ConnectionState,
    privkey: SecretKey,
    pubkey: PublicKey,
    spendable: u64,
    fidelity: Option<FidelityProof>,
    amount_relative_fee: RateBits,
    time_relative_fee: RateBits,
) -> (r: Result<Offer, MakerError>)
    ensures
        final(state)@ == keyed(old(state)@, privkey, pubkey),
        r == match fidelity {
            None => Err::<Offer, MakerError>(MakerError::General("No fidelity proof available")),
            Some(proof) => Ok(
                offered(pubkey, spendable, proof, amount_relative_fee, time_relative_fee),
            ),
        },
{
    state.incoming_contract.my_privkey = Some(privkey);
    state.incoming_contract.my_pubkey = Some(pubkey);
    match fidelity {
        None => Err(MakerError::General("No fidelity proof available")),
        Some(proof) => Ok(
            Offer {
                tweakable_point: pubkey,
                base_fee: BASE_FEE,
                amount_relative_fee,
                time_relative_fee,
                minimum_locktime: MIN_CONTRACT_REACTION_TIME,
                fidelity: proof,
                min_size: MIN_SWAP_AMOUNT,
                max_size: spendable,
            },
        ),
    }
}

/// What swap details are rejected for.
pub open spec fn details_verdict(details: SwapDetails, spendable: u64) -> Result<(), MakerError> {
    if details.amount < MIN_SWAP_AMOUNT {
        Err(MakerError::General("Swap amount below minimum"))
    } else if spendable < details.amount {
        Err(MakerError::General("Insufficient liquidity"))
    } else if details.timelock < MIN_CONTRACT_REACTION_TIME {
        Err(MakerError::General("Timelock too short"))
    } else if details.no_of_tx == 0 || details.no_of_tx > MAX_CONTRACT_TXS {
        Err(MakerError::General("Invalid transaction count"))
    } else {
        Ok(())
    }
}

/// Validates proposed swap details. `spendable` is the wallet's balance.
pub fn validate_swap_parameters(details: &SwapDetails, spendable: u64) -> (r: Result<
    (),
    MakerError,
>)
    ensures
        r == details_verdict(*details, spendable),
{
    if details.amount < MIN_SWAP_AMOUNT {
        return Err(MakerError::General("Swap amount below minimum"));
    }
    if spendable < details.amount {
        return Err(MakerError::General("Insufficient liquidity"));
    }
    if details.timelock < MIN_CONTRACT_REACTION_TIME {
        return Err(MakerError::General("Timelock too short"));
    }
    if details.no_of_tx == 0 || details.no_of_tx > MAX_CONTRACT_TXS {
        return Err(MakerError::General("Invalid transaction count"));
    }
    Ok(())
}

/// Takes over validated swap details. The maker's key of the incoming contract
/// is taken over even where the details are rejected.
pub fn take_swap_details(
    state: &mut ConnectionState,
    details: &SwapDetails,
    privkey: SecretKey,
    pubkey: PublicKey,
    spendable: u64,
) -> (r: Result<(), MakerError>)
    ensures
        r == details_verdict(*details, spendable),
        final(state)@ == if r is Ok {
            with_terms(keyed(old(state)@, privkey, pubkey), *details)
        } else {
            keyed(old(state)@, privkey, pubkey)
        },
{
    state.incoming_contract.my_privkey = Some(privkey);
    state.incoming_contract.my_pubkey = Some(pubkey);
    match validate_swap_parameters(details, spendable) {
        Err(e) => Err(e),
        Ok(accepted) => {
            state.swap_amount = details.amount;
            state.timelock = details.timelock;
            Ok(accepted)
        },
    }
}

/// Whether a sender's contract names at least one contract in every list.
pub open spec fn names_a_contract(message: SendersContract) -> bool {
    &&& message.hashlock_scripts@.len() > 0
    &&& message.timelock_scripts@.len() > 0
    &&& message.contract_txs@.len() > 0
    &&& message.pubkeys_a@.len() > 0
}

/// The tweak of a sender's contract: nothing where none is given, and an error
/// where it is no scalar.
pub open spec fn given_tweak(message: SendersContract) -> Result<Option<[u8; 32]>, ProtocolError> {
    match message.tap_tweak {
        None => Ok(None),
        Some(tweak) => match ScalarBytes(tweak.0).scalar() {
            Err(e) => Err(e),
            Ok(scalar) => Ok(Some(scalar)),
        },
    }
}

/// Reads the tweak of a sender's contract.
pub fn read_tweak(message: &SendersContract) -> (r: Result<Option<[u8; 32]>, ProtocolError>)
    ensures
        r == given_tweak(*message),
{
    match &message.tap_tweak {
        None => Ok(None),
        Some(tweak) => {
            let bytes = ScalarBytes::from_bytes(copy_bytes(tweak.0.as_slice()));
            match bytes.to_scalar() {
                Err(e) => Err(e),
                Ok(scalar) => Ok(Some(scalar)),
            }
        },
    }
}

/// The state once a sender's contract and its transaction are known.
pub open spec fn received_contract(
    state: StateV2Model,
    message: SendersContract,
    tap_tweak: Option<[u8; 32]>,
    contract_tx: Transaction,
) -> StateV2Model {
    StateV2Model {
        incoming_contract: IncomingV2Model {
            hashlock_script: message.hashlock_scripts@[0]@,
            timelock_script: message.timelock_scripts@[0]@,
            contract_txid: Some(message.contract_txs@[0]),
            internal_key: message.internal_key,
            tap_tweak,
            other_pubkey: Some(message.pubkeys_a@[0]),
            contract_tx: contract_tx@,
            funding_amount: contract_tx.output@[0].value,
            ..state.incoming_contract
        },
        outgoing_contract: OutgoingV2Model {
            other_pubkey: Some(message.next_party_tweakable_point),
            ..state.outgoing_contract
        },
        ..state
    }
}

/// Takes over a sender's contract, given its tweak and the contract
/// transaction that it names.
pub fn take_senders_contract(
    state: &mut ConnectionState,
    message: &SendersContract,
    tap_tweak: Option<[u8; 32]>,
    contract_tx: Transaction,
)
    requires
        names_a_contract(*message),
        contract_tx.output@.len() > 0,
    ensures
        final(state)@ == received_contract(old(state)@, *message, tap_tweak, contract_tx),
{
    state.incoming_contract.hashlock_script = copy_bytes(message.hashlock_scripts[0].as_slice());
    state.incoming_contract.timelock_script = copy_bytes(message.timelock_scripts[0].as_slice());
    state.incoming_contract.contract_txid = Some(message.contract_txs[0]);
    state.incoming_contract.internal_key = message.internal_key;
    state.incoming_contract.tap_tweak = tap_tweak;
    state.incoming_contract.other_pubkey = Some(message.pubkeys_a[0]);
    state.incoming_contract.funding_amount = contract_tx.output[0].value;
    state.incoming_contract.contract_tx = contract_tx;
    state.outgoing_contract.other_pubkey = Some(message.next_party_tweakable_point);
}

/// Checks that the wallet, with `spendable` satoshis, can fund the outgoing
/// contract.
pub fn check_funds(state: &ConnectionState, spendable: u64) -> (r: Result<(), MakerError>)
    ensures
        r == if spendable < state.swap_amount {
            Err::<(), MakerError>(MakerError::General("Insufficient funds for swap"))
        } else {
            Ok(())
        },
{
    if spendable < state.swap_amount {
        return Err(MakerError::General("Insufficient funds for swap"));
    }
    Ok(())
}

/// The scripts of the outgoing contract, or what stops them. The hashlock has
/// the hash of the incoming contract, so the same preimage opens both.
pub open spec fn outgoing_scripts(
    state: StateV2Model,
    contracts: nat,
    privkey: SecretKey,
) -> Result<(Seq<u8>, Seq<u8>), MakerError> {
    if contracts != 1 {
        Err(MakerError::General("Expected exactly one contract transaction"))
    } else {
        match (public_key_of(privkey), state.outgoing_contract.other_pubkey) {
            (None, _) => Err(MakerError::Secp),
            (Some(_), None) => Err(MakerError::General("other pubkey not found")),
            (Some(own), Some(other)) => match hash_among(
                instructions_of(state.incoming_contract.hashlock_script),
            ) {
                Err(e) => Err(MakerError::Protocol(e)),
                Ok(hash) => Ok(
                    (
                        hashlock_bytes(hash, x_coordinate(other)),
                        timelock_bytes(state.timelock as u32, x_coordinate(own)),
                    ),
                ),
            },
        }
    }
}

/// What the outgoing contract commits to: the aggregated key, the key of its
/// output and the tweak; or what stops it.
pub open spec fn outgoing_commitment(
    scripts: (Seq<u8>, Seq<u8>),
    pubkey: PublicKey,
    other: PublicKey,
) -> Result<(XOnlyPublicKey, [u8; 32], [u8; 32]), MakerError> {
    let keys = in_order(pubkey, other);
    match aggregated_key(keys.0, keys.1) {
        None => Err(MakerError::Protocol(ProtocolError::Secp)),
        Some(internal_key) => match taproot_commitment(scripts.0, scripts.1, internal_key) {
            None => Err(MakerError::Protocol(ProtocolError::TaprootBuilder)),
            Some((output_key, tap_tweak)) => Ok((internal_key, output_key, tap_tweak)),
        },
    }
}

/// The outgoing contract once it has been built, as far as it could be, and
/// the script that it is paid to or what stopped it. `contracts` is the number
/// of contracts that the message named.
pub open spec fn outgoing_contract(
    state: StateV2Model,
    contracts: nat,
    privkey: SecretKey,
    pubkey: PublicKey,
) -> (OutgoingV2Model, Result<Seq<u8>, MakerError>) {
    let keyed = OutgoingV2Model {
        my_privkey: Some(privkey),
        my_pubkey: Some(pubkey),
        ..state.outgoing_contract
    };
    match outgoing_scripts(state, contracts, privkey) {
        Err(e) => (keyed, Err(e)),
        Ok(scripts) => {
            let scripted = OutgoingV2Model {
                hashlock_script: scripts.0,
                timelock_script: scripts.1,
                ..keyed
            };
            match outgoing_commitment(scripts, pubkey, keyed.other_pubkey->0) {
                Err(e) => (scripted, Err(e)),
                Ok((internal_key, output_key, tap_tweak)) => (
                    OutgoingV2Model {
                        internal_key: Some(internal_key),
                        tap_tweak: Some(tap_tweak),
                        ..scripted
                    },
                    Ok(p2tr_bytes(output_key)),
                ),
            }
        },
    }
}

/// Builds the outgoing contract under the maker's key and returns the script
/// that it is paid to.
pub fn build_outgoing_contract(
    state: &mut ConnectionState,
    contracts: usize,
    privkey: SecretKey,
    pubkey: PublicKey,
) -> (r: Result<Vec<u8>, MakerError>)
    ensures
        ({
            let built = outgoing_contract(old(state)@, contracts as nat, privkey, pubkey);
            &&& final(state)@ == (StateV2Model { outgoing_contract: built.0, ..old(state)@ })
            &&& match (r, built.1) {
                (Ok(script), Ok(expected)) => script@ == expected,
                (Err(e), Err(expected)) => e == expected,
                _ => false,
            }
        }),
{
    state.outgoing_contract.my_privkey = Some(privkey);
    state.outgoing_contract.my_pubkey = Some(pubkey);
    if contracts != 1 {
        return Err(MakerError::General("Expected exactly one contract transaction"));
    }
    let own = match derive_public_key(&privkey) {
        None => {
            return Err(MakerError::Secp);
        },
        Some(key) => key,
    };
    let other = match state.outgoing_contract.other_pubkey {
        None => {
            return Err(MakerError::General("other pubkey not found"));
        },
        Some(key) => key,
    };
    let hash = match extract_hash_from_hashlock(
        state.incoming_contract.hashlock_script.as_slice(),
    ) {
        Err(e) => {
            return Err(MakerError::Protocol(e));
        },
        Ok(hash) => hash,
    };
    let hashlock_script = create_hashlock_script(&hash, &x_only(&other));
    let timelock_script = create_timelock_script(state.timelock as u32, &x_only(&own));
    let aggregated = get_aggregated_pubkey(&pubkey, &other);
    let internal_key = match aggregated {
        None => {
            state.outgoing_contract.hashlock_script = hashlock_script;
            state.outgoing_contract.timelock_script = timelock_script;
            return Err(MakerError::Protocol(ProtocolError::Secp));
        },
        Some(key) => key,
    };
    let committed = create_taproot_script(
        hashlock_script.as_slice(),
        timelock_script.as_slice(),
        &internal_key,
    );
    state.outgoing_contract.hashlock_script = hashlock_script;
    state.outgoing_contract.timelock_script = timelock_script;
    match committed {
        Err(e) => Err(MakerError::Protocol(e)),
        Ok((script, output)) => {
            state.outgoing_contract.internal_key = Some(internal_key);
            state.outgoing_contract.tap_tweak = Some(output.tap_tweak);
            Ok(script)
        },
    }
}

/// The amount of the outgoing contract: what came in less the maker's fee.
pub fn outgoing_contract_amount(received: u64, fee: u64) -> (r: u64)
    requires
        fee <= received,
    ensures
        r == received - fee,
{
    received - fee
}

/// The transaction that sweeps a contract: it spends the contract's first
/// output to `destination`, less the fee of the sweep.
pub open spec fn sweep_model(txid: Txid, value: u64, destination: Seq<u8>) -> TransactionModel {
    TransactionModel {
        version: 2,
        lock_time: 0,
        input: seq![
            InputModel {
                previous_output: OutPoint { txid, vout: 0 },
                script_sig: seq![],
                sequence: 0,
                witness: seq![],
            },
        ],
        output: seq![
            OutputModel { value: (value - SWEEP_FEE) as u64, script_pubkey: destination },
        ],
    }
}

/// Create an unsigned transaction that spends a contract.
pub fn create_unsigned_spending_tx(txid: Txid, contract_value: u64, destination: &Vec<u8>) -> (r:
    Transaction)
    requires
        contract_value >= SWEEP_FEE,
    ensures
        r@ == sweep_model(txid, contract_value, destination@),
{
    let mut input: Vec<TxIn> = Vec::new();
    input.push(
        TxIn {
            previous_output: OutPoint { txid, vout: 0 },
            script_sig: Vec::new(),
            sequence: 0,
            witness: Vec::new(),
        },
    );
    let mut output: Vec<TxOut> = Vec::new();
    output.push(
        TxOut {
            value: contract_value - SWEEP_FEE,
            script_pubkey: copy_bytes(destination.as_slice()),
        },
    );
    let r = Transaction { version: 2, lock_time: 0, input, output };
    let ghost model = sweep_model(txid, contract_value, destination@);
    assert(r.input@[0]@.script_sig =~= seq![]);
    assert(r.input@[0]@.witness =~= seq![]);
    assert(r@.input =~= model.input);
    assert(r@.output =~= model.output);
    r
}

/// The maker's answer to a sender's contract.
pub open spec fn answers_contract(
    response: SenderContractFromMaker,
    contract: OutgoingV2Model,
    txid: Txid,
) -> bool {
    &&& response.contract_txs@ == seq![txid]
    &&& response.pubkeys_a@ == seq![contract.my_pubkey->0]
    &&& response.hashlock_scripts@.len() == 1
    &&& response.hashlock_scripts@[0]@ == contract.hashlock_script
    &&& response.timelock_scripts@.len() == 1
    &&& response.timelock_scripts@[0]@ == contract.timelock_script
    &&& response.internal_key == contract.internal_key
    &&& response.tap_tweak matches Some(tweak) && tweak.0@ == contract.tap_tweak->0@
}

/// Whether the outgoing contract is complete.
pub open spec fn is_built(contract: OutgoingV2Model) -> bool {
    &&& contract.my_pubkey is Some
    &&& contract.internal_key is Some
    &&& contract.tap_tweak is Some
}

/// What stops the maker from answering once its contract is funded: the
/// incoming contract must be one that both parties can sign for.
pub open spec fn answer_verdict(
    contract: IncomingV2Model,
    value: u64,
    destination: Seq<u8>,
) -> Result<(), MakerError> {
    match (contract.contract_txid, contract.internal_key) {
        (None, _) => Err(MakerError::General("contract txid not found")),
        (_, None) => Err(MakerError::General("internal key not found")),
        (Some(txid), Some(key)) => match contract_sighash(
            sweep_model(txid, value, destination),
            value,
            taproot_commitment(contract.hashlock_script, contract.timelock_script, key),
        ) {
            Err(_) => Err(MakerError::General("Failed to calculate sighash")),
            Ok(_) => Ok(()),
        },
    }
}

/// Records the funded outgoing contract and answers the taker. `value` is what
/// the incoming contract holds and `destination` where its sweep goes.
pub fn finish_senders_contract(
    state: &mut ConnectionState,
    contract_tx: Transaction,
    amount: u64,
    value: u64,
    destination: &Vec<u8>,
) -> (r: Result<SenderContractFromMaker, MakerError>)
    requires
        is_built(old(state)@.outgoing_contract),
        value >= SWEEP_FEE,
    ensures
        final(state)@ == funded(old(state)@, contract_tx@, amount),
        match answer_verdict(old(state)@.incoming_contract, value, destination@) {
            Err(e) => r == Err::<SenderContractFromMaker, MakerError>(e),
            Ok(_) => r is Ok && answers_contract(
                r->Ok_0,
                old(state)@.outgoing_contract,
                txid_of(contract_tx@),
            ),
        },
{
    let txid = compute_txid(&contract_tx);
    state.outgoing_contract.contract_tx = contract_tx;
    state.outgoing_contract.funding_amount = amount;
    let incoming_txid = match state.incoming_contract.contract_txid {
        None => {
            return Err(MakerError::General("contract txid not found"));
        },
        Some(txid) => txid,
    };
    let internal_key = match state.incoming_contract.internal_key {
        None => {
            return Err(MakerError::General("internal key not found"));
        },
        Some(key) => key,
    };
    let sweep = create_unsigned_spending_tx(incoming_txid, value, destination);
    match calculate_contract_sighash(
        &sweep,
        value,
        state.incoming_contract.hashlock_script.as_slice(),
        state.incoming_contract.timelock_script.as_slice(),
        &internal_key,
    ) {
        Err(_) => {
            return Err(MakerError::General("Failed to calculate sighash"));
        },
        Ok(_) => {},
    }
    let contract = &state.outgoing_contract;
    let mut contract_txs: Vec<Txid> = Vec::new();
    contract_txs.push(txid);
    let mut pubkeys_a: Vec<PublicKey> = Vec::new();
    if let Some(key) = contract.my_pubkey {
        pubkeys_a.push(key);
    }
    let mut hashlock_scripts: Vec<Vec<u8>> = Vec::new();
    hashlock_scripts.push(copy_bytes(contract.hashlock_script.as_slice()));
    let mut timelock_scripts: Vec<Vec<u8>> = Vec::new();
    timelock_scripts.push(copy_bytes(contract.timelock_script.as_slice()));
    let tap_tweak = match contract.tap_tweak {
        Some(tweak) => Some(SerializableScalar(copy_bytes(tweak.as_slice()))),
        None => None,
    };
    Ok(
        SenderContractFromMaker {
            contract_txs,
            pubkeys_a,
            hashlock_scripts,
            timelock_scripts,
            internal_key: contract.internal_key,
            tap_tweak,
        },
    )
}

/// What signing a sweep together needs: the keys in the order in which they
/// sign, and the hash.
#[derive(Debug, Clone, Copy)]
pub struct SigningOrder {
    /// The first key.
    pub first: PublicKey,
    /// The second key.
    pub second: PublicKey,
    /// Whether the maker's key is the first; nonces and partial signatures
    /// come in the order of the keys.
    pub mine_first: bool,
}

/// The order in which two keys sign: lexicographic, as for aggregation.
pub fn signing_order(mine: &PublicKey, other: &PublicKey) -> (r: SigningOrder)
    ensures
        (r.first, r.second) == in_order(*mine, *other),
        r.mine_first == (r.first == *mine),
{
    if key_before(other, mine) {
        proof {
            if *other == *mine {
                assert(other@ == mine@);
            }
        }
        let r = SigningOrder {
            first: *other,
            second: *mine,
            mine_first: key_equal(other, mine),
        };
        r
    } else {
        SigningOrder { first: *mine, second: *other, mine_first: true }
    }
}

/// A sweep that is ready to be signed.
#[derive(Debug)]
pub struct SweepToSign {
    /// The transaction.
    pub tx: Transaction,
    /// The hash to sign.
    pub hash: [u8; 32],
    /// The tweak of the aggregated key.
    pub tap_tweak: [u8; 32],
    /// The maker's key.
    pub my_privkey: SecretKey,
    /// The order of the keys.
    pub order: SigningOrder,
}

/// What stops a sweep that both parties sign, or the hash that is signed.
pub open spec fn sweep_verdict(
    contract: IncomingV2Model,
    tx: TransactionModel,
    value: u64,
) -> Result<[u8; 32], MakerError> {
    if contract.my_privkey is None {
        Err(MakerError::General("private key not found"))
    } else if public_key_of(contract.my_privkey->0) is None {
        Err(MakerError::Secp)
    } else if contract.tap_tweak is None {
        Err(MakerError::General("tap tweak not found"))
    } else if contract.internal_key is None {
        Err(MakerError::General("internal key not found"))
    } else {
        match contract_sighash(
            tx,
            value,
            taproot_commitment(
                contract.hashlock_script,
                contract.timelock_script,
                contract.internal_key->0,
            ),
        ) {
            Err(_) => Err(MakerError::General("Failed to calculate sighash")),
            Ok(hash) => if contract.other_pubkey is None {
                Err(MakerError::General("other pubkey not found"))
            } else {
                Ok(hash)
            },
        }
    }
}

/// Whether a sweep is prepared for a contract, with this hash to sign: the
/// maker's key and the contract's other key sign in lexicographic order.
pub open spec fn is_prepared(
    sweep: SweepToSign,
    contract: IncomingV2Model,
    hash: [u8; 32],
) -> bool {
    let my_key = public_key_of(contract.my_privkey->0)->0;
    &&& sweep.hash == hash
    &&& Some(sweep.tap_tweak) == contract.tap_tweak
    &&& Some(sweep.my_privkey) == contract.my_privkey
    &&& (sweep.order.first, sweep.order.second) == in_order(my_key, contract.other_pubkey->0)
    &&& sweep.order.mine_first == (sweep.order.first == my_key)
}

/// Prepares the sweep of the incoming contract, which the maker signs with its
/// own key and the one handed over. `tx` spends the contract, which holds
/// `value`.
pub fn prepare_sweep(contract: &IncomingSwapCoinV2, tx: Transaction, value: u64) -> (r: Result<
    SweepToSign,
    MakerError,
>)
    ensures
        match sweep_verdict(contract@, tx@, value) {
            Err(e) => r == Err::<SweepToSign, MakerError>(e),
            Ok(hash) => r is Ok && r->Ok_0.tx == tx && is_prepared(r->Ok_0, contract@, hash),
        },
{
    let my_privkey = match contract.my_privkey {
        None => {
            return Err(MakerError::General("private key not found"));
        },
        Some(key) => key,
    };
    let my_pubkey = match derive_public_key(&my_privkey) {
        None => {
            return Err(MakerError::Secp);
        },
        Some(key) => key,
    };
    let tap_tweak = match contract.tap_tweak {
        None => {
            return Err(MakerError::General("tap tweak not found"));
        },
        Some(tweak) => tweak,
    };
    let internal_key = match contract.internal_key {
        None => {
            return Err(MakerError::General("internal key not found"));
        },
        Some(key) => key,
    };
    let hash = match calculate_contract_sighash(
        &tx,
        value,
        contract.hashlock_script.as_slice(),
        contract.timelock_script.as_slice(),
        &internal_key,
    ) {
        Err(_) => {
            return Err(MakerError::General("Failed to calculate sighash"));
        },
        Ok(hash) => hash,
    };
    let other = match contract.other_pubkey {
        None => {
            return Err(MakerError::General("other pubkey not found"));
        },
        Some(key) => key,
    };
    Ok(SweepToSign { tx, hash, tap_tweak, my_privkey, order: signing_order(&my_pubkey, &other) })
}

/// What both parts of a sweep's signature are made for.
pub open spec fn sweep_session(sweep: SweepToSign, nonce: [u8; 66]) -> SessionModel {
    SessionModel {
        message: sweep.hash,
        nonce,
        tap_tweak: sweep.tap_tweak,
        keys: seq![sweep.order.first, sweep.order.second],
    }
}

/// What stops both parties' keys from signing a sweep.
pub open spec fn joint_verdict(sweep: SweepToSign, other_privkey: SecretKey) -> Result<
    (),
    MakerError,
> {
    if public_key_of(sweep.my_privkey) is None || public_key_of(other_privkey) is None {
        Err(MakerError::Secp)
    } else {
        match session_verdict(sweep.tap_tweak, seq![sweep.order.first, sweep.order.second]) {
            Err(e) => Err(MakerError::Protocol(e)),
            Ok(_) => Ok(()),
        }
    }
}

/// Whether a signature comes from the parts `my_part` and `other_part`, which
/// the keys `my_key` and `other_key` made with the nonces `my_nonce` and
/// `other_nonce`. Nonces and parts come in the order of the keys.
pub open spec fn comes_from(
    sweep: SweepToSign,
    my_key: PublicKey,
    other_key: PublicKey,
    my_nonce: [u8; 66],
    other_nonce: [u8; 66],
    my_part: [u8; 32],
    other_part: [u8; 32],
    signature: [u8; 64],
) -> bool {
    let sum = if sweep.order.mine_first {
        aggregated_nonce(seq![my_nonce, other_nonce])
    } else {
        aggregated_nonce(seq![other_nonce, my_nonce])
    };
    let session = sweep_session(sweep, sum->0);
    &&& sum is Some
    &&& session.is_signed(my_key, my_nonce, my_part)
    &&& session.is_signed(other_key, other_nonce, other_part)
    &&& signature == if sweep.order.mine_first {
        session.signature(seq![my_part, other_part])
    } else {
        session.signature(seq![other_part, my_part])
    }
}

/// Whether a signature of a sweep comes from parts that both keys made.
pub open spec fn is_joint_signature(
    sweep: SweepToSign,
    other_privkey: SecretKey,
    signature: [u8; 64],
) -> bool {
    exists|
        my_nonce: [u8; 66],
        other_nonce: [u8; 66],
        my_part: [u8; 32],
        other_part: [u8; 32],
    | #[trigger]
        comes_from(
            sweep,
            public_key_of(sweep.my_privkey)->0,
            public_key_of(other_privkey)->0,
            my_nonce,
            other_nonce,
            my_part,
            other_part,
            signature,
        )
}

/// Signs a sweep with the maker's key and the one handed over, each with a new
/// nonce.
pub fn sign_jointly(sweep: &SweepToSign, other_privkey: &SecretKey) -> (r: Result<
    [u8; 64],
    MakerError,
>)
    ensures
        match joint_verdict(*sweep, *other_privkey) {
            Err(e) => r == Err::<[u8; 64], MakerError>(e),
            Ok(_) => r is Ok && is_joint_signature(*sweep, *other_privkey, r->Ok_0),
        },
{
    let my_key = match derive_public_key(&sweep.my_privkey) {
        None => {
            return Err(MakerError::Secp);
        },
        Some(key) => key,
    };
    let other_key = match derive_public_key(other_privkey) {
        None => {
            return Err(MakerError::Secp);
        },
        Some(key) => key,
    };
    let mine = match generate_new_nonce_pair_compat(&my_key) {
        Err(e) => {
            return Err(MakerError::Protocol(e));
        },
        Ok(pair) => pair,
    };
    let other = match generate_new_nonce_pair_compat(&other_key) {
        Err(e) => {
            return Err(MakerError::Protocol(e));
        },
        Ok(pair) => pair,
    };
    let my_nonce = mine.public();
    let other_nonce = other.public();
    let mut nonces: Vec<[u8; 66]> = Vec::new();
    if sweep.order.mine_first {
        nonces.push(my_nonce);
        nonces.push(other_nonce);
        assert(nonces@ =~= seq![my_nonce, other_nonce]);
    } else {
        nonces.push(other_nonce);
        nonces.push(my_nonce);
        assert(nonces@ =~= seq![other_nonce, my_nonce]);
    }
    let nonce = match get_aggregated_nonce_compat(&nonces) {
        None => {
            return Err(MakerError::Protocol(ProtocolError::Secp));
        },
        Some(nonce) => nonce,
    };
    let mut keys: Vec<PublicKey> = Vec::new();
    keys.push(sweep.order.first);
    keys.push(sweep.order.second);
    assert(keys@ =~= seq![sweep.order.first, sweep.order.second]);
    let session = SigningSession { message: sweep.hash, nonce, tap_tweak: sweep.tap_tweak, keys };
    let my_part = match generate_partial_signature_compat(&session, mine, &sweep.my_privkey) {
        Err(e) => {
            return Err(MakerError::Protocol(e));
        },
        Ok(part) => part,
    };
    let other_part = match generate_partial_signature_compat(&session, other, other_privkey) {
        Err(e) => {
            return Err(MakerError::Protocol(e));
        },
        Ok(part) => part,
    };
    let mut parts: Vec<[u8; 32]> = Vec::new();
    if sweep.order.mine_first {
        parts.push(my_part);
        parts.push(other_part);
        assert(parts@ =~= seq![my_part, other_part]);
    } else {
        parts.push(other_part);
        parts.push(my_part);
        assert(parts@ =~= seq![other_part, my_part]);
    }
    match aggregate_partial_signatures_compat(&session, &parts) {
        Err(e) => Err(MakerError::Protocol(e)),
        Ok(signature) => {
            assert(comes_from(
                *sweep,
                my_key,
                other_key,
                my_nonce,
                other_nonce,
                my_part,
                other_part,
                signature,
            ));
            Ok(signature)
        },
    }
}

/// Puts the aggregated signature into a sweep: the witness of a spend with the
/// taproot key is the signature alone.
pub fn sign_sweep(tx: Transaction, signature: &[u8; 64]) -> (r: Result<Transaction, MakerError>)
    ensures
        match r {
            Ok(signed) => {
                &&& tx.input@.len() > 0
                &&& signed@ == (TransactionModel {
                    input: tx@.input.update(
                        0,
                        InputModel { witness: seq![signature@], ..tx@.input[0] },
                    ),
                    ..tx@
                })
            },
            Err(e) => tx.input@.len() == 0 && e == MakerError::General(
                "Failed to access witness for signing",
            ),
        },
{
    if tx.input.len() == 0 {
        return Err(MakerError::General("Failed to access witness for signing"));
    }
    let mut signed = tx;
    let mut witness: Vec<Vec<u8>> = Vec::new();
    witness.push(copy_bytes(signature.as_slice()));
    signed.input[0].witness = witness;
    proof {
        assert(signed.input@[0]@.witness =~= seq![signature@]);
        assert(signed@.input =~= tx@.input.update(
            0,
            InputModel { witness: seq![signature@], ..tx@.input[0] },
        ));
    }
    Ok(signed)
}

/// Sweeps the incoming contract, which holds `value`, with `tx`: prepares it,
/// signs it with the maker's key and the one handed over, and puts the
/// signature in.
pub fn sweep_contract(
    contract: &IncomingSwapCoinV2,
    tx: Transaction,
    value: u64,
    other_privkey: &SecretKey,
) -> (r: Result<Transaction, MakerError>)
    ensures
        match sweep_verdict(contract@, tx@, value) {
            Err(e) => r == Err::<Transaction, MakerError>(e),
            Ok(hash) => exists|sweep: SweepToSign|
                #![trigger joint_verdict(sweep, *other_privkey)]
                {
                    &&& is_prepared(sweep, contract@, hash)
                    &&& match joint_verdict(sweep, *other_privkey) {
                        Err(e) => r == Err::<Transaction, MakerError>(e),
                        Ok(_) => r matches Ok(signed) && exists|signature: [u8; 64]| #[trigger]
                            is_joint_signature(sweep, *other_privkey, signature) && signed@ == (
                            TransactionModel {
                                input: tx@.input.update(
                                    0,
                                    InputModel { witness: seq![signature@], ..tx@.input[0] },
                                ),
                                ..tx@
                            }),
                    }
                },
        },
{
    let sweep = match prepare_sweep(contract, tx, value) {
        Err(e) => {
            return Err(e);
        },
        Ok(sweep) => sweep,
    };
    match sign_jointly(&sweep, other_privkey) {
        Err(e) => {
            assert(joint_verdict(sweep, *other_privkey) == Err::<(), MakerError>(e));
            Err(e)
        },
        Ok(signature) => {
            assert(joint_verdict(sweep, *other_privkey) is Ok);
            assert(is_joint_signature(sweep, *other_privkey, signature));
            sign_sweep(sweep.tx, &signature)
        },
    }
}

/// Stores the key handed over and hands over the maker's, once the incoming
/// contract is swept. `id` is that of the swap.
pub fn finish_handover(
    state: &mut ConnectionState,
    handover: &PrivateKeyHandover,
) -> (r: Result<PrivateKeyHandover, MakerError>)
    ensures
        final(state)@ == handed_key(old(state)@, handover.secret_key),
        match old(state).outgoing_contract.my_privkey {
            None => r == Err::<PrivateKeyHandover, MakerError>(
                MakerError::General("private key not found"),
            ),
            Some(key) => r is Ok && r->Ok_0.id@ == handover.id@ && r->Ok_0.secret_key == key,
        },
{
    state.incoming_contract.other_privkey = Some(handover.secret_key);
    match state.outgoing_contract.my_privkey {
        None => Err(MakerError::General("private key not found")),
        Some(secret_key) => Ok(PrivateKeyHandover { id: handover.id.clone(), secret_key }),
    }
}

/// The name of a swap: the time at which it was made, in nanoseconds, and its
/// incoming contract.
pub open spec fn swap_name(state: StateV2Model, nanos: u128) -> Seq<char> {
    decimal(nanos as nat) + "-"@ + hex_text(txid_of(state.incoming_contract.contract_tx)@.reverse())
}

/// The state with both contracts named after the swap.
pub open spec fn named(state: StateV2Model, nanos: u128) -> StateV2Model {
    StateV2Model {
        incoming_contract: IncomingV2Model {
            swap_id: Some(swap_name(state, nanos)),
            ..state.incoming_contract
        },
        outgoing_contract: OutgoingV2Model {
            swap_id: Some(swap_name(state, nanos)),
            ..state.outgoing_contract
        },
        ..state
    }
}

/// Names both contracts of a swap after it, so that they are found together
/// after a restart.
pub fn name_contracts(state: &mut ConnectionState, nanos: u128)
    ensures
        final(state)@ == named(old(state)@, nanos),
{
    let mut swap_id = decimal_text_wide(nanos);
    swap_id.append("-");
    swap_id.append(txid_text(&compute_txid(&state.incoming_contract.contract_tx)).as_str());
    state.incoming_contract.swap_id = Some(swap_id.clone());
    state.outgoing_contract.swap_id = Some(swap_id.clone());
}

/// The contract that the maker sends is locked to the hash of the one it
/// receives: whoever takes the one reveals what opens the other.
pub proof fn law_contracts_share_the_hash(
    state: StateV2Model,
    contracts: nat,
    privkey: SecretKey,
    pubkey: PublicKey,
)
    requires
        outgoing_contract(state, contracts, privkey, pubkey).1 is Ok,
    ensures
        ({
            let hash = hash_among(instructions_of(state.incoming_contract.hashlock_script));
            &&& hash is Ok
            &&& outgoing_contract(state, contracts, privkey, pubkey).0.hashlock_script
                == hashlock_bytes(
                hash->Ok_0,
                x_coordinate(state.outgoing_contract.other_pubkey->0),
            )
        }),
{
}

/// Details are taken exactly where the amount is one that the wallet can fund
/// and not below 10,000 satoshis, the lock time is 20 blocks at least, and the
/// swap has one to ten transactions.
pub proof fn law_details_within_the_limits(details: SwapDetails, spendable: u64)
    ensures
        details_verdict(details, spendable) is Ok <==> {
            &&& 10_000 <= details.amount <= spendable
            &&& details.timelock >= 20
            &&& 1 <= details.no_of_tx <= 10
        },
{
}

/// What is offered is what is taken: details at either end of the offered
/// sizes are accepted where the lock time is the offered one.
pub proof fn law_offered_amounts_are_taken(details: SwapDetails, offer: Offer, spendable: u64)
    requires
        offer.min_size == MIN_SWAP_AMOUNT,
        offer.max_size == spendable,
        offer.minimum_locktime == MIN_CONTRACT_REACTION_TIME,
        offer.min_size <= details.amount <= offer.max_size,
        details.timelock >= offer.minimum_locktime,
        details.no_of_tx == 1,
    ensures
        details_verdict(details, spendable) is Ok,
        MIN_SWAP_AMOUNT == 10_000,
        BASE_FEE == 100,
        MIN_CONTRACT_REACTION_TIME == 20,
{
}

/// The incoming contract is the one that the message names first, worth what
/// its transaction pays in its first output, and the next party is the one to
/// whom the outgoing contract goes. The maker's own keys stay as they are.
pub proof fn law_received_contract_is_the_takers(
    state: StateV2Model,
    message: SendersContract,
    tap_tweak: Option<[u8; 32]>,
    contract_tx: Transaction,
)
    requires
        names_a_contract(message),
        contract_tx.output@.len() > 0,
    ensures
        ({
            let after = received_contract(state, message, tap_tweak, contract_tx);
            &&& after.incoming_contract.hashlock_script == message.hashlock_scripts@.first()@
            &&& after.incoming_contract.timelock_script == message.timelock_scripts@.first()@
            &&& after.incoming_contract.contract_txid == Some(message.contract_txs@.first())
            &&& after.incoming_contract.other_pubkey == Some(message.pubkeys_a@.first())
            &&& after.incoming_contract.internal_key == message.internal_key
            &&& after.incoming_contract.tap_tweak == tap_tweak
            &&& after.incoming_contract.contract_tx == contract_tx@
            &&& after.incoming_contract.funding_amount == contract_tx.output@.first().value
            &&& after.incoming_contract.my_privkey == state.incoming_contract.my_privkey
            &&& after.incoming_contract.my_pubkey == state.incoming_contract.my_pubkey
            &&& after.incoming_contract.hash_preimage == state.incoming_contract.hash_preimage
            &&& after.outgoing_contract.other_pubkey == Some(message.next_party_tweakable_point)
            &&& after.outgoing_contract.my_privkey == state.outgoing_contract.my_privkey
            &&& after.swap_amount == state.swap_amount
            &&& after.timelock == state.timelock
            &&& after.reserve_utxo == state.reserve_utxo
        }),
{
}

/// The contract that the maker builds can be claimed by the next party with the
/// preimage that opens the incoming one, refunded by the maker's own key, and
/// spent by both under the aggregation of their keys; it is paid to an output
/// of witness version one.
pub proof fn law_built_contract_serves_both(
    state: StateV2Model,
    contracts: nat,
    privkey: SecretKey,
    pubkey: PublicKey,
)
    requires
        outgoing_contract(state, contracts, privkey, pubkey).1 is Ok,
    ensures
        ({
            let built = outgoing_contract(state, contracts, privkey, pubkey).0;
            let script = outgoing_contract(state, contracts, privkey, pubkey).1->Ok_0;
            let incoming = instructions_of(state.incoming_contract.hashlock_script);
            &&& contracts == 1
            &&& built.my_privkey == Some(privkey)
            &&& built.my_pubkey == Some(pubkey)
            &&& built.other_pubkey == state.outgoing_contract.other_pubkey
            &&& built.other_pubkey is Some
            &&& incoming[1] matches crate::primitives::InstructionModel::Push(hash) && hash.len() == 32
                && built.hashlock_script == seq![0xa8u8, 32u8] + hash + seq![0x88u8, 32u8]
                + built.other_pubkey->0@.subrange(1, 33) + seq![0xacu8]
            &&& public_key_of(privkey) matches Some(own) && built.timelock_script
                == timelock_bytes(state.timelock as u32, own@.subrange(1, 33))
            &&& built.internal_key matches Some(key) && (aggregated_key(
                pubkey,
                built.other_pubkey->0,
            ) == Some(key) || aggregated_key(built.other_pubkey->0, pubkey) == Some(key))
            &&& taproot_commitment(
                built.hashlock_script,
                built.timelock_script,
                built.internal_key->0,
            ) matches Some((output_key, tap_tweak)) && script == seq![0x51u8, 32u8] + output_key@
                && built.tap_tweak == Some(tap_tweak)
        }),
{
    let scripts = outgoing_scripts(state, contracts, privkey)->Ok_0;
    let hash = hash_among(instructions_of(state.incoming_contract.hashlock_script))->Ok_0;
    let other = state.outgoing_contract.other_pubkey->0;
    assert(scripts.0 =~= seq![0xa8u8, 32u8] + hash + seq![0x88u8, 32u8] + other@.subrange(1, 33)
        + seq![0xacu8]);
}

/// The scripts are there exactly where the message named one contract, the
/// maker's secret has a public key, the next party is known and the incoming
/// script holds a hash; the contract is built exactly where the keys aggregate
/// and the scripts can be committed to under what they aggregate to.
pub proof fn law_contract_is_built(
    state: StateV2Model,
    contracts: nat,
    privkey: SecretKey,
    pubkey: PublicKey,
    other: PublicKey,
    scripts: (Seq<u8>, Seq<u8>),
)
    ensures
        outgoing_scripts(state, contracts, privkey) is Ok <==> {
            &&& contracts == 1
            &&& public_key_of(privkey) is Some
            &&& state.outgoing_contract.other_pubkey is Some
            &&& hash_among(instructions_of(state.incoming_contract.hashlock_script)) is Ok
        },
        outgoing_commitment(scripts, pubkey, other) is Ok <==> {
            let key = aggregated_key(in_order(pubkey, other).0, in_order(pubkey, other).1);
            &&& key is Some
            &&& taproot_commitment(scripts.0, scripts.1, key->0) is Some
        },
        outgoing_commitment(scripts, pubkey, other) == outgoing_commitment(scripts, other, pubkey),
        outgoing_contract(state, contracts, privkey, pubkey).1 is Ok <==> {
            &&& outgoing_scripts(state, contracts, privkey) is Ok
            &&& outgoing_commitment(
                outgoing_scripts(state, contracts, privkey)->Ok_0,
                pubkey,
                state.outgoing_contract.other_pubkey->0,
            ) is Ok
        },
{
    crate::protocol::musig2::law_aggregation_is_symmetric(pubkey, other);
}

/// A sweep spends the first output of the contract transaction, unsigned, and
/// pays all of it but 1,000 satoshis to the destination.
pub proof fn law_sweep_pays_all_but_the_fee(txid: Txid, value: u64, destination: Seq<u8>)
    requires
        value >= 1000,
    ensures
        ({
            let tx = sweep_model(txid, value, destination);
            &&& tx.version == 2
            &&& tx.lock_time == 0
            &&& tx.input.len() == 1
            &&& tx.input[0].previous_output.txid == txid
            &&& tx.input[0].previous_output.vout == 0
            &&& tx.input[0].sequence == 0
            &&& tx.input[0].script_sig == Seq::<u8>::empty()
            &&& tx.input[0].witness == Seq::<Seq<u8>>::empty()
            &&& tx.output.len() == 1
            &&& tx.output[0].value + 1000 == value
            &&& tx.output[0].script_pubkey == destination
        }),
{
}

/// The answer tells the taker of the funded contract what it needs to claim
/// it: its transaction, both scripts, the internal key, the tweak and the
/// maker's key.
pub proof fn law_answer_describes_the_contract(
    response: SenderContractFromMaker,
    contract: OutgoingV2Model,
    txid: Txid,
)
    requires
        is_built(contract),
        answers_contract(response, contract, txid),
    ensures
        response.contract_txs@.len() == 1 && response.contract_txs@[0] == txid,
        response.hashlock_scripts@.len() == 1 && response.hashlock_scripts@[0]@
            == contract.hashlock_script,
        response.timelock_scripts@.len() == 1 && response.timelock_scripts@[0]@
            == contract.timelock_script,
        response.pubkeys_a@.len() == 1 && contract.my_pubkey == Some(response.pubkeys_a@[0]),
        contract.internal_key is Some && response.internal_key == contract.internal_key,
        contract.tap_tweak is Some && (response.tap_tweak matches Some(tweak) && tweak.0@
            == contract.tap_tweak->0@),
{
}

/// The maker answers exactly where the incoming contract is known well enough
/// to be swept: both it and the sweep itself need its transaction, its internal
/// key and a hash to sign.
pub proof fn law_answers_what_can_be_swept(
    contract: IncomingV2Model,
    value: u64,
    destination: Seq<u8>,
)
    ensures
        answer_verdict(contract, value, destination) is Ok <==> {
            &&& contract.contract_txid is Some
            &&& contract.internal_key is Some
            &&& contract_sighash(
                sweep_model(contract.contract_txid->0, value, destination),
                value,
                taproot_commitment(
                    contract.hashlock_script,
                    contract.timelock_script,
                    contract.internal_key->0,
                ),
            ) is Ok
        },
        answer_verdict(contract, value, destination) is Ok && contract.my_privkey is Some
            && public_key_of(contract.my_privkey->0) is Some && contract.tap_tweak is Some
            && contract.other_pubkey is Some ==> sweep_verdict(
            contract,
            sweep_model(contract.contract_txid->0, value, destination),
            value,
        ) is Ok,
{
}

/// A sweep is prepared exactly where the contract holds the maker's key, the
/// tweak, the internal key and the other party's key; the hash that is signed
/// is that of the contract's output with its own scripts and its own value.
pub proof fn law_sweep_signs_for_the_contract(
    contract: IncomingV2Model,
    tx: TransactionModel,
    value: u64,
)
    ensures
        sweep_verdict(contract, tx, value) matches Ok(hash) ==> {
            &&& contract.my_privkey is Some
            &&& public_key_of(contract.my_privkey->0) is Some
            &&& contract.tap_tweak is Some
            &&& contract.internal_key is Some
            &&& contract.other_pubkey is Some
            &&& tx.input.len() == 1
            &&& taproot_commitment(
                contract.hashlock_script,
                contract.timelock_script,
                contract.internal_key->0,
            ) matches Some((output_key, _)) && contract_sighash(
                tx,
                value,
                taproot_commitment(
                    contract.hashlock_script,
                    contract.timelock_script,
                    contract.internal_key->0,
                ),
            ) == Ok::<[u8; 32], ProtocolError>(hash)
        },
{
}

/// In a prepared sweep the keys that sign are the maker's and the other
/// party's, and the maker's is told apart; the tweak is the contract's.
pub proof fn law_prepared_sweep_has_both_keys(
    sweep: SweepToSign,
    contract: IncomingV2Model,
    hash: [u8; 32],
)
    requires
        contract.my_privkey is Some,
        public_key_of(contract.my_privkey->0) is Some,
        contract.other_pubkey is Some,
        is_prepared(sweep, contract, hash),
    ensures
        ({
            let mine = public_key_of(contract.my_privkey->0)->0;
            let other = contract.other_pubkey->0;
            &&& sweep.hash == hash
            &&& contract.tap_tweak == Some(sweep.tap_tweak)
            &&& contract.my_privkey == Some(sweep.my_privkey)
            &&& sweep.order.mine_first ==> sweep.order.first == mine && sweep.order.second == other
            &&& !sweep.order.mine_first ==> sweep.order.first == other && sweep.order.second
                == mine
        }),
{
}

/// Nonces and parts of a signature come in the order of the keys that made
/// them, and are made over the hash, the tweak and the keys of the sweep.
pub proof fn law_parts_follow_the_keys(
    sweep: SweepToSign,
    my_key: PublicKey,
    other_key: PublicKey,
    my_nonce: [u8; 66],
    other_nonce: [u8; 66],
    my_part: [u8; 32],
    other_part: [u8; 32],
    signature: [u8; 64],
)
    requires
        comes_from(
            sweep,
            my_key,
            other_key,
            my_nonce,
            other_nonce,
            my_part,
            other_part,
            signature,
        ),
    ensures
        exists|nonce: [u8; 66]| {
            let session = #[trigger] sweep_session(sweep, nonce);
            &&& session.message == sweep.hash
            &&& session.tap_tweak == sweep.tap_tweak
            &&& session.nonce == nonce
            &&& session.keys.len() == 2
            &&& session.keys[0] == sweep.order.first
            &&& session.keys[1] == sweep.order.second
            &&& session.is_signed(my_key, my_nonce, my_part)
            &&& session.is_signed(other_key, other_nonce, other_part)
            &&& sweep.order.mine_first ==> Some(nonce) == aggregated_nonce(
                seq![my_nonce, other_nonce],
            ) && signature == session.signature(seq![my_part, other_part])
            &&& !sweep.order.mine_first ==> Some(nonce) == aggregated_nonce(
                seq![other_nonce, my_nonce],
            ) && signature == session.signature(seq![other_part, my_part])
        },
{
    let sum = if sweep.order.mine_first {
        aggregated_nonce(seq![my_nonce, other_nonce])
    } else {
        aggregated_nonce(seq![other_nonce, my_nonce])
    };
    let session = sweep_session(sweep, sum->0);
    assert(session.keys[0] == sweep.order.first);
}

/// A fresh state holds nothing of a swap.
pub proof fn law_fresh_state_is_empty(state: ConnectionState)
    requires
        state.is_fresh(),
    ensures
        state.swap_amount == 0,
        state.timelock == 0,
        state.reserve_utxo@ == Seq::<OutPoint>::empty(),
        state@.incoming_contract.contract_txid is None,
        state@.incoming_contract.my_privkey is None,
        state@.incoming_contract.funding_amount == 0,
        state@.outgoing_contract.my_privkey is None,
        state@.outgoing_contract.other_pubkey is None,
        state@.outgoing_contract.funding_amount == 0,
        state@.incoming_contract.contract_tx.input.len() == 0,
        state@.incoming_contract.contract_tx.output.len() == 0,
        !is_built(state@.outgoing_contract),
{
}

/// The offer is made under the key that the maker then knows the secret of, and
/// is honoured: swaps of every offered size, lock time and one to ten
/// transactions are taken.
pub proof fn law_offer_is_honoured(
    state: StateV2Model,
    privkey: SecretKey,
    pubkey: PublicKey,
    spendable: u64,
    fidelity: FidelityProof,
    amount_relative_fee: RateBits,
    time_relative_fee: RateBits,
    details: SwapDetails,
)
    ensures
        ({
            let offer = offered(
                pubkey,
                spendable,
                fidelity,
                amount_relative_fee,
                time_relative_fee,
            );
            &&& keyed(state, privkey, pubkey).incoming_contract.my_pubkey == Some(
                offer.tweakable_point,
            )
            &&& keyed(state, privkey, pubkey).incoming_contract.my_privkey == Some(privkey)
            &&& offer.fidelity == fidelity
            &&& offer.amount_relative_fee == amount_relative_fee
            &&& offer.time_relative_fee == time_relative_fee
            &&& offer.base_fee == 100
            &&& 1 <= details.no_of_tx <= 10 ==> (details_verdict(details, spendable) is Ok
                <==> offer.min_size <= details.amount <= offer.max_size && offer.minimum_locktime
                <= details.timelock)
        }),
{
}

/// The steps of a swap each write their own part of the state: the terms, the
/// maker's key, the funded contract, the received key and the name; what one
/// wrote is still there after the others.
pub proof fn law_steps_write_their_own_part(
    state: StateV2Model,
    details: SwapDetails,
    privkey: SecretKey,
    pubkey: PublicKey,
    contract_tx: TransactionModel,
    amount: u64,
    key: SecretKey,
    nanos: u128,
)
    ensures
        ({
            let after = named(
                handed_key(
                    funded(with_terms(keyed(state, privkey, pubkey), details), contract_tx, amount),
                    key,
                ),
                nanos,
            );
            &&& after.swap_amount == details.amount
            &&& after.timelock == details.timelock
            &&& after.reserve_utxo == state.reserve_utxo
            &&& after.incoming_contract.my_privkey == Some(privkey)
            &&& after.incoming_contract.my_pubkey == Some(pubkey)
            &&& after.incoming_contract.other_privkey == Some(key)
            &&& after.incoming_contract.contract_tx == state.incoming_contract.contract_tx
            &&& after.incoming_contract.hash_preimage == state.incoming_contract.hash_preimage
            &&& after.outgoing_contract.contract_tx == contract_tx
            &&& after.outgoing_contract.funding_amount == amount
            &&& after.outgoing_contract.my_privkey == state.outgoing_contract.my_privkey
            &&& after.outgoing_contract.hashlock_script == state.outgoing_contract.hashlock_script
            &&& after.outgoing_contract.other_privkey == state.outgoing_contract.other_privkey
            &&& after.incoming_contract.swap_id is Some
            &&& after.incoming_contract.swap_id == after.outgoing_contract.swap_id
        }),
{
}

/// The two contracts of a swap are found together by a name that holds the
/// moment and the incoming contract's transaction.
pub proof fn law_name_holds_moment_and_contract(state: StateV2Model, nanos: u128)
    ensures
        named(state, nanos).incoming_contract.swap_id == Some(
            decimal(nanos as nat) + ("-"@ + hex_text(
                txid_of(state.incoming_contract.contract_tx)@.reverse(),
            )),
        ),
{
    assert(swap_name(state, nanos) =~= decimal(nanos as nat) + ("-"@ + hex_text(
        txid_of(state.incoming_contract.contract_tx)@.reverse(),
    )));
}

} // verus!
