//! The taproot protocol's message handlers.

use crate::chain::{
    copy_bytes, OutPoint, Preimage, PublicKey, SecretKey, Transaction, XOnlyPublicKey,
};
use crate::error::MakerError;
use crate::maker::handlers::{ConnectionState, StateModel};
use crate::maker::legacy_handlers::{unlock_incoming, unlocked_incoming};
use crate::maker::recovery::{lemma_array_from, law_only_preimages_of_the_hash_open, opens};
use crate::maker::swapcoin::{
    incoming_models, outgoing_models, tx_models, IncomingModel, IncomingSwapCoin, OutgoingModel,
    OutgoingSwapCoin,
};
use crate::maker::taproot_verification::{
    contract_data_verdict, law_contract_data_accepted, pays_contract,
};
use crate::primitives::{
    add_to_point, add_to_secret, aggregated_key, compute_txid, derive_public_key, hashlock_bytes,
    hashlock_elements, instructions_of, public_key_of, sha256_of, timelock_bytes, tweaked_point, tweaked_secret,
    txid_of, InstructionModel, LOCK_TIME_THRESHOLD,
};
use crate::protocol::common_messages::{PrivateKeyHandover, ProtocolVersion, SwapPrivkey};
use crate::protocol::contract2::{
    check_taproot_hashlock_has_pubkey, create_hashlock_script, create_taproot_script,
    create_timelock_script, extract_hash_from_hashlock, hash_among, hashlock_key_verdict,
    law_hashlock_is_read_back,
    p2tr_bytes, taproot_commitment, x_coordinate, x_only, TaprootOutput,
};
use crate::protocol::musig2::{get_aggregated_pubkey, in_order};
use crate::protocol::taproot_messages::{SerializableScalar, TaprootContractData};
use vstd::prelude::*;

verus! {

/// The maker's hashlock key of received contract data, or what the data is
/// rejected for: the hashlock script must name the key that the maker derives
/// from the nonce, and there must be a contract transaction.
pub open spec fn hashlock_key(
    data: TaprootContractData,
    tweakable_privkey: SecretKey,
    tweakable_pubkey: PublicKey,
) -> Result<SecretKey, MakerError> {
    match data.hashlock_nonce {
        None => Err(MakerError::General("Missing hashlock_nonce in TaprootContractData")),
        Some(nonce) => match tweaked_secret(tweakable_privkey, nonce) {
            None => Err(MakerError::General("Hashlock key derivation failed")),
            Some(key) => match hashlock_key_verdict(
                instructions_of(data.hashlock_script@),
                tweaked_point(tweakable_pubkey, nonce),
            ) {
                Err(cause) => Err(
                    MakerError::Contract { what: "Hashlock pubkey mismatch: {}", cause },
                ),
                Ok(_) => if data.contract_txs@.len() == 0 {
                    Err(MakerError::General("No contract transaction from taker"))
                } else {
                    Ok(key)
                },
            },
        },
    }
}

/// Checks that received contract data is locked to the maker's key and returns
/// that key.
pub fn check_contract_data(
    data: &TaprootContractData,
    tweakable_privkey: &SecretKey,
    tweakable_pubkey: &PublicKey,
) -> (r: Result<SecretKey, MakerError>)
    ensures
        r == hashlock_key(*data, *tweakable_privkey, *tweakable_pubkey),
{
    let nonce = match data.hashlock_nonce {
        None => {
            return Err(MakerError::General("Missing hashlock_nonce in TaprootContractData"));
        },
        Some(nonce) => nonce,
    };
    let key = match add_to_secret(tweakable_privkey, &nonce) {
        None => {
            return Err(MakerError::General("Hashlock key derivation failed"));
        },
        Some(key) => key,
    };
    match check_taproot_hashlock_has_pubkey(
        data.hashlock_script.as_slice(),
        tweakable_pubkey,
        &nonce,
    ) {
        Err(cause) => {
            return Err(MakerError::Contract { what: "Hashlock pubkey mismatch: {}", cause });
        },
        Ok(_) => {},
    }
    if data.contract_txs.len() == 0 {
        return Err(MakerError::General("No contract transaction from taker"));
    }
    Ok(key)
}

/// The coin that contract data gives the maker: the first contract
/// transaction, its amount (the agreed one where none is given) and the first
/// key (the next hop's point where none is given).
pub open spec fn taproot_incoming(
    data: TaprootContractData,
    hashlock_privkey: SecretKey,
    tweakable_privkey: SecretKey,
    swap_amount: u64,
) -> Result<IncomingModel, MakerError> {
    match (public_key_of(tweakable_privkey), data.tap_tweak.scalar()) {
        (None, _) => Err(MakerError::Secp),
        (Some(_), Err(e)) => Err(MakerError::Protocol(e)),
        (Some(my_pubkey), Ok(tap_tweak)) => Ok(
            IncomingModel {
                protocol: ProtocolVersion::Taproot,
                swap_id: Some(data.id@),
                my_privkey: Some(tweakable_privkey),
                my_pubkey: Some(my_pubkey),
                other_pubkey: Some(
                    if data.pubkeys@.len() > 0 {
                        data.pubkeys@[0]
                    } else {
                        data.next_hop_point
                    },
                ),
                other_privkey: None,
                contract_tx: data.contract_txs@[0]@,
                multisig_redeemscript: None,
                contract_redeemscript: None,
                hashvalue: None,
                hashlock_privkey,
                funding_amount: if data.amounts@.len() > 0 {
                    data.amounts@[0]
                } else {
                    swap_amount
                },
                others_contract_sig: None,
                hash_preimage: None,
                hashlock_script: Some(data.hashlock_script@),
                timelock_script: Some(data.timelock_script@),
                internal_key: Some(data.internal_key),
                tap_tweak: Some(tap_tweak),
            },
        ),
    }
}

/// Builds the coin that contract data gives the maker.
pub fn build_taproot_incoming(
    data: &TaprootContractData,
    hashlock_privkey: SecretKey,
    tweakable_privkey: &SecretKey,
    swap_amount: u64,
) -> (r: Result<IncomingSwapCoin, MakerError>)
    requires
        data.contract_txs@.len() > 0,
    ensures
        match (r, taproot_incoming(*data, hashlock_privkey, *tweakable_privkey, swap_amount)) {
            (Ok(coin), Ok(model)) => coin@ == model,
            (Err(e), Err(expected)) => e == expected,
            _ => false,
        },
{
    let my_pubkey = match derive_public_key(tweakable_privkey) {
        None => {
            return Err(MakerError::Secp);
        },
        Some(key) => key,
    };
    let tap_tweak = match data.tap_tweak_scalar() {
        Err(e) => {
            return Err(MakerError::Protocol(e));
        },
        Ok(tweak) => tweak,
    };
    let other_pubkey = if data.pubkeys.len() > 0 {
        data.pubkeys[0]
    } else {
        data.next_hop_point
    };
    let funding_amount: u64 = if data.amounts.len() > 0 {
        data.amounts[0]
    } else {
        swap_amount
    };
    Ok(
        IncomingSwapCoin {
            protocol: ProtocolVersion::Taproot,
            swap_id: Some(data.id.clone()),
            my_privkey: Some(*tweakable_privkey),
            my_pubkey: Some(my_pubkey),
            other_pubkey: Some(other_pubkey),
            other_privkey: None,
            contract_tx: data.contract_txs[0].clone(),
            multisig_redeemscript: None,
            contract_redeemscript: None,
            hashvalue: None,
            hashlock_privkey,
            funding_amount,
            others_contract_sig: None,
            hash_preimage: None,
            hashlock_script: Some(copy_bytes(data.hashlock_script.as_slice())),
            timelock_script: Some(copy_bytes(data.timelock_script.as_slice())),
            internal_key: Some(data.internal_key),
            tap_tweak: Some(tap_tweak),
        },
    )
}

/// The blocks until a timelock expires.
pub open spec fn blocks_left(timelock: u32, height: u32) -> u32 {
    if timelock > height {
        (timelock - height) as u32
    } else {
        0
    }
}

/// What is left of an amount after a fee.
pub open spec fn passed_on(incoming: u64, fee: u64) -> Result<u64, MakerError> {
    if fee > incoming {
        Err(MakerError::General("Fee exceeds incoming amount"))
    } else {
        Ok((incoming - fee) as u64)
    }
}

/// The blocks until a timelock expires, for which the maker's fee is charged.
pub fn relative_timelock(timelock: u32, height: u32) -> (r: u32)
    ensures
        r == blocks_left(timelock, height),
{
    timelock.saturating_sub(height)
}

/// What is left of the incoming amount after the maker's fee.
pub fn taproot_outgoing_amount(incoming: u64, fee: u64) -> (r: Result<u64, MakerError>)
    ensures
        r == passed_on(incoming, fee),
{
    match incoming.checked_sub(fee) {
        None => Err(MakerError::General("Fee exceeds incoming amount")),
        Some(amount) => Ok(amount),
    }
}

/// The contract that a maker offers to the next hop.
#[derive(Debug)]
pub struct OutgoingContract {
    /// The maker's key of the contract.
    pub privkey: SecretKey,
    /// Its public key.
    pub pubkey: PublicKey,
    /// The key that spends after the timeout.
    pub timelock_privkey: SecretKey,
    /// The height of the timeout.
    pub timelock: u32,
    /// The script that the next hop spends with the preimage.
    pub hashlock_script: Vec<u8>,
    /// The script that the maker spends after the timeout.
    pub timelock_script: Vec<u8>,
    /// The aggregated key of the maker and the next hop.
    pub internal_key: XOnlyPublicKey,
    /// The output that the contract pays to.
    pub output: TaprootOutput,
    /// The script of that output.
    pub script_pubkey: Vec<u8>,
}

/// What such a contract holds.
pub struct OutgoingContractModel {
    pub privkey: SecretKey,
    pub pubkey: PublicKey,
    pub timelock_privkey: SecretKey,
    pub timelock: u32,
    pub hashlock_script: Seq<u8>,
    pub timelock_script: Seq<u8>,
    pub internal_key: XOnlyPublicKey,
    pub output: TaprootOutput,
    pub script_pubkey: Seq<u8>,
}

impl View for OutgoingContract {
    type V = OutgoingContractModel;

    open spec fn view(&self) -> OutgoingContractModel {
        OutgoingContractModel {
            privkey: self.privkey,
            pubkey: self.pubkey,
            timelock_privkey: self.timelock_privkey,
            timelock: self.timelock,
            hashlock_script: self.hashlock_script@,
            timelock_script: self.timelock_script@,
            internal_key: self.internal_key,
            output: self.output,
            script_pubkey: self.script_pubkey@,
        }
    }
}

/// The key that the next hop's hashlock is made for: its point moved by the
/// nonce, or the point itself where there is no nonce.
pub open spec fn next_hop_key(data: TaprootContractData) -> Option<PublicKey> {
    match data.next_hashlock_nonce {
        Some(nonce) => tweaked_point(data.next_hop_point, nonce),
        None => Some(data.next_hop_point),
    }
}

/// The output of a contract whose scripts and internal key are known.
pub open spec fn committed_contract(
    privkey: SecretKey,
    pubkey: PublicKey,
    timelock_privkey: SecretKey,
    timelock: u32,
    hashlock_script: Seq<u8>,
    timelock_script: Seq<u8>,
    internal_key: Option<XOnlyPublicKey>,
) -> Result<OutgoingContractModel, MakerError> {
    match internal_key {
        None => Err(MakerError::General("Failed to create aggregated pubkey")),
        Some(key) => match taproot_commitment(hashlock_script, timelock_script, key) {
            None => Err(MakerError::General("Failed to finalize taproot")),
            Some((output_key, tap_tweak)) => Ok(
                OutgoingContractModel {
                    privkey,
                    pubkey,
                    timelock_privkey,
                    timelock,
                    hashlock_script,
                    timelock_script,
                    internal_key: key,
                    output: TaprootOutput { output_key, tap_tweak },
                    script_pubkey: p2tr_bytes(output_key),
                },
            ),
        },
    }
}

/// The contract that the maker offers to the next hop. It has the hash of the
/// incoming contract, the next hop's hashlock key and the maker's own timelock
/// key, under the aggregated key of both.
pub open spec fn next_contract(
    data: TaprootContractData,
    tweakable_privkey: SecretKey,
    timelock: u32,
    outgoing_nonce: SecretKey,
    timelock_privkey: SecretKey,
) -> Result<OutgoingContractModel, MakerError> {
    let privkey = tweaked_secret(tweakable_privkey, outgoing_nonce);
    if privkey is None {
        Err(MakerError::General("Outgoing key derivation failed"))
    } else if public_key_of(privkey->0) is None || public_key_of(timelock_privkey) is None {
        Err(MakerError::Secp)
    } else {
        match hash_among(instructions_of(data.hashlock_script@)) {
            Err(cause) => Err(MakerError::Contract { what: "Invalid hashlock script: {}", cause }),
            Ok(hash) => match next_hop_key(data) {
                None => Err(
                    MakerError::Contract {
                        what: "Next hop key derivation: {}",
                        cause: crate::protocol::error::ProtocolError::Secp,
                    },
                ),
                Some(next) => if timelock >= LOCK_TIME_THRESHOLD {
                    Err(MakerError::General("Invalid locktime height"))
                } else {
                    let pubkey = public_key_of(privkey->0)->0;
                    let keys = in_order(pubkey, data.next_hop_point);
                    committed_contract(
                        privkey->0,
                        pubkey,
                        timelock_privkey,
                        timelock,
                        hashlock_bytes(hash, x_coordinate(next)),
                        timelock_bytes(
                            timelock,
                            x_coordinate(public_key_of(timelock_privkey)->0),
                        ),
                        aggregated_key(keys.0, keys.1),
                    )
                },
            },
        }
    }
}

/// Builds the contract that the maker offers to the next hop.
pub fn build_next_contract(
    data: &TaprootContractData,
    tweakable_privkey: &SecretKey,
    timelock: u32,
    outgoing_nonce: &SecretKey,
    timelock_privkey: SecretKey,
) -> (r: Result<OutgoingContract, MakerError>)
    ensures
        match (r, next_contract(
            *data,
            *tweakable_privkey,
            timelock,
            *outgoing_nonce,
            timelock_privkey,
        )) {
            (Ok(contract), Ok(model)) => contract@ == model,
            (Err(e), Err(expected)) => e == expected,
            _ => false,
        },
{
    let privkey = match add_to_secret(tweakable_privkey, outgoing_nonce) {
        None => {
            return Err(MakerError::General("Outgoing key derivation failed"));
        },
        Some(key) => key,
    };
    let pubkey = match derive_public_key(&privkey) {
        None => {
            return Err(MakerError::Secp);
        },
        Some(key) => key,
    };
    let timelock_pubkey = match derive_public_key(&timelock_privkey) {
        None => {
            return Err(MakerError::Secp);
        },
        Some(key) => key,
    };
    let hash = match extract_hash_from_hashlock(data.hashlock_script.as_slice()) {
        Err(cause) => {
            return Err(MakerError::Contract { what: "Invalid hashlock script: {}", cause });
        },
        Ok(hash) => hash,
    };
    let next = match data.next_hashlock_nonce {
        Some(nonce) => match add_to_point(&data.next_hop_point, &nonce) {
            None => {
                return Err(
                    MakerError::Contract {
                        what: "Next hop key derivation: {}",
                        cause: crate::protocol::error::ProtocolError::Secp,
                    },
                );
            },
            Some(key) => key,
        },
        None => data.next_hop_point,
    };
    if timelock >= LOCK_TIME_THRESHOLD {
        return Err(MakerError::General("Invalid locktime height"));
    }
    let hashlock_script = create_hashlock_script(&hash, &x_only(&next));
    let timelock_script = create_timelock_script(timelock, &x_only(&timelock_pubkey));
    let internal_key = match get_aggregated_pubkey(&pubkey, &data.next_hop_point) {
        None => {
            return Err(MakerError::General("Failed to create aggregated pubkey"));
        },
        Some(key) => key,
    };
    match create_taproot_script(
        hashlock_script.as_slice(),
        timelock_script.as_slice(),
        &internal_key,
    ) {
        Err(_) => Err(MakerError::General("Failed to finalize taproot")),
        Ok((script_pubkey, output)) => Ok(
            OutgoingContract {
                privkey,
                pubkey,
                timelock_privkey,
                timelock,
                hashlock_script,
                timelock_script,
                internal_key,
                output,
                script_pubkey,
            },
        ),
    }
}

/// The coin that the maker sends with a contract.
pub open spec fn taproot_outgoing(
    contract: OutgoingContractModel,
    id: Seq<char>,
    next_hop_point: PublicKey,
    contract_tx: Transaction,
    output_pos: u32,
) -> OutgoingModel {
    OutgoingModel {
        protocol: ProtocolVersion::Taproot,
        swap_id: Some(id),
        my_privkey: Some(contract.privkey),
        my_pubkey: Some(contract.pubkey),
        other_pubkey: Some(next_hop_point),
        contract_tx: contract_tx@,
        contract_vout: output_pos,
        funding_tx: None,
        multisig_redeemscript: None,
        contract_redeemscript: None,
        timelock_privkey: contract.timelock_privkey,
        timelock: Some(contract.timelock),
        funding_amount: contract_tx.output@[output_pos as int].value,
        others_contract_sig: None,
        hashlock_script: Some(contract.hashlock_script),
        timelock_script: Some(contract.timelock_script),
        internal_key: Some(contract.internal_key),
        tap_tweak: Some(contract.output.tap_tweak),
    }
}

/// Whether contract data answers received contract data with the maker's
/// contract.
pub open spec fn answers_with(
    response: TaprootContractData,
    data: TaprootContractData,
    contract: OutgoingContractModel,
    contract_tx: Transaction,
    output_pos: u32,
    tweakable_pubkey: PublicKey,
) -> bool {
    &&& response.id@ == data.id@
    &&& response.pubkeys@ == seq![contract.pubkey]
    &&& response.next_hop_point == tweakable_pubkey
    &&& response.internal_key == contract.internal_key
    &&& response.tap_tweak.0@ == contract.output.tap_tweak@
    &&& response.hashlock_script@ == contract.hashlock_script
    &&& response.timelock_script@ == contract.timelock_script
    &&& tx_models(response.contract_txs@) == seq![contract_tx@]
    &&& response.amounts@ == seq![contract_tx.output@[output_pos as int].value]
    &&& response.hashlock_nonce is None
    &&& response.next_hashlock_nonce is None
}

/// The output of a contract transaction that holds the contract.
pub fn contract_outpoint(contract_tx: &Transaction, output_pos: u32) -> (r: OutPoint)
    ensures
        r == (OutPoint { txid: txid_of(contract_tx@), vout: output_pos }),
{
    OutPoint { txid: compute_txid(contract_tx), vout: output_pos }
}

/// The state once both coins of a taproot swap are taken over.
pub open spec fn with_taproot_coins(
    state: StateModel,
    incoming: IncomingModel,
    outgoing: OutgoingModel,
) -> StateModel {
    StateModel {
        incoming_swapcoins: state.incoming_swapcoins.push(incoming),
        outgoing_swapcoins: state.outgoing_swapcoins.push(outgoing),
        funding_broadcast: true,
        ..state
    }
}

/// Takes over both coins of a taproot swap and answers the taker. The
/// contract transaction counts as broadcast from here on.
pub fn finish_taproot_contract(
    state: &mut ConnectionState,
    data: &TaprootContractData,
    incoming: IncomingSwapCoin,
    contract: OutgoingContract,
    contract_tx: Transaction,
    output_pos: u32,
    tweakable_pubkey: &PublicKey,
) -> (r: TaprootContractData)
    requires
        output_pos < contract_tx.output@.len(),
    ensures
        answers_with(r, *data, contract@, contract_tx, output_pos, *tweakable_pubkey),
        final(state)@ == with_taproot_coins(
            old(state)@,
            incoming@,
            taproot_outgoing(contract@, data.id@, data.next_hop_point, contract_tx, output_pos),
        ),
{
    let ghost before = *state;
    let amount: u64 = contract_tx.output[output_pos as usize].value;
    let coin = OutgoingSwapCoin {
        protocol: ProtocolVersion::Taproot,
        swap_id: Some(data.id.clone()),
        my_privkey: Some(contract.privkey),
        my_pubkey: Some(contract.pubkey),
        other_pubkey: Some(data.next_hop_point),
        contract_tx: contract_tx.clone(),
        contract_vout: output_pos,
        funding_tx: None,
        multisig_redeemscript: None,
        contract_redeemscript: None,
        timelock_privkey: contract.timelock_privkey,
        timelock: Some(contract.timelock),
        funding_amount: amount,
        others_contract_sig: None,
        hashlock_script: Some(copy_bytes(contract.hashlock_script.as_slice())),
        timelock_script: Some(copy_bytes(contract.timelock_script.as_slice())),
        internal_key: Some(contract.internal_key),
        tap_tweak: Some(contract.output.tap_tweak),
    };
    let ghost model = coin@;
    state.incoming_swapcoins.push(incoming);
    state.outgoing_swapcoins.push(coin);
    state.funding_broadcast = true;
    proof {
        assert(incoming_models(state.incoming_swapcoins@) =~= incoming_models(
            before.incoming_swapcoins@,
        ).push(incoming@));
        assert(outgoing_models(state.outgoing_swapcoins@) =~= outgoing_models(
            before.outgoing_swapcoins@,
        ).push(model));
    }
    let mut pubkeys: Vec<PublicKey> = Vec::new();
    pubkeys.push(contract.pubkey);
    let mut contract_txs: Vec<Transaction> = Vec::new();
    contract_txs.push(contract_tx);
    let mut amounts: Vec<u64> = Vec::new();
    amounts.push(amount);
    let r = TaprootContractData::new(
        data.id.clone(),
        pubkeys,
        *tweakable_pubkey,
        contract.internal_key,
        SerializableScalar::from_bytes(copy_bytes(contract.output.tap_tweak.as_slice())),
        contract.hashlock_script,
        contract.timelock_script,
        contract_txs,
        amounts,
        None,
        None,
    );
    assert(tx_models(r.contract_txs@) =~= seq![contract_tx@]);
    r
}

/// What a taproot key handover is rejected for, or the maker's key.
pub open spec fn taproot_completion(coins: Seq<OutgoingSwapCoin>) -> Result<SecretKey, MakerError> {
    if coins.len() == 0 {
        Err(MakerError::General("No outgoing swapcoin found"))
    } else {
        match coins[0].my_privkey {
            None => Err(MakerError::General("No private key in outgoing swapcoin")),
            Some(key) => Ok(key),
        }
    }
}

/// Process a taproot private key handover: the received keys are stored on the
/// incoming coins at the same positions, and the maker's key of the first
/// outgoing coin is returned. The swap is completed once the coins are saved.
pub fn process_taproot_handover(state: &mut ConnectionState, handover: PrivateKeyHandover) -> (r:
    Result<PrivateKeyHandover, MakerError>)
    ensures
        match taproot_completion(old(state).outgoing_swapcoins@) {
            Err(e) => r == Err::<PrivateKeyHandover, MakerError>(e) && final(state)@ == old(
                state,
            )@,
            Ok(key) => {
                &&& r is Ok
                &&& r->Ok_0.id@ == handover.id@
                &&& r->Ok_0.privkeys@.len() == 1
                &&& r->Ok_0.privkeys@[0].key == key
                &&& r->Ok_0.privkeys@[0].identifier@.len() == 0
                &&& final(state)@ == (StateModel {
                    incoming_swapcoins: unlocked_incoming(
                        old(state)@.incoming_swapcoins,
                        handover.privkeys@,
                    ),
                    ..old(state)@
                })
            },
        },
{
    if state.outgoing_swapcoins.len() == 0 {
        return Err(MakerError::General("No outgoing swapcoin found"));
    }
    let key = match state.outgoing_swapcoins[0].my_privkey {
        None => {
            return Err(MakerError::General("No private key in outgoing swapcoin"));
        },
        Some(key) => key,
    };
    unlock_incoming(&mut state.incoming_swapcoins, &handover.privkeys);
    let mut privkeys: Vec<SwapPrivkey> = Vec::new();
    privkeys.push(SwapPrivkey { identifier: Vec::new(), key });
    Ok(PrivateKeyHandover { id: handover.id, privkeys })
}

/// The contract that the maker offers to the next hop is locked to the hash of
/// the contract it received: the preimage that opens the one opens the other.
pub proof fn law_hops_share_the_hash(
    data: TaprootContractData,
    tweakable_privkey: SecretKey,
    timelock: u32,
    outgoing_nonce: SecretKey,
    timelock_privkey: SecretKey,
)
    requires
        next_contract(
            data,
            tweakable_privkey,
            timelock,
            outgoing_nonce,
            timelock_privkey,
        ) is Ok,
    ensures
        ({
            let contract = next_contract(
                data,
                tweakable_privkey,
                timelock,
                outgoing_nonce,
                timelock_privkey,
            )->Ok_0;
            let hash = hash_among(instructions_of(data.hashlock_script@));
            &&& hash is Ok
            &&& next_hop_key(data) is Some
            &&& contract.hashlock_script == hashlock_bytes(
                hash->Ok_0,
                x_coordinate(next_hop_key(data)->0),
            )
            &&& contract.timelock == timelock
        }),
{
}

/// Contract data is the maker's to claim exactly where it comes with a nonce
/// that moves the maker's keys, its hashlock script names the moved public key,
/// and there is a contract transaction; the key is the maker's own, moved by
/// that nonce.
pub proof fn law_hashlock_key_claims_the_contract(
    data: TaprootContractData,
    tweakable_privkey: SecretKey,
    tweakable_pubkey: PublicKey,
)
    ensures
        match hashlock_key(data, tweakable_privkey, tweakable_pubkey) {
            Ok(key) => {
                let items = instructions_of(data.hashlock_script@);
                &&& data.hashlock_nonce is Some
                &&& tweaked_secret(tweakable_privkey, data.hashlock_nonce->0) == Some(key)
                &&& tweaked_point(tweakable_pubkey, data.hashlock_nonce->0) is Some
                &&& items.len() > 3
                &&& items[3] == InstructionModel::Push(
                    tweaked_point(tweakable_pubkey, data.hashlock_nonce->0)->0@.subrange(1, 33),
                )
                &&& data.contract_txs@.len() > 0
            },
            Err(_) => {
                let items = instructions_of(data.hashlock_script@);
                ||| data.hashlock_nonce is None
                ||| tweaked_secret(tweakable_privkey, data.hashlock_nonce->0) is None
                ||| tweaked_point(tweakable_pubkey, data.hashlock_nonce->0) is None
                ||| items.len() <= 3
                ||| items[3] != InstructionModel::Push(
                    tweaked_point(tweakable_pubkey, data.hashlock_nonce->0)->0@.subrange(1, 33),
                )
                ||| data.contract_txs@.len() == 0
            },
        },
{
}

/// The incoming coin is the contract that the taker sent, for the maker to
/// spend: by its own key together with the taker's, or by the hashlock key and
/// a preimage of the hash that the hashlock script was made with, and by no
/// other preimage.
pub proof fn law_taproot_incoming_is_the_takers_contract(
    data: TaprootContractData,
    hashlock_privkey: SecretKey,
    tweakable_privkey: SecretKey,
    swap_amount: u64,
    hash: [u8; 32],
    key: Seq<u8>,
    preimage: Preimage,
)
    requires
        taproot_incoming(data, hashlock_privkey, tweakable_privkey, swap_amount) is Ok,
        data.hashlock_script@ == hashlock_bytes(hash@, key),
    ensures
        ({
            let coin = taproot_incoming(
                data,
                hashlock_privkey,
                tweakable_privkey,
                swap_amount,
            )->Ok_0;
            &&& coin.my_privkey == Some(tweakable_privkey)
            &&& coin.my_pubkey is Some && coin.my_pubkey == public_key_of(tweakable_privkey)
            &&& data.pubkeys@.len() > 0 ==> coin.other_pubkey == Some(data.pubkeys@[0])
            &&& data.pubkeys@.len() == 0 ==> coin.other_pubkey == Some(data.next_hop_point)
            &&& coin.hashlock_privkey == hashlock_privkey
            &&& coin.hashlock_script == Some(data.hashlock_script@)
            &&& coin.timelock_script == Some(data.timelock_script@)
            &&& coin.internal_key == Some(data.internal_key)
            &&& coin.tap_tweak is Some && coin.tap_tweak->0@ == data.tap_tweak.0@
            &&& coin.contract_tx == data.contract_txs@[0]@
            &&& data.amounts@.len() > 0 ==> coin.funding_amount == data.amounts@[0]
            &&& data.amounts@.len() == 0 ==> coin.funding_amount == swap_amount
            &&& coin.swap_id == Some(data.id@)
            &&& coin.hash_preimage is None && coin.other_privkey is None
            &&& opens(coin, preimage) <==> sha256_of(preimage@) == hash
        }),
{
    let coin = taproot_incoming(data, hashlock_privkey, tweakable_privkey, swap_amount)->Ok_0;
    law_only_preimages_of_the_hash_open(coin, hash, key, preimage);
    lemma_array_from(data.tap_tweak.0@);
}

/// Contract data that was accepted gives a coin that is worth what the first
/// output of its contract transaction holds, and that output pays to what the
/// coin's own scripts, key and tweak commit to.
pub proof fn law_accepted_contract_is_worth_its_output(
    data: TaprootContractData,
    maker_timelock: u32,
    refund_locktime_step: u16,
    hashlock_privkey: SecretKey,
    tweakable_privkey: SecretKey,
    swap_amount: u64,
)
    requires
        contract_data_verdict(
            data,
            maker_timelock,
            refund_locktime_step,
            instructions_of(data.hashlock_script@),
            instructions_of(data.timelock_script@),
            taproot_commitment(data.hashlock_script@, data.timelock_script@, data.internal_key),
        ) is Ok,
        taproot_incoming(data, hashlock_privkey, tweakable_privkey, swap_amount) is Ok,
    ensures
        ({
            let coin = taproot_incoming(
                data,
                hashlock_privkey,
                tweakable_privkey,
                swap_amount,
            )->Ok_0;
            let committed = taproot_commitment(
                coin.hashlock_script->0,
                coin.timelock_script->0,
                coin.internal_key->0,
            );
            &&& coin.contract_tx.input.len() > 0
            &&& coin.contract_tx.output.len() > 0
            &&& coin.contract_tx.output[0].value == coin.funding_amount
            &&& committed is Some
            &&& coin.contract_tx.output[0].script_pubkey == seq![0x51u8, 32u8] + (committed->0).0@
            &&& coin.tap_tweak == Some((committed->0).1)
        }),
{
    let committed = taproot_commitment(
        data.hashlock_script@,
        data.timelock_script@,
        data.internal_key,
    );
    law_contract_data_accepted(
        data,
        maker_timelock,
        refund_locktime_step,
        instructions_of(data.hashlock_script@),
        instructions_of(data.timelock_script@),
        committed,
    );
    let tx = data.contract_txs@[0];
    assert(pays_contract(tx, data.amounts@[0], (committed->0).0));
    assert(tx@.output[0] == tx.output@[0]@);
    assert(tx@.input.len() == tx.input@.len());
}

/// The hash that a hashlock script was made with is the hash of the next
/// contract, under the key of the next party, moved where there is a nonce for
/// it: the next party's preimage opens the incoming contract too.
pub proof fn law_next_hop_claims_with_the_same_preimage(
    data: TaprootContractData,
    tweakable_privkey: SecretKey,
    timelock: u32,
    outgoing_nonce: SecretKey,
    timelock_privkey: SecretKey,
    hash: [u8; 32],
    key: XOnlyPublicKey,
)
    requires
        next_contract(
            data,
            tweakable_privkey,
            timelock,
            outgoing_nonce,
            timelock_privkey,
        ) is Ok,
        instructions_of(data.hashlock_script@) == hashlock_elements(hash@, key@),
    ensures
        ({
            let contract = next_contract(
                data,
                tweakable_privkey,
                timelock,
                outgoing_nonce,
                timelock_privkey,
            )->Ok_0;
            &&& data.next_hashlock_nonce is None ==> contract.hashlock_script == hashlock_bytes(
                hash@,
                data.next_hop_point@.subrange(1, 33),
            )
            &&& data.next_hashlock_nonce is Some ==> {
                let moved = tweaked_point(data.next_hop_point, data.next_hashlock_nonce->0);
                moved is Some && contract.hashlock_script == hashlock_bytes(
                    hash@,
                    moved->0@.subrange(1, 33),
                )
            }
        }),
{
    law_hashlock_is_read_back(hash, key);
}

/// The outgoing coin of a contract that was built for the next hop can be taken
/// back: its timelock script is made of its timelock and the public key of its
/// timelock key. It can be spent together: its own key is that of its secret
/// key, and its internal key is the aggregated key of both. Its tweak is the one
/// that its scripts and internal key commit to.
pub proof fn law_outgoing_coin_can_be_reclaimed(
    data: TaprootContractData,
    tweakable_privkey: SecretKey,
    timelock: u32,
    outgoing_nonce: SecretKey,
    timelock_privkey: SecretKey,
    contract_tx: Transaction,
    output_pos: u32,
)
    requires
        next_contract(
            data,
            tweakable_privkey,
            timelock,
            outgoing_nonce,
            timelock_privkey,
        ) is Ok,
    ensures
        ({
            let contract = next_contract(
                data,
                tweakable_privkey,
                timelock,
                outgoing_nonce,
                timelock_privkey,
            )->Ok_0;
            let coin = taproot_outgoing(
                contract,
                data.id@,
                data.next_hop_point,
                contract_tx,
                output_pos,
            );
            let refund_key = public_key_of(coin.timelock_privkey);
            let both = in_order(coin.my_pubkey->0, coin.other_pubkey->0);
            let committed = taproot_commitment(
                coin.hashlock_script->0,
                coin.timelock_script->0,
                coin.internal_key->0,
            );
            &&& coin.timelock_privkey == timelock_privkey
            &&& coin.timelock == Some(timelock)
            &&& timelock < 500_000_000
            &&& refund_key is Some
            &&& coin.timelock_script == Some(
                timelock_bytes(coin.timelock->0, refund_key->0@.subrange(1, 33)),
            )
            &&& coin.my_privkey is Some
            &&& coin.my_privkey == tweaked_secret(tweakable_privkey, outgoing_nonce)
            &&& coin.my_pubkey is Some
            &&& coin.my_pubkey == public_key_of(coin.my_privkey->0)
            &&& coin.other_pubkey == Some(data.next_hop_point)
            &&& coin.internal_key is Some
            &&& coin.internal_key == aggregated_key(both.0, both.1)
            &&& committed is Some
            &&& coin.tap_tweak == Some((committed->0).1)
            &&& contract.script_pubkey == seq![0x51u8, 32u8] + (committed->0).0@
            &&& coin.contract_tx == contract_tx@
            &&& coin.contract_vout == output_pos
            &&& coin.swap_id == Some(data.id@)
            &&& coin.protocol == ProtocolVersion::Taproot
            &&& output_pos < contract_tx.output@.len() ==> coin.funding_amount
                == contract_tx@.output[output_pos as int].value
        }),
{
    if output_pos < contract_tx.output@.len() {
        assert(contract_tx@.output[output_pos as int] == contract_tx.output@[output_pos as int]@);
    }
}

/// The answer to the taker tells of the outgoing coin that the maker keeps: its
/// scripts, keys and tweak, its contract transaction and its amount. It keeps
/// no nonce, and names the point by which the maker is the next hop of another.
pub proof fn law_answer_describes_the_kept_coin(
    response: TaprootContractData,
    data: TaprootContractData,
    contract: OutgoingContractModel,
    contract_tx: Transaction,
    output_pos: u32,
    tweakable_pubkey: PublicKey,
)
    requires
        answers_with(response, data, contract, contract_tx, output_pos, tweakable_pubkey),
    ensures
        ({
            let coin = taproot_outgoing(
                contract,
                data.id@,
                data.next_hop_point,
                contract_tx,
                output_pos,
            );
            &&& coin.swap_id == Some(response.id@)
            &&& response.pubkeys@.len() == 1 && coin.my_pubkey == Some(response.pubkeys@[0])
            &&& coin.hashlock_script == Some(response.hashlock_script@)
            &&& coin.timelock_script == Some(response.timelock_script@)
            &&& coin.internal_key == Some(response.internal_key)
            &&& coin.tap_tweak is Some && coin.tap_tweak->0@ == response.tap_tweak.0@
            &&& response.contract_txs@.len() == 1
            &&& coin.contract_tx == response.contract_txs@[0]@
            &&& response.amounts@.len() == 1 && coin.funding_amount == response.amounts@[0]
            &&& response.next_hop_point == tweakable_pubkey
            &&& response.hashlock_nonce is None && response.next_hashlock_nonce is None
        }),
{
    assert(tx_models(response.contract_txs@).len() == response.contract_txs@.len());
    assert(tx_models(response.contract_txs@)[0] == response.contract_txs@[0]@);
}

/// After the contract data of a swap was answered, both coins of the swap are
/// kept behind those it had, it counts as broadcast, and nothing else changed.
pub proof fn law_both_taproot_coins_are_kept(
    state: StateModel,
    incoming: IncomingModel,
    outgoing: OutgoingModel,
)
    ensures
        ({
            let after = with_taproot_coins(state, incoming, outgoing);
            &&& after.funding_broadcast
            &&& after.incoming_swapcoins.len() == state.incoming_swapcoins.len() + 1
            &&& after.incoming_swapcoins.last() == incoming
            &&& after.incoming_swapcoins.drop_last() == state.incoming_swapcoins
            &&& after.outgoing_swapcoins.len() == state.outgoing_swapcoins.len() + 1
            &&& after.outgoing_swapcoins.last() == outgoing
            &&& after.outgoing_swapcoins.drop_last() == state.outgoing_swapcoins
            &&& after == (StateModel {
                incoming_swapcoins: after.incoming_swapcoins,
                outgoing_swapcoins: after.outgoing_swapcoins,
                funding_broadcast: true,
                ..state
            })
        }),
{
    let after = with_taproot_coins(state, incoming, outgoing);
    assert(after.incoming_swapcoins.drop_last() =~= state.incoming_swapcoins);
    assert(after.outgoing_swapcoins.drop_last() =~= state.outgoing_swapcoins);
}

/// The maker's fee is charged for the blocks that are left until the timelock,
/// and what it passes on is the incoming amount less that fee.
pub proof fn law_fee_is_for_the_blocks_left(timelock: u32, height: u32, incoming: u64, fee: u64)
    ensures
        height <= timelock ==> blocks_left(timelock, height) + height == timelock,
        height >= timelock ==> blocks_left(timelock, height) == 0,
        passed_on(incoming, fee) is Ok <==> fee <= incoming,
        passed_on(incoming, fee) matches Ok(amount) ==> amount + fee == incoming,
{
}

/// A taproot swap is completed exactly where it has an outgoing coin with the
/// maker's key, which is the one handed over.
pub proof fn law_handover_gives_the_outgoing_key(coins: Seq<OutgoingSwapCoin>)
    ensures
        taproot_completion(coins) is Ok <==> coins.len() > 0 && coins[0].my_privkey is Some,
        taproot_completion(coins) matches Ok(key) ==> coins[0].my_privkey == Some(key),
{
}

} // verus!
