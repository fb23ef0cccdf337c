//! The messages of the taproot protocol.

use crate::chain::{PublicKey, SecretKey, Transaction, XOnlyPublicKey};
use crate::primitives::{is_scalar, scalar_in_range};
use crate::protocol::common_messages::PrivateKeyHandover;
use crate::protocol::error::ProtocolError;
use vstd::prelude::*;

verus! {

/// The bytes of a scalar of the curve, as a message carries them.
#[derive(Debug, Clone, PartialEq, Eq)]
pub struct SerializableScalar(pub Vec<u8>);

/// The 32 bytes of a byte string, where it has that many.
pub fn to_array(bytes: &[u8]) -> (r: Option<[u8; 32]>)
    ensures
        r is Some <==> bytes@.len() == 32,
        r is Some ==> r->0@ == bytes@,
{
    if bytes.len() != 32 {
        return None;
    }
    let mut out: [u8; 32] = [0u8; 32];
    let mut i: usize = 0;
    while i < 32
        invariant
            bytes.len() == 32,
            i <= 32,
            forall|j: int| 0 <= j < i ==> out@[j] == bytes@[j],
        decreases 32 - i,
    {
        out[i] = bytes[i];
        i += 1;
    }
    assert(out@ =~= bytes@);
    Some(out)
}

impl SerializableScalar {
    /// Create from raw bytes.
    pub fn from_bytes(bytes: Vec<u8>) -> (r: Self)
        ensures
            r.0@ == bytes@,
    {
        SerializableScalar(bytes)
    }

    /// The scalar, where the bytes are one: 32 of them, and below the order
    /// of the curve.
    pub open spec fn scalar(&self) -> Result<[u8; 32], ProtocolError> {
        if self.0@.len() != 32 {
            Err(ProtocolError::General("invalid scalar length"))
        } else if !is_scalar(array_of(self.0@)) {
            Err(ProtocolError::ScalarOutOfRange)
        } else {
            Ok(array_of(self.0@))
        }
    }

    /// The scalar that the bytes stand for.
    pub fn to_scalar(&self) -> (r: Result<[u8; 32], ProtocolError>)
        ensures
            r == self.scalar(),
    {
        match to_array(self.0.as_slice()) {
            None => Err(ProtocolError::General("invalid scalar length")),
            Some(bytes) => {
                proof {
                    lemma_array_of(bytes, self.0@);
                }
                if scalar_in_range(&bytes) {
                    Ok(bytes)
                } else {
                    Err(ProtocolError::ScalarOutOfRange)
                }
            },
        }
    }
}

/// The array that holds the 32 bytes of `bytes`.
pub open spec fn array_of(bytes: Seq<u8>) -> [u8; 32] {
    choose|a: [u8; 32]| a@ == bytes
}

/// An array is determined by its bytes.
pub proof fn lemma_array_of(a: [u8; 32], bytes: Seq<u8>)
    requires
        a@ == bytes,
    ensures
        array_of(bytes) == a,
{
    assert(array_of(bytes)@ =~= a@);
    assert(array_of(bytes) =~= a);
}

/// Taproot contract data.
#[derive(Debug)]
pub struct TaprootContractData {
    /// Unique swap id.
    pub id: String,
    /// Public keys used in the contracts.
    pub pubkeys: Vec<PublicKey>,
    /// Tweakable point for the next hop.
    pub next_hop_point: PublicKey,
    /// The aggregated internal key of the taproot output.
    pub internal_key: XOnlyPublicKey,
    /// The tap tweak applied to the internal key.
    pub tap_tweak: SerializableScalar,
    /// Hashlock script for spending with the preimage.
    pub hashlock_script: Vec<u8>,
    /// Timelock script for spending after the timeout.
    pub timelock_script: Vec<u8>,
    /// Contract transactions; the funding transaction is the contract.
    pub contract_txs: Vec<Transaction>,
    /// Contract amounts.
    pub amounts: Vec<u64>,
    /// Nonce from which the receiver derives its hashlock key.
    pub hashlock_nonce: Option<SecretKey>,
    /// Nonce for the hashlock key of the next hop; `None` for the last maker.
    pub next_hashlock_nonce: Option<SecretKey>,
}

impl TaprootContractData {
    /// Create a new message.
    pub fn new(
        id: String,
        pubkeys: Vec<PublicKey>,
        next_hop_point: PublicKey,
        internal_key: XOnlyPublicKey,
        tap_tweak: SerializableScalar,
        hashlock_script: Vec<u8>,
        timelock_script: Vec<u8>,
        contract_txs: Vec<Transaction>,
        amounts: Vec<u64>,
        hashlock_nonce: Option<SecretKey>,
        next_hashlock_nonce: Option<SecretKey>,
    ) -> (r: Self)
        ensures
            r == (TaprootContractData {
                id,
                pubkeys,
                next_hop_point,
                internal_key,
                tap_tweak,
                hashlock_script,
                timelock_script,
                contract_txs,
                amounts,
                hashlock_nonce,
                next_hashlock_nonce,
            }),
    {
        TaprootContractData {
            id,
            pubkeys,
            next_hop_point,
            internal_key,
            tap_tweak,
            hashlock_script,
            timelock_script,
            contract_txs,
            amounts,
            hashlock_nonce,
            next_hashlock_nonce,
        }
    }

    /// The tap tweak as a scalar.
    pub fn tap_tweak_scalar(&self) -> (r: Result<[u8; 32], ProtocolError>)
        ensures
            r == self.tap_tweak.scalar(),
    {
        self.tap_tweak.to_scalar()
    }
}

/// All taproot-specific messages sent from taker to maker.
#[derive(Debug)]
pub enum TaprootTakerMessage {
    /// Contract data exchange.
    ContractData(Box<TaprootContractData>),
    /// Private key handover.
    PrivateKeyHandover(PrivateKeyHandover),
}

impl TaprootTakerMessage {
    /// The id of the swap that the message belongs to.
    pub open spec fn id(&self) -> String {
        match self {
            TaprootTakerMessage::ContractData(data) => data.id,
            TaprootTakerMessage::PrivateKeyHandover(handover) => handover.id,
        }
    }

    /// Returns the swap id.
    pub fn swap_id(&self) -> (r: &str)
        ensures
            r@ == self.id()@,
    {
        match self {
            TaprootTakerMessage::ContractData(data) => data.id.as_str(),
            TaprootTakerMessage::PrivateKeyHandover(handover) => handover.id.as_str(),
        }
    }
}

} // verus!
