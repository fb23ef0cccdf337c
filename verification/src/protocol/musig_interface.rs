//! Joint signatures on values as they come from messages and wallets.

use crate::chain::{PublicKey, SecretKey, XOnlyPublicKey};
use crate::primitives::{
    aggregate_nonces, aggregated_key, aggregated_nonce, are_public_keys, are_public_nonces,
    are_scalars, is_aggregated_nonce, is_public_key, is_public_nonce, is_scalar, public_key_of,
    public_key_valid, scalar_in_range, tweaked_aggregated_key, NoncePair, SigningSession,
};
use crate::protocol::error::ProtocolError;
use crate::protocol::musig2::{
    aggregate_partial_signatures, generate_new_nonce_pair, generate_partial_signature,
    get_aggregated_pubkey, in_order,
};
use vstd::prelude::*;

verus! {

/// Aggregates the public keys.
pub fn get_aggregated_pubkey_compat(pubkey1: &PublicKey, pubkey2: &PublicKey) -> (r: Result<
    XOnlyPublicKey,
    ProtocolError,
>)
    ensures
        r == match aggregated_key(in_order(*pubkey1, *pubkey2).0, in_order(*pubkey1, *pubkey2).1) {
            Some(key) => Ok::<XOnlyPublicKey, ProtocolError>(key),
            None => Err(ProtocolError::Secp),
        },
        r is Ok <==> is_public_key(*pubkey1) && is_public_key(*pubkey2),
{
    match get_aggregated_pubkey(pubkey1, pubkey2) {
        Some(key) => Ok(key),
        None => Err(ProtocolError::Secp),
    }
}

/// Generates a new nonce for signing with the secret key of `nonce_pubkey`.
pub fn generate_new_nonce_pair_compat(nonce_pubkey: &PublicKey) -> (r: Result<
    NoncePair,
    ProtocolError,
>)
    ensures
        match r {
            Ok(pair) => is_public_key(*nonce_pubkey) && pair.spec_key() == *nonce_pubkey
                && is_public_nonce(pair.spec_public()),
            Err(e) => !is_public_key(*nonce_pubkey) && e == ProtocolError::Secp,
        },
{
    match generate_new_nonce_pair(nonce_pubkey) {
        Some(pair) => Ok(pair),
        None => Err(ProtocolError::Secp),
    }
}

/// Get the sum of public nonces; nothing where one of them is none.
pub fn get_aggregated_nonce_compat(nonces: &Vec<[u8; 66]>) -> (r: Option<[u8; 66]>)
    requires
        nonces@.len() > 0,
    ensures
        r == aggregated_nonce(nonces@),
        r is Some <==> are_public_nonces(nonces@),
        r matches Some(sum) ==> is_aggregated_nonce(sum),
{
    aggregate_nonces(nonces)
}

/// What stops keys from signing together under a tweak.
pub open spec fn session_verdict(tap_tweak: [u8; 32], keys: Seq<PublicKey>) -> Result<
    (),
    ProtocolError,
> {
    if !is_scalar(tap_tweak) {
        Err(ProtocolError::ScalarOutOfRange)
    } else if !are_public_keys(keys) {
        Err(ProtocolError::Secp)
    } else if tweaked_aggregated_key(keys, tap_tweak) is None {
        Err(ProtocolError::MusigTweak)
    } else {
        Ok(())
    }
}

/// Checks the tweak and the keys of a session.
fn check_session(session: &SigningSession) -> (r: Result<(), ProtocolError>)
    ensures
        r == if !is_scalar(session.tap_tweak) {
            Err::<(), ProtocolError>(ProtocolError::ScalarOutOfRange)
        } else if !are_public_keys(session.keys@) {
            Err(ProtocolError::Secp)
        } else {
            Ok(())
        },
{
    if !scalar_in_range(&session.tap_tweak) {
        return Err(ProtocolError::ScalarOutOfRange);
    }
    let mut i: usize = 0;
    while i < session.keys.len()
        invariant
            i <= session.keys.len(),
            is_scalar(session.tap_tweak),
            forall|k: int| 0 <= k < i ==> is_public_key(#[trigger] session.keys@[k]),
        decreases session.keys.len() - i,
    {
        if !public_key_valid(&session.keys[i]) {
            assert(!is_public_key(session.keys@[i as int]));
            return Err(ProtocolError::Secp);
        }
        i += 1;
    }
    Ok(())
}

/// Generates one signer's part of a signature. The nonce is used up.
pub fn generate_partial_signature_compat(
    session: &SigningSession,
    nonce: NoncePair,
    secret: &SecretKey,
) -> (r: Result<[u8; 32], ProtocolError>)
    requires
        session.keys@.len() > 0,
        is_aggregated_nonce(session.nonce),
        public_key_of(*secret) == Some(nonce.spec_key()),
    ensures
        match (r, session_verdict(session.tap_tweak, session.keys@)) {
            (Ok(signature), Ok(_)) => {
                &&& session@.wf()
                &&& is_scalar(signature)
                &&& session@.is_signed(nonce.spec_key(), nonce.spec_public(), signature)
            },
            (Err(e), Err(expected)) => e == expected,
            _ => false,
        },
{
    match check_session(session) {
        Err(e) => Err(e),
        Ok(_) => generate_partial_signature(session, nonce, secret),
    }
}

/// Aggregates the parts of a signature.
pub fn aggregate_partial_signatures_compat(
    session: &SigningSession,
    partial_sigs: &Vec<[u8; 32]>,
) -> (r: Result<[u8; 64], ProtocolError>)
    requires
        session.keys@.len() > 0,
        is_aggregated_nonce(session.nonce),
        partial_sigs@.len() > 0,
        are_scalars(partial_sigs@),
    ensures
        r == match session_verdict(session.tap_tweak, session.keys@) {
            Err(e) => Err::<[u8; 64], ProtocolError>(e),
            Ok(_) => Ok(session@.signature(partial_sigs@)),
        },
{
    match check_session(session) {
        Err(e) => Err(e),
        Ok(_) => aggregate_partial_signatures(session, partial_sigs),
    }
}

} // verus!
