//! Key aggregation and joint signatures for taproot contracts.

use crate::chain::{PublicKey, SecretKey, XOnlyPublicKey};
use crate::primitives::{
    add_signatures, aggregate_keys, aggregated_key, are_scalars, is_aggregated_nonce, is_public_key,
    is_public_nonce, is_scalar, new_nonce, public_key_of, sign_partially, tweak_aggregated_key,
    tweaked_aggregated_key, NoncePair, SigningSession,
};
use crate::protocol::error::ProtocolError;
use vstd::prelude::*;

verus! {

/// Whether one byte string comes before another of the same length: at the
/// first position where they differ, it has the smaller byte.
pub open spec fn comes_before(a: Seq<u8>, b: Seq<u8>) -> bool {
    exists|i: int|
        0 <= i < a.len() && i < b.len() && #[trigger] a[i] < b[i] && forall|j: int|
            0 <= j < i ==> a[j] == b[j]
}

/// Two keys in lexicographic order.
pub open spec fn in_order(first: PublicKey, second: PublicKey) -> (PublicKey, PublicKey) {
    if comes_before(second@, first@) {
        (second, first)
    } else {
        (first, second)
    }
}

/// Whether the key `a` comes before the key `b`.
pub fn key_before(a: &PublicKey, b: &PublicKey) -> (r: bool)
    ensures
        r == comes_before(a@, b@),
{
    let mut i: usize = 0;
    while i < 33
        invariant
            i <= 33,
            forall|j: int| 0 <= j < i ==> a@[j] == b@[j],
        decreases 33 - i,
    {
        if a[i] != b[i] {
            proof {
                if a@[i as int] < b@[i as int] {
                    assert(comes_before(a@, b@));
                } else {
                    assert forall|k: int|
                        0 <= k < a@.len() && k < b@.len() && #[trigger] a@[k] < b@[k] implies !(
                    forall|j: int| 0 <= j < k ==> a@[j] == b@[j]) by {
                        if k > i {
                            assert(a@[i as int] != b@[i as int]);
                        }
                    }
                }
            }
            return a[i] < b[i];
        }
        i += 1;
    }
    false
}

/// The aggregated public key of two public keys, which are put in
/// lexicographic order first; nothing where either is no public key.
pub fn get_aggregated_pubkey(pubkey1: &PublicKey, pubkey2: &PublicKey) -> (r: Option<
    XOnlyPublicKey,
>)
    ensures
        r == aggregated_key(in_order(*pubkey1, *pubkey2).0, in_order(*pubkey1, *pubkey2).1),
        r is Some <==> is_public_key(*pubkey1) && is_public_key(*pubkey2),
{
    if key_before(pubkey2, pubkey1) {
        aggregate_keys(pubkey2, pubkey1)
    } else {
        aggregate_keys(pubkey1, pubkey2)
    }
}

/// Generates a new nonce for signing with the secret key of `pubkey`; nothing
/// where that is no public key.
pub fn generate_new_nonce_pair(pubkey: &PublicKey) -> (r: Option<NoncePair>)
    ensures
        r is Some <==> is_public_key(*pubkey),
        r matches Some(pair) ==> pair.spec_key() == *pubkey && is_public_nonce(
            pair.spec_public(),
        ),
{
    new_nonce(pubkey)
}

/// Generates one signer's part of a signature. The nonce is used up.
pub fn generate_partial_signature(
    session: &SigningSession,
    nonce: NoncePair,
    secret: &SecretKey,
) -> (r: Result<[u8; 32], ProtocolError>)
    requires
        session.keys@.len() > 0,
        is_aggregated_nonce(session.nonce),
        public_key_of(*secret) == Some(nonce.spec_key()),
    ensures
        match r {
            Ok(signature) => {
                &&& session@.wf()
                &&& is_scalar(signature)
                &&& session@.is_signed(nonce.spec_key(), nonce.spec_public(), signature)
            },
            Err(e) => e == ProtocolError::MusigTweak && tweaked_aggregated_key(
                session.keys@,
                session.tap_tweak,
            ) is None,
        },
{
    match tweak_aggregated_key(&session.keys, &session.tap_tweak) {
        None => Err(ProtocolError::MusigTweak),
        Some(_) => Ok(sign_partially(session, nonce, secret)),
    }
}

/// Aggregates the parts of a signature.
pub fn aggregate_partial_signatures(session: &SigningSession, partial_sigs: &Vec<[u8; 32]>) -> (r:
    Result<[u8; 64], ProtocolError>)
    requires
        session.keys@.len() > 0,
        is_aggregated_nonce(session.nonce),
        partial_sigs@.len() > 0,
        are_scalars(partial_sigs@),
    ensures
        r == if session@.wf() {
            Ok::<[u8; 64], ProtocolError>(session@.signature(partial_sigs@))
        } else {
            Err(ProtocolError::MusigTweak)
        },
{
    match tweak_aggregated_key(&session.keys, &session.tap_tweak) {
        None => Err(ProtocolError::MusigTweak),
        Some(_) => Ok(add_signatures(session, partial_sigs)),
    }
}

/// Of two different byte strings of the same length, one comes before the
/// other, and only one.
proof fn lemma_one_comes_first(a: Seq<u8>, b: Seq<u8>, n: int)
    requires
        a.len() == b.len(),
        0 <= n <= a.len(),
        exists|i: int| 0 <= i < n && a[i] != b[i],
    ensures
        comes_before(a, b) != comes_before(b, a),
    decreases n,
{
    let last = n - 1;
    if exists|i: int| 0 <= i < last && a[i] != b[i] {
        lemma_one_comes_first(a, b, last);
    } else {
        assert(a[last] != b[last]);
        if a[last] < b[last] {
            assert(comes_before(a, b));
            assert forall|k: int|
                0 <= k < a.len() && k < b.len() && #[trigger] b[k] < a[k] implies !(forall|j: int|
                0 <= j < k ==> b[j] == a[j]) by {
                if k > last {
                    assert(b[last] != a[last]);
                }
            }
        } else {
            assert(b[last] < a[last]);
            assert(comes_before(b, a));
            assert forall|k: int|
                0 <= k < a.len() && k < b.len() && #[trigger] a[k] < b[k] implies !(forall|j: int|
                0 <= j < k ==> a[j] == b[j]) by {
                if k > last {
                    assert(a[last] != b[last]);
                }
            }
        }
    }
}

/// Both parties of a contract come to the same aggregated key, whichever of
/// the two keys each calls the first.
pub proof fn law_aggregation_is_symmetric(first: PublicKey, second: PublicKey)
    ensures
        in_order(first, second) == in_order(second, first),
        aggregated_key(in_order(first, second).0, in_order(first, second).1) == aggregated_key(
            in_order(second, first).0,
            in_order(second, first).1,
        ),
{
    if first@ =~= second@ {
        assert(first =~= second);
    } else {
        let i = choose|i: int| 0 <= i < 33 && first@[i] != second@[i];
        assert(first@[i] != second@[i]);
        lemma_one_comes_first(first@, second@, 33);
    }
}

/// The keys come out as they went in, or swapped, and never with the greater
/// one first: where the first differing byte of two keys is the smaller one in
/// `first`, `first` comes first.
pub proof fn law_keys_are_sorted(first: PublicKey, second: PublicKey, i: int)
    ensures
        in_order(first, second) == (first, second) || in_order(first, second) == (second, first),
        0 <= i < 33 && first[i] < second[i] && (forall|j: int| 0 <= j < i ==> first[j] == second[j])
            ==> in_order(first, second) == (first, second) && in_order(second, first) == (
            first,
            second,
        ),
        first[0] < second[0] ==> in_order(second, first).0 == first,
        first == second ==> in_order(first, second) == (first, first),
        in_order(in_order(first, second).0, in_order(first, second).1) == in_order(first, second),
{
    law_aggregation_is_symmetric(first, second);
    if 0 <= i < 33 && first[i] < second[i] && (forall|j: int|
        0 <= j < i ==> first[j] == second[j]) {
        assert(first@[i] < second@[i]);
        assert(forall|j: int| 0 <= j < i ==> first@[j] == first[j] && second@[j] == second[j]);
        assert(comes_before(first@, second@));
    }
    if first[0] < second[0] {
        assert(first@[0] < second@[0]);
        assert(comes_before(first@, second@));
    }
}

} // verus!
