//! From a private key to the address of its account.

use vstd::prelude::*;
use vstd::slice::slice_subrange;
use crate::primitives::{Address, H160, H256};

verus! {

/// The number that a sequence of bytes writes, most significant byte first.
pub open spec fn be_value(bytes: Seq<u8>) -> nat
    decreases bytes.len(),
{
    if bytes.len() == 0 {
        0
    } else {
        be_value(bytes.drop_last()) * 256 + bytes.last() as nat
    }
}

/// The order of the group of the curve secp256k1.
pub open spec fn curve_order() -> nat {
    0xFFFFFFFF_FFFFFFFF_FFFFFFFF_FFFFFFFE_BAAEDCE6_AF48A03B_BFD25E8C_D0364141nat
}

/// Whether 32 bytes are a private key: a scalar that is not zero and is below
/// the order of the curve.
pub open spec fn valid_secret_key(secret: Seq<u8>) -> bool {
    secret.len() == 32 && 0 < be_value(secret) < curve_order()
}

/// The public key of a valid private key, as the 65 bytes of its uncompressed
/// form: a tag byte, then the two coordinates of the point.
pub uninterp spec fn secp256k1_public_key(secret: Seq<u8>) -> Seq<u8>;

/// The Keccak-256 hash of a sequence of bytes.
pub uninterp spec fn keccak256_hash(bytes: Seq<u8>) -> Seq<u8>;

/// The address that belongs to a private key: the last 20 bytes of the hash
/// of the two coordinates of its public key. A key that is not valid has
/// none.
pub open spec fn derived_address(secret: Seq<u8>) -> Option<Seq<u8>> {
    if valid_secret_key(secret) {
        Some(keccak256_hash(secp256k1_public_key(secret).subrange(1, 65)).subrange(12, 32))
    } else {
        None
    }
}

/// Bytes of zeros write the number zero.
pub proof fn lemma_be_value_of_zeros(bytes: Seq<u8>)
    requires
        forall|i: int| 0 <= i < bytes.len() ==> bytes[i] == 0,
    ensures
        be_value(bytes) == 0,
    decreases bytes.len(),
{
    if bytes.len() > 0 {
        lemma_be_value_of_zeros(bytes.drop_last());
    }
}

/// A key of zeros is no private key, and no address belongs to it.
pub proof fn lemma_zero_key_invalid(secret: Seq<u8>)
    requires
        forall|i: int| 0 <= i < secret.len() ==> secret[i] == 0,
    ensures
        !valid_secret_key(secret),
        derived_address(secret) is None,
{
    lemma_be_value_of_zeros(secret);
}

/// `secp256k1::PublicKey::from_secret_key`, between the parsing of the key by
/// `SecretKey::from_slice` and `PublicKey::serialize_uncompressed`.
///
/// Trusted: the key is accepted exactly when it is a scalar other than zero
/// and below the order of the curve, and what comes back for an accepted key
/// depends on the key alone.
#[verifier::external_body]
fn public_key_of(secret: &[u8; 32]) -> (res: Option<[u8; 65]>)
    ensures
        res is Some <==> valid_secret_key(secret@),
        res matches Some(key) ==> key@ == secp256k1_public_key(secret@),
{
    match secp256k1::SecretKey::from_slice(secret) {
        Ok(key) => Some(
            secp256k1::PublicKey::from_secret_key(secp256k1::SECP256K1, &key)
                .serialize_uncompressed(),
        ),
        Err(_) => None,
    }
}

/// `zksync_basic_types::web3::keccak256`.
///
/// Trusted: the 32 bytes that come back depend on the input alone.
pub assume_specification[ zksync_basic_types::web3::keccak256 ](bytes: &[u8]) -> (res: [u8; 32])
    ensures
        res@ == keccak256_hash(bytes@),
;

/// Derives the address of the account that a private key controls.
///
/// Fails exactly when the key is not a valid scalar of the curve.
pub fn address_from_private_key(private_key: &H256) -> (res: Option<Address>)
    ensures
        match res {
            Some(address) => derived_address(private_key@) == Some(address@),
            None => derived_address(private_key@) is None,
        },
{
    match public_key_of(private_key.as_bytes()) {
        None => None,
        Some(public_key) => {
            let hash = zksync_basic_types::web3::keccak256(
                slice_subrange(public_key.as_slice(), 1, 65),
            );
            let mut address = [0u8; 20];
            let mut i: usize = 0;
            while i < 20
                invariant
                    i <= 20,
                    forall|j: int| 0 <= j < i ==> address@[j] == hash@[12 + j],
                decreases 20 - i,
            {
                address[i] = hash[12 + i];
                i += 1;
            }
            assert(address@ =~= hash@.subrange(12, 32));
            Some(H160(address))
        },
    }
}

} // verus!
