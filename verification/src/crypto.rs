//! The recover-and-compare signature primitive.
//!
//! An account lock is opened by a 65-byte recoverable secp256k1 signature
//! over a 32-byte message.  The signer's public key is recovered from the
//! message and signature, and its address — the last 20 bytes of the
//! Keccak-256 digest of the uncompressed key's coordinates — must equal
//! the address declared in the lock's script args.

use vstd::prelude::*;

verus! {

/// The Keccak-256 digest of a byte string.
pub uninterp spec fn keccak_of(data: Seq<u8>) -> Seq<u8>;

/// The public key that secp256k1 ECDSA recovery yields for a 32-byte
/// prehash and a 65-byte recoverable signature (64 bytes `r ‖ s`, then one
/// recovery-id byte), as an uncompressed SEC1 point; or nothing, where the
/// signature bytes are out of range or recovery fails.
pub uninterp spec fn recovered_pubkey_of(prehash: Seq<u8>, signature: Seq<u8>) -> Option<Seq<u8>>;

/// Relies on sha3's Keccak256: the 32-byte digest is a function of the
/// input bytes alone.
#[verifier::external_body]
pub(crate) fn keccak256(data: &[u8]) -> (digest: [u8; 32])
    ensures
        digest@ == keccak_of(data@),
        digest@.len() == 32,
{
    let output = <sha3::Keccak256 as sha3::Digest>::digest(data);
    let mut digest = [0u8; 32];
    digest.copy_from_slice(output.as_slice());
    digest
}

/// Relies on k256's `VerifyingKey::recover_from_prehash` (ECDSA public-key
/// recovery is a function of the prehash and signature bytes alone) and on
/// SEC1 section 2.3.3: the uncompressed encoding of a secp256k1 point is
/// 65 bytes.
#[verifier::external_body]
pub(crate) fn recover_signer_pubkey(message: &[u8; 32], signature: &[u8; 65]) -> (r: Option<
    Vec<u8>,
>)
    ensures
        recovered_pubkey_of(message@, signature@) == (match r {
            Some(pubkey) => Some(pubkey@),
            None => None::<Seq<u8>>,
        }),
        r matches Some(pubkey) ==> pubkey@.len() == 65,
{
    let sig = match k256::ecdsa::Signature::from_slice(&signature[..64]) {
        Ok(sig) => sig,
        Err(_) => return None,
    };
    let recovery_id = match k256::ecdsa::RecoveryId::from_byte(signature[64]) {
        Some(id) => id,
        None => return None,
    };
    let key = match k256::ecdsa::VerifyingKey::recover_from_prehash(message, &sig, recovery_id) {
        Ok(key) => key,
        Err(_) => return None,
    };
    Some(key.to_sec1_point(false).as_bytes().to_vec())
}

/// The address of an uncompressed public key: the last 20 bytes of the
/// Keccak-256 digest of the key's 64 coordinate bytes (the SEC1 tag byte
/// is not hashed).
pub open spec fn spec_address_of_pubkey(pubkey: Seq<u8>) -> Seq<u8> {
    keccak_of(pubkey.subrange(1, 65)).subrange(12, 32)
}

/// The address that a message and signature recover to, if recovery
/// succeeds.
pub open spec fn spec_recovered_address(prehash: Seq<u8>, signature: Seq<u8>) -> Option<Seq<u8>> {
    match recovered_pubkey_of(prehash, signature) {
        Some(pubkey) => Some(spec_address_of_pubkey(pubkey)),
        None => None,
    }
}

/// Derives the 20-byte address of an uncompressed SEC1 public key.
pub(crate) fn address_of_pubkey(pubkey: &Vec<u8>) -> (address: [u8; 20])
    requires
        pubkey@.len() == 65,
    ensures
        address@ == spec_address_of_pubkey(pubkey@),
{
    let coordinates = vstd::slice::slice_subrange(pubkey.as_slice(), 1, 65);
    let digest = keccak256(coordinates);
    let mut address = [0u8; 20];
    let mut i: usize = 0;
    while i < 20
        invariant
            0 <= i <= 20,
            digest@.len() == 32,
            forall|j: int| 0 <= j < i ==> address@[j] == digest@[12 + j],
        decreases 20 - i,
    {
        address[i] = digest[12 + i];
        i += 1;
    }
    proof {
        assert(address@ =~= digest@.subrange(12, 32));
    }
    address
}

} // verus!
