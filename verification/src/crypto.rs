//! Trusted boundary to the cryptographic primitives the consensus core
//! relies on: keccak-256 content hashing and secp256k1 recoverable
//! signatures. Each outside call stands behind a wrapper whose contract
//! speaks over uninterpreted names for the values the primitives compute;
//! everything that reasons about those values is verified against the
//! contracts here.
//!
//! Byte conventions: secret keys are 32 bytes, compressed public keys are
//! 33 bytes, recoverable signatures are 65 bytes (64 compact bytes followed
//! by the recovery id), digests are 32 bytes.

use vstd::prelude::*;

verus! {

/// The keccak-256 digest of a byte string (32 bytes).
pub uninterp spec fn keccak256_of(data: Seq<u8>) -> Seq<u8>;

/// The compressed public key derived from 32 secret-key bytes, or `None`
/// when the bytes are not a valid secp256k1 secret key.
pub uninterp spec fn pubkey_of(sk: Seq<u8>) -> Option<Seq<u8>>;

/// The RFC6979 recoverable signature over a 32-byte digest by a secret key.
pub uninterp spec fn signature_of(sk: Seq<u8>, digest: Seq<u8>) -> Seq<u8>;

/// The compressed public key recovered from a digest and a 65-byte
/// recoverable signature, or `None` when the signature does not parse or
/// no key can be recovered.
pub uninterp spec fn recovered_signer(digest: Seq<u8>, sig: Seq<u8>) -> Option<Seq<u8>>;

/// Relies on `ethers_core::utils::keccak256`: the 32-byte keccak-256 digest
/// is a function of the input bytes alone.
#[verifier::external_body]
pub(crate) fn keccak256(data: &Vec<u8>) -> (r: Vec<u8>)
    ensures
        r@ == keccak256_of(data@),
        r@.len() == 32,
{
    ethers_core::utils::keccak256(data.as_slice()).to_vec()
}

/// Relies on `secp256k1::SecretKey::from_secret_bytes` and
/// `secp256k1::PublicKey::from_secret_key`: the compressed public key is a
/// function of the secret-key bytes alone, and derivation succeeds exactly
/// when the bytes form a valid secret key.
#[verifier::external_body]
pub(crate) fn derive_pubkey(sk: &Vec<u8>) -> (r: Option<Vec<u8>>)
    ensures
        match r {
            Some(pk) => pubkey_of(sk@) == Some(pk@) && pk@.len() == 33,
            None => pubkey_of(sk@) is None,
        },
{
    let arr: [u8; 32] = sk.as_slice().try_into().ok()?;
    let secret = secp256k1::SecretKey::from_secret_bytes(arr).ok()?;
    Some(secp256k1::PublicKey::from_secret_key(&secret).serialize().to_vec())
}

/// Relies on `secp256k1::SecretKey::new`: a freshly sampled secret key is
/// 32 bytes and always valid (the sampler retries until the bytes parse).
/// The result depends on the process's entropy source, so nothing more is
/// stated of it.
#[verifier::external_body]
pub(crate) fn random_secret_key() -> (r: Vec<u8>)
    ensures
        r@.len() == 32,
        pubkey_of(r@) is Some,
{
    let sk = secp256k1::SecretKey::new(&mut secp256k1::rand::rng());
    sk.to_secret_bytes().to_vec()
}

/// Relies on `secp256k1::ecdsa::RecoverableSignature::sign_ecdsa_recoverable`:
/// signing uses an RFC6979 nonce, so the signature is a function of the
/// secret key and digest alone; it succeeds exactly when the secret-key
/// bytes are valid. The recovery id is chosen at signing so that
/// recovering the appended 65-byte form over the same digest yields
/// exactly the signing key's public key.
#[verifier::external_body]
pub(crate) fn sign_digest(sk: &Vec<u8>, digest: &Vec<u8>) -> (r: Option<Vec<u8>>)
    requires
        digest@.len() == 32,
    ensures
        match r {
            Some(sig) => pubkey_of(sk@) is Some && sig@ == signature_of(sk@, digest@)
                && sig@.len() == 65 && recovered_signer(digest@, sig@) == pubkey_of(sk@),
            None => pubkey_of(sk@) is None,
        },
{
    let skarr: [u8; 32] = sk.as_slice().try_into().ok()?;
    let secret = secp256k1::SecretKey::from_secret_bytes(skarr).ok()?;
    let msgarr: [u8; 32] = digest.as_slice().try_into().unwrap();
    let msg = secp256k1::Message::from_digest(msgarr);
    let sig = secp256k1::ecdsa::RecoverableSignature::sign_ecdsa_recoverable(msg, &secret);
    let (recid, data) = sig.serialize_compact();
    let mut out = data.to_vec();
    out.push(recid.to_u8());
    Some(out)
}

/// Relies on `secp256k1::ecdsa::RecoverableSignature::recover_ecdsa`: the
/// recovered compressed public key is a function of the digest and the
/// signature bytes alone; recovery fails exactly when the signature bytes
/// do not parse or determine no key.
#[verifier::external_body]
pub(crate) fn recover_signer(digest: &Vec<u8>, sig: &Vec<u8>) -> (r: Option<Vec<u8>>)
    requires
        digest@.len() == 32,
    ensures
        match r {
            Some(pk) => recovered_signer(digest@, sig@) == Some(pk@) && pk@.len() == 33,
            None => recovered_signer(digest@, sig@) is None,
        },
{
    if sig.len() != 65 {
        return None;
    }
    let recid = secp256k1::ecdsa::RecoveryId::try_from(sig[64] as i32).ok()?;
    let rsig = secp256k1::ecdsa::RecoverableSignature::from_compact(&sig[..64], recid).ok()?;
    let msgarr: [u8; 32] = digest.as_slice().try_into().unwrap();
    let pk = rsig.recover_ecdsa(secp256k1::Message::from_digest(msgarr)).ok()?;
    Some(pk.serialize().to_vec())
}

} // verus!
