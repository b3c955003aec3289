//! The raw signing primitive: ECDSA P-256 over a SHA-256 digest, consumed
//! as a black box that turns data and key bytes into DER signature bytes.
use vstd::prelude::*;

use crate::SignError;
use sha2::Digest;

verus! {

#[verifier::external_type_specification]
#[verifier::external_body]
pub struct ExEcdsaError(p256::ecdsa::Error);

/// Whether the key bytes encode a valid P-256 secret scalar (nonzero and
/// below the curve order); `SigningKey::from_slice` accepts exactly the
/// 32-byte strings with this property.
pub uninterp spec fn p256_key_valid(key: Seq<u8>) -> bool;

/// The DER-encoded deterministic ECDSA P-256 signature that the signing
/// pipeline produces for `data` and the 32 key bytes. The ephemeral
/// scalar comes from RFC 6979, so the result is a function of the two
/// arguments alone.
pub uninterp spec fn spec_ecdsa_der_sig(data: Seq<u8>, key: Seq<u8>) -> Seq<u8>;

/// Relies on p256::ecdsa::SigningKey::from_slice (on 32 bytes it errs
/// exactly on an invalid scalar; shorter slices it would zero-pad,
/// hence the requires), sha2::Sha256::digest, the RFC 6979
/// `Signer::try_sign` of the signing key (which hashes the message it
/// is handed (here the digest) once more, and signs for every valid
/// key), and Signature::to_der, whose encoding is built in a buffer of
/// twice the field size plus nine bytes: the result depends on data and
/// key alone.
#[verifier::external_body]
fn sign_raw(data: &[u8], private_key: &[u8]) -> (r: Result<Vec<u8>, p256::ecdsa::Error>)
    requires
        private_key@.len() == 32,
    ensures
        (r is Ok) == p256_key_valid(private_key@),
        r matches Result::Ok(s) ==> s@ == spec_ecdsa_der_sig(data@, private_key@) && s@.len() <= 73,
{
    let key = p256::ecdsa::SigningKey::from_slice(private_key)?;
    let hash = sha2::Sha256::digest(data);
    let sig: p256::ecdsa::Signature = p256::ecdsa::signature::Signer::try_sign(&key, hash.as_slice())?;
    Ok(sig.to_der().as_bytes().to_vec())
}

/// Signs `data` with the raw private key bytes: the SHA-256 digest of
/// the data is handed to p256's deterministic ECDSA signer, and the
/// signature comes back in DER form. A key of any length other than 32
/// bytes is refused before any signing is attempted; 32 bytes that are
/// no valid scalar are refused by the curve arithmetic; every valid key
/// signs.
pub fn sign(data: &[u8], private_key: &[u8]) -> (r: Result<Vec<u8>, SignError>)
    ensures
        r == Result::<Vec<u8>, SignError>::Err(SignError::KeyLength) <==> private_key@.len() != 32,
        r == Result::<Vec<u8>, SignError>::Err(SignError::InvalidKey) <==> private_key@.len() == 32 && !p256_key_valid(private_key@),
        (r is Ok) == (private_key@.len() == 32 && p256_key_valid(private_key@)),
        r matches Result::Ok(s) ==> s@ == spec_ecdsa_der_sig(data@, private_key@) && s@.len() <= 73,
{
    if private_key.len() != 32 {
        return Err(SignError::KeyLength);
    }
    match sign_raw(data, private_key) {
        Ok(s) => Ok(s),
        Err(_) => Err(SignError::InvalidKey),
    }
}

} // verus!
