//! The PKCS#7-style `SignedData` container and the fixed-capacity
//! signature placeholder.
//!
//! The container is a deliberately simplified shape: a `SEQUENCE` holding a
//! version `INTEGER`, a digest-algorithm `SET`, the raw signature as an
//! `OCTET STRING`, and, when one is given, the certificate bytes appended
//! verbatim. The length prefixes all use the general DER length rule.
use vstd::prelude::*;

use crate::SignError;
use crate::der::spec_der_length;
use crate::der::encode_der_length;

verus! {

/// The fixed bytes `INTEGER 1` that open the container's content.
pub open spec fn spec_version_bytes() -> Seq<u8> {
    seq![0x02u8, 0x01, 0x01]
}

/// The fixed `SET` -> `SEQUENCE` -> `OID` chain declaring the SHA-1
/// digest algorithm. The declaration is not checked against the hash
/// that actually produced the raw signature; the mismatch is part of
/// the container's shape and is kept as it is.
pub open spec fn spec_digest_algorithms_bytes() -> Seq<u8> {
    seq![0x31u8, 0x0b, 0x30, 0x09, 0x06, 0x05, 0x2b, 0x0e, 0x03, 0x02, 0x1a]
}

/// The certificate bytes, or nothing.
pub open spec fn spec_opt_bytes(cert: Option<Seq<u8>>) -> Seq<u8> {
    match cert {
        Option::Some(c) => c,
        Option::None => Seq::empty(),
    }
}

/// Everything inside the outer `SEQUENCE`: version, digest algorithms,
/// the raw signature as an `OCTET STRING`, then the certificate bytes.
pub open spec fn spec_signed_content(sig: Seq<u8>, cert: Option<Seq<u8>>) -> Seq<u8> {
    spec_version_bytes() + spec_digest_algorithms_bytes() + seq![0x04u8]
        + spec_der_length(sig.len()) + sig + spec_opt_bytes(cert)
}

/// The whole container: `SEQUENCE` tag, content length, content.
pub open spec fn spec_signed_data(sig: Seq<u8>, cert: Option<Seq<u8>>) -> Seq<u8> {
    seq![0x30u8] + spec_der_length(spec_signed_content(sig, cert).len())
        + spec_signed_content(sig, cert)
}

/// The view of an optional certificate argument.
pub open spec fn spec_opt_vec_view(cert: Option<&Vec<u8>>) -> Option<Seq<u8>> {
    match cert {
        Option::Some(c) => Option::Some(c@),
        Option::None => Option::None,
    }
}

/// Assembles the `SignedData` container around a raw signature and an
/// optional certificate. The content is built first and the tag and
/// length are put in front of it once its size is known, so the length
/// prefix is exact for any content size.
pub fn build_signed_data(raw_signature: &Vec<u8>, certificate: Option<&Vec<u8>>) -> (r: Vec<u8>)
    ensures
        r@ == spec_signed_data(raw_signature@, spec_opt_vec_view(certificate)),
{
    let mut content: Vec<u8> = vec![
        0x02u8, 0x01, 0x01,
        0x31, 0x0b, 0x30, 0x09, 0x06, 0x05, 0x2b, 0x0e, 0x03, 0x02, 0x1a,
        0x04,
    ];
    assert(content@ =~= spec_version_bytes() + spec_digest_algorithms_bytes() + seq![0x04u8]);
    let mut sig_len_bytes = encode_der_length(raw_signature.len());
    content.append(&mut sig_len_bytes);
    let mut sig_copy = raw_signature.clone();
    content.append(&mut sig_copy);
    match certificate {
        Option::Some(c) => {
            let mut cert_copy = c.clone();
            content.append(&mut cert_copy);
        },
        Option::None => {},
    }
    assert(content@ =~= spec_signed_content(raw_signature@, spec_opt_vec_view(certificate)));
    let mut r: Vec<u8> = vec![0x30u8];
    let mut len_bytes = encode_der_length(content.len());
    r.append(&mut len_bytes);
    r.append(&mut content);
    assert(r@ =~= spec_signed_data(raw_signature@, spec_opt_vec_view(certificate)));
    r
}

/// `content` right-padded with zero bytes to exactly `capacity` bytes.
pub open spec fn spec_pad(content: Seq<u8>, capacity: nat) -> Seq<u8> {
    content + Seq::new((capacity - content.len()) as nat, |i: int| 0u8)
}

/// Reserves the signature placeholder: the content right-padded with
/// zeros to exactly `capacity` bytes. Content larger than the capacity
/// is refused, never truncated.
pub fn allocate(content: &Vec<u8>, capacity: usize) -> (r: Result<Vec<u8>, SignError>)
    ensures
        content@.len() <= capacity ==> (r matches Result::Ok(p) && p@ == spec_pad(content@, capacity as nat)),
        content@.len() > capacity ==> r == Result::<Vec<u8>, SignError>::Err(SignError::TooLarge),
{
    if content.len() > capacity {
        return Err(SignError::TooLarge);
    }
    let mut padded = content.clone();
    while padded.len() < capacity
        invariant
            content@.len() <= padded@.len() <= capacity,
            padded@ =~= spec_pad(content@, padded@.len() as nat),
        decreases capacity - padded@.len(),
    {
        padded.push(0u8);
        assert(padded@ =~= spec_pad(content@, padded@.len() as nat));
    }
    Ok(padded)
}

/// The container starts with the `SEQUENCE` tag; when the content is
/// short enough for a one-byte length, the declared length byte equals
/// the count of the bytes that follow it, and the raw signature stands
/// unmodified at a fixed offset.
pub proof fn lemma_signed_data_shape(sig: Seq<u8>, cert: Option<Seq<u8>>)
    ensures
        spec_signed_data(sig, cert)[0] == 0x30,
        spec_signed_content(sig, cert).len() < 128 ==> spec_signed_data(sig, cert)[1] == spec_signed_content(sig, cert).len(),
        spec_signed_content(sig, cert).len() < 128 ==> spec_signed_data(sig, cert).len() == 2 + spec_signed_content(sig, cert).len(),
        spec_signed_content(sig, cert).len() < 128 && sig.len() < 128 ==> spec_signed_data(sig, cert).subrange(18, 18 + sig.len() as int) =~= sig,
{
    let content = spec_signed_content(sig, cert);
    let r = spec_signed_data(sig, cert);
    if content.len() < 128 {
        assert(spec_der_length(content.len()) =~= seq![content.len() as u8]);
        if sig.len() < 128 {
            assert(spec_der_length(sig.len()) =~= seq![sig.len() as u8]);
            assert forall|i: int| 0 <= i < sig.len() implies r.subrange(18, 18 + sig.len() as int)[i] == sig[i] by {
                assert(r[18 + i] == content[16 + i]);
                assert(content[16 + i] == sig[i]);
            }
        }
    }
}

/// The certificate bytes appended into the container come back out
/// byte-identical: they are the last bytes of the container, inside the
/// padded placeholder too, and when the content takes a one-byte length
/// the container's end can be found again from its declared length.
pub proof fn lemma_cert_round_trip(sig: Seq<u8>, c: Seq<u8>, capacity: nat)
    requires
        spec_signed_data(sig, Option::Some(c)).len() <= capacity,
    ensures
        ({
            let r = spec_signed_data(sig, Option::Some(c));
            let padded = spec_pad(r, capacity);
            &&& r.subrange(r.len() - c.len(), r.len() as int) == c
            &&& padded.subrange(r.len() - c.len(), r.len() as int) == c
            &&& spec_signed_content(sig, Option::Some(c)).len() < 128 ==> r.len() == 2 + padded[1]
        }),
{
    let r = spec_signed_data(sig, Option::Some(c));
    let padded = spec_pad(r, capacity);
    assert(r.subrange(r.len() - c.len(), r.len() as int) =~= c);
    assert(padded.subrange(r.len() - c.len(), r.len() as int) =~= c);
    if spec_signed_content(sig, Option::Some(c)).len() < 128 {
        let content = spec_signed_content(sig, Option::Some(c));
        assert(spec_der_length(content.len()) =~= seq![content.len() as u8]);
        assert(padded[1] == r[1]);
    }
}

} // verus!
