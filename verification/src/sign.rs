//! The orchestrator: from the input bytes, the key bytes and the signer
//! metadata to the signed document bytes. It computes the raw signature
//! over the original, unmodified file bytes, builds and pads the
//! signature container, embeds it into the parsed object graph, and
//! serializes the result.
use vstd::prelude::*;

use crate::SignError;
use crate::crypto::p256_key_valid;
use crate::crypto::spec_ecdsa_der_sig;
use crate::embed::SIGNATURE_CAPACITY;
use crate::embed::SignerInfo;
use crate::embed::anchors_ok;
use crate::embed::embed_model;
use crate::embed::embed_signature;
use crate::embed::opt_view;
use crate::embed::signer_of;
use crate::model::Pv;
use crate::pdfdoc::doc_view;
use crate::pdfdoc::get_doc_max;
use crate::pdfdoc::load_document;
use crate::pdfdoc::parsed_doc_max;
use crate::pdfdoc::pdf_parses;
use crate::pdfdoc::save_document;
use crate::pdfdoc::saved_bytes;
use crate::pkcs7::allocate;
use crate::pkcs7::build_signed_data;
use crate::pkcs7::spec_pad;
use crate::pkcs7::spec_signed_data;
use vstd::string::StrSliceExecFns;

verus! {

/// The signer metadata written into the signature dictionary. The name
/// and reason always appear; the location and contact information only
/// when they are not empty.
pub struct SignatureMetadata {
    pub name: String,
    pub reason: String,
    pub location: String,
    pub contact_info: String,
}

/// A calendar timestamp, as the orchestrator receives it from its caller.
pub struct PdfDate {
    pub year: u16,
    pub month: u8,
    pub day: u8,
    pub hour: u8,
    pub minute: u8,
    pub second: u8,
}

impl PdfDate {
    /// The ranges under which the date formats into fixed-width digits.
    pub open spec fn wf(&self) -> bool {
        &&& self.year <= 9999
        &&& 1 <= self.month <= 12
        &&& 1 <= self.day <= 31
        &&& self.hour <= 23
        &&& self.minute <= 59
        &&& self.second <= 59
    }
}

/// Two decimal digit bytes of a number below one hundred.
pub open spec fn spec_dec2(n: int) -> Seq<u8> {
    seq![(0x30 + n / 10) as u8, (0x30 + n % 10) as u8]
}

/// The PDF date string `D:YYYYMMDDHHMMSS` of a timestamp.
pub open spec fn spec_pdf_date(d: PdfDate) -> Seq<u8> {
    seq![0x44u8, 0x3a] + spec_dec2(d.year as int / 100) + spec_dec2(d.year as int % 100)
        + spec_dec2(d.month as int) + spec_dec2(d.day as int) + spec_dec2(d.hour as int)
        + spec_dec2(d.minute as int) + spec_dec2(d.second as int)
}

fn push_dec2(v: &mut Vec<u8>, n: u8)
    requires
        n < 100,
    ensures
        final(v)@ == old(v)@ + spec_dec2(n as int),
{
    v.push(0x30 + n / 10);
    v.push(0x30 + n % 10);
    assert(v@ =~= old(v)@ + spec_dec2(n as int));
}

/// Formats a timestamp as the PDF date string `D:YYYYMMDDHHMMSS`.
pub fn format_pdf_date(d: &PdfDate) -> (r: Vec<u8>)
    requires
        d.wf(),
    ensures
        r@ == spec_pdf_date(*d),
{
    let mut v: Vec<u8> = Vec::new();
    v.push(0x44);
    v.push(0x3a);
    assert(v@ =~= seq![0x44u8, 0x3a]);
    push_dec2(&mut v, (d.year / 100) as u8);
    push_dec2(&mut v, (d.year % 100) as u8);
    push_dec2(&mut v, d.month);
    push_dec2(&mut v, d.day);
    push_dec2(&mut v, d.hour);
    push_dec2(&mut v, d.minute);
    push_dec2(&mut v, d.second);
    assert(v@ =~= spec_pdf_date(*d));
    v
}

/// The key bytes are a well-formed P-256 private key.
pub open spec fn key_ok(key: Seq<u8>) -> bool {
    key.len() == 32 && p256_key_valid(key)
}

/// The signature container for these inputs fits the placeholder.
pub open spec fn container_fits(pdf: Seq<u8>, key: Seq<u8>, cert: Option<Seq<u8>>) -> bool {
    spec_signed_data(spec_ecdsa_der_sig(pdf, key), cert).len() <= SIGNATURE_CAPACITY
}

/// The parsed document leaves room for the four new objects and for the
/// writer's own cross-reference allocation of two more numbers.
pub open spec fn id_room(pdf: Seq<u8>) -> bool {
    parsed_doc_max(pdf) + 6 <= u32::MAX
}

/// The zero-padded signature container these inputs produce.
pub open spec fn spec_padded_container(pdf: Seq<u8>, key: Seq<u8>, cert: Option<Seq<u8>>) -> Seq<u8> {
    spec_pad(spec_signed_data(spec_ecdsa_der_sig(pdf, key), cert), SIGNATURE_CAPACITY as nat)
}

/// The signer strings of the metadata, as the bytes written into the
/// document.
pub open spec fn metadata_signer(m: SignatureMetadata) -> SignerInfo {
    signer_of(
        vstd::utf8::encode_utf8(m.name@),
        vstd::utf8::encode_utf8(m.reason@),
        vstd::utf8::encode_utf8(m.location@),
        vstd::utf8::encode_utf8(m.contact_info@),
    )
}

/// The output bytes serialize a signed graph: some parse of the input
/// holding both anchors, extended exactly per `embed_model` with this
/// container, these signer strings and this timestamp. (The parse
/// itself is quantified: the loader does not promise one graph per
/// buffer, only one id ceiling.)
pub open spec fn output_is_signed_graph(out: Seq<u8>, pdf: Seq<u8>, key: Seq<u8>, cert: Option<Seq<u8>>, si: SignerInfo, ts: Seq<u8>) -> bool {
    exists|d: lopdf::Document, m0: Map<(int, int), Pv>|
        #![trigger saved_bytes(d), anchors_ok(m0)]
        out == saved_bytes(d)
        && anchors_ok(m0)
        && doc_view(d) == embed_model(m0, parsed_doc_max(pdf), spec_padded_container(pdf, key, cert), cert, si, ts, pdf.len() as int)
}

/// Signs a PDF: computes the raw ECDSA signature over the original
/// bytes, builds the signature container with the optional certificate,
/// pads it to the fixed capacity, embeds it into the object graph, and
/// returns the serialized output. A key of the wrong length is refused
/// before anything else is attempted, and a container larger than the
/// capacity is refused, never truncated. The clauses partition the
/// outcomes: each error up to parsing names exactly the inputs that
/// produce it; which anchor error, or success, comes back turns on the
/// parsed graph; and every success serializes the embedded graph.
pub fn sign_pdf(
    pdf_bytes: &Vec<u8>,
    private_key: &Vec<u8>,
    certificate: &Option<Vec<u8>>,
    metadata: &SignatureMetadata,
    date: &PdfDate,
) -> (r: Result<Vec<u8>, SignError>)
    requires
        date.wf(),
        pdf_bytes@.len() + SIGNATURE_CAPACITY <= i64::MAX,
    ensures
        r == Result::<Vec<u8>, SignError>::Err(SignError::KeyLength) <==> private_key@.len() != 32,
        r == Result::<Vec<u8>, SignError>::Err(SignError::InvalidKey) <==> private_key@.len() == 32 && !p256_key_valid(private_key@),
        r == Result::<Vec<u8>, SignError>::Err(SignError::TooLarge) <==> key_ok(private_key@) && !container_fits(pdf_bytes@, private_key@, opt_view(certificate)),
        r == Result::<Vec<u8>, SignError>::Err(SignError::PdfParse) <==> key_ok(private_key@) && container_fits(pdf_bytes@, private_key@, opt_view(certificate)) && !pdf_parses(pdf_bytes@),
        r == Result::<Vec<u8>, SignError>::Err(SignError::IdSpace) <==> key_ok(private_key@) && container_fits(pdf_bytes@, private_key@, opt_view(certificate)) && pdf_parses(pdf_bytes@) && !id_room(pdf_bytes@),
        (r is Ok || r == Result::<Vec<u8>, SignError>::Err(SignError::MissingCatalog) || r == Result::<Vec<u8>, SignError>::Err(SignError::MissingFirstPage)) <==> key_ok(private_key@) && container_fits(pdf_bytes@, private_key@, opt_view(certificate)) && pdf_parses(pdf_bytes@) && id_room(pdf_bytes@),
        r matches Result::Ok(out) ==> out@.len() > 0 && output_is_signed_graph(out@, pdf_bytes@, private_key@, opt_view(certificate), metadata_signer(*metadata), spec_pdf_date(*date)),
{
    let signature_bytes = match crate::crypto::sign(pdf_bytes.as_slice(), private_key.as_slice()) {
        Ok(s) => s,
        Err(e) => {
            return Err(e);
        },
    };
    let cert_ref: Option<&Vec<u8>> = match certificate {
        Option::Some(c) => Option::Some(c),
        Option::None => Option::None,
    };
    let pkcs7_bytes = build_signed_data(&signature_bytes, cert_ref);
    let padded = match allocate(&pkcs7_bytes, SIGNATURE_CAPACITY) {
        Ok(p) => p,
        Err(e) => {
            return Err(e);
        },
    };
    let mut doc = match load_document(pdf_bytes.as_slice()) {
        Ok(d) => d,
        Err(_) => {
            return Err(SignError::PdfParse);
        },
    };
    if get_doc_max(&doc) > u32::MAX - 6 {
        return Err(SignError::IdSpace);
    }
    let ghost m0 = doc_view(doc);
    let timestamp = format_pdf_date(date);
    let name_b = metadata.name.as_str().as_bytes_vec();
    let reason_b = metadata.reason.as_str().as_bytes_vec();
    let location_b = metadata.location.as_str().as_bytes_vec();
    let contact_b = metadata.contact_info.as_str().as_bytes_vec();
    match embed_signature(
        &mut doc,
        padded,
        certificate,
        name_b,
        reason_b,
        location_b,
        contact_b,
        timestamp,
        pdf_bytes.len(),
    ) {
        Ok(()) => {},
        Err(e) => {
            return Err(e);
        },
    }
    let ghost embedded = doc;
    match save_document(&mut doc) {
        Ok(out) => {
            proof {
                assert(out@ == saved_bytes(embedded));
                assert(anchors_ok(m0));
                assert(doc_view(embedded) == embed_model(m0, parsed_doc_max(pdf_bytes@), spec_padded_container(pdf_bytes@, private_key@, opt_view(certificate)), opt_view(certificate), metadata_signer(*metadata), spec_pdf_date(*date), pdf_bytes@.len() as int));
            }
            Ok(out)
        },
        Err(_) => vstd::pervasive::unreached(),
    }
}

} // verus!
