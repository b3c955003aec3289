//! A library that signs PDF files: it builds a simplified PKCS#7-style
//! `SignedData` byte container around a raw ECDSA signature, reserves a
//! fixed-capacity placeholder for it, and wires a signature dictionary,
//! widget annotation and AcroForm into the document's object graph.
use vstd::prelude::*;

pub mod cli;
pub mod crypto;
pub mod der;
pub mod embed;
pub mod model;
pub mod pdfdoc;
pub mod pkcs7;
pub mod sign;

verus! {

/// Everything that can go wrong while signing a document.
#[derive(Debug, Clone, Copy, PartialEq, Eq, Structural)]
pub enum SignError {
    /// The private key file does not hold exactly 32 bytes.
    KeyLength,
    /// The key bytes are not a valid P-256 scalar.
    InvalidKey,
    /// The signature container does not fit the placeholder capacity.
    TooLarge,
    /// The input bytes do not parse as a PDF object graph.
    PdfParse,
    /// The document has no catalog dictionary at the expected object.
    MissingCatalog,
    /// The document has no first-page dictionary at the expected object.
    MissingFirstPage,
    /// The document has no room left for new object ids.
    IdSpace,
}

} // verus!
