//! The command surface: the two operations a caller can ask for. A thin
//! front end maps parsed command-line arguments onto these types.
use vstd::prelude::*;

verus! {

/// A parsed invocation.
pub struct Cli {
    pub command: Commands,
}

/// The operations: generate a key pair, or sign a PDF.
pub enum Commands {
    /// Generate an ECDSA P-256 key pair and write the two key files.
    GenerateKey,
    /// Sign a PDF with a private key and the given signer metadata.
    Sign {
        /// Path of the PDF to sign.
        input: String,
        /// Path the signed PDF is written to.
        output: String,
        /// Path of the private key file.
        key: String,
        /// Signer name.
        name: String,
        /// Reason for signing.
        reason: String,
        /// Signing location.
        location: String,
        /// Signer contact information.
        contact_info: String,
    },
}

} // verus!
