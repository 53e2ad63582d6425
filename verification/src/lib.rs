//! Decoder for DER-encoded OCSP (RFC 6960) request messages.
//!
//! The crate turns a byte buffer holding one OCSP request into the typed
//! hierarchy `OcspRequest -> TBSRequest -> OneReq -> CertId`, together with the
//! optional `Signature` block and the request extensions.  Every decoder is
//! verified against a mathematical model of the grammar: for each `parse`
//! function, the result (success value and error alike) is proved equal to the
//! value of a spec-level parser applied to the input bytes.

pub mod der;
pub mod err;
pub mod ocsp;
pub mod oid;
pub mod request;
