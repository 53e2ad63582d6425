//! The error taxonomy of the decoder.
//!
//! Every failure is terminal and propagates unchanged to the caller: the
//! decoder is a strict validator with no recovery and no partial results.
//! Each kind is programmatically distinguishable, and the kinds that concern
//! a particular field carry a [`Label`] naming that field.

use vstd::prelude::*;

verus! {

/// Failures of the DER primitive layer: a tag-length-value triple could not
/// be taken off the front of the input, or a sequence access went wrong.
#[derive(Debug, Clone, Copy, PartialEq, Eq, Structural)]
pub enum DerError {
    /// The input ends before the object's header or content does.
    Truncated,
    /// The length octets are not a valid DER length encoding.
    BadLength,
    /// A sequence was required but the object's tag is not SEQUENCE.
    NotSequence,
    /// An index into a sequence's children is out of range.
    OutOfRange,
}

/// Names the logical field that was being validated when an error arose.
#[derive(Debug, Clone, Copy, PartialEq, Eq, Structural)]
pub enum Label {
    /// The two-element OID sequence (OID + NULL parameter).
    Oid,
    /// The four-element certificate identifier.
    CertId,
    /// A single certificate status request.
    OneReq,
    /// The explicitly tagged version field of the to-be-signed request.
    TbsVersion,
    /// The explicitly tagged requestor name of the to-be-signed request.
    TbsRequestorName,
    /// The to-be-signed request body itself.
    TbsRequest,
    /// The optional signature block.
    Signature,
    /// The explicit tag that wraps the signature block.
    SignatureExp0,
    /// A CRL-reference extension entry.
    ExtCrlRef,
    /// An extension whose kind is recognized but whose decoding is not
    /// supported.
    Extension,
}

/// One typed decoding failure.
#[derive(Debug, Clone, Copy, PartialEq, Eq, Structural)]
pub enum OcspError {
    /// The primitive layer could not parse a tag/length/value triple, or a
    /// child index was out of range; carries the primitive failure.
    Asn1DecodingError(DerError),
    /// A sequence has a child count outside the fixed arity the labelled
    /// structure requires.
    Asn1LengthError(Label),
    /// A child's tag does not match the tag the grammar requires at its
    /// position within the labelled structure.
    Asn1MismatchError(Label),
    /// A field declared as text holds bytes that are not valid text.
    Asn1TextError(Label),
    /// An OID is syntactically valid but absent from the registry.
    Asn1OidUnknown,
    /// An OID resolves in the registry but does not correspond to any
    /// recognized OCSP extension branch.
    OcspExtUnknown,
    /// A recognized construct whose decoding is deliberately not implemented
    /// (certificate chains, the version field, rarely used extensions).
    OcspUnsupported(Label),
}

/// The model of a decoder's outcome: the success value replaced by its view,
/// the error carried through unchanged.  Every `parse` contract states that
/// this model of the returned value equals a spec-level parse of the input.
pub open spec fn res_view<T: View>(r: Result<T, OcspError>) -> Result<T::V, OcspError> {
    match r {
        Ok(v) => Ok(v@),
        Err(e) => Err(e),
    }
}

} // verus!
