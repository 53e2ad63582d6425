//! OCSP extension decoding (RFC 6960 section 4.4).
//!
//! An extension entry is a sequence whose first element carries the OID tag;
//! the OID alone selects the variant, never the structural shape.  The nonce
//! extension stores an opaque byte string; the CRL-reference extension holds
//! up to three optional explicitly tagged fields.  The remaining registered
//! extension kinds are recognized but their decoding is deliberately not
//! implemented; they yield a typed "unsupported" error that callers can tell
//! apart from a malformed message.

use vstd::prelude::*;
use vstd::slice::*;

use crate::der::{
    children_view, decode_tlv, sequence_children, spec_decode_tlv, spec_sequence, SpecChild,
    ASN1_EXPLICIT_0, ASN1_EXPLICIT_1, ASN1_EXPLICIT_2, ASN1_OID,
};
use crate::err::{DerError, Label, OcspError};
use crate::oid::{b2i_oid, spec_lookup_oid, ConstOid, ConstOidView, KnownOidId};

verus! {

/// One decoded OCSP extension.
#[derive(Debug)]
pub enum OcspExt {
    /// The anti-replay nonce (RFC 6960 section 4.4.1).
    Nonce {
        /// The resolved extension OID.
        oid: ConstOid,
        /// The nonce bytes.
        nonce: Vec<u8>,
    },
    /// A reference to the CRL that revoked a certificate (section 4.4.2).
    CrlRef {
        /// The resolved extension OID.
        oid: ConstOid,
        /// Explicitly tagged field [0]: the CRL's URL, if present.
        url: Option<Vec<u8>>,
        /// Explicitly tagged field [1]: the CRL number, if present.
        num: Option<Vec<u8>>,
        /// Explicitly tagged field [2]: the revocation time, if present.
        time: Option<Vec<u8>>,
    },
}

/// The model of one decoded OCSP extension.
pub ghost enum OcspExtView {
    Nonce { oid: ConstOidView, nonce: Seq<u8> },
    CrlRef {
        oid: ConstOidView,
        url: Option<Seq<u8>>,
        num: Option<Seq<u8>>,
        time: Option<Seq<u8>>,
    },
}

/// The model of an optional byte string.
pub open spec fn opt_bytes_view(o: Option<Vec<u8>>) -> Option<Seq<u8>> {
    match o {
        Some(v) => Some(v@),
        None => None,
    }
}

impl View for OcspExt {
    type V = OcspExtView;

    open spec fn view(&self) -> OcspExtView {
        match self {
            OcspExt::Nonce { oid, nonce } => OcspExtView::Nonce { oid: oid@, nonce: nonce@ },
            OcspExt::CrlRef { oid, url, num, time } => OcspExtView::CrlRef {
                oid: oid@,
                url: opt_bytes_view(*url),
                num: opt_bytes_view(*num),
                time: opt_bytes_view(*time),
            },
        }
    }
}

/// The models of a vector of extensions, in order.
pub open spec fn exts_view(v: Seq<OcspExt>) -> Seq<OcspExtView> {
    v.map_values(|e: OcspExt| e@)
}

/// Walk the CRL-reference fields from child `i` on.  Each child must carry
/// one of the explicit context tags [0], [1], [2]; its content is re-decoded
/// as a nested object (explicit tagging wraps one extra layer) whose content
/// bytes become `url`, `num` or `time` by tag number.  A later occurrence of
/// a tag replaces an earlier one; absent fields stay absent.
pub open spec fn spec_crlref_scan(
    ch: Seq<SpecChild>,
    i: int,
    url: Option<Seq<u8>>,
    num: Option<Seq<u8>>,
    time: Option<Seq<u8>>,
) -> Result<(Option<Seq<u8>>, Option<Seq<u8>>, Option<Seq<u8>>), OcspError>
    decreases ch.len() - i,
{
    if i >= ch.len() {
        Ok((url, num, time))
    } else {
        let c = ch[i];
        if c.tag == ASN1_EXPLICIT_0 {
            match spec_decode_tlv(c.value) {
                Err(e) => Err(OcspError::Asn1DecodingError(e)),
                Ok(t) => spec_crlref_scan(ch, i + 1, Some(t.value), num, time),
            }
        } else if c.tag == ASN1_EXPLICIT_1 {
            match spec_decode_tlv(c.value) {
                Err(e) => Err(OcspError::Asn1DecodingError(e)),
                Ok(t) => spec_crlref_scan(ch, i + 1, url, Some(t.value), time),
            }
        } else if c.tag == ASN1_EXPLICIT_2 {
            match spec_decode_tlv(c.value) {
                Err(e) => Err(OcspError::Asn1DecodingError(e)),
                Ok(t) => spec_crlref_scan(ch, i + 1, url, num, Some(t.value)),
            }
        } else {
            Err(OcspError::Asn1MismatchError(Label::ExtCrlRef))
        }
    }
}

/// Decode one extension entry from the bytes of its sequence.
pub open spec fn spec_parse_oneext(raw: Seq<u8>) -> Result<OcspExtView, OcspError> {
    match spec_sequence(raw) {
        Err(e) => Err(OcspError::Asn1DecodingError(e)),
        Ok(ch) => if ch.len() == 0 {
            Err(OcspError::Asn1DecodingError(DerError::OutOfRange))
        } else if ch[0].tag != ASN1_OID {
            Err(OcspError::Asn1MismatchError(Label::Oid))
        } else {
            match spec_lookup_oid(ch[0].value) {
                None => Err(OcspError::Asn1OidUnknown),
                Some(id) => {
                    let oid = ConstOidView { id, oid: ch[0].value };
                    match id {
                        KnownOidId::ExtNonce => if ch.len() < 2 {
                            Err(OcspError::Asn1DecodingError(DerError::OutOfRange))
                        } else {
                            match spec_decode_tlv(ch[1].value) {
                                Err(e) => Err(OcspError::Asn1DecodingError(e)),
                                Ok(t) => Ok(OcspExtView::Nonce { oid, nonce: t.value }),
                            }
                        },
                        KnownOidId::ExtCrlRef => match spec_crlref_scan(
                            ch,
                            1,
                            None,
                            None,
                            None,
                        ) {
                            Err(e) => Err(e),
                            Ok((url, num, time)) => Ok(
                                OcspExtView::CrlRef { oid, url, num, time },
                            ),
                        },
                        KnownOidId::Sha1 | KnownOidId::Sha256 => Err(OcspError::OcspExtUnknown),
                        _ => Err(OcspError::OcspUnsupported(Label::Extension)),
                    }
                },
            }
        },
    }
}

/// Decode the extension entries among the children of the extension-list
/// sequence, from child `i` on, appending to `acc`.  A failure on any entry
/// aborts the whole list.
pub open spec fn spec_extlist_scan(
    ch: Seq<SpecChild>,
    i: int,
    acc: Seq<OcspExtView>,
) -> Result<Seq<OcspExtView>, OcspError>
    decreases ch.len() - i,
{
    if i >= ch.len() {
        Ok(acc)
    } else {
        match spec_parse_oneext(ch[i].raw) {
            Err(e) => Err(e),
            Ok(x) => spec_extlist_scan(ch, i + 1, acc.push(x)),
        }
    }
}

/// Decode a whole extension list from the bytes of its sequence.
pub open spec fn spec_parse_exts(raw: Seq<u8>) -> Result<Seq<OcspExtView>, OcspError> {
    match spec_sequence(raw) {
        Err(e) => Err(OcspError::Asn1DecodingError(e)),
        Ok(ch) => spec_extlist_scan(ch, 0, Seq::empty()),
    }
}

/// Decode one extension entry.
#[verifier::loop_isolation(false)]
fn parse_oneext(oneext: &[u8]) -> (r: Result<OcspExt, OcspError>)
    ensures
        match r {
            Ok(x) => spec_parse_oneext(oneext@) == Ok::<OcspExtView, OcspError>(x@),
            Err(e) => spec_parse_oneext(oneext@) == Err::<OcspExtView, OcspError>(e),
        },
{
    let cs = match sequence_children(oneext) {
        Ok(c) => c,
        Err(e) => {
            return Err(OcspError::Asn1DecodingError(e));
        },
    };
    let ghost ch = children_view(cs@);
    if cs.len() == 0 {
        return Err(OcspError::Asn1DecodingError(DerError::OutOfRange));
    }
    if cs[0].tag != ASN1_OID {
        return Err(OcspError::Asn1MismatchError(Label::Oid));
    }
    let ext = match b2i_oid(cs[0].value.as_slice()) {
        None => {
            return Err(OcspError::Asn1OidUnknown);
        },
        Some(v) => v,
    };
    match ext.id {
        KnownOidId::ExtNonce => {
            if cs.len() < 2 {
                return Err(OcspError::Asn1DecodingError(DerError::OutOfRange));
            }
            let inner = match decode_tlv(cs[1].value.as_slice()) {
                Ok(t) => t,
                Err(e) => {
                    return Err(OcspError::Asn1DecodingError(e));
                },
            };
            Ok(OcspExt::Nonce { oid: ext, nonce: inner.value })
        },
        KnownOidId::ExtCrlRef => {
            let mut url: Option<Vec<u8>> = None;
            let mut num: Option<Vec<u8>> = None;
            let mut time: Option<Vec<u8>> = None;
            let mut i: usize = 1;
            while i < cs.len()
                invariant
                    1 <= i <= cs@.len(),
                    ch == children_view(cs@),
                    spec_crlref_scan(ch, 1, None, None, None) == spec_crlref_scan(
                        ch,
                        i as int,
                        opt_bytes_view(url),
                        opt_bytes_view(num),
                        opt_bytes_view(time),
                    ),
                decreases cs@.len() - i,
            {
                let tag = cs[i].tag;
                proof {
                    assert(ch[i as int] == cs@[i as int]@);
                }
                if tag != ASN1_EXPLICIT_0 && tag != ASN1_EXPLICIT_1 && tag != ASN1_EXPLICIT_2 {
                    return Err(OcspError::Asn1MismatchError(Label::ExtCrlRef));
                }
                let t = match decode_tlv(cs[i].value.as_slice()) {
                    Ok(t) => t,
                    Err(e) => {
                        return Err(OcspError::Asn1DecodingError(e));
                    },
                };
                if tag == ASN1_EXPLICIT_0 {
                    url = Some(t.value);
                } else if tag == ASN1_EXPLICIT_1 {
                    num = Some(t.value);
                } else {
                    time = Some(t.value);
                }
                i = i + 1;
            }
            Ok(OcspExt::CrlRef { oid: ext, url, num, time })
        },
        KnownOidId::Sha1 | KnownOidId::Sha256 => Err(OcspError::OcspExtUnknown),
        _ => Err(OcspError::OcspUnsupported(Label::Extension)),
    }
}

impl OcspExt {
    /// Decode an extension list: interpret `raw` as a sequence of extension
    /// entries and decode each entry independently, in order.  Any failure
    /// on a single entry aborts the whole call; there are no partial lists.
    #[verifier::loop_isolation(false)]
    pub fn parse(raw: &[u8]) -> (r: Result<Vec<OcspExt>, OcspError>)
        ensures
            match r {
                Ok(v) => spec_parse_exts(raw@) == Ok::<Seq<OcspExtView>, OcspError>(exts_view(v@)),
                Err(e) => spec_parse_exts(raw@) == Err::<Seq<OcspExtView>, OcspError>(e),
            },
    {
        let cs = match sequence_children(raw) {
            Ok(c) => c,
            Err(e) => {
                return Err(OcspError::Asn1DecodingError(e));
            },
        };
        let ghost ch = children_view(cs@);
        let mut out: Vec<OcspExt> = Vec::new();
        let mut i: usize = 0;
        proof {
            assert(exts_view(out@) =~= Seq::<OcspExtView>::empty());
        }
        while i < cs.len()
            invariant
                i <= cs@.len(),
                ch == children_view(cs@),
                spec_extlist_scan(ch, 0, Seq::empty()) == spec_extlist_scan(
                    ch,
                    i as int,
                    exts_view(out@),
                ),
            decreases cs@.len() - i,
        {
            proof {
                assert(ch[i as int] == cs@[i as int]@);
            }
            match parse_oneext(cs[i].raw.as_slice()) {
                Err(e) => {
                    return Err(e);
                },
                Ok(x) => {
                    let ghost old_exts = exts_view(out@);
                    let ghost xv = x@;
                    out.push(x);
                    proof {
                        assert(exts_view(out@) =~= old_exts.push(xv));
                    }
                },
            }
            i = i + 1;
        }
        Ok(out)
    }
}

} // verus!
