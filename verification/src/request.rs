//! OCSP request decoding: the typed hierarchy `OcspRequest -> TBSRequest ->
//! OneReq -> CertId`, the optional `Signature` block, and their decoders.
//!
//! Every decoder states one contract: the returned value — success and error
//! alike — equals what the corresponding spec-level parser denotes on the
//! input bytes.  All structure checking (arity, tags, explicit-tag
//! unwrapping, dispatch) is therefore pinned down, input by input.

use vstd::prelude::*;
use vstd::slice::*;

use crate::der::{
    be_value, children_view, decode_tlv, sequence_children, spec_decode_tlv, spec_sequence,
    SpecChild, SpecTlv, ASN1_EXPLICIT_0, ASN1_EXPLICIT_1, ASN1_EXPLICIT_2, ASN1_IA5STRING,
    ASN1_INTEGER, ASN1_NULL, ASN1_OCTET, ASN1_OID, ASN1_SEQUENCE,
};
use crate::err::{res_view, DerError, Label, OcspError};
use crate::ocsp::{exts_view, opt_bytes_view, spec_parse_exts, OcspExt, OcspExtView};

verus! {

/// An object identifier as OCSP's hash-algorithm context carries it: the raw
/// bytes between the OID header and the end of its content.  In that context
/// the OID is always followed by a NULL parameter, which is validated and
/// discarded.
#[derive(Debug)]
pub struct Oid {
    /// The raw OID bytes.
    pub id: Vec<u8>,
}

/// The model of an [`Oid`].
pub ghost struct OidView {
    pub id: Seq<u8>,
}

impl View for Oid {
    type V = OidView;

    open spec fn view(&self) -> OidView {
        OidView { id: self.id@ }
    }
}

/// RFC 6960 CertID: identifies the certificate a status request concerns.
#[derive(Debug)]
pub struct CertId {
    /// The hash algorithm used for the two hashes below.
    pub hash_algo: Oid,
    /// The hash of the issuer's distinguished name.
    pub issuer_name_hash: Vec<u8>,
    /// The hash of the issuer's public key.
    pub issuer_key_hash: Vec<u8>,
    /// The certificate serial number, kept as raw big-endian magnitude bytes.
    pub serial_num: Vec<u8>,
}

/// The model of a [`CertId`].
pub ghost struct CertIdView {
    pub hash_algo: OidView,
    pub issuer_name_hash: Seq<u8>,
    pub issuer_key_hash: Seq<u8>,
    pub serial_num: Seq<u8>,
}

impl View for CertId {
    type V = CertIdView;

    open spec fn view(&self) -> CertIdView {
        CertIdView {
            hash_algo: self.hash_algo@,
            issuer_name_hash: self.issuer_name_hash@,
            issuer_key_hash: self.issuer_key_hash@,
            serial_num: self.serial_num@,
        }
    }
}

/// RFC 6960 Request: one certificate status request with its optional
/// per-request extensions.
#[derive(Debug)]
pub struct OneReq {
    /// The identifier of the certificate under query.
    pub one_req: CertId,
    /// The per-request extensions, where present.
    pub one_req_ext: Option<Vec<OcspExt>>,
}

/// The model of a [`OneReq`].
pub ghost struct OneReqView {
    pub one_req: CertIdView,
    pub one_req_ext: Option<Seq<OcspExtView>>,
}

/// The model of an optional extension list.
pub open spec fn opt_exts_view(o: Option<Vec<OcspExt>>) -> Option<Seq<OcspExtView>> {
    match o {
        Some(v) => Some(exts_view(v@)),
        None => None,
    }
}

impl View for OneReq {
    type V = OneReqView;

    open spec fn view(&self) -> OneReqView {
        OneReqView { one_req: self.one_req@, one_req_ext: opt_exts_view(self.one_req_ext) }
    }
}

/// The models of a vector of single requests, in order.
pub open spec fn reqs_view(v: Seq<OneReq>) -> Seq<OneReqView> {
    v.map_values(|r: OneReq| r@)
}

/// RFC 6960 TBSRequest: the to-be-signed request body.  The version field
/// (explicit tag 0) is not produced by the encoder population this decoder
/// serves, and its decoding is not supported.
#[derive(Debug)]
pub struct TBSRequest {
    /// The optional requestor name (explicit tag 1, an IA5String).
    pub requestor_name: Option<Vec<u8>>,
    /// One or more single certificate status requests, in input order.
    pub request_list: Vec<OneReq>,
    /// The optional request-level extensions (explicit tag 2).
    pub request_ext: Option<Vec<OcspExt>>,
}

/// The model of a [`TBSRequest`].
pub ghost struct TBSRequestView {
    pub requestor_name: Option<Seq<u8>>,
    pub request_list: Seq<OneReqView>,
    pub request_ext: Option<Seq<OcspExtView>>,
}

impl View for TBSRequest {
    type V = TBSRequestView;

    open spec fn view(&self) -> TBSRequestView {
        TBSRequestView {
            requestor_name: opt_bytes_view(self.requestor_name),
            request_list: reqs_view(self.request_list@),
            request_ext: opt_exts_view(self.request_ext),
        }
    }
}

/// The optional signature over the to-be-signed body.  The certificate chain
/// variant is recognized but its decoding is not supported, so `certs` is
/// always absent.
#[derive(Debug)]
pub struct Signature {
    /// The signing algorithm's OID.
    pub signing_algo: Oid,
    /// The signature bytes, kept as the whole tag-length-value encoding so
    /// that the framing survives for downstream re-serialization.
    pub signature: Vec<u8>,
    /// The optional certificate chain; always absent.
    pub certs: Option<Vec<Vec<u8>>>,
}

/// The model of a [`Signature`].
pub ghost struct SignatureView {
    pub signing_algo: OidView,
    pub signature: Seq<u8>,
    pub certs: Option<Seq<Seq<u8>>>,
}

/// The model of an optional list of certificate byte strings.
pub open spec fn certs_view(o: Option<Vec<Vec<u8>>>) -> Option<Seq<Seq<u8>>> {
    match o {
        Some(v) => Some(v@.map_values(|c: Vec<u8>| c@)),
        None => None,
    }
}

impl View for Signature {
    type V = SignatureView;

    open spec fn view(&self) -> SignatureView {
        SignatureView {
            signing_algo: self.signing_algo@,
            signature: self.signature@,
            certs: certs_view(self.certs),
        }
    }
}

/// RFC 6960 OCSPRequest: the top-level message.
#[derive(Debug)]
pub struct OcspRequest {
    /// The to-be-signed request body.
    pub tbs_request: TBSRequest,
    /// The optional signature, wrapped in explicit tag 0 in the encoding.
    pub optional_signature: Option<Signature>,
}

/// The model of an [`OcspRequest`].
pub ghost struct OcspRequestView {
    pub tbs_request: TBSRequestView,
    pub optional_signature: Option<SignatureView>,
}

/// The model of an optional signature.
pub open spec fn opt_sig_view(o: Option<Signature>) -> Option<SignatureView> {
    match o {
        Some(s) => Some(s@),
        None => None,
    }
}

impl View for OcspRequest {
    type V = OcspRequestView;

    open spec fn view(&self) -> OcspRequestView {
        OcspRequestView {
            tbs_request: self.tbs_request@,
            optional_signature: opt_sig_view(self.optional_signature),
        }
    }
}

/// Decode an OID pair from the bytes of its sequence: exactly two children,
/// tagged OID and NULL; the OID's content bytes are the result and the NULL
/// parameter is discarded.
pub open spec fn spec_parse_oid(raw: Seq<u8>) -> Result<OidView, OcspError> {
    match spec_sequence(raw) {
        Err(e) => Err(OcspError::Asn1DecodingError(e)),
        Ok(ch) => if ch.len() != 2 {
            Err(OcspError::Asn1LengthError(Label::Oid))
        } else if ch[0].tag != ASN1_OID || ch[1].tag != ASN1_NULL {
            Err(OcspError::Asn1MismatchError(Label::Oid))
        } else {
            Ok(OidView { id: ch[0].value })
        },
    }
}

/// Decode a CertID from the bytes of its sequence: exactly four children
/// tagged SEQUENCE, OCTET STRING, OCTET STRING, INTEGER; the first recurses
/// into OID decoding, the rest are copied verbatim.
pub open spec fn spec_parse_certid(raw: Seq<u8>) -> Result<CertIdView, OcspError> {
    match spec_sequence(raw) {
        Err(e) => Err(OcspError::Asn1DecodingError(e)),
        Ok(ch) => if ch.len() != 4 {
            Err(OcspError::Asn1LengthError(Label::CertId))
        } else if ch[0].tag != ASN1_SEQUENCE || ch[1].tag != ASN1_OCTET || ch[2].tag != ASN1_OCTET
            || ch[3].tag != ASN1_INTEGER {
            Err(OcspError::Asn1MismatchError(Label::CertId))
        } else {
            match spec_parse_oid(ch[0].raw) {
                Err(e) => Err(e),
                Ok(oid) => Ok(
                    CertIdView {
                        hash_algo: oid,
                        issuer_name_hash: ch[1].value,
                        issuer_key_hash: ch[2].value,
                        serial_num: ch[3].value,
                    },
                ),
            }
        },
    }
}

/// Decode one single request from the bytes of its sequence: a CertID,
/// optionally followed by an extension list; one or two children, no more.
pub open spec fn spec_parse_onereq(raw: Seq<u8>) -> Result<OneReqView, OcspError> {
    match spec_sequence(raw) {
        Err(e) => Err(OcspError::Asn1DecodingError(e)),
        Ok(ch) => if ch.len() == 0 {
            Err(OcspError::Asn1DecodingError(DerError::OutOfRange))
        } else {
            match spec_parse_certid(ch[0].raw) {
                Err(e) => Err(e),
                Ok(cid) => if ch.len() == 1 {
                    Ok(OneReqView { one_req: cid, one_req_ext: None })
                } else if ch.len() == 2 {
                    match spec_parse_exts(ch[1].raw) {
                        Err(e) => Err(e),
                        Ok(exts) => Ok(OneReqView { one_req: cid, one_req_ext: Some(exts) }),
                    }
                } else {
                    Err(OcspError::Asn1LengthError(Label::OneReq))
                },
            }
        },
    }
}

/// Is every byte of `s` in the 7-bit range IA5String allows?
pub open spec fn is_ascii(s: Seq<u8>) -> bool {
    forall|k: int| 0 <= k < s.len() ==> s[k] < 0x80
}

/// Decode the single requests among the children of the request-list
/// sequence, from child `i` on, appending to `acc` in input order.
pub open spec fn spec_reqlist_scan(
    ch: Seq<SpecChild>,
    i: int,
    acc: Seq<OneReqView>,
) -> Result<Seq<OneReqView>, OcspError>
    decreases ch.len() - i,
{
    if i >= ch.len() {
        Ok(acc)
    } else {
        match spec_parse_onereq(ch[i].raw) {
            Err(e) => Err(e),
            Ok(r) => spec_reqlist_scan(ch, i + 1, acc.push(r)),
        }
    }
}

/// Walk the children of the to-be-signed sequence from child `i` on,
/// dispatching on each child's tag alone: explicit tag 1 holds the requestor
/// name (a nested IA5String), explicit tag 2 holds the request extensions
/// (its content bytes are the extension-list sequence itself, with no extra
/// unwrap), a plain SEQUENCE is the request list, and explicit tag 0 — the
/// version — is recognized but not supported.  A later occurrence of an
/// optional field replaces an earlier one.
pub open spec fn spec_tbs_scan(
    ch: Seq<SpecChild>,
    i: int,
    name: Option<Seq<u8>>,
    req: Seq<OneReqView>,
    ext: Option<Seq<OcspExtView>>,
) -> Result<TBSRequestView, OcspError>
    decreases ch.len() - i,
{
    if i >= ch.len() {
        Ok(TBSRequestView { requestor_name: name, request_list: req, request_ext: ext })
    } else {
        let c = ch[i];
        if c.tag == ASN1_EXPLICIT_0 {
            Err(OcspError::OcspUnsupported(Label::TbsVersion))
        } else if c.tag == ASN1_EXPLICIT_1 {
            match spec_decode_tlv(c.value) {
                Err(e) => Err(OcspError::Asn1DecodingError(e)),
                Ok(t) => if t.tag != ASN1_IA5STRING {
                    Err(OcspError::Asn1MismatchError(Label::TbsRequestorName))
                } else if !is_ascii(t.value) {
                    Err(OcspError::Asn1TextError(Label::TbsRequestorName))
                } else {
                    spec_tbs_scan(ch, i + 1, Some(t.value), req, ext)
                },
            }
        } else if c.tag == ASN1_EXPLICIT_2 {
            match spec_parse_exts(c.value) {
                Err(e) => Err(e),
                Ok(exts) => spec_tbs_scan(ch, i + 1, name, req, Some(exts)),
            }
        } else if c.tag == ASN1_SEQUENCE {
            match spec_sequence(c.raw) {
                Err(e) => Err(OcspError::Asn1DecodingError(e)),
                Ok(sub) => match spec_reqlist_scan(sub, 0, req) {
                    Err(e) => Err(e),
                    Ok(req2) => spec_tbs_scan(ch, i + 1, name, req2, ext),
                },
            }
        } else {
            Err(OcspError::Asn1MismatchError(Label::TbsRequest))
        }
    }
}

/// Decode a to-be-signed request body from the bytes of its sequence.
pub open spec fn spec_parse_tbs(raw: Seq<u8>) -> Result<TBSRequestView, OcspError> {
    match spec_sequence(raw) {
        Err(e) => Err(OcspError::Asn1DecodingError(e)),
        Ok(ch) => spec_tbs_scan(ch, 0, None, Seq::empty(), None),
    }
}

/// Decode a signature block from the bytes of its sequence: two children,
/// the first an OID pair, the second kept whole (its tag-length-value
/// framing included) as the signature bytes.  Three children — the
/// certificate chain variant — are recognized but not supported; any other
/// arity is a length error.
pub open spec fn spec_parse_signature(raw: Seq<u8>) -> Result<SignatureView, OcspError> {
    match spec_sequence(raw) {
        Err(e) => Err(OcspError::Asn1DecodingError(e)),
        Ok(ch) => if ch.len() == 2 {
            match spec_parse_oid(ch[0].raw) {
                Err(e) => Err(e),
                Ok(oid) => Ok(
                    SignatureView { signing_algo: oid, signature: ch[1].raw, certs: None },
                ),
            }
        } else if ch.len() == 3 {
            Err(OcspError::OcspUnsupported(Label::Signature))
        } else {
            Err(OcspError::Asn1LengthError(Label::Signature))
        },
    }
}

/// Decode a whole OCSP request.  One child means no signature; two children
/// mean the second carries explicit tag 0 whose unwrapped inner content is
/// the signature block, decoded before the body as the reference behaviour
/// orders it; any other child count silently yields no signature.  The first
/// child is then decoded as the to-be-signed body.
pub open spec fn spec_parse_ocsp_request(raw: Seq<u8>) -> Result<OcspRequestView, OcspError> {
    match spec_sequence(raw) {
        Err(e) => Err(OcspError::Asn1DecodingError(e)),
        Ok(ch) => {
            let sig_res = if ch.len() == 2 {
                if ch[1].tag != ASN1_EXPLICIT_0 {
                    Err(OcspError::Asn1MismatchError(Label::SignatureExp0))
                } else {
                    match spec_decode_tlv(ch[1].value) {
                        Err(e) => Err(OcspError::Asn1DecodingError(e)),
                        Ok(t) => match spec_parse_signature(t.value) {
                            Err(e) => Err(e),
                            Ok(s) => Ok(Some(s)),
                        },
                    }
                }
            } else {
                Ok(None)
            };
            match sig_res {
                Err(e) => Err(e),
                Ok(sig) => if ch.len() == 0 {
                    Err(OcspError::Asn1DecodingError(DerError::OutOfRange))
                } else {
                    match spec_parse_tbs(ch[0].raw) {
                        Err(e) => Err(e),
                        Ok(tbs) => Ok(
                            OcspRequestView { tbs_request: tbs, optional_signature: sig },
                        ),
                    }
                },
            }
        },
    }
}

/// Order preservation, stated over the request-list walk: when the walk from
/// child `i` succeeds, its result keeps the accumulator as a prefix and then
/// holds, position by position and in input order, exactly the decoded form
/// of each remaining child.
pub proof fn lemma_reqlist_scan_order(ch: Seq<SpecChild>, i: int, acc: Seq<OneReqView>)
    requires
        0 <= i <= ch.len(),
    ensures
        spec_reqlist_scan(ch, i, acc) matches Ok(l) ==> {
            &&& l.len() == acc.len() + ch.len() - i
            &&& forall|k: int| 0 <= k < acc.len() ==> l[k] == acc[k]
            &&& forall|k: int|
                i <= k < ch.len() ==> spec_parse_onereq(ch[k].raw) == Ok::<
                    OneReqView,
                    OcspError,
                >(l[acc.len() + k - i])
        },
    decreases ch.len() - i,
{
    if i < ch.len() {
        if let Ok(r) = spec_parse_onereq(ch[i].raw) {
            lemma_reqlist_scan_order(ch, i + 1, acc.push(r));
        }
    }
}

/// Order preservation of the request list: a successfully decoded list holds
/// one entry per child of the request-list sequence, in input order, each
/// entry being exactly the decoded form of the child at its position.
pub proof fn lemma_request_list_order(ch: Seq<SpecChild>)
    ensures
        spec_reqlist_scan(ch, 0, Seq::empty()) matches Ok(l) ==> {
            &&& l.len() == ch.len()
            &&& forall|k: int|
                0 <= k < ch.len() ==> spec_parse_onereq(ch[k].raw) == Ok::<
                    OneReqView,
                    OcspError,
                >(l[k])
        },
{
    lemma_reqlist_scan_order(ch, 0, Seq::empty());
}

/// The to-be-signed walk only ever appends to the request list: every entry
/// gathered before child `i` keeps its position and value in the final
/// list.  Together with [`lemma_request_list_order`] this pins the decoded
/// list to the traversal order of the input.
pub proof fn lemma_tbs_scan_preserves_prefix(
    ch: Seq<SpecChild>,
    i: int,
    name: Option<Seq<u8>>,
    req: Seq<OneReqView>,
    ext: Option<Seq<OcspExtView>>,
)
    requires
        0 <= i <= ch.len(),
    ensures
        spec_tbs_scan(ch, i, name, req, ext) matches Ok(t) ==> {
            &&& req.len() <= t.request_list.len()
            &&& forall|k: int| 0 <= k < req.len() ==> t.request_list[k] == req[k]
        },
    decreases ch.len() - i,
{
    if i < ch.len() {
        let c = ch[i];
        if c.tag == ASN1_EXPLICIT_1 {
            if let Ok(t) = spec_decode_tlv(c.value) {
                if t.tag == ASN1_IA5STRING && is_ascii(t.value) {
                    lemma_tbs_scan_preserves_prefix(ch, i + 1, Some(t.value), req, ext);
                }
            }
        } else if c.tag == ASN1_EXPLICIT_2 {
            if let Ok(exts) = spec_parse_exts(c.value) {
                lemma_tbs_scan_preserves_prefix(ch, i + 1, name, req, Some(exts));
            }
        } else if c.tag == ASN1_SEQUENCE {
            if let Ok(sub) = spec_sequence(c.raw) {
                if let Ok(req2) = spec_reqlist_scan(sub, 0, req) {
                    lemma_reqlist_scan_order(sub, 0, req);
                    lemma_tbs_scan_preserves_prefix(ch, i + 1, name, req2, ext);
                }
            }
        }
    }
}

/// Determinism: decoding the same bytes twice yields structurally equal
/// results, because every outcome of [`OcspRequest::parse`] is pinned to the
/// one value that [`spec_parse_ocsp_request`] denotes on the input.
pub proof fn lemma_parse_deterministic(
    bytes: Seq<u8>,
    r1: Result<OcspRequest, OcspError>,
    r2: Result<OcspRequest, OcspError>,
)
    requires
        res_view(r1) == spec_parse_ocsp_request(bytes),
        res_view(r2) == spec_parse_ocsp_request(bytes),
    ensures
        res_view(r1) == res_view(r2),
{
}

/// Truncation safety: take a byte string that decodes successfully and whose
/// outer object consumes the whole input (a well-formed request has no
/// trailing bytes), and cut off any non-zero number of trailing bytes.  The
/// truncated bytes always fail to decode, with a truncation error.
#[verifier::rlimit(30)]
pub proof fn lemma_truncated_request_fails(s: Seq<u8>, m: int)
    requires
        spec_parse_ocsp_request(s) is Ok,
        spec_decode_tlv(s) matches Ok(t) && t.size == s.len(),
        0 <= m < s.len(),
    ensures
        spec_parse_ocsp_request(s.take(m)) == Err::<OcspRequestView, OcspError>(
            OcspError::Asn1DecodingError(DerError::Truncated),
        ),
{
    let tr = s.take(m);
    if m >= 2 {
        assert(tr[0] == s[0]);
        assert(tr[1] == s[1]);
        let l0 = s[1];
        if l0 < 0x80 {
            assert(s.len() == 2 + l0);
            assert(tr.len() < 2 + l0);
        } else {
            let n = (l0 - 0x80) as int;
            assert(n <= 4);
            if tr.len() >= 2 + n {
                assert(tr.subrange(2, 2 + n) =~= s.subrange(2, 2 + n));
                assert(tr[2] == s[2]);
                let len = be_value(s.subrange(2, 2 + n)) as int;
                assert(s.len() == 2 + n + len);
                assert(tr.len() < 2 + n + len);
            }
        }
    }
    assert(spec_decode_tlv(tr) == Err::<SpecTlv, DerError>(DerError::Truncated));
}

/// Is every byte of `v` in the 7-bit range IA5String allows?
fn is_ascii_bytes(v: &[u8]) -> (r: bool)
    ensures
        r == is_ascii(v@),
{
    let mut i: usize = 0;
    while i < v.len()
        invariant
            i <= v@.len(),
            forall|k: int| 0 <= k < i ==> v@[k] < 0x80,
        decreases v@.len() - i,
    {
        if *slice_index_get(v, i) >= 0x80 {
            return false;
        }
        i = i + 1;
    }
    true
}

impl Oid {
    /// Decode an OID pair from the raw bytes of its sequence.
    pub fn parse(oid: &[u8]) -> (r: Result<Oid, OcspError>)
        ensures
            res_view(r) == spec_parse_oid(oid@),
    {
        let mut cs = match sequence_children(oid) {
            Ok(c) => c,
            Err(e) => {
                return Err(OcspError::Asn1DecodingError(e));
            },
        };
        let ghost ch = children_view(cs@);
        if cs.len() != 2 {
            return Err(OcspError::Asn1LengthError(Label::Oid));
        }
        if cs[0].tag != ASN1_OID || cs[1].tag != ASN1_NULL {
            proof {
                assert(ch[0] == cs@[0]@);
                assert(ch[1] == cs@[1]@);
            }
            return Err(OcspError::Asn1MismatchError(Label::Oid));
        }
        proof {
            assert(ch[0] == cs@[0]@);
            assert(ch[1] == cs@[1]@);
        }
        cs.pop();
        let id_child = cs.pop().unwrap();
        Ok(Oid { id: id_child.value })
    }
}

impl CertId {
    /// Decode a CertID from the raw bytes of its sequence.
    pub fn parse(certid: &[u8]) -> (r: Result<CertId, OcspError>)
        ensures
            res_view(r) == spec_parse_certid(certid@),
    {
        let mut cs = match sequence_children(certid) {
            Ok(c) => c,
            Err(e) => {
                return Err(OcspError::Asn1DecodingError(e));
            },
        };
        let ghost ch = children_view(cs@);
        if cs.len() != 4 {
            return Err(OcspError::Asn1LengthError(Label::CertId));
        }
        proof {
            assert(ch[0] == cs@[0]@);
            assert(ch[1] == cs@[1]@);
            assert(ch[2] == cs@[2]@);
            assert(ch[3] == cs@[3]@);
        }
        if cs[0].tag != ASN1_SEQUENCE || cs[1].tag != ASN1_OCTET || cs[2].tag != ASN1_OCTET
            || cs[3].tag != ASN1_INTEGER {
            return Err(OcspError::Asn1MismatchError(Label::CertId));
        }
        let hash_algo = match Oid::parse(cs[0].raw.as_slice()) {
            Ok(o) => o,
            Err(e) => {
                return Err(e);
            },
        };
        let sn = cs.pop().unwrap();
        let key = cs.pop().unwrap();
        let name = cs.pop().unwrap();
        Ok(
            CertId {
                hash_algo,
                issuer_name_hash: name.value,
                issuer_key_hash: key.value,
                serial_num: sn.value,
            },
        )
    }
}

impl OneReq {
    /// Decode one single request from the raw bytes of its sequence.
    pub fn parse(onereq: Vec<u8>) -> (r: Result<OneReq, OcspError>)
        ensures
            res_view(r) == spec_parse_onereq(onereq@),
    {
        let cs = match sequence_children(onereq.as_slice()) {
            Ok(c) => c,
            Err(e) => {
                return Err(OcspError::Asn1DecodingError(e));
            },
        };
        let ghost ch = children_view(cs@);
        if cs.len() == 0 {
            return Err(OcspError::Asn1DecodingError(DerError::OutOfRange));
        }
        proof {
            assert(ch[0] == cs@[0]@);
        }
        let certid = match CertId::parse(cs[0].raw.as_slice()) {
            Ok(c) => c,
            Err(e) => {
                return Err(e);
            },
        };
        if cs.len() == 1 {
            Ok(OneReq { one_req: certid, one_req_ext: None })
        } else if cs.len() == 2 {
            proof {
                assert(ch[1] == cs@[1]@);
            }
            let exts = match OcspExt::parse(cs[1].raw.as_slice()) {
                Ok(v) => v,
                Err(e) => {
                    return Err(e);
                },
            };
            Ok(OneReq { one_req: certid, one_req_ext: Some(exts) })
        } else {
            Err(OcspError::Asn1LengthError(Label::OneReq))
        }
    }
}

impl TBSRequest {
    /// Decode a to-be-signed request body from the raw bytes of its
    /// sequence, scanning every child and dispatching on its tag alone.
    #[verifier::loop_isolation(false)]
    pub fn parse(tbs: Vec<u8>) -> (r: Result<TBSRequest, OcspError>)
        ensures
            res_view(r) == spec_parse_tbs(tbs@),
    {
        let cs = match sequence_children(tbs.as_slice()) {
            Ok(c) => c,
            Err(e) => {
                return Err(OcspError::Asn1DecodingError(e));
            },
        };
        let ghost ch = children_view(cs@);
        let mut name: Option<Vec<u8>> = None;
        let mut req: Vec<OneReq> = Vec::new();
        let mut ext: Option<Vec<OcspExt>> = None;
        let mut i: usize = 0;
        proof {
            assert(reqs_view(req@) =~= Seq::<OneReqView>::empty());
        }
        while i < cs.len()
            invariant
                i <= cs@.len(),
                spec_tbs_scan(ch, 0, None, Seq::empty(), None) == spec_tbs_scan(
                    ch,
                    i as int,
                    opt_bytes_view(name),
                    reqs_view(req@),
                    opt_exts_view(ext),
                ),
            decreases cs@.len() - i,
        {
            proof {
                assert(ch[i as int] == cs@[i as int]@);
            }
            let tag = cs[i].tag;
            if tag == ASN1_EXPLICIT_0 {
                return Err(OcspError::OcspUnsupported(Label::TbsVersion));
            } else if tag == ASN1_EXPLICIT_1 {
                let t = match decode_tlv(cs[i].value.as_slice()) {
                    Ok(t) => t,
                    Err(e) => {
                        return Err(OcspError::Asn1DecodingError(e));
                    },
                };
                if t.tag != ASN1_IA5STRING {
                    return Err(OcspError::Asn1MismatchError(Label::TbsRequestorName));
                }
                if !is_ascii_bytes(t.value.as_slice()) {
                    return Err(OcspError::Asn1TextError(Label::TbsRequestorName));
                }
                name = Some(t.value);
            } else if tag == ASN1_EXPLICIT_2 {
                let exts = match OcspExt::parse(cs[i].value.as_slice()) {
                    Ok(v) => v,
                    Err(e) => {
                        return Err(e);
                    },
                };
                ext = Some(exts);
            } else if tag == ASN1_SEQUENCE {
                let sub = match sequence_children(cs[i].raw.as_slice()) {
                    Ok(s) => s,
                    Err(e) => {
                        return Err(OcspError::Asn1DecodingError(e));
                    },
                };
                let ghost subv = children_view(sub@);
                let ghost req_entry = reqs_view(req@);
                let mut j: usize = 0;
                while j < sub.len()
                    invariant
                        j <= sub@.len(),
                        spec_reqlist_scan(subv, 0, req_entry) == spec_reqlist_scan(
                            subv,
                            j as int,
                            reqs_view(req@),
                        ),
                    decreases sub@.len() - j,
                {
                    proof {
                        assert(subv[j as int] == sub@[j as int]@);
                    }
                    let onereq = match OneReq::parse(slice_to_vec(sub[j].raw.as_slice())) {
                        Ok(o) => o,
                        Err(e) => {
                            return Err(e);
                        },
                    };
                    let ghost old_reqs = reqs_view(req@);
                    let ghost ov = onereq@;
                    req.push(onereq);
                    proof {
                        assert(reqs_view(req@) =~= old_reqs.push(ov));
                    }
                    j = j + 1;
                }
            } else {
                return Err(OcspError::Asn1MismatchError(Label::TbsRequest));
            }
            i = i + 1;
        }
        Ok(TBSRequest { requestor_name: name, request_list: req, request_ext: ext })
    }
}

impl Signature {
    /// Decode a signature block from the raw bytes of its sequence.
    pub fn parse(sig: Vec<u8>) -> (r: Result<Signature, OcspError>)
        ensures
            res_view(r) == spec_parse_signature(sig@),
    {
        let mut cs = match sequence_children(sig.as_slice()) {
            Ok(c) => c,
            Err(e) => {
                return Err(OcspError::Asn1DecodingError(e));
            },
        };
        let ghost ch = children_view(cs@);
        if cs.len() == 2 {
            proof {
                assert(ch[0] == cs@[0]@);
                assert(ch[1] == cs@[1]@);
            }
            let signing_algo = match Oid::parse(cs[0].raw.as_slice()) {
                Ok(o) => o,
                Err(e) => {
                    return Err(e);
                },
            };
            let sig_child = cs.pop().unwrap();
            Ok(Signature { signing_algo, signature: sig_child.raw, certs: None })
        } else if cs.len() == 3 {
            Err(OcspError::OcspUnsupported(Label::Signature))
        } else {
            Err(OcspError::Asn1LengthError(Label::Signature))
        }
    }
}

impl OcspRequest {
    /// Decode a whole OCSP request from raw bytes.
    pub fn parse(ocsp_req: Vec<u8>) -> (r: Result<OcspRequest, OcspError>)
        ensures
            res_view(r) == spec_parse_ocsp_request(ocsp_req@),
    {
        let cs = match sequence_children(ocsp_req.as_slice()) {
            Ok(c) => c,
            Err(e) => {
                return Err(OcspError::Asn1DecodingError(e));
            },
        };
        let ghost ch = children_view(cs@);
        let mut sig: Option<Signature> = None;
        if cs.len() == 2 {
            proof {
                assert(ch[1] == cs@[1]@);
            }
            if cs[1].tag != ASN1_EXPLICIT_0 {
                return Err(OcspError::Asn1MismatchError(Label::SignatureExp0));
            }
            let t = match decode_tlv(cs[1].value.as_slice()) {
                Ok(t) => t,
                Err(e) => {
                    return Err(OcspError::Asn1DecodingError(e));
                },
            };
            let s = match Signature::parse(t.value) {
                Ok(s) => s,
                Err(e) => {
                    return Err(e);
                },
            };
            sig = Some(s);
        }
        if cs.len() == 0 {
            return Err(OcspError::Asn1DecodingError(DerError::OutOfRange));
        }
        proof {
            assert(ch[0] == cs@[0]@);
        }
        let tbs = match TBSRequest::parse(slice_to_vec(cs[0].raw.as_slice())) {
            Ok(t) => t,
            Err(e) => {
                return Err(e);
            },
        };
        Ok(OcspRequest { tbs_request: tbs, optional_signature: sig })
    }
}

} // verus!
