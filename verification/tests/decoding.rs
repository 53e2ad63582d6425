//! End-to-end tests of the OCSP request decoder on concrete byte strings.

use ocsp_rs::der::{decode_tlv, sequence_children};
use ocsp_rs::err::{DerError, Label, OcspError};
use ocsp_rs::ocsp::OcspExt;
use ocsp_rs::oid::{b2i_oid, KnownOidId};
use ocsp_rs::request::{CertId, OcspRequest, OneReq, Oid, Signature, TBSRequest};

/// Decode a hex string (whitespace ignored) into bytes.
fn h(s: &str) -> Vec<u8> {
    let digits: Vec<u8> = s.bytes().filter(|b| !b.is_ascii_whitespace()).collect();
    assert!(digits.len() % 2 == 0);
    fn d(c: u8) -> u8 {
        match c {
            b'0'..=b'9' => c - b'0',
            b'a'..=b'f' => c - b'a' + 10,
            b'A'..=b'F' => c - b'A' + 10,
            _ => panic!("not a hex digit"),
        }
    }
    digits.chunks(2).map(|p| d(p[0]) * 16 + d(p[1])).collect()
}

/// A complete OCSP request produced by OpenSSL: one certificate status
/// request, no signature, one nonce extension at the request level.
const OCSP_REQ_HEX: &str = "306e306c304530433041300906052b0e\
03021a05000414694d18a9be42f78026\
14d4844f23601478b788200414397be0\
02a2f571fd80dceb52a17a7f8b632be7\
5502086378e51d448ff46da223302130\
1f06092b060105050730010204120410\
1cfc8fa3f5e15ed760707bc46670559b";

const CERTID_HEX: &str = "3041300906052b0e\
03021a05000414694d18a9be42f78026\
14d4844f23601478b788200414397be0\
02a2f571fd80dceb52a17a7f8b632be7\
5502086378e51d448ff46d";

fn same_ext(a: &OcspExt, b: &OcspExt) -> bool {
    match (a, b) {
        (
            OcspExt::Nonce { oid: oa, nonce: na },
            OcspExt::Nonce { oid: ob, nonce: nb },
        ) => oa.id == ob.id && oa.oid == ob.oid && na == nb,
        (
            OcspExt::CrlRef { oid: oa, url: ua, num: ma, time: ta },
            OcspExt::CrlRef { oid: ob, url: ub, num: mb, time: tb },
        ) => oa.id == ob.id && oa.oid == ob.oid && ua == ub && ma == mb && ta == tb,
        _ => false,
    }
}

fn same_exts(a: &Option<Vec<OcspExt>>, b: &Option<Vec<OcspExt>>) -> bool {
    match (a, b) {
        (None, None) => true,
        (Some(x), Some(y)) => {
            x.len() == y.len() && x.iter().zip(y.iter()).all(|(p, q)| same_ext(p, q))
        }
        _ => false,
    }
}

fn same_certid(a: &CertId, b: &CertId) -> bool {
    a.hash_algo.id == b.hash_algo.id
        && a.issuer_name_hash == b.issuer_name_hash
        && a.issuer_key_hash == b.issuer_key_hash
        && a.serial_num == b.serial_num
}

fn same_request(a: &OcspRequest, b: &OcspRequest) -> bool {
    let ta = &a.tbs_request;
    let tb = &b.tbs_request;
    let lists = ta.request_list.len() == tb.request_list.len()
        && ta.request_list.iter().zip(tb.request_list.iter()).all(|(p, q)| {
            same_certid(&p.one_req, &q.one_req) && same_exts(&p.one_req_ext, &q.one_req_ext)
        });
    let sigs = match (&a.optional_signature, &b.optional_signature) {
        (None, None) => true,
        (Some(x), Some(y)) => {
            x.signing_algo.id == y.signing_algo.id && x.signature == y.signature
                && x.certs == y.certs
        }
        _ => false,
    };
    ta.requestor_name == tb.requestor_name && lists && same_exts(&ta.request_ext, &tb.request_ext)
        && sigs
}

/// Test data produces an OCSP request generated by OpenSSL.
#[test]
fn ocsp_req_from_der() {
    let ocsp_req_bin = h(OCSP_REQ_HEX);
    let asn1 = decode_tlv(&ocsp_req_bin[..]).unwrap();
    assert_eq!(asn1.tag, 0x30);
    let seq = sequence_children(&ocsp_req_bin[..]).unwrap();
    let first_item = &seq[0];
    let seq = sequence_children(&first_item.raw[..]).unwrap();
    let _second_item = &seq[1];
}

#[test]
fn ocsprequest_parse_from_v8() {
    let ocsp_req_v8 = h(OCSP_REQ_HEX);
    let ocsp_request = OcspRequest::parse(ocsp_req_v8);
    assert!(ocsp_request.is_ok());
}

// Confirms a context-specific tag cannot be treated as a sequence.
#[test]
#[should_panic]
fn context_specific_sequence() {
    let ocsp_req = h(OCSP_REQ_HEX);
    let der = decode_tlv(&ocsp_req[..]).unwrap();
    let tbs = decode_tlv(&der.value[..]).unwrap();
    let _reqlist = decode_tlv(&tbs.value[..]).unwrap();

    let ocspseq = sequence_children(&der.value[..]).unwrap();
    let t = &ocspseq[1].raw;
    let _ = sequence_children(&t[..]).unwrap();
}

// A tbs request with a nonce extension.
#[test]
fn parse_tbs_nonce_ext() {
    let tbs_hex = "306c304530433041300906052b0e\
03021a05000414694d18a9be42f78026\
14d4844f23601478b788200414397be0\
02a2f571fd80dceb52a17a7f8b632be7\
5502086378e51d448ff46da223302130\
1f06092b060105050730010204120410\
1cfc8fa3f5e15ed760707bc46670559b";
    let tbs_v8 = h(tbs_hex);
    let _ = TBSRequest::parse(tbs_v8).unwrap();
}

// A single request with no extension.
#[test]
fn parse_onereq_no_ext() {
    let onereq_hex = "30433041300906052b0e\
03021a05000414694d18a9be42f78026\
14d4844f23601478b788200414397be0\
02a2f571fd80dceb52a17a7f8b632be7\
5502086378e51d448ff46d";
    let onereq_v8 = h(onereq_hex);
    let _ = OneReq::parse(onereq_v8).unwrap();
}

/// A certificate identifier from raw hex.
#[test]
fn parse_certid_v8() {
    let certid_v8 = h(CERTID_HEX);
    let _ = CertId::parse(&certid_v8[..]).unwrap();
}

// Data after the NULL tag in a sequence is dropped.
#[test]
fn parse_oid_null_drops() {
    let oid_v8 = h("300906052b0e03021a0500040107");
    let _ = Oid::parse(&oid_v8[..]).unwrap();
}

// The OID content bytes come back verbatim.
#[test]
fn parse_oid_v8() {
    let oid_v8 = h("300906052b0e03021a0500");
    let oid = Oid::parse(&oid_v8).unwrap();
    assert_eq!(oid.id, vec![0x2b, 0x0e, 0x03, 0x02, 0x1a]);
}

// The sequence announces more content than the input holds.
#[test]
#[should_panic]
fn parse_oid_sequence_into_err() {
    let oid_v8 = h("300906052b0e03021a");
    let _ = Oid::parse(&oid_v8[..]).unwrap();
}

// Incorrect sequence length.
#[test]
#[should_panic]
fn parse_oid_length_err() {
    let oid_v8 = h(CERTID_HEX);
    let _ = Oid::parse(&oid_v8[..]).unwrap();
}

// Mismatched sequence.
#[test]
#[should_panic]
fn parse_oid_mismatch_err() {
    let oid_v8 = h("300a06052b0e03021a0201ff");
    let _ = Oid::parse(&oid_v8[..]).unwrap();
}

// The minimal request: no signature, one request entry, a nonce extension.
#[test]
fn minimal_request_fields() {
    let req = OcspRequest::parse(h(OCSP_REQ_HEX)).unwrap();
    assert!(req.optional_signature.is_none());
    let tbs = &req.tbs_request;
    assert!(tbs.requestor_name.is_none());
    assert_eq!(tbs.request_list.len(), 1);
    let one = &tbs.request_list[0];
    assert_eq!(one.one_req.hash_algo.id, h("2b0e03021a"));
    assert_eq!(one.one_req.issuer_name_hash, h("694d18a9be42f7802614d4844f23601478b78820"));
    assert_eq!(one.one_req.issuer_key_hash, h("397be002a2f571fd80dceb52a17a7f8b632be755"));
    assert_eq!(one.one_req.serial_num, h("6378e51d448ff46d"));
    assert!(one.one_req_ext.is_none());
    let exts = tbs.request_ext.as_ref().unwrap();
    assert_eq!(exts.len(), 1);
    match &exts[0] {
        OcspExt::Nonce { oid, nonce } => {
            assert_eq!(oid.id, KnownOidId::ExtNonce);
            assert_eq!(*nonce, h("1cfc8fa3f5e15ed760707bc46670559b"));
        }
        _ => panic!("expected a nonce extension"),
    }
}

// Decoding fixed bytes twice yields structurally equal trees; the literal
// vector doubles as the hand-built re-encoding of the first tree.
#[test]
fn decode_twice_same_tree() {
    let first = OcspRequest::parse(h(OCSP_REQ_HEX)).unwrap();
    let again = OcspRequest::parse(h(OCSP_REQ_HEX)).unwrap();
    assert!(same_request(&first, &again));
}

// Cutting any non-zero number of trailing bytes off a well-formed request
// always fails with a truncation error.
#[test]
fn truncation_always_fails() {
    let full = h(OCSP_REQ_HEX);
    for keep in 0..full.len() {
        let cut = full[..keep].to_vec();
        let r = OcspRequest::parse(cut);
        assert_eq!(r.unwrap_err(), OcspError::Asn1DecodingError(DerError::Truncated));
    }
}

// A CertID sequence with three children instead of four.
#[test]
fn certid_three_children_length_err() {
    let certid = h("3037300906052b0e03021a0500\
0414694d18a9be42f7802614d4844f23601478b78820\
0414397be002a2f571fd80dceb52a17a7f8b632be755");
    let r = CertId::parse(&certid[..]);
    assert_eq!(r.unwrap_err(), OcspError::Asn1LengthError(Label::CertId));
}

// An extension entry whose first element does not carry the OID tag.
#[test]
fn extension_first_element_not_oid() {
    let list = h("300a30080402abcd0402eeff");
    let r = OcspExt::parse(&list[..]);
    assert_eq!(r.unwrap_err(), OcspError::Asn1MismatchError(Label::Oid));
}

// A CRL-reference extension carrying only the time field (explicit tag 2).
#[test]
fn crlref_time_only() {
    // GeneralizedTime "20200101120000Z"
    let time = b"20200101120000Z".to_vec();
    let mut inner = vec![0x18, 0x0f];
    inner.extend_from_slice(&time);
    let mut field = vec![0xa2, inner.len() as u8];
    field.extend_from_slice(&inner);
    let mut entry = h("06092b0601050507300103");
    entry.extend_from_slice(&field);
    let mut entry_tlv = vec![0x30, entry.len() as u8];
    entry_tlv.extend_from_slice(&entry);
    let mut list = vec![0x30, entry_tlv.len() as u8];
    list.extend_from_slice(&entry_tlv);
    let exts = OcspExt::parse(&list[..]).unwrap();
    assert_eq!(exts.len(), 1);
    match &exts[0] {
        OcspExt::CrlRef { oid, url, num, time: t } => {
            assert_eq!(oid.id, KnownOidId::ExtCrlRef);
            assert!(url.is_none());
            assert!(num.is_none());
            assert_eq!(t.as_ref().unwrap(), &time);
        }
        _ => panic!("expected a CRL-reference extension"),
    }
}

// A CRL-reference extension carrying all three fields, each behind its own
// explicit tag.
#[test]
fn crlref_all_fields() {
    let url = b"http://c".to_vec();
    let num = vec![0x05u8];
    let time = b"20200101120000Z".to_vec();
    let mut f0 = vec![0xa0, (url.len() + 2) as u8, 0x16, url.len() as u8];
    f0.extend_from_slice(&url);
    let mut f1 = vec![0xa1, (num.len() + 2) as u8, 0x02, num.len() as u8];
    f1.extend_from_slice(&num);
    let mut f2 = vec![0xa2, (time.len() + 2) as u8, 0x18, time.len() as u8];
    f2.extend_from_slice(&time);
    let mut entry = h("06092b0601050507300103");
    entry.extend_from_slice(&f0);
    entry.extend_from_slice(&f1);
    entry.extend_from_slice(&f2);
    let mut entry_tlv = vec![0x30, entry.len() as u8];
    entry_tlv.extend_from_slice(&entry);
    let mut list = vec![0x30, entry_tlv.len() as u8];
    list.extend_from_slice(&entry_tlv);
    let exts = OcspExt::parse(&list[..]).unwrap();
    assert_eq!(exts.len(), 1);
    match &exts[0] {
        OcspExt::CrlRef { oid, url: u, num: n, time: t } => {
            assert_eq!(oid.id, KnownOidId::ExtCrlRef);
            assert_eq!(u.as_ref().unwrap(), &url);
            assert_eq!(n.as_ref().unwrap(), &num);
            assert_eq!(t.as_ref().unwrap(), &time);
        }
        _ => panic!("expected a CRL-reference extension"),
    }
}

// A nonce extension with no second element to take the nonce from.
#[test]
fn nonce_without_value_out_of_range() {
    let list = h("300d300b06092b0601050507300102");
    let r = OcspExt::parse(&list[..]);
    assert_eq!(r.unwrap_err(), OcspError::Asn1DecodingError(DerError::OutOfRange));
}

// A long-form length that should have used the short form is not DER.
#[test]
fn non_minimal_length_rejected() {
    let r = OcspRequest::parse(h("30810500000000000000"));
    assert_eq!(r.unwrap_err(), OcspError::Asn1DecodingError(DerError::BadLength));
}

// An empty buffer cannot even yield the outer header.
#[test]
fn empty_input_decoding_err() {
    let r = OcspRequest::parse(Vec::new());
    assert_eq!(r.unwrap_err(), OcspError::Asn1DecodingError(DerError::Truncated));
}

// Two entries in the request list come back in input order.  The list is
// longer than 127 bytes, which also exercises the long-form length.
#[test]
fn request_list_order_two_entries() {
    let onereq1 = h("30433041300906052b0e\
03021a05000414694d18a9be42f78026\
14d4844f23601478b788200414397be0\
02a2f571fd80dceb52a17a7f8b632be7\
5502086378e51d448ff46d");
    let mut onereq2 = onereq1.clone();
    let last = onereq2.len() - 1;
    onereq2[last] = 0x6e;
    let mut reqlist = vec![0x30, 0x81, 0x8a];
    reqlist.extend_from_slice(&onereq1);
    reqlist.extend_from_slice(&onereq2);
    let mut tbs = vec![0x30, 0x81, 0x8d];
    tbs.extend_from_slice(&reqlist);
    let parsed = TBSRequest::parse(tbs).unwrap();
    assert!(parsed.requestor_name.is_none());
    assert!(parsed.request_ext.is_none());
    assert_eq!(parsed.request_list.len(), 2);
    assert_eq!(parsed.request_list[0].one_req.serial_num, h("6378e51d448ff46d"));
    assert_eq!(parsed.request_list[1].one_req.serial_num, h("6378e51d448ff46e"));
}

// A request carrying a signature block behind the explicit tag.
#[test]
fn signature_present_request() {
    let req = h("301730023000a011040f300d300906052b0e03021a05000300");
    let parsed = OcspRequest::parse(req).unwrap();
    assert_eq!(parsed.tbs_request.request_list.len(), 0);
    let sig = parsed.optional_signature.as_ref().unwrap();
    assert_eq!(sig.signing_algo.id, h("2b0e03021a"));
    assert_eq!(sig.signature, h("0300"));
    assert!(sig.certs.is_none());
}

// Two top-level children whose second is not the explicit signature tag.
#[test]
fn signature_exp0_mismatch() {
    let req = h("300430000400");
    let r = OcspRequest::parse(req);
    assert_eq!(r.unwrap_err(), OcspError::Asn1MismatchError(Label::SignatureExp0));
}

// A three-element signature sequence: the certificate chain variant is
// recognized but not supported.
#[test]
fn signature_three_children_unsupported() {
    let req = h("301930023000a0130411300f300906052b0e03021a050003000500");
    let r = OcspRequest::parse(req);
    assert_eq!(r.unwrap_err(), OcspError::OcspUnsupported(Label::Signature));
}

// The registry resolves known OIDs and rejects unknown bytes.
#[test]
fn oid_registry_lookup() {
    let sha1 = h("2b0e03021a");
    let hit = b2i_oid(&sha1[..]).unwrap();
    assert_eq!(hit.id, KnownOidId::Sha1);
    assert_eq!(hit.oid, sha1);
    let nonce = h("2b0601050507300102");
    assert_eq!(b2i_oid(&nonce[..]).unwrap().id, KnownOidId::ExtNonce);
    assert!(b2i_oid(&h("2a0304")[..]).is_none());
}

// An extension OID absent from the registry.
#[test]
fn unknown_oid_extension() {
    let list = h("300b300906032a03040402abab");
    let r = OcspExt::parse(&list[..]);
    assert_eq!(r.unwrap_err(), OcspError::Asn1OidUnknown);
}

// A registered OID that is no extension: resolvable, but not an extension
// branch.
#[test]
fn sha1_oid_extension_not_ext() {
    let list = h("300d300b06052b0e03021a0402abab");
    let r = OcspExt::parse(&list[..]);
    assert_eq!(r.unwrap_err(), OcspError::OcspExtUnknown);
}

// A recognized extension kind whose decoding is deliberately unsupported.
#[test]
fn archive_cutoff_unsupported() {
    let list = h("3011300f06092b06010505073001060402abab");
    let r = OcspExt::parse(&list[..]);
    assert_eq!(r.unwrap_err(), OcspError::OcspUnsupported(Label::Extension));
}

// The version field of the to-be-signed body is recognized but unsupported.
#[test]
fn tbs_version_unsupported() {
    let r = TBSRequest::parse(h("3002a000"));
    assert_eq!(r.unwrap_err(), OcspError::OcspUnsupported(Label::TbsVersion));
}

// A to-be-signed child with a tag outside the dispatch set.
#[test]
fn tbs_bad_child_tag_mismatch() {
    let r = TBSRequest::parse(h("30020500"));
    assert_eq!(r.unwrap_err(), OcspError::Asn1MismatchError(Label::TbsRequest));
}

// A well-formed requestor name comes back as its IA5String content.
#[test]
fn requestor_name_ia5() {
    let parsed = TBSRequest::parse(h("3008a106160461626364")).unwrap();
    assert_eq!(parsed.requestor_name.as_ref().unwrap(), &b"abcd".to_vec());
    assert_eq!(parsed.request_list.len(), 0);
}

// A requestor name whose bytes are outside the 7-bit range.
#[test]
fn requestor_name_not_text() {
    let r = TBSRequest::parse(h("3006a1041602c3a9"));
    assert_eq!(r.unwrap_err(), OcspError::Asn1TextError(Label::TbsRequestorName));
}

// A requestor name wrapper holding something besides an IA5String.
#[test]
fn requestor_name_wrong_tag() {
    let r = TBSRequest::parse(h("3006a1040402abab"));
    assert_eq!(r.unwrap_err(), OcspError::Asn1MismatchError(Label::TbsRequestorName));
}

// The indefinite length form is not DER.
#[test]
fn indefinite_length_rejected() {
    let r = OcspRequest::parse(vec![0x30, 0x80]);
    assert_eq!(r.unwrap_err(), OcspError::Asn1DecodingError(DerError::BadLength));
}

// A top-level object that is no sequence.
#[test]
fn non_sequence_top_level() {
    let r = OcspRequest::parse(h("06052b0e03021a"));
    assert_eq!(r.unwrap_err(), OcspError::Asn1DecodingError(DerError::NotSequence));
}

// An empty single request has no child to take the identifier from.
#[test]
fn onereq_empty_out_of_range() {
    let r = OneReq::parse(h("3000"));
    assert_eq!(r.unwrap_err(), OcspError::Asn1DecodingError(DerError::OutOfRange));
}

// A single request with three children.
#[test]
fn onereq_three_children_length_err() {
    let mut onereq = vec![0x30, 0x47];
    onereq.extend_from_slice(&h(CERTID_HEX));
    onereq.extend_from_slice(&h("04000400"));
    let r = OneReq::parse(onereq);
    assert_eq!(r.unwrap_err(), OcspError::Asn1LengthError(Label::OneReq));
}

// A signature block on its own, without the request around it.
#[test]
fn signature_parse_standalone() {
    let sig = Signature::parse(h("300d300906052b0e03021a05000300")).unwrap();
    assert_eq!(sig.signing_algo.id, h("2b0e03021a"));
    assert_eq!(sig.signature, h("0300"));
}
