//! The OID registry: the object identifiers the OCSP grammar knows, and the
//! lookup from raw OID bytes to a registered identifier.
//!
//! Absence from the registry means "syntactically valid OID, semantically
//! unrecognized"; the lookup reports it as `None` and the callers surface it
//! as a distinct error.

use vstd::prelude::*;
use vstd::slice::*;

verus! {

/// A stable identifier for each object identifier the registry knows:
/// the two hash algorithms OCSP commonly names, and the OCSP extension
/// kinds of RFC 6960.
#[derive(Debug, Clone, Copy, PartialEq, Eq, Structural)]
pub enum KnownOidId {
    /// 1.3.14.3.2.26, the SHA-1 hash algorithm.
    Sha1,
    /// 2.16.840.1.101.3.4.2.1, the SHA-256 hash algorithm.
    Sha256,
    /// 1.3.6.1.5.5.7.48.1.2, the nonce extension.
    ExtNonce,
    /// 1.3.6.1.5.5.7.48.1.3, the CRL-reference extension.
    ExtCrlRef,
    /// 1.3.6.1.5.5.7.48.1.4, the acceptable-response-types extension.
    ExtRespType,
    /// 1.3.6.1.5.5.7.48.1.6, the archive-cutoff extension.
    ExtArchiveCutoff,
    /// 2.5.29.21, the CRL-reason extension.
    ExtCrlReason,
    /// 2.5.29.24, the invalidity-date extension.
    ExtInvalidDate,
    /// 1.3.6.1.5.5.7.48.1.7, the service-locator extension.
    ExtServiceLocator,
    /// 1.3.6.1.5.5.7.48.1.8, the preferred-signature-algorithms extension.
    ExtPrefSigAlgs,
    /// 1.3.6.1.5.5.7.48.1.9, the extended-revoke extension.
    ExtExtendedRevoke,
}

/// A registered object identifier: its stable identifier together with the
/// raw OID bytes it was resolved from.
#[derive(Debug)]
pub struct ConstOid {
    /// Which registered identifier this is.
    pub id: KnownOidId,
    /// The raw OID bytes, kept for round-tripping and display.
    pub oid: Vec<u8>,
}

/// The model of a registered object identifier.
pub ghost struct ConstOidView {
    pub id: KnownOidId,
    pub oid: Seq<u8>,
}

impl View for ConstOid {
    type V = ConstOidView;

    open spec fn view(&self) -> ConstOidView {
        ConstOidView { id: self.id, oid: self.oid@ }
    }
}

/// The registered byte string of each known identifier.
pub open spec fn spec_oid_bytes(id: KnownOidId) -> Seq<u8> {
    match id {
        KnownOidId::Sha1 => seq![0x2bu8, 0x0e, 0x03, 0x02, 0x1a],
        KnownOidId::Sha256 => seq![0x60u8, 0x86, 0x48, 0x01, 0x65, 0x03, 0x04, 0x02, 0x01],
        KnownOidId::ExtNonce => seq![0x2bu8, 0x06, 0x01, 0x05, 0x05, 0x07, 0x30, 0x01, 0x02],
        KnownOidId::ExtCrlRef => seq![0x2bu8, 0x06, 0x01, 0x05, 0x05, 0x07, 0x30, 0x01, 0x03],
        KnownOidId::ExtRespType => seq![0x2bu8, 0x06, 0x01, 0x05, 0x05, 0x07, 0x30, 0x01, 0x04],
        KnownOidId::ExtArchiveCutoff => seq![
            0x2bu8,
            0x06,
            0x01,
            0x05,
            0x05,
            0x07,
            0x30,
            0x01,
            0x06,
        ],
        KnownOidId::ExtCrlReason => seq![0x55u8, 0x1d, 0x15],
        KnownOidId::ExtInvalidDate => seq![0x55u8, 0x1d, 0x18],
        KnownOidId::ExtServiceLocator => seq![
            0x2bu8,
            0x06,
            0x01,
            0x05,
            0x05,
            0x07,
            0x30,
            0x01,
            0x07,
        ],
        KnownOidId::ExtPrefSigAlgs => seq![0x2bu8, 0x06, 0x01, 0x05, 0x05, 0x07, 0x30, 0x01, 0x08],
        KnownOidId::ExtExtendedRevoke => seq![
            0x2bu8,
            0x06,
            0x01,
            0x05,
            0x05,
            0x07,
            0x30,
            0x01,
            0x09,
        ],
    }
}

/// The registry lookup: which identifier, if any, the raw bytes `s` denote.
pub open spec fn spec_lookup_oid(s: Seq<u8>) -> Option<KnownOidId> {
    if s == spec_oid_bytes(KnownOidId::Sha1) {
        Some(KnownOidId::Sha1)
    } else if s == spec_oid_bytes(KnownOidId::Sha256) {
        Some(KnownOidId::Sha256)
    } else if s == spec_oid_bytes(KnownOidId::ExtNonce) {
        Some(KnownOidId::ExtNonce)
    } else if s == spec_oid_bytes(KnownOidId::ExtCrlRef) {
        Some(KnownOidId::ExtCrlRef)
    } else if s == spec_oid_bytes(KnownOidId::ExtRespType) {
        Some(KnownOidId::ExtRespType)
    } else if s == spec_oid_bytes(KnownOidId::ExtArchiveCutoff) {
        Some(KnownOidId::ExtArchiveCutoff)
    } else if s == spec_oid_bytes(KnownOidId::ExtCrlReason) {
        Some(KnownOidId::ExtCrlReason)
    } else if s == spec_oid_bytes(KnownOidId::ExtInvalidDate) {
        Some(KnownOidId::ExtInvalidDate)
    } else if s == spec_oid_bytes(KnownOidId::ExtServiceLocator) {
        Some(KnownOidId::ExtServiceLocator)
    } else if s == spec_oid_bytes(KnownOidId::ExtPrefSigAlgs) {
        Some(KnownOidId::ExtPrefSigAlgs)
    } else if s == spec_oid_bytes(KnownOidId::ExtExtendedRevoke) {
        Some(KnownOidId::ExtExtendedRevoke)
    } else {
        None
    }
}

/// The registered byte string of `id`, as an owned vector.
pub fn oid_bytes(id: KnownOidId) -> (r: Vec<u8>)
    ensures
        r@ == spec_oid_bytes(id),
{
    let mut v: Vec<u8> = Vec::new();
    match id {
        KnownOidId::Sha1 => {
            v.push(0x2b);
            v.push(0x0e);
            v.push(0x03);
            v.push(0x02);
            v.push(0x1a);
        },
        KnownOidId::Sha256 => {
            v.push(0x60);
            v.push(0x86);
            v.push(0x48);
            v.push(0x01);
            v.push(0x65);
            v.push(0x03);
            v.push(0x04);
            v.push(0x02);
            v.push(0x01);
        },
        KnownOidId::ExtCrlReason => {
            v.push(0x55);
            v.push(0x1d);
            v.push(0x15);
        },
        KnownOidId::ExtInvalidDate => {
            v.push(0x55);
            v.push(0x1d);
            v.push(0x18);
        },
        KnownOidId::ExtNonce
        | KnownOidId::ExtCrlRef
        | KnownOidId::ExtRespType
        | KnownOidId::ExtArchiveCutoff
        | KnownOidId::ExtServiceLocator
        | KnownOidId::ExtPrefSigAlgs
        | KnownOidId::ExtExtendedRevoke => {
            v.push(0x2b);
            v.push(0x06);
            v.push(0x01);
            v.push(0x05);
            v.push(0x05);
            v.push(0x07);
            v.push(0x30);
            v.push(0x01);
            match id {
                KnownOidId::ExtNonce => v.push(0x02),
                KnownOidId::ExtCrlRef => v.push(0x03),
                KnownOidId::ExtRespType => v.push(0x04),
                KnownOidId::ExtArchiveCutoff => v.push(0x06),
                KnownOidId::ExtServiceLocator => v.push(0x07),
                KnownOidId::ExtPrefSigAlgs => v.push(0x08),
                _ => v.push(0x09),
            }
        },
    }
    proof {
        assert(v@ =~= spec_oid_bytes(id));
    }
    v
}

/// Byte-string equality of two slices.
fn bytes_eq(a: &[u8], b: &[u8]) -> (r: bool)
    ensures
        r == (a@ == b@),
{
    if a.len() != b.len() {
        return false;
    }
    let mut i: usize = 0;
    while i < a.len()
        invariant
            i <= a@.len(),
            a@.len() == b@.len(),
            forall|k: int| 0 <= k < i ==> a@[k] == b@[k],
        decreases a@.len() - i,
    {
        if *slice_index_get(a, i) != *slice_index_get(b, i) {
            return false;
        }
        i = i + 1;
    }
    proof {
        assert(a@ =~= b@);
    }
    true
}

/// Does `v` equal the registered byte string of `id`?
fn is_oid(v: &[u8], id: KnownOidId) -> (r: bool)
    ensures
        r == (v@ == spec_oid_bytes(id)),
{
    let expected = oid_bytes(id);
    bytes_eq(v, expected.as_slice())
}

/// Resolve raw OID bytes in the registry.  `None` means the bytes denote no
/// registered identifier; a hit carries the identifier and the raw bytes.
pub fn b2i_oid(v: &[u8]) -> (r: Option<ConstOid>)
    ensures
        match r {
            Some(c) => spec_lookup_oid(v@) == Some(c.id) && c.oid@ == v@,
            None => spec_lookup_oid(v@) is None,
        },
{
    let id = if is_oid(v, KnownOidId::Sha1) {
        KnownOidId::Sha1
    } else if is_oid(v, KnownOidId::Sha256) {
        KnownOidId::Sha256
    } else if is_oid(v, KnownOidId::ExtNonce) {
        KnownOidId::ExtNonce
    } else if is_oid(v, KnownOidId::ExtCrlRef) {
        KnownOidId::ExtCrlRef
    } else if is_oid(v, KnownOidId::ExtRespType) {
        KnownOidId::ExtRespType
    } else if is_oid(v, KnownOidId::ExtArchiveCutoff) {
        KnownOidId::ExtArchiveCutoff
    } else if is_oid(v, KnownOidId::ExtCrlReason) {
        KnownOidId::ExtCrlReason
    } else if is_oid(v, KnownOidId::ExtInvalidDate) {
        KnownOidId::ExtInvalidDate
    } else if is_oid(v, KnownOidId::ExtServiceLocator) {
        KnownOidId::ExtServiceLocator
    } else if is_oid(v, KnownOidId::ExtPrefSigAlgs) {
        KnownOidId::ExtPrefSigAlgs
    } else if is_oid(v, KnownOidId::ExtExtendedRevoke) {
        KnownOidId::ExtExtendedRevoke
    } else {
        return None;
    };
    Some(ConstOid { id, oid: slice_to_vec(v) })
}

} // verus!
