//! The DER primitive layer: tag-length-value decoding and sequence traversal.
//!
//! The decoders of this crate never look at raw bytes themselves; they work
//! on the immediate children of a DER SEQUENCE as this module hands them out.
//! The module is specified by two spec-level parsers, [`spec_decode_tlv`] and
//! [`spec_children`], and every executable function here is proved to return
//! exactly what those parsers denote, errors included.
//!
//! Only single-byte tags are recognized, which covers every tag the OCSP
//! grammar uses.  Length octets must be in canonical DER form: the definite
//! short form below 0x80, or the definite long form with a minimal number of
//! length octets.  Indefinite lengths and lengths needing more than four
//! octets are rejected.

use vstd::prelude::*;
use vstd::slice::*;

use crate::err::DerError;

verus! {

/// ASN.1 INTEGER tag.
pub const ASN1_INTEGER: u8 = 0x02;
/// ASN.1 OCTET STRING tag.
pub const ASN1_OCTET: u8 = 0x04;
/// ASN.1 NULL tag.
pub const ASN1_NULL: u8 = 0x05;
/// ASN.1 OBJECT IDENTIFIER tag.
pub const ASN1_OID: u8 = 0x06;
/// ASN.1 IA5String tag.
pub const ASN1_IA5STRING: u8 = 0x16;
/// ASN.1 SEQUENCE tag (constructed).
pub const ASN1_SEQUENCE: u8 = 0x30;
/// Context-specific constructed tag [0], used for explicit tagging.
pub const ASN1_EXPLICIT_0: u8 = 0xA0;
/// Context-specific constructed tag [1], used for explicit tagging.
pub const ASN1_EXPLICIT_1: u8 = 0xA1;
/// Context-specific constructed tag [2], used for explicit tagging.
pub const ASN1_EXPLICIT_2: u8 = 0xA2;

/// The model of one decoded DER object: its tag, its content bytes, and the
/// number of bytes its whole tag-length-value encoding occupies.
pub ghost struct SpecTlv {
    pub tag: u8,
    pub value: Seq<u8>,
    pub size: nat,
}

/// The model of one immediate child of a sequence: its tag, its content
/// bytes, and the bytes of its whole tag-length-value encoding.
pub ghost struct SpecChild {
    pub tag: u8,
    pub value: Seq<u8>,
    pub raw: Seq<u8>,
}

/// The value of a big-endian base-256 digit string.
pub open spec fn be_value(s: Seq<u8>) -> nat
    decreases s.len(),
{
    if s.len() == 0 {
        0
    } else {
        be_value(s.drop_last()) * 256 + s.last() as nat
    }
}

/// Decode one DER object from the front of `s`.  Bytes after the object are
/// ignored.  The outcome is `Truncated` where the input ends inside the
/// header or the content, and `BadLength` where the length octets are not in
/// canonical definite form (or need more than four octets).
pub open spec fn spec_decode_tlv(s: Seq<u8>) -> Result<SpecTlv, DerError> {
    if s.len() < 2 {
        Err(DerError::Truncated)
    } else {
        let tag = s[0];
        let l0 = s[1];
        if l0 < 0x80 {
            if s.len() >= 2 + l0 {
                Ok(SpecTlv {
                    tag,
                    value: s.subrange(2, 2 + l0 as int),
                    size: (2 + l0) as nat,
                })
            } else {
                Err(DerError::Truncated)
            }
        } else if l0 == 0x80 {
            Err(DerError::BadLength)
        } else {
            let n = (l0 - 0x80) as int;
            if n > 4 {
                Err(DerError::BadLength)
            } else if s.len() < 2 + n {
                Err(DerError::Truncated)
            } else {
                let len = be_value(s.subrange(2, 2 + n)) as int;
                if s[2] == 0 || len < 0x80 {
                    Err(DerError::BadLength)
                } else if s.len() < 2 + n + len {
                    Err(DerError::Truncated)
                } else {
                    Ok(SpecTlv {
                        tag,
                        value: s.subrange(2 + n, 2 + n + len),
                        size: (2 + n + len) as nat,
                    })
                }
            }
        }
    }
}

/// A successfully decoded object occupies at least its two header bytes and
/// never more than the input.
pub proof fn lemma_decode_tlv_ok_bounds(s: Seq<u8>)
    ensures
        spec_decode_tlv(s) matches Ok(t) ==> 2 <= t.size && t.size <= s.len()
            && t.value.len() == t.size - 2 - (if s[1] < 0x80 { 0int } else { (s[1] - 0x80) as int }),
{
}

/// Split a sequence's content bytes into its immediate children, in order.
/// The children must tile the content exactly; any leftover that is not a
/// whole object makes the split fail.
pub open spec fn spec_children(c: Seq<u8>) -> Result<Seq<SpecChild>, DerError>
    decreases c.len(),
{
    if c.len() == 0 {
        Ok(Seq::empty())
    } else {
        match spec_decode_tlv(c) {
            Err(e) => Err(e),
            Ok(t) => match spec_children(c.skip(t.size as int)) {
                Err(e) => Err(e),
                Ok(rest) => Ok(
                    seq![SpecChild { tag: t.tag, value: t.value, raw: c.take(t.size as int) }]
                        + rest,
                ),
            },
        }
    }
}

/// View `raw` as a DER SEQUENCE: decode the outer object from the front of
/// `raw`, require the SEQUENCE tag, and split its content into children.
/// Bytes after the outer object are ignored.
pub open spec fn spec_sequence(raw: Seq<u8>) -> Result<Seq<SpecChild>, DerError> {
    match spec_decode_tlv(raw) {
        Err(e) => Err(e),
        Ok(t) => if t.tag == ASN1_SEQUENCE {
            spec_children(t.value)
        } else {
            Err(DerError::NotSequence)
        },
    }
}

/// One decoded DER object with owned content bytes.
pub struct DerObj {
    /// The tag byte.
    pub tag: u8,
    /// The content bytes between the header and the end of the object.
    pub value: Vec<u8>,
    /// The number of input bytes the whole object occupies.
    pub size: usize,
}

impl View for DerObj {
    type V = SpecTlv;

    open spec fn view(&self) -> SpecTlv {
        SpecTlv { tag: self.tag, value: self.value@, size: self.size as nat }
    }
}

/// One immediate child of a decoded sequence, with owned bytes.
pub struct DerChild {
    /// The child's tag byte.
    pub tag: u8,
    /// The child's content bytes.
    pub value: Vec<u8>,
    /// The bytes of the child's whole tag-length-value encoding.
    pub raw: Vec<u8>,
}

impl View for DerChild {
    type V = SpecChild;

    open spec fn view(&self) -> SpecChild {
        SpecChild { tag: self.tag, value: self.value@, raw: self.raw@ }
    }
}

/// The models of a vector of children, in order.
pub open spec fn children_view(v: Seq<DerChild>) -> Seq<SpecChild> {
    v.map_values(|c: DerChild| c@)
}

/// Powers of 256, used to bound partially accumulated length values.
spec fn p256(k: nat) -> nat
    decreases k,
{
    if k == 0 {
        1
    } else {
        256 * p256((k - 1) as nat)
    }
}

/// A big-endian digit string of length `k` denotes a value below `256^k`.
proof fn lemma_be_value_bound(s: Seq<u8>)
    ensures
        be_value(s) < p256(s.len()),
    decreases s.len(),
{
    if s.len() > 0 {
        lemma_be_value_bound(s.drop_last());
    }
}

/// Decode one DER object from the front of `s`; trailing bytes are ignored.
pub fn decode_tlv(s: &[u8]) -> (r: Result<DerObj, DerError>)
    ensures
        match r {
            Ok(t) => spec_decode_tlv(s@) == Ok::<SpecTlv, DerError>(t@),
            Err(e) => spec_decode_tlv(s@) == Err::<SpecTlv, DerError>(e),
        },
{
    if s.len() < 2 {
        return Err(DerError::Truncated);
    }
    let tag: u8 = *slice_index_get(s, 0);
    let l0: u8 = *slice_index_get(s, 1);
    if l0 < 0x80 {
        let len: usize = l0 as usize;
        if s.len() - 2 >= len {
            let value = slice_to_vec(slice_subrange(s, 2, 2 + len));
            Ok(DerObj { tag, value, size: 2 + len })
        } else {
            Err(DerError::Truncated)
        }
    } else if l0 == 0x80 {
        Err(DerError::BadLength)
    } else {
        let n: usize = (l0 - 0x80) as usize;
        if n > 4 {
            return Err(DerError::BadLength);
        }
        if s.len() - 2 < n {
            return Err(DerError::Truncated);
        }
        let mut len64: u64 = 0;
        let mut i: usize = 0;
        while i < n
            invariant
                i <= n <= 4,
                n + 2 <= s@.len(),
                len64 == be_value(s@.subrange(2, 2 + i as int)),
                len64 < p256(i as nat),
            decreases n - i,
        {
            proof {
                reveal_with_fuel(p256, 6);
                assert(s@.subrange(2, 2 + (i + 1) as int).drop_last() =~= s@.subrange(
                    2,
                    2 + i as int,
                ));
                assert(s@.subrange(2, 2 + (i + 1) as int).last() == s@[2 + i]);
            }
            len64 = len64 * 256 + (*slice_index_get(s, 2 + i)) as u64;
            i = i + 1;
        }
        if *slice_index_get(s, 2) == 0 || len64 < 0x80 {
            return Err(DerError::BadLength);
        }
        let rem: usize = s.len() - 2 - n;
        if (rem as u64) < len64 {
            return Err(DerError::Truncated);
        }
        let len: usize = len64 as usize;
        let value = slice_to_vec(slice_subrange(s, 2 + n, 2 + n + len));
        Ok(DerObj { tag, value, size: 2 + n + len })
    }
}

/// The invariant of the child-splitting loop: the children gathered so far,
/// followed by whatever the rest of the content splits into, make up the
/// split of the whole content.
spec fn children_partial(c: Seq<u8>, pos: int, acc: Seq<SpecChild>) -> bool {
    match spec_children(c.skip(pos)) {
        Ok(rest) => spec_children(c) == Ok::<Seq<SpecChild>, DerError>(acc + rest),
        Err(e) => spec_children(c) == Err::<Seq<SpecChild>, DerError>(e),
    }
}

/// View `raw` as a DER SEQUENCE and hand out its immediate children.
pub fn sequence_children(raw: &[u8]) -> (r: Result<Vec<DerChild>, DerError>)
    ensures
        match r {
            Ok(ch) => spec_sequence(raw@) == Ok::<Seq<SpecChild>, DerError>(children_view(ch@)),
            Err(e) => spec_sequence(raw@) == Err::<Seq<SpecChild>, DerError>(e),
        },
{
    let outer = match decode_tlv(raw) {
        Ok(t) => t,
        Err(e) => {
            return Err(e);
        },
    };
    if outer.tag != ASN1_SEQUENCE {
        return Err(DerError::NotSequence);
    }
    let content: &[u8] = outer.value.as_slice();
    let ghost c = content@;
    let mut out: Vec<DerChild> = Vec::new();
    let mut pos: usize = 0;
    proof {
        assert(c.skip(0) =~= c);
        assert(children_view(out@) =~= Seq::<SpecChild>::empty());
        if let Ok(rest) = spec_children(c) {
            assert(children_view(out@) + rest =~= rest);
        }
    }
    while pos < content.len()
        invariant
            pos <= c.len(),
            c == content@,
            spec_sequence(raw@) == spec_children(c),
            children_partial(c, pos as int, children_view(out@)),
        decreases c.len() - pos,
    {
        let sub = slice_subrange(content, pos, content.len());
        proof {
            assert(sub@ =~= c.skip(pos as int));
        }
        match decode_tlv(sub) {
            Err(e) => {
                proof {
                    assert(c.skip(pos as int).len() > 0);
                    assert(spec_children(c.skip(pos as int)) == Err::<Seq<SpecChild>, DerError>(e));
                }
                return Err(e);
            },
            Ok(t) => {
                proof {
                    lemma_decode_tlv_ok_bounds(sub@);
                }
                let raw_child = slice_to_vec(slice_subrange(sub, 0, t.size));
                let ghost old_out = out@;
                let ghost old_pos = pos as int;
                let child = DerChild { tag: t.tag, value: t.value, raw: raw_child };
                let ghost childv = child@;
                out.push(child);
                pos = pos + t.size;
                proof {
                    assert(children_view(out@) =~= children_view(old_out).push(childv));
                    assert(c.skip(old_pos).skip(childv.raw.len() as int) =~= c.skip(pos as int));
                    assert(childv.raw =~= c.skip(old_pos).take(childv.raw.len() as int));
                    assert(spec_children(c.skip(old_pos)) == match spec_children(c.skip(pos as int)) {
                        Err(e) => Err::<Seq<SpecChild>, DerError>(e),
                        Ok(rest) => Ok::<Seq<SpecChild>, DerError>(seq![childv] + rest),
                    });
                    if let Ok(rest) = spec_children(c.skip(pos as int)) {
                        assert(children_view(old_out) + (seq![childv] + rest) =~= children_view(
                            out@,
                        ) + rest);
                    }
                }
            },
        }
    }
    proof {
        assert(c.skip(pos as int) =~= Seq::<u8>::empty());
        assert(spec_children(c.skip(pos as int)) == Ok::<Seq<SpecChild>, DerError>(Seq::empty()));
        assert(children_view(out@) + Seq::<SpecChild>::empty() =~= children_view(out@));
    }
    Ok(out)
}

} // verus!
