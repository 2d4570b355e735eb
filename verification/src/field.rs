//! Codec between the chain's 256-bit unsigned integers and canonical
//! elements of the membership system's prime field.
//!
//! A field element is a residue modulo the prime order, always derived from
//! (and re-encoded to) a big-endian 32-byte word.  Words at or beyond the
//! order are reduced rather than rejected — whether such values from chain
//! logs should count as malformed is an open question, so the reduction is
//! stated exactly in the contracts instead of being hidden; a caller that
//! wants rejection can compare the decoded element's re-encoding with the
//! original word.

use vstd::prelude::*;

verus! {

/// The value of a byte sequence read as a big-endian base-256 integer.
pub open spec fn be_nat(s: Seq<u8>) -> nat
    decreases s.len(),
{
    if s.len() == 0 {
        0
    } else {
        be_nat(s.drop_last()) * 256 + (s.last() as nat)
    }
}

/// The prime order of the membership system's field (the BN254 scalar
/// field, 21888242871839275222246405745257275088548364400416034343698204186575808495617);
/// mirrors `semaphore_rs::MODULUS`.  Written as high and low 128-bit halves
/// because a single literal of this size is not accepted.
pub open spec fn field_order() -> nat {
    0x30644e72e131a029b85045b68181585d * 0x10000000000000000 * 0x10000000000000000
        + 0x2833e84879b9709143e1f593f0000001
}

/// A canonical prime-field element, stored as the big-endian 32-byte
/// encoding of its residue.
#[derive(Clone, Copy, Debug)]
pub struct FieldElement {
    bytes: [u8; 32],
}

impl View for FieldElement {
    type V = nat;

    closed spec fn view(&self) -> nat {
        be_nat(self.bytes@)
    }
}

/// Relies on `semaphore_rs::Field` (`ruint`'s 256-bit unsigned integer):
/// `Field::from_be_bytes` reads exactly 32 bytes as a big-endian integer,
/// `reduce_mod` reduces it modulo `semaphore_rs::MODULUS` (the constant that
/// `field_order` mirrors, a nonzero modulus), and `to_be_bytes` re-encodes
/// the residue as exactly 32 big-endian bytes.
#[verifier::external_body]
fn reduce_be_bytes(bytes: &[u8; 32]) -> (r: [u8; 32])
    ensures
        be_nat(r@) == be_nat(bytes@) % field_order(),
{
    let value = semaphore_rs::Field::from_be_bytes(*bytes);
    let reduced = value.reduce_mod(semaphore_rs::MODULUS);
    reduced.to_be_bytes::<32>()
}

impl FieldElement {
    /// A well-formed element is a canonical residue.
    pub open spec fn wf(&self) -> bool {
        self@ < field_order()
    }

    /// Decodes a 256-bit big-endian word into a field element by reduction
    /// modulo the field order.  Values at or beyond the order are accepted
    /// and reduced, never rejected.
    pub fn from_be_bytes(bytes: &[u8; 32]) -> (r: FieldElement)
        ensures
            r@ == be_nat(bytes@) % field_order(),
            r.wf(),
    {
        let reduced = reduce_be_bytes(bytes);
        proof {
            vstd::arithmetic::div_mod::lemma_mod_bound(be_nat(bytes@) as int, field_order() as int);
        }
        FieldElement { bytes: reduced }
    }

    /// Re-encodes the element as the big-endian 32-byte word of its residue.
    pub fn to_be_bytes(&self) -> (r: [u8; 32])
        ensures
            be_nat(r@) == self@,
            r@.len() == 32,
    {
        self.bytes
    }
}

/// Two byte sequences of equal length with the same big-endian value are
/// the same sequence.
proof fn lemma_be_nat_injective(s: Seq<u8>, t: Seq<u8>)
    requires
        s.len() == t.len(),
        be_nat(s) == be_nat(t),
    ensures
        s == t,
    decreases s.len(),
{
    if s.len() == 0 {
        assert(s =~= t);
    } else {
        let a = be_nat(s.drop_last());
        let b = s.last() as nat;
        let c = be_nat(t.drop_last());
        let d = t.last() as nat;
        assert(b < 256 && d < 256);
        assert(a == c && b == d) by (nonlinear_arith)
            requires
                a * 256 + b == c * 256 + d,
                b < 256,
                d < 256,
        ;
        lemma_be_nat_injective(s.drop_last(), t.drop_last());
        assert(s =~= t) by {
            assert forall|i: int| 0 <= i < s.len() implies s[i] == t[i] by {
                if i < s.len() - 1 {
                    assert(s[i] == s.drop_last()[i]);
                    assert(t[i] == t.drop_last()[i]);
                } else {
                    assert(s[i] == s.last());
                    assert(t[i] == t.last());
                }
            }
        }
    }
}

/// Law: decoding a 256-bit big-endian word whose value lies below the field
/// order and re-encoding the resulting element yields the word unchanged.
/// `enc` is constrained exactly as the composition of `from_be_bytes` and
/// `to_be_bytes` constrains it.
pub proof fn lemma_field_round_trip(v: Seq<u8>, enc: Seq<u8>)
    requires
        v.len() == 32,
        enc.len() == 32,
        be_nat(v) < field_order(),
        be_nat(enc) == be_nat(v) % field_order(),
    ensures
        enc == v,
{
    vstd::arithmetic::div_mod::lemma_small_mod(be_nat(v), field_order());
    lemma_be_nat_injective(enc, v);
}

} // verus!
