//! Field elements: 32 big-endian bytes holding a value below the field prime.

use vstd::prelude::*;

verus! {

/// The prime of the Stark field, `2^251 + 17 * 2^192 + 1`.
pub open spec fn field_prime() -> nat {
    0x800000000000011000000000000000000000000000000000000000000000001nat
}

/// The number that a byte string denotes when read most significant byte first.
pub open spec fn be_value(bytes: Seq<u8>) -> nat
    decreases bytes.len(),
{
    if bytes.len() == 0 {
        0
    } else {
        be_value(bytes.drop_last()) * 256 + bytes.last() as nat
    }
}

/// A value of the Stark field in its canonical 32-byte big-endian form.
#[derive(Clone, Copy, Debug, PartialEq, Eq)]
pub struct FieldElement {
    bytes: [u8; 32],
}

impl View for FieldElement {
    type V = Seq<u8>;

    closed spec fn view(&self) -> Seq<u8> {
        self.bytes@
    }
}

impl FieldElement {
    #[verifier::type_invariant]
    spec fn canonical(self) -> bool {
        be_value(self.bytes@) < field_prime()
    }

    /// The number that this element holds.
    pub open spec fn value(self) -> nat {
        be_value(self@)
    }

    /// The encoding of a field element has 32 bytes.
    pub proof fn lemma_len(self)
        ensures
            self@.len() == 32,
    {
    }

    /// Makes an element of 32 bytes that denote a number below the field prime.
    pub(crate) fn from_canonical_bytes(bytes: [u8; 32]) -> (felt: FieldElement)
        requires
            be_value(bytes@) < field_prime(),
        ensures
            felt@ == bytes@,
    {
        FieldElement { bytes }
    }

    /// The 32 bytes of the element, most significant first.
    pub fn bytes(&self) -> (out: [u8; 32])
        ensures
            out@ == self@,
    {
        self.bytes
    }

    /// The number that the element holds, where it is below `limit`.
    pub fn to_index(&self, limit: usize) -> (index: Option<usize>)
        ensures
            index is Some <==> self.value() < limit,
            index matches Some(n) ==> n == self.value(),
    {
        let mut acc: usize = 0;
        let mut i: usize = 0;
        while i < 32
            invariant
                i <= 32,
                self.bytes@.len() == 32,
                acc == be_value(self.bytes@.take(i as int)),
            decreases 32 - i,
        {
            proof {
                lemma_be_value_prefix(self.bytes@, i as int);
                lemma_be_value_prefix(self.bytes@, i + 1);
                assert(self.bytes@.take(i + 1).drop_last() =~= self.bytes@.take(i as int));
            }
            if acc >= limit {
                return None;
            }
            let shifted: usize = match acc.checked_mul(256) {
                Some(v) => v,
                None => { return None; },
            };
            acc = match shifted.checked_add(self.bytes[i] as usize) {
                Some(v) => v,
                None => { return None; },
            };
            i += 1;
        }
        assert(self.bytes@.take(32) =~= self.bytes@);
        if acc < limit {
            Some(acc)
        } else {
            None
        }
    }

    /// Whether two elements hold the same value.
    pub fn same(&self, other: &FieldElement) -> (r: bool)
        ensures
            r == (self@ == other@),
    {
        let mut i: usize = 0;
        while i < 32
            invariant
                i <= 32,
                forall|j: int| 0 <= j < i ==> self.bytes@[j] == other.bytes@[j],
            decreases 32 - i,
        {
            if self.bytes[i] != other.bytes[i] {
                return false;
            }
            i += 1;
        }
        assert(self.bytes@ =~= other.bytes@);
        true
    }
}

/// The field element that holds the number `n`.
pub closed spec fn felt_of(n: nat) -> FieldElement {
    choose|felt: FieldElement| felt.value() == n
}

/// A field element is determined by the number that it holds.
pub proof fn lemma_felt_of_value(felt: FieldElement)
    ensures
        felt_of(felt.value()) == felt,
{
    let other = felt_of(felt.value());
    assert(other.value() == felt.value());
    lemma_be_value_injective(other@, felt@);
    assert(other.bytes =~= felt.bytes);
}

/// Calls `Felt::from_bytes_be_slice` and then `Felt::to_bytes_be`: the bytes
/// are read as one big-endian number, which is reduced modulo the field prime
/// and written back as 32 big-endian bytes.
#[verifier::external_body]
fn reduce_be_bytes(bytes: &[u8]) -> (out: [u8; 32])
    ensures
        be_value(out@) == be_value(bytes@) % field_prime(),
{
    starknet::core::types::Felt::from_bytes_be_slice(bytes).to_bytes_be()
}

/// Decodes 32 big-endian bytes into a field element. Every input is accepted;
/// a number that is not below the field prime is reduced modulo it.
pub fn decode_field_element(bytes: &[u8; 32]) -> (felt: FieldElement)
    ensures
        felt == felt_of(be_value(bytes@) % field_prime()),
        felt.value() == be_value(bytes@) % field_prime(),
        be_value(bytes@) < field_prime() ==> felt@ == bytes@,
{
    let out = reduce_be_bytes(bytes.as_slice());
    proof {
        if be_value(bytes@) < field_prime() {
            lemma_be_value_injective(out@, bytes@);
        }
    }
    let felt = FieldElement::from_canonical_bytes(out);
    proof {
        lemma_felt_of_value(felt);
    }
    felt
}

/// The number of a prefix is at most the number of the whole string.
pub proof fn lemma_be_value_prefix(bytes: Seq<u8>, n: int)
    requires
        0 <= n <= bytes.len(),
    ensures
        be_value(bytes.take(n)) <= be_value(bytes),
    decreases bytes.len() - n,
{
    if n < bytes.len() {
        lemma_be_value_prefix(bytes.drop_last(), n);
        assert(bytes.drop_last().take(n) =~= bytes.take(n));
    } else {
        assert(bytes.take(n) =~= bytes);
    }
}

/// Two byte strings of one length that denote the same number are equal.
pub proof fn lemma_be_value_injective(a: Seq<u8>, b: Seq<u8>)
    requires
        a.len() == b.len(),
        be_value(a) == be_value(b),
    ensures
        a == b,
    decreases a.len(),
{
    if a.len() > 0 {
        lemma_be_value_injective(a.drop_last(), b.drop_last());
        assert(a =~= a.drop_last().push(a.last()));
        assert(b =~= b.drop_last().push(b.last()));
    } else {
        assert(a =~= b);
    }
}

} // verus!
