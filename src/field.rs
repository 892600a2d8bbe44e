//! Field elements and the byte encoding that turns text into circuit inputs.
use vstd::prelude::*;
use vstd::string::StringSliceAdditionalSpecFns;

verus! {

/// A field element built from a small unsigned integer. The scalar field's
/// modulus exceeds `2^253`, so every `u64` is its own canonical
/// representative, and a sum of fewer than `2^64` such values never wraps.
#[derive(Clone, Copy, Debug, PartialEq, Eq, Structural)]
pub struct Elem {
    pub val: u64,
}

impl Elem {
    /// The field element whose canonical value is `v`.
    pub fn from_u64(v: u64) -> (r: Elem)
        ensures
            r.val == v,
    {
        Elem { val: v }
    }
}

/// The encoding of a byte string: one field element per byte, in order.
pub open spec fn encode_spec(s: Seq<u8>) -> Seq<Elem> {
    Seq::new(s.len(), |i: int| Elem { val: s[i] as u64 })
}

/// Maps each byte of `s` to the field element of the same value, keeping
/// order and length.
pub fn encode_bytes(s: &[u8]) -> (r: Vec<Elem>)
    ensures
        r@ == encode_spec(s@),
{
    let mut r: Vec<Elem> = Vec::new();
    let mut i: usize = 0;
    while i < s.len()
        invariant
            i <= s@.len(),
            r@ == encode_spec(s@.subrange(0, i as int)),
        decreases s@.len() - i,
    {
        r.push(Elem::from_u64(s[i] as u64));
        i = i + 1;
        assert(r@ =~= encode_spec(s@.subrange(0, i as int)));
    }
    assert(s@.subrange(0, s@.len() as int) =~= s@);
    r
}

/// Encodes the bytes of a string, as `encode_bytes` does.
pub fn encode_str(s: &str) -> (r: Vec<Elem>)
    ensures
        r@ == encode_spec(s.spec_bytes()),
{
    encode_bytes(s.as_bytes())
}

/// The encoding is a function of its input: encoding the same bytes twice
/// gives the same sequence, element by element.
pub proof fn encode_deterministic(s: Seq<u8>, t: Seq<u8>)
    requires
        s == t,
    ensures
        encode_spec(s) == encode_spec(t),
        encode_spec(s).len() == s.len(),
        forall|i: int| 0 <= i < s.len() ==> (#[trigger] encode_spec(s)[i]).val == s[i] as u64,
{
}

/// The encoding is injective: different byte strings never encode to the
/// same sequence of field elements.
pub proof fn encode_injective(s: Seq<u8>, t: Seq<u8>)
    requires
        encode_spec(s) == encode_spec(t),
    ensures
        s == t,
{
    assert(s.len() == encode_spec(s).len());
    assert forall|i: int| 0 <= i < s.len() implies s[i] == t[i] by {
        assert(encode_spec(s)[i].val == s[i] as u64);
        assert(encode_spec(t)[i].val == t[i] as u64);
    }
    assert(s =~= t);
}

} // verus!
