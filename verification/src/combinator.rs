//! The genetic combinator: a pure, deterministic bitwise crossover of two
//! parent payloads, driven by a 16-byte selector. Each bit of the child is
//! taken from parent `a` where the corresponding selector bit is 1, and from
//! parent `b` where it is 0.

use vstd::prelude::*;

use crate::types::Kitty;

verus! {

broadcast use vstd::array::group_array_axioms;

/// One byte of the crossover: bits of `a` where `s` has a 1, bits of `b`
/// where `s` has a 0.
pub open spec fn combine_byte(s: u8, a: u8, b: u8) -> u8 {
    (s & a) | (!s & b)
}

/// The full 16-byte crossover of parent payloads `a` and `b` under
/// selector `s`.
pub open spec fn combine_payload(a: Seq<u8>, b: Seq<u8>, s: Seq<u8>) -> Seq<u8> {
    Seq::new(16, |i: int| combine_byte(s[i], a[i], b[i]))
}

/// Bit `k` of `v`, as a boolean.
pub open spec fn bit_of(v: u8, k: u8) -> bool {
    ((v >> k) & 1) == 1
}

/// Combines the payloads of two parent kitties under `selector`, byte
/// position by byte position.
pub fn combine(kitty1: &Kitty, kitty2: &Kitty, selector: &[u8; 16]) -> (r: Kitty)
    ensures
        r@ == combine_payload(kitty1@, kitty2@, selector@),
{
    let mut data: [u8; 16] = [0u8; 16];
    let mut i: usize = 0;
    while i < 16
        invariant
            i <= 16,
            forall|j: int|
                0 <= j < i ==> data@[j] == combine_byte(selector@[j], kitty1@[j], kitty2@[j]),
        decreases 16 - i,
    {
        data[i] = (selector[i] & kitty1.0[i]) | (!selector[i] & kitty2.0[i]);
        i += 1;
    }
    proof {
        assert(data@ =~= combine_payload(kitty1@, kitty2@, selector@));
    }
    Kitty(data)
}

/// Each bit of a combined byte comes from `a` where the selector bit is 1
/// and from `b` where it is 0.
pub proof fn lemma_combine_byte_bitwise(s: u8, a: u8, b: u8, k: u8)
    requires
        k < 8,
    ensures
        bit_of(combine_byte(s, a, b), k) == if bit_of(s, k) {
            bit_of(a, k)
        } else {
            bit_of(b, k)
        },
{
    assert((((((s & a) | (!s & b)) >> k) & 1) == 1) == if (((s >> k) & 1) == 1) {
        (((a >> k) & 1) == 1)
    } else {
        (((b >> k) & 1) == 1)
    }) by (bit_vector)
        requires
            k < 8,
    ;
}

/// An all-ones selector copies parent `a` exactly.
pub proof fn lemma_combine_selector_all_ones(a: Seq<u8>, b: Seq<u8>, s: Seq<u8>)
    requires
        a.len() == 16,
        forall|i: int| 0 <= i < 16 ==> s[i] == 0xffu8,
    ensures
        combine_payload(a, b, s) == a,
{
    assert forall|i: int| 0 <= i < 16 implies combine_payload(a, b, s)[i] == a[i] by {
        let x = a[i];
        let y = b[i];
        assert(((0xffu8 & x) | (!0xffu8 & y)) == x) by (bit_vector);
    }
    assert(combine_payload(a, b, s) =~= a);
}

/// An all-zero selector copies parent `b` exactly.
pub proof fn lemma_combine_selector_all_zero(a: Seq<u8>, b: Seq<u8>, s: Seq<u8>)
    requires
        b.len() == 16,
        forall|i: int| 0 <= i < 16 ==> s[i] == 0u8,
    ensures
        combine_payload(a, b, s) == b,
{
    assert forall|i: int| 0 <= i < 16 implies combine_payload(a, b, s)[i] == b[i] by {
        let x = a[i];
        let y = b[i];
        assert(((0u8 & x) | (!0u8 & y)) == y) by (bit_vector);
    }
    assert(combine_payload(a, b, s) =~= b);
}

} // verus!
