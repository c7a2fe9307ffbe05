//! Derivation of the breeding selector: a 16-byte pseudo-random bitmask,
//! computed as the Blake2 128-bit hash of the collaborator-supplied random
//! seed together with the caller's identity and the call-sequence index, so
//! that no two breeding calls in the same execution context see the same
//! selector.
//!
//! The hash itself is the outside collaborator's work; everything around it
//! (assembling the hash input from plain values) is verified.

use vstd::prelude::*;

use crate::pallet::Pallet;

verus! {

broadcast use vstd::array::group_array_axioms;

/// The 16-byte Blake2b digest of `data`, as computed by
/// `sp_io::hashing::blake2_128`: a fixed function of the input bytes alone.
pub uninterp spec fn blake2_128_of(data: Seq<u8>) -> Seq<u8>;

/// Relies on `sp_io::hashing::blake2_128` (which delegates to
/// `sp_crypto_hashing::blake2_128`): the 16-byte Blake2b hash of the input
/// bytes, depending on the input bytes alone.
#[verifier::external_body]
fn blake2_128(data: &Vec<u8>) -> (r: [u8; 16])
    ensures
        r@ == blake2_128_of(data@),
{
    sp_io::hashing::blake2_128(data.as_slice())
}

/// The little-endian bytes of a 64-bit account identity.
pub open spec fn le_bytes_u64(v: u64) -> Seq<u8> {
    Seq::new(8, |i: int| ((v >> ((8 * i) as u64)) & 0xff) as u8)
}

/// The little-endian bytes of a 32-bit call-sequence index.
pub open spec fn le_bytes_u32(v: u32) -> Seq<u8> {
    Seq::new(4, |i: int| ((v >> ((8 * i) as u32)) & 0xff) as u8)
}

/// The bytes hashed to derive a selector: random seed, then caller identity,
/// then call-sequence index.
pub open spec fn selector_input(seed: Seq<u8>, sender: u64, extrinsic_index: u32) -> Seq<u8> {
    seed + le_bytes_u64(sender) + le_bytes_u32(extrinsic_index)
}

/// The selector a breeding call sees, as a function of the random seed, the
/// caller and the call-sequence index.
pub open spec fn selector_of(seed: Seq<u8>, sender: u64, extrinsic_index: u32) -> Seq<u8> {
    blake2_128_of(selector_input(seed, sender, extrinsic_index))
}

proof fn lemma_low_byte_u64(y: u64)
    by (bit_vector)
    ensures
        (y & 0xff) < 256,
{
}

proof fn lemma_low_byte_u32(y: u32)
    by (bit_vector)
    ensures
        (y & 0xff) < 256,
{
}

impl Pallet {
    /// Derives the selector for one breeding call: the Blake2 128-bit hash
    /// of the random seed, the caller identity and the call-sequence index.
    pub fn random_value(sender: u64, seed: &[u8; 32], extrinsic_index: u32) -> (r: [u8; 16])
        ensures
            r@ == selector_of(seed@, sender, extrinsic_index),
    {
        let mut payload: Vec<u8> = Vec::new();
        let mut i: usize = 0;
        while i < 32
            invariant
                i <= 32,
                payload@ == seed@.take(i as int),
            decreases 32 - i,
        {
            payload.push(seed[i]);
            i += 1;
            proof {
                assert(payload@ =~= seed@.take(i as int));
            }
        }
        proof {
            assert(payload@ =~= seed@);
        }
        let mut k: usize = 0;
        while k < 8
            invariant
                k <= 8,
                payload@ == seed@ + le_bytes_u64(sender).take(k as int),
            decreases 8 - k,
        {
            let sh: u64 = 8 * (k as u64);
            let word: u64 = sender >> sh;
            proof {
                lemma_low_byte_u64(word);
            }
            payload.push((word & 0xff) as u8);
            k += 1;
            proof {
                assert(payload@ =~= seed@ + le_bytes_u64(sender).take(k as int));
            }
        }
        let mut k: usize = 0;
        while k < 4
            invariant
                k <= 4,
                payload@ == seed@ + le_bytes_u64(sender) + le_bytes_u32(extrinsic_index).take(k as int),
            decreases 4 - k,
        {
            let sh: u32 = 8 * (k as u32);
            let word: u32 = extrinsic_index >> sh;
            proof {
                lemma_low_byte_u32(word);
            }
            payload.push((word & 0xff) as u8);
            k += 1;
            proof {
                assert(payload@ =~= seed@ + le_bytes_u64(sender) + le_bytes_u32(
                    extrinsic_index,
                ).take(k as int));
            }
        }
        proof {
            assert(payload@ =~= selector_input(seed@, sender, extrinsic_index));
        }
        blake2_128(&payload)
    }
}

} // verus!
