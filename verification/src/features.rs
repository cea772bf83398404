//! Extension-flag bitsets gating what the decoder accepts.
//!
//! A `Features` value is a plain bitset: each bit stands for one optional
//! WebAssembly capability (SIMD, bulk memory, and so on).  The decoder is
//! handed such a set to opt into binaries that use those extensions.  The
//! model does not fix a meaning per bit — the flag assignment belongs to
//! the engine version in use — so the all-features value is simply the
//! union of every possible flag, which contains any assignment the engine
//! may choose.

use vstd::prelude::*;

verus! {

/// A bitset of WebAssembly extension flags.
#[derive(Clone, Copy, PartialEq, Eq, Structural, Debug)]
pub struct Features {
    /// The flag bits, one per extension.
    pub bits: u32,
}

impl Features {
    /// The set with every extension flag enabled.
    pub fn all() -> (f: Features)
        ensures
            f.bits == 0xffff_ffffu32,
    {
        Features { bits: 0xffff_ffffu32 }
    }

    /// The empty set: only the base feature set is accepted.
    pub fn none() -> (f: Features)
        ensures
            f.bits == 0u32,
    {
        Features { bits: 0u32 }
    }

    /// The set holding exactly the given flag bits.
    pub fn from_bits(bits: u32) -> (f: Features)
        ensures
            f.bits == bits,
    {
        Features { bits }
    }

    /// The flag bits of this set.
    pub fn bits(self) -> (bits: u32)
        ensures
            bits == self.bits,
    {
        self.bits
    }

    /// Whether every flag of `other` is enabled in this set.
    pub fn contains(self, other: Features) -> (r: bool)
        ensures
            r == (self.bits & other.bits == other.bits),
    {
        self.bits & other.bits == other.bits
    }
}

/// The all-features set contains every extension set, whatever flag
/// assignment the engine version in use has chosen.
pub proof fn lemma_all_contains_every_set(f: Features)
    ensures
        0xffff_ffffu32 & f.bits == f.bits,
{
    let b = f.bits;
    assert(0xffff_ffffu32 & b == b) by (bit_vector);
}

} // verus!
