//! Fixed-size integer vectors laid out the way the GPU reads them.

use vstd::prelude::*;

verus! {

/// Two unsigned 32-bit lanes packed into one 64-bit word: `x` in the low
/// half, `y` in the high half.
#[allow(non_camel_case_types)]
#[derive(Clone, Copy, PartialEq, Eq, Structural, Debug)]
pub struct vector_uint2 {
    _private: u64,
}

/// The word that holds `x` in its low 32 bits and `y` in its high 32 bits.
pub open spec fn pack_lanes(x: u32, y: u32) -> u64 {
    (x as u64) | ((y as u64) << 32)
}

impl View for vector_uint2 {
    type V = (u32, u32);

    /// The lanes `(x, y)`.
    closed spec fn view(&self) -> (u32, u32) {
        ((self._private & 0xffff_ffff) as u32, ((self._private >> 32) & 0xffff_ffff) as u32)
    }
}

impl vector_uint2 {
    /// The packed word that is handed to the GPU.
    pub closed spec fn bits(self) -> u64 {
        self._private
    }

    /// The vector with lanes `x` and `y`.
    pub closed spec fn spec_new(x: u32, y: u32) -> vector_uint2 {
        vector_uint2 { _private: pack_lanes(x, y) }
    }

    /// Packs `x` and `y`.
    #[verifier::when_used_as_spec(spec_new)]
    pub fn new(x: u32, y: u32) -> (v: Self)
        ensures
            v == vector_uint2::new(x, y),
            v@ == (x, y),
            v.bits() == pack_lanes(x, y),
    {
        let low: u64 = x as u64;
        let high: u64 = (y as u64) << 32;
        assert(low + high == pack_lanes(x, y) && low + high <= u64::MAX) by (bit_vector)
            requires
                low == x as u64,
                high == (y as u64) << 32,
        ;
        proof {
            lemma_new_has_its_lanes(x, y);
        }
        vector_uint2 { _private: low + high }
    }

    /// The packed word, as it is uploaded to the GPU.
    pub fn to_bits(self) -> (word: u64)
        ensures
            word == self.bits(),
    {
        self._private
    }

    /// The low lane.
    pub fn x(self) -> (x: u32)
        ensures
            x == self@.0,
    {
        let word: u64 = self._private;
        let low: u64 = word & 0xffff_ffff;
        assert(low <= 0xffff_ffff) by (bit_vector)
            requires
                low == word & 0xffff_ffff,
        ;
        low as u32
    }

    /// The high lane.
    pub fn y(self) -> (y: u32)
        ensures
            y == self@.1,
    {
        let word: u64 = self._private;
        let high: u64 = (word >> 32) & 0xffff_ffff;
        assert(high <= 0xffff_ffff) by (bit_vector)
            requires
                high == (word >> 32) & 0xffff_ffff,
        ;
        high as u32
    }
}

/// Packing keeps both lanes: the vector made of `x` and `y` has the lanes
/// `x` and `y`, and its word is `x` in the low half and `y` in the high half.
pub proof fn lemma_new_has_its_lanes(x: u32, y: u32)
    ensures
        vector_uint2::new(x, y)@ == (x, y),
        vector_uint2::new(x, y).bits() == pack_lanes(x, y),
{
    assert((pack_lanes(x, y) & 0xffff_ffff) as u32 == x && ((pack_lanes(x, y) >> 32)
        & 0xffff_ffff) as u32 == y) by (bit_vector);
}

/// A vector is determined by its lanes: packing the lanes of a vector gives
/// the vector back, so two vectors with the same lanes are the same vector.
pub proof fn lemma_lanes_determine_vector(a: vector_uint2, b: vector_uint2)
    ensures
        a == vector_uint2::new(a@.0, a@.1),
        a@ == b@ ==> a == b,
{
    let wa = a._private;
    let wb = b._private;
    assert(wa == pack_lanes((wa & 0xffff_ffff) as u32, ((wa >> 32) & 0xffff_ffff) as u32))
        by (bit_vector);
    assert(wb == pack_lanes((wb & 0xffff_ffff) as u32, ((wb >> 32) & 0xffff_ffff) as u32))
        by (bit_vector);
}

} // verus!
