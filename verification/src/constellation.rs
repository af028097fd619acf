//! Constellation bookkeeping: alphabet sizes, bits per symbol, and the
//! 3-bit Gray code that the 64-QAM grid mapping is built on.
//!
//! The geometric side of each constellation (symbol to I/Q coordinates and
//! the nearest-point slicer) is floating-point and lives outside the
//! verified library; the structural facts it relies on are stated and
//! proved here.

use vstd::prelude::*;

verus! {

/// The six constellations of the engine, selectable at run time.
#[derive(Debug, Clone, Copy, PartialEq, Eq, Structural)]
pub enum ConstellationType {
    Bpsk,
    Qpsk,
    Psk8,
    Qam16,
    Qam32,
    Qam64,
}

impl ConstellationType {
    /// Number of points in the constellation, as seen by contracts.
    pub open spec fn spec_order(self) -> usize {
        match self {
            ConstellationType::Bpsk => 2,
            ConstellationType::Qpsk => 4,
            ConstellationType::Psk8 => 8,
            ConstellationType::Qam16 => 16,
            ConstellationType::Qam32 => 32,
            ConstellationType::Qam64 => 64,
        }
    }

    /// Bits carried by one symbol, as seen by contracts.
    pub open spec fn spec_bits_per_symbol(self) -> usize {
        match self {
            ConstellationType::Bpsk => 1,
            ConstellationType::Qpsk => 2,
            ConstellationType::Psk8 => 3,
            ConstellationType::Qam16 => 4,
            ConstellationType::Qam32 => 5,
            ConstellationType::Qam64 => 6,
        }
    }

    /// Number of points in the constellation.
    pub fn order(&self) -> (r: usize)
        ensures
            r == self.spec_order(),
    {
        match self {
            ConstellationType::Bpsk => 2,
            ConstellationType::Qpsk => 4,
            ConstellationType::Psk8 => 8,
            ConstellationType::Qam16 => 16,
            ConstellationType::Qam32 => 32,
            ConstellationType::Qam64 => 64,
        }
    }

    /// Bits carried by one symbol.
    pub fn bits_per_symbol(&self) -> (r: usize)
        ensures
            r == self.spec_bits_per_symbol(),
    {
        match self {
            ConstellationType::Bpsk => 1,
            ConstellationType::Qpsk => 2,
            ConstellationType::Psk8 => 3,
            ConstellationType::Qam16 => 4,
            ConstellationType::Qam32 => 5,
            ConstellationType::Qam64 => 6,
        }
    }
}

/// The alphabet size is exactly two to the bits per symbol, for every
/// constellation.
pub proof fn lemma_order_matches_bits(c: ConstellationType)
    ensures
        c.spec_order() == (1usize << c.spec_bits_per_symbol()),
{
    assert(1usize << 1usize == 2usize) by (bit_vector);
    assert(1usize << 2usize == 4usize) by (bit_vector);
    assert(1usize << 3usize == 8usize) by (bit_vector);
    assert(1usize << 4usize == 16usize) by (bit_vector);
    assert(1usize << 5usize == 32usize) by (bit_vector);
    assert(1usize << 6usize == 64usize) by (bit_vector);
}

/// Binary phase-shift keying: two points on the real axis.
#[derive(Debug, Clone, Copy, Default)]
pub struct Bpsk;

/// Quadrature phase-shift keying: the four Gray-coded quadrant points.
#[derive(Debug, Clone, Copy, Default)]
pub struct Qpsk;

/// Eight-point phase-shift keying at multiples of a quarter-pi.
#[derive(Debug, Clone, Copy, Default)]
pub struct Psk8;

/// 16-point quadrature amplitude modulation.
#[derive(Debug, Clone, Copy, Default)]
pub struct Qam16;

/// 32-point quadrature amplitude modulation; its table has 24 unique points
/// and replicates the first eight under indices 24 to 31.
#[derive(Debug, Clone, Copy, Default)]
pub struct Qam32;

/// 64-point quadrature amplitude modulation on a Gray-coded 8-by-8 grid.
#[derive(Debug, Clone, Copy, Default)]
pub struct Qam64;

impl Bpsk {
    /// Number of points in the constellation.
    pub fn order(&self) -> (r: usize)
        ensures
            r == ConstellationType::Bpsk.spec_order(),
    {
        2
    }

    /// Bits carried by one symbol.
    pub fn bits_per_symbol(&self) -> (r: usize)
        ensures
            r == ConstellationType::Bpsk.spec_bits_per_symbol(),
    {
        1
    }
}

impl Qpsk {
    /// Number of points in the constellation.
    pub fn order(&self) -> (r: usize)
        ensures
            r == ConstellationType::Qpsk.spec_order(),
    {
        4
    }

    /// Bits carried by one symbol.
    pub fn bits_per_symbol(&self) -> (r: usize)
        ensures
            r == ConstellationType::Qpsk.spec_bits_per_symbol(),
    {
        2
    }
}

impl Psk8 {
    /// Number of points in the constellation.
    pub fn order(&self) -> (r: usize)
        ensures
            r == ConstellationType::Psk8.spec_order(),
    {
        8
    }

    /// Bits carried by one symbol.
    pub fn bits_per_symbol(&self) -> (r: usize)
        ensures
            r == ConstellationType::Psk8.spec_bits_per_symbol(),
    {
        3
    }
}

impl Qam16 {
    /// Number of points in the constellation.
    pub fn order(&self) -> (r: usize)
        ensures
            r == ConstellationType::Qam16.spec_order(),
    {
        16
    }

    /// Bits carried by one symbol.
    pub fn bits_per_symbol(&self) -> (r: usize)
        ensures
            r == ConstellationType::Qam16.spec_bits_per_symbol(),
    {
        4
    }
}

impl Qam32 {
    /// Number of points in the constellation.
    pub fn order(&self) -> (r: usize)
        ensures
            r == ConstellationType::Qam32.spec_order(),
    {
        32
    }

    /// Bits carried by one symbol.
    pub fn bits_per_symbol(&self) -> (r: usize)
        ensures
            r == ConstellationType::Qam32.spec_bits_per_symbol(),
    {
        5
    }
}

impl Qam64 {
    /// Number of points in the constellation.
    pub fn order(&self) -> (r: usize)
        ensures
            r == ConstellationType::Qam64.spec_order(),
    {
        64
    }

    /// Bits carried by one symbol.
    pub fn bits_per_symbol(&self) -> (r: usize)
        ensures
            r == ConstellationType::Qam64.spec_bits_per_symbol(),
    {
        6
    }
}

/// Level index, 0 through 7, that a 3-bit Gray code word stands for in the
/// 64-QAM grid.
pub open spec fn spec_gray3_to_index(gray: u8) -> usize {
    let g = gray % 8;
    if g == 0b000 {
        0
    } else if g == 0b001 {
        1
    } else if g == 0b011 {
        2
    } else if g == 0b010 {
        3
    } else if g == 0b110 {
        4
    } else if g == 0b111 {
        5
    } else if g == 0b101 {
        6
    } else {
        7
    }
}

/// Gray code word for a level index; indices past 7 fall back to the word
/// for level 0.
pub open spec fn spec_index_to_gray3(idx: usize) -> u8 {
    if idx == 0 {
        0b000
    } else if idx == 1 {
        0b001
    } else if idx == 2 {
        0b011
    } else if idx == 3 {
        0b010
    } else if idx == 4 {
        0b110
    } else if idx == 5 {
        0b111
    } else if idx == 6 {
        0b101
    } else if idx == 7 {
        0b100
    } else {
        0b000
    }
}

/// Convert a 3-bit Gray code word to its level index (0 through 7).
///
/// Bits above the low three are ignored, as the 64-QAM mapping masks each
/// axis to three bits.
pub fn gray3_to_index(gray: u8) -> (r: usize)
    ensures
        r == spec_gray3_to_index(gray),
            r < 8,
{
    proof {
        assert((gray & 0x07) == gray % 8) by (bit_vector);
    }
    let g = gray & 0x07;
    if g == 0b000 {
        0
    } else if g == 0b001 {
        1
    } else if g == 0b011 {
        2
    } else if g == 0b010 {
        3
    } else if g == 0b110 {
        4
    } else if g == 0b111 {
        5
    } else if g == 0b101 {
        6
    } else {
        7
    }
}

/// Convert a level index (0 through 7) to its 3-bit Gray code word.
pub fn index_to_gray3(idx: usize) -> (r: u8)
    ensures
        r == spec_index_to_gray3(idx),
        r < 8,
{
    if idx == 0 {
        0b000
    } else if idx == 1 {
        0b001
    } else if idx == 2 {
        0b011
    } else if idx == 3 {
        0b010
    } else if idx == 4 {
        0b110
    } else if idx == 5 {
        0b111
    } else if idx == 6 {
        0b101
    } else if idx == 7 {
        0b100
    } else {
        0b000
    }
}

/// The Gray coding of the 64-QAM axes round-trips: every level index comes
/// back from its code word, and every 3-bit word comes back from its level.
pub proof fn lemma_gray3_round_trip(idx: usize, gray: u8)
    ensures
        idx < 8 ==> spec_gray3_to_index(spec_index_to_gray3(idx)) == idx,
        gray < 8 ==> spec_index_to_gray3(spec_gray3_to_index(gray)) == gray,
{
}

} // verus!
