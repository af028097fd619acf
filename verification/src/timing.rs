//! Symbol timing: the relationship between the audio sample rate and the
//! symbol rate, used by the modulator and demodulator for deterministic
//! decimation.  No timing recovery happens here; acquisition is handled by
//! the receiver's energy search over sample phases.

use vstd::prelude::*;

verus! {

/// Default symbol rate in baud.
pub const DEFAULT_SYMBOL_RATE: u32 = 2400;

/// Relationship between sample rate and symbol rate.
///
/// Implementations fix how many samples make up one symbol period, which
/// sample within the period carries the TX impulse, and where the RX
/// decision is taken.
pub trait SymbolTiming {
    /// Samples per symbol period, as seen by contracts.
    spec fn spec_samples_per_symbol(&self) -> usize;

    /// Sample rate in Hz, as seen by contracts.
    spec fn spec_sample_rate(&self) -> u32;

    /// Symbol rate in baud, as seen by contracts.
    spec fn spec_symbol_rate(&self) -> u32;

    /// Samples per symbol period.
    fn samples_per_symbol(&self) -> (r: usize)
        ensures
            r == self.spec_samples_per_symbol(),
    ;

    /// Sample rate in Hz.
    fn sample_rate(&self) -> (r: u32)
        ensures
            r == self.spec_sample_rate(),
    ;

    /// Symbol rate in baud.
    fn symbol_rate(&self) -> (r: u32)
        ensures
            r == self.spec_symbol_rate(),
    ;

    /// Sample index within the symbol period where the impulse is placed on
    /// transmit and where the decision is made on receive: the middle of the
    /// period.
    fn impulse_offset(&self) -> (r: usize)
        ensures
            r == self.spec_samples_per_symbol() / 2,
    ;
}

/// Fixed symbol timing: deterministic decimation for a known symbol rate.
///
/// Valid only when the sample rate is an integer multiple of the symbol
/// rate; construction demands that of its caller.
#[derive(Debug, Clone, Copy)]
pub struct FixedTiming {
    sample_rate: u32,
    symbol_rate: u32,
    samples_per_symbol: usize,
}

impl FixedTiming {
    /// Create fixed timing from sample and symbol rates.
    ///
    /// The sample rate must be a positive integer multiple of the symbol
    /// rate; other inputs are rejected by the precondition.
    pub fn new(sample_rate: u32, symbol_rate: u32) -> (r: Self)
        requires
            symbol_rate > 0,
            sample_rate % symbol_rate == 0,
        ensures
            r.spec_sample_rate() == sample_rate,
            r.spec_symbol_rate() == symbol_rate,
            r.spec_samples_per_symbol() == sample_rate / symbol_rate,
    {
        FixedTiming {
            sample_rate,
            symbol_rate,
            samples_per_symbol: (sample_rate / symbol_rate) as usize,
        }
    }

    /// Create with the default symbol rate.
    pub fn default_for_sample_rate(sample_rate: u32) -> (r: Self)
        requires
            sample_rate % DEFAULT_SYMBOL_RATE == 0,
        ensures
            r.spec_sample_rate() == sample_rate,
            r.spec_symbol_rate() == DEFAULT_SYMBOL_RATE,
            r.spec_samples_per_symbol() == sample_rate / DEFAULT_SYMBOL_RATE,
    {
        FixedTiming::new(sample_rate, DEFAULT_SYMBOL_RATE)
    }
}

impl SymbolTiming for FixedTiming {
    closed spec fn spec_samples_per_symbol(&self) -> usize {
        self.samples_per_symbol
    }

    closed spec fn spec_sample_rate(&self) -> u32 {
        self.sample_rate
    }

    closed spec fn spec_symbol_rate(&self) -> u32 {
        self.symbol_rate
    }

    fn samples_per_symbol(&self) -> (r: usize) {
        self.samples_per_symbol
    }

    fn sample_rate(&self) -> (r: u32) {
        self.sample_rate
    }

    fn symbol_rate(&self) -> (r: u32) {
        self.symbol_rate
    }

    fn impulse_offset(&self) -> (r: usize) {
        self.samples_per_symbol / 2
    }
}

} // verus!
