//! The telemetry snapshot that travels through the relay.

use vstd::prelude::*;

verus! {

/// A measurement, held as the bit pattern of an IEEE 754 single-precision
/// number (what `f32::to_bits` gives and `f32::from_bits` takes).
#[derive(Clone, Copy, Debug, PartialEq, Eq, Structural)]
pub struct Reading {
    pub bits: u32,
}

/// Mask of the eight exponent bits of a single-precision number.
pub const EXPONENT_MASK: u32 = 0x7f80_0000;

impl Reading {
    /// A reading is finite when its exponent is not all ones, that is when it
    /// is neither an infinity nor a NaN.
    pub open spec fn finite(self) -> bool {
        self.bits & EXPONENT_MASK != EXPONENT_MASK
    }

    /// The reading with the given bit pattern.
    pub fn from_bits(bits: u32) -> (r: Reading)
        ensures
            r.bits == bits,
    {
        Reading { bits }
    }

    /// The bit pattern of the reading.
    pub fn to_bits(self) -> (r: u32)
        ensures
            r == self.bits,
    {
        self.bits
    }

    /// Positive zero.
    pub fn zero() -> (r: Reading)
        ensures
            r.bits == 0,
            r.finite(),
    {
        assert(0u32 & 0x7f80_0000u32 != 0x7f80_0000u32) by (bit_vector);
        Reading { bits: 0 }
    }

    /// Whether the reading is a finite number.
    pub fn is_finite(self) -> (r: bool)
        ensures
            r == self.finite(),
    {
        self.bits & EXPONENT_MASK != EXPONENT_MASK
    }
}

/// One immutable telemetry snapshot. All fields are set together: a sample is
/// produced whole or not at all.
#[derive(Clone, Copy, Debug, PartialEq, Eq, Structural)]
pub struct HatSample {
    /// Seconds since the Unix epoch, as the sender's clock gave them.
    pub timestamp: u64,
    /// Degrees Celsius.
    pub temperature: Reading,
    /// Percent relative humidity.
    pub humidity: Reading,
    /// Baseline resistance of the gas sensor.
    pub r_zero: Reading,
    /// Baseline resistance corrected for temperature and humidity.
    pub corrected_r_zero: Reading,
    /// Resistance measured now.
    pub resistance: Reading,
    /// Estimated gas concentration.
    pub ppm: Reading,
    /// Estimated gas concentration, corrected.
    pub corrected_ppm: Reading,
}

impl HatSample {
    /// The sample with every field zero: the value a relay starts with, and
    /// the one that stands in for a payload that could not be decoded.
    pub open spec fn zeroed() -> HatSample {
        HatSample {
            timestamp: 0,
            temperature: Reading { bits: 0 },
            humidity: Reading { bits: 0 },
            r_zero: Reading { bits: 0 },
            corrected_r_zero: Reading { bits: 0 },
            resistance: Reading { bits: 0 },
            ppm: Reading { bits: 0 },
            corrected_ppm: Reading { bits: 0 },
        }
    }

    /// A sample is well formed when every measurement is a finite number.
    pub open spec fn well_formed(self) -> bool {
        &&& self.temperature.finite()
        &&& self.humidity.finite()
        &&& self.r_zero.finite()
        &&& self.corrected_r_zero.finite()
        &&& self.resistance.finite()
        &&& self.ppm.finite()
        &&& self.corrected_ppm.finite()
    }

    /// Whether every measurement of the sample is a finite number.
    pub fn is_well_formed(&self) -> (r: bool)
        ensures
            r == self.well_formed(),
    {
        self.temperature.is_finite() && self.humidity.is_finite() && self.r_zero.is_finite()
            && self.corrected_r_zero.is_finite() && self.resistance.is_finite()
            && self.ppm.is_finite() && self.corrected_ppm.is_finite()
    }
}

impl Default for HatSample {
    fn default() -> (r: HatSample)
        ensures
            r == HatSample::zeroed(),
            r.well_formed(),
    {
        let zero = Reading::zero();
        HatSample {
            timestamp: 0,
            temperature: zero,
            humidity: zero,
            r_zero: zero,
            corrected_r_zero: zero,
            resistance: zero,
            ppm: zero,
            corrected_ppm: zero,
        }
    }
}

} // verus!
