//! Discrete parameter model of the three engines.
//!
//! Every engine is configured from a small set of enumerated controls.  The
//! time constants and thresholds attached to those controls are exact
//! integers when stated in microseconds and millidecibels, so the tables live
//! here with full contracts; the host layer converts them to seconds or
//! decibels where a smoothing coefficient has to be derived.

use vstd::prelude::*;

verus! {

/// Slope of the input-stage high/low cut, in decibels per octave.
/// Each step of 12 dB/octave costs one cascaded second-order section.
#[derive(Clone, Copy, Debug, PartialEq, Eq, Structural)]
pub enum FilterSlope {
    Slope12DB,
    Slope24DB,
    Slope36DB,
    Slope48DB,
}

/// Named time-constant presets of the compressor.  Each preset fixes four
/// independent time constants: envelope attack/release and gain
/// attack/release.
#[derive(Clone, Copy, Debug, PartialEq, Eq, Structural)]
pub enum CompressionPreset {
    Drums,
    Vocals,
    Bass,
    Guitar,
    Master,
    Snappy,
    Glue,
    Punch,
}

/// Compression ratio control; only whole ratios are offered.
#[derive(Clone, Copy, Debug, PartialEq, Eq, Structural)]
pub enum Ratio {
    Half,
    Third,
    Quarter,
}

/// Character of the harmonic colorizer.
#[derive(Clone, Copy, Debug, PartialEq, Eq, Structural)]
pub enum ColorType {
    Warm,
    Bright,
    Vintage,
}

impl FilterSlope {
    /// Number of cascaded second-order sections needed for this slope:
    /// one section per 12 dB/octave.
    pub open spec fn spec_num_filters(self) -> int {
        match self {
            FilterSlope::Slope12DB => 1,
            FilterSlope::Slope24DB => 2,
            FilterSlope::Slope36DB => 3,
            FilterSlope::Slope48DB => 4,
        }
    }

    /// Per-section quality factor for this slope, in thousandths, chosen so
    /// the cascade stays close to maximally flat instead of resonant.
    pub open spec fn spec_q_millis(self) -> int {
        match self {
            FilterSlope::Slope12DB => 1000,
            FilterSlope::Slope24DB => 1200,
            FilterSlope::Slope36DB => 1400,
            FilterSlope::Slope48DB => 1800,
        }
    }

    /// How many second-order sections the cut filter of this slope cascades.
    pub fn num_filters(&self) -> (n: usize)
        ensures
            n == self.spec_num_filters(),
            1 <= n <= 4,
    {
        match self {
            FilterSlope::Slope12DB => 1,
            FilterSlope::Slope24DB => 2,
            FilterSlope::Slope36DB => 3,
            FilterSlope::Slope48DB => 4,
        }
    }

    /// Per-section quality factor in thousandths.
    pub fn q_millis(&self) -> (q: u32)
        ensures
            q == self.spec_q_millis(),
    {
        match self {
            FilterSlope::Slope12DB => 1000,
            FilterSlope::Slope24DB => 1200,
            FilterSlope::Slope36DB => 1400,
            FilterSlope::Slope48DB => 1800,
        }
    }
}

impl CompressionPreset {
    /// Envelope attack time of the preset, in microseconds.
    pub open spec fn spec_attack_micros(self) -> int {
        match self {
            CompressionPreset::Drums => 5000,
            CompressionPreset::Vocals => 15000,
            CompressionPreset::Bass => 20000,
            CompressionPreset::Guitar => 10000,
            CompressionPreset::Master => 30000,
            CompressionPreset::Snappy => 2000,
            CompressionPreset::Glue => 50000,
            CompressionPreset::Punch => 8000,
        }
    }

    /// Envelope release time of the preset, in microseconds.
    pub open spec fn spec_release_micros(self) -> int {
        match self {
            CompressionPreset::Drums => 80000,
            CompressionPreset::Vocals => 150000,
            CompressionPreset::Bass => 120000,
            CompressionPreset::Guitar => 100000,
            CompressionPreset::Master => 250000,
            CompressionPreset::Snappy => 60000,
            CompressionPreset::Glue => 300000,
            CompressionPreset::Punch => 100000,
        }
    }

    /// Gain attack time of the preset, in microseconds.  The gain pair is
    /// kept separate from (and generally faster than) the envelope pair.
    pub open spec fn spec_gain_attack_micros(self) -> int {
        match self {
            CompressionPreset::Drums => 3000,
            CompressionPreset::Vocals => 10000,
            CompressionPreset::Bass => 15000,
            CompressionPreset::Guitar => 8000,
            CompressionPreset::Master => 20000,
            CompressionPreset::Snappy => 1000,
            CompressionPreset::Glue => 30000,
            CompressionPreset::Punch => 5000,
        }
    }

    /// Gain release time of the preset, in microseconds.
    pub open spec fn spec_gain_release_micros(self) -> int {
        match self {
            CompressionPreset::Drums => 100000,
            CompressionPreset::Vocals => 180000,
            CompressionPreset::Bass => 150000,
            CompressionPreset::Guitar => 120000,
            CompressionPreset::Master => 300000,
            CompressionPreset::Snappy => 80000,
            CompressionPreset::Glue => 400000,
            CompressionPreset::Punch => 150000,
        }
    }

    /// Envelope attack time, in microseconds.
    pub fn attack_micros(&self) -> (t: u32)
        ensures
            t == self.spec_attack_micros(),
            0 < t,
    {
        match self {
            CompressionPreset::Drums => 5000,
            CompressionPreset::Vocals => 15000,
            CompressionPreset::Bass => 20000,
            CompressionPreset::Guitar => 10000,
            CompressionPreset::Master => 30000,
            CompressionPreset::Snappy => 2000,
            CompressionPreset::Glue => 50000,
            CompressionPreset::Punch => 8000,
        }
    }

    /// Envelope release time, in microseconds.
    pub fn release_micros(&self) -> (t: u32)
        ensures
            t == self.spec_release_micros(),
            0 < t,
    {
        match self {
            CompressionPreset::Drums => 80000,
            CompressionPreset::Vocals => 150000,
            CompressionPreset::Bass => 120000,
            CompressionPreset::Guitar => 100000,
            CompressionPreset::Master => 250000,
            CompressionPreset::Snappy => 60000,
            CompressionPreset::Glue => 300000,
            CompressionPreset::Punch => 100000,
        }
    }

    /// Gain attack time, in microseconds.
    pub fn gain_attack_micros(&self) -> (t: u32)
        ensures
            t == self.spec_gain_attack_micros(),
            0 < t,
    {
        match self {
            CompressionPreset::Drums => 3000,
            CompressionPreset::Vocals => 10000,
            CompressionPreset::Bass => 15000,
            CompressionPreset::Guitar => 8000,
            CompressionPreset::Master => 20000,
            CompressionPreset::Snappy => 1000,
            CompressionPreset::Glue => 30000,
            CompressionPreset::Punch => 5000,
        }
    }

    /// Gain release time, in microseconds.
    pub fn gain_release_micros(&self) -> (t: u32)
        ensures
            t == self.spec_gain_release_micros(),
            0 < t,
    {
        match self {
            CompressionPreset::Drums => 100000,
            CompressionPreset::Vocals => 180000,
            CompressionPreset::Bass => 150000,
            CompressionPreset::Guitar => 120000,
            CompressionPreset::Master => 300000,
            CompressionPreset::Snappy => 80000,
            CompressionPreset::Glue => 400000,
            CompressionPreset::Punch => 150000,
        }
    }
}

impl Ratio {
    /// The numeric ratio r of an r:1 setting.
    pub open spec fn spec_value(self) -> int {
        match self {
            Ratio::Half => 2,
            Ratio::Third => 3,
            Ratio::Quarter => 4,
        }
    }

    /// The numeric ratio r of an r:1 setting.
    pub fn value(&self) -> (r: u32)
        ensures
            r == self.spec_value(),
            2 <= r <= 4,
    {
        match self {
            Ratio::Half => 2,
            Ratio::Third => 3,
            Ratio::Quarter => 4,
        }
    }
}

impl ColorType {
    /// Excess-detection attack time of the character, in microseconds.
    pub open spec fn spec_attack_micros(self) -> int {
        match self {
            ColorType::Warm => 8000,
            ColorType::Bright => 2000,
            ColorType::Vintage => 15000,
        }
    }

    /// Excess-detection release time of the character, in microseconds.
    pub open spec fn spec_release_micros(self) -> int {
        match self {
            ColorType::Warm => 120000,
            ColorType::Bright => 60000,
            ColorType::Vintage => 200000,
        }
    }

    /// Coloration threshold of the character, in millidecibels.  Signal level
    /// above this threshold drives the character's coloration function.
    pub open spec fn spec_threshold_mdb(self) -> int {
        match self {
            ColorType::Warm => -12000,
            ColorType::Bright => -24000,
            ColorType::Vintage => -18000,
        }
    }

    /// Excess-detection attack time, in microseconds.
    pub fn attack_micros(&self) -> (t: u32)
        ensures
            t == self.spec_attack_micros(),
            0 < t,
    {
        match self {
            ColorType::Warm => 8000,
            ColorType::Bright => 2000,
            ColorType::Vintage => 15000,
        }
    }

    /// Excess-detection release time, in microseconds.
    pub fn release_micros(&self) -> (t: u32)
        ensures
            t == self.spec_release_micros(),
            0 < t,
    {
        match self {
            ColorType::Warm => 120000,
            ColorType::Bright => 60000,
            ColorType::Vintage => 200000,
        }
    }

    /// Coloration threshold, in millidecibels.
    pub fn threshold_mdb(&self) -> (t: i64)
        ensures
            t == self.spec_threshold_mdb(),
            -24000 <= t <= -12000,
    {
        match self {
            ColorType::Warm => -12000,
            ColorType::Bright => -24000,
            ColorType::Vintage => -18000,
        }
    }
}

} // verus!
