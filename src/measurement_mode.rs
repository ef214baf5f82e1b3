use vstd::prelude::*;

verus! {

/// A measurement mode of the chip.
#[derive(Debug, Clone, Copy, PartialEq, Eq, Structural)]
pub enum MeasurementMode {
    /// 1.2g full-scale, 40 Hz first-order low-pass filter
    FullScale12,
    /// 2.4g full-scale, 70 Hz first-order low-pass filter
    FullScale24,
    /// Inclination mode, 10 Hz first-order low-pass filter
    Inclination,
    /// Inclination (low noise) mode, 10 Hz first-order low-pass filter
    InclinationLowNoise,
}

/// Acceleration sensitivity in LSB per g.
pub open spec fn sensitivity_of(m: MeasurementMode) -> u16 {
    match m {
        MeasurementMode::FullScale12 => 6000,
        MeasurementMode::FullScale24 => 3000,
        MeasurementMode::Inclination | MeasurementMode::InclinationLowNoise => 12000,
    }
}

/// The largest magnitude of a passing self-test reading.
pub open spec fn self_test_limit(m: MeasurementMode) -> i16 {
    match m {
        MeasurementMode::FullScale12 => 1800,
        MeasurementMode::FullScale24 => 900,
        MeasurementMode::Inclination | MeasurementMode::InclinationLowNoise => 3600,
    }
}

/// Settle time in nanoseconds after the angle outputs are enabled.
pub open spec fn settle_time_ns(m: MeasurementMode) -> u32 {
    match m {
        MeasurementMode::FullScale12 => 25_000_000,
        MeasurementMode::FullScale24 => 15_000_000,
        MeasurementMode::Inclination | MeasurementMode::InclinationLowNoise => 100_000_000,
    }
}

impl Default for MeasurementMode {
    fn default() -> (r: Self)
        ensures
            r == MeasurementMode::FullScale12,
    {
        Self::new()
    }
}

impl MeasurementMode {
    /// The default mode, 1.2g full-scale.
    pub fn new() -> (r: Self)
        ensures
            r == MeasurementMode::FullScale12,
    {
        MeasurementMode::FullScale12
    }

    /// The inclusive range `(low, high)` of self-test readings that pass.
    pub fn self_test_thresholds(&self) -> (r: (i16, i16))
        ensures
            r.0 == -self_test_limit(*self),
            r.1 == self_test_limit(*self),
    {
        match self {
            MeasurementMode::FullScale12 => (-1800, 1800),
            MeasurementMode::FullScale24 => (-900, 900),
            MeasurementMode::Inclination | MeasurementMode::InclinationLowNoise => (-3600, 3600),
        }
    }

    /// Acceleration sensitivity in LSB per g.
    pub fn acceleration_sensitivity(&self) -> (r: u16)
        ensures
            r == sensitivity_of(*self),
            r > 0,
    {
        match self {
            MeasurementMode::FullScale12 => 6000,
            MeasurementMode::FullScale24 => 3000,
            MeasurementMode::Inclination | MeasurementMode::InclinationLowNoise => 12000,
        }
    }

    /// How long to wait, in nanoseconds, after enabling the angle outputs.
    pub fn start_up_wait_time_ns(&self) -> (r: u32)
        ensures
            r == settle_time_ns(*self),
            r > 0,
    {
        match self {
            MeasurementMode::FullScale12 => 25_000_000,
            MeasurementMode::FullScale24 => 15_000_000,
            MeasurementMode::Inclination | MeasurementMode::InclinationLowNoise => 100_000_000,
        }
    }
}

} // verus!
