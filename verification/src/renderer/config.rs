//! Pacing presets for how often an output is serviced.

use vstd::prelude::*;

verus! {

/// How long the event loop may rest between servicing an output, expressed
/// as a period in microseconds (one second divided by the refresh rate).
#[derive(Debug, Clone, Copy)]
pub struct OutputConfig {
    /// The pacing period in microseconds.
    pub pace_micros: u64,
}

impl OutputConfig {
    /// A 60 Hz service period.
    pub fn high() -> (r: Self)
        ensures
            r.pace_micros == 1_000_000u64 / 60,
    {
        Self { pace_micros: 1_000_000u64 / 60 }
    }

    /// A 30 Hz service period.
    pub fn medium() -> (r: Self)
        ensures
            r.pace_micros == 1_000_000u64 / 30,
    {
        Self { pace_micros: 1_000_000u64 / 30 }
    }

    /// A 15 Hz service period.
    pub fn low() -> (r: Self)
        ensures
            r.pace_micros == 1_000_000u64 / 15,
    {
        Self { pace_micros: 1_000_000u64 / 15 }
    }
}

impl Default for OutputConfig {
    /// The default pace is the medium preset.
    fn default() -> (r: Self)
        ensures
            r.pace_micros == 1_000_000u64 / 30,
    {
        Self::medium()
    }
}

} // verus!
