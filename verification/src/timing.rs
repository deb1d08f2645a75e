//! Timing derivation: the register values that realize a target bus
//! frequency against the fixed reference clock.

use vstd::prelude::*;

verus! {

/// The reference clock the bus timing is derived from, in hertz.
pub const REFERENCE_CLOCK_HZ: u32 = 80_000_000;

/// The derived timing-register values, computed once at construction.
#[derive(Clone, Copy, Debug, PartialEq, Eq, Structural)]
pub struct TimingProfile {
    /// Clock-low half period, in reference-clock cycles.
    pub scl_low: u16,
    /// Clock-high half period, in reference-clock cycles.
    pub scl_high: u16,
    /// Data hold time after a clock edge.
    pub sda_hold: u16,
    /// Data sample point inside the clock-high half period.
    pub sda_sample: u16,
    /// Start/stop setup time.
    pub setup: u16,
    /// Start/stop hold time.
    pub hold: u16,
    /// Bus timeout, a ten-nominal-bus-cycle heuristic.
    pub timeout: u32,
}

/// Half of one nominal bus-clock cycle, in reference-clock cycles.
pub open spec fn spec_half_cycle(freq: u32) -> int {
    (REFERENCE_CLOCK_HZ as int / freq as int) / 2
}

/// Whether a target frequency can be realized: positive, at most half
/// the reference clock, and with a half cycle that fits its register.
pub open spec fn freq_valid(freq: u32) -> bool {
    &&& 0 < freq
    &&& freq <= REFERENCE_CLOCK_HZ / 2
    &&& spec_half_cycle(freq) <= 0xFFFF
}

/// The timing profile derived from a valid target frequency.
pub open spec fn spec_timing(freq: u32) -> TimingProfile {
    let half = spec_half_cycle(freq);
    TimingProfile {
        scl_low: half as u16,
        scl_high: half as u16,
        sda_hold: (half / 2) as u16,
        sda_sample: (half / 2) as u16,
        setup: half as u16,
        hold: half as u16,
        timeout: (half * 20) as u32,
    }
}

impl TimingProfile {
    /// Derive the timing-register values for a target bus frequency, or
    /// nothing when the frequency is out of range.
    pub fn derive(freq: u32) -> (r: Option<TimingProfile>)
        ensures
            freq_valid(freq) ==> r == Some(spec_timing(freq)),
            !freq_valid(freq) ==> r is None,
    {
        if freq == 0 || freq > REFERENCE_CLOCK_HZ / 2 {
            return None;
        }
        let half_wide: u32 = (REFERENCE_CLOCK_HZ / freq) / 2;
        if half_wide > 0xFFFF {
            return None;
        }
        let half: u16 = half_wide as u16;
        Some(
            TimingProfile {
                scl_low: half,
                scl_high: half,
                sda_hold: half / 2,
                sda_sample: half / 2,
                setup: half,
                hold: half,
                timeout: (half as u32) * 20,
            },
        )
    }
}

} // verus!
