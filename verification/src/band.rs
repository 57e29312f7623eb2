//! Health-band classification of usage percentages.
//!
//! The same three bands apply uniformly to CPU, memory, swap and per-volume
//! usage: below 50.0% is normal, from 50.0% up to (but excluding) 80.0% is a
//! warning, and from 80.0% on is critical.

use vstd::prelude::*;

verus! {

/// Lower bound of the warning band, in tenths of a percent.
pub const WARNING_TENTHS: u32 = 500;

/// Lower bound of the critical band, in tenths of a percent.
pub const CRITICAL_TENTHS: u32 = 800;

/// Health band of a usage percentage.
#[derive(Clone, Copy, Debug, PartialEq, Eq, Structural)]
pub enum HealthBand {
    Normal,
    Warning,
    Critical,
}

/// Band that a usage value, in tenths of a percent, falls into.
pub open spec fn spec_band_of(usage_tenths: u32) -> HealthBand {
    if usage_tenths < WARNING_TENTHS {
        HealthBand::Normal
    } else if usage_tenths < CRITICAL_TENTHS {
        HealthBand::Warning
    } else {
        HealthBand::Critical
    }
}

/// Classifies a usage value given in tenths of a percent: `499` (49.9%) is
/// still normal, `500` (50.0%) is a warning, and `800` (80.0%) is critical.
pub fn band_of(usage_tenths: u32) -> (band: HealthBand)
    ensures
        band == spec_band_of(usage_tenths),
{
    if usage_tenths < WARNING_TENTHS {
        HealthBand::Normal
    } else if usage_tenths < CRITICAL_TENTHS {
        HealthBand::Warning
    } else {
        HealthBand::Critical
    }
}

} // verus!
