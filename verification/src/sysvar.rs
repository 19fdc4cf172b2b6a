//! The system variables that the ledger keeps: the clock and the rent
//! parameters, and the feature flags that the pipeline consults.

use vstd::prelude::*;

verus! {

/// The clock system variable.
#[derive(Clone, Copy, Debug, PartialEq, Eq, Structural)]
pub struct Clock {
    pub slot: u64,
    pub epoch_start_timestamp: i64,
    pub epoch: u64,
    pub leader_schedule_epoch: u64,
    pub unix_timestamp: i64,
}

impl Default for Clock {
    fn default() -> (r: Self)
        ensures
            r == Clock::initial(),
    {
        Clock {
            slot: 0,
            epoch_start_timestamp: 0,
            epoch: 0,
            leader_schedule_epoch: 0,
            unix_timestamp: 0,
        }
    }
}

impl Clock {
    /// The clock of a fresh ledger: every field zero.
    pub open spec fn initial() -> Clock {
        Clock {
            slot: 0,
            epoch_start_timestamp: 0,
            epoch: 0,
            leader_schedule_epoch: 0,
            unix_timestamp: 0,
        }
    }
}

/// The rent system variable. The exemption threshold is kept as the bits of
/// its 64-bit floating-point value.
#[derive(Clone, Copy, Debug, PartialEq, Eq, Structural)]
pub struct Rent {
    pub lamports_per_byte_year: u64,
    pub exemption_threshold_bits: u64,
    pub burn_percent: u8,
}

impl Default for Rent {
    fn default() -> (r: Self)
        ensures
            r == Rent::initial(),
    {
        Rent {
            lamports_per_byte_year: 3480,
            exemption_threshold_bits: 0x4000_0000_0000_0000,
            burn_percent: 50,
        }
    }
}

impl Rent {
    /// The rent parameters of a fresh ledger: 3480 lamports per byte-year,
    /// an exemption threshold of two years, and a burn of 50 percent.
    pub open spec fn initial() -> Rent {
        Rent {
            lamports_per_byte_year: 3480,
            exemption_threshold_bits: 0x4000_0000_0000_0000,
            burn_percent: 50,
        }
    }
}

/// The system variables as execution reads them, kept beside their accounts.
#[derive(Clone, Copy, Debug, PartialEq, Eq, Structural)]
pub struct SysvarCache {
    pub clock: Clock,
    pub rent: Rent,
}

impl Default for SysvarCache {
    fn default() -> (r: Self)
        ensures
            r == (SysvarCache { clock: Clock::initial(), rent: Rent::initial() }),
    {
        SysvarCache { clock: Clock::default(), rent: Rent::default() }
    }
}

/// The features that change what the pipeline does. None is active by
/// default.
#[derive(Clone, Copy, Debug, PartialEq, Eq, Structural)]
pub struct FeatureSet {
    /// Whether the synthesized instructions account is owned by the
    /// system-variable owner instead of the system program.
    pub instructions_sysvar_owned_by_sysvar: bool,
}

impl Default for FeatureSet {
    fn default() -> (r: Self)
        ensures
            r == (FeatureSet { instructions_sysvar_owned_by_sysvar: false }),
    {
        FeatureSet { instructions_sysvar_owned_by_sysvar: false }
    }
}

} // verus!
