//! Values read back from frontend property queries.

use vstd::prelude::*;

use crate::error::ScanError;
use crate::frontend::sys::property::{Command, FeCapScaleParams};
use crate::frontend::sys::{FeDeliverySystem, FeModulation};

verus! {

/// A statistics reading: either a value on a known scale or an event
/// count.
#[derive(Debug, Copy, Clone, PartialEq, Eq, Structural)]
pub enum StatResult {
    Value(ValueStat),
    Count(u64),
}

/// A statistics value: decibel-thousandths or a relative 0..65535
/// scale. The two scales are not numerically comparable.
#[derive(Debug, Copy, Clone, PartialEq, Eq, Structural)]
pub enum ValueStat {
    Decibel(i64),
    Relative(u64),
}

/// What [`StatResult::from_scale`] returns: how each scale kind picks
/// the signed or unsigned reading, and that an unavailable scale yields
/// nothing.
pub open spec fn spec_stat_result(
    scale: FeCapScaleParams,
    uvalue: u64,
    svalue: i64,
) -> Option<StatResult> {
    match scale {
        FeCapScaleParams::FE_SCALE_NOT_AVAILABLE => None,
        FeCapScaleParams::FE_SCALE_DECIBEL => Some(StatResult::Value(ValueStat::Decibel(svalue))),
        FeCapScaleParams::FE_SCALE_RELATIVE => Some(StatResult::Value(ValueStat::Relative(uvalue))),
        FeCapScaleParams::FE_SCALE_COUNTER => Some(StatResult::Count(uvalue)),
    }
}

impl StatResult {
    /// Interprets one raw statistics slot: the scale byte decides
    /// whether the signed or the unsigned reading is meaningful.
    pub fn from_scale(scale: FeCapScaleParams, uvalue: u64, svalue: i64) -> (r: Option<StatResult>)
        ensures
            r == spec_stat_result(scale, uvalue, svalue),
    {
        match scale {
            FeCapScaleParams::FE_SCALE_NOT_AVAILABLE => None,
            FeCapScaleParams::FE_SCALE_DECIBEL => Some(StatResult::Value(ValueStat::Decibel(
                svalue,
            ))),
            FeCapScaleParams::FE_SCALE_RELATIVE => Some(StatResult::Value(ValueStat::Relative(
                uvalue,
            ))),
            FeCapScaleParams::FE_SCALE_COUNTER => Some(StatResult::Count(uvalue)),
        }
    }
}

//
// ----- Individual queries

/// The delivery systems a frontend advertises.
#[derive(Debug, Clone)]
pub struct EnumerateDeliverySystems(pub Vec<FeDeliverySystem>);

impl EnumerateDeliverySystems {
    pub fn associated_command() -> (r: Command)
        ensures
            r == Command::DTV_ENUM_DELSYS,
    {
        Command::DTV_ENUM_DELSYS
    }
}

/// The currently tuned frequency.
#[derive(Debug, Copy, Clone, PartialEq, Eq, Structural)]
pub struct Frequency(pub u32);

impl Frequency {
    pub fn associated_command() -> (r: Command)
        ensures
            r == Command::DTV_FREQUENCY,
    {
        Command::DTV_FREQUENCY
    }
}

/// The current modulation.
#[derive(Debug, Copy, Clone, PartialEq, Eq, Structural)]
pub struct Modulation(pub FeModulation);

impl Modulation {
    pub fn associated_command() -> (r: Command)
        ensures
            r == Command::DTV_MODULATION,
    {
        Command::DTV_MODULATION
    }
}

/// A signal strength reading, if the hardware offers one.
#[derive(Debug, Copy, Clone, PartialEq, Eq, Structural)]
pub struct SignalStrength(pub Option<ValueStat>);

/// Whether two readings are on the same scale kind and may be
/// compared. Decibel and relative readings, and readings against a
/// missing one, never are.
pub open spec fn spec_scale_compatible(a: SignalStrength, b: SignalStrength) -> bool {
    match (a.0, b.0) {
        (Some(ValueStat::Decibel(_)), Some(ValueStat::Decibel(_))) => true,
        (Some(ValueStat::Relative(_)), Some(ValueStat::Relative(_))) => true,
        (None, None) => true,
        _ => false,
    }
}

/// Whether `a` is a strictly stronger reading than `b`; meaningful
/// only for compatible scales.
pub open spec fn spec_stronger(a: SignalStrength, b: SignalStrength) -> bool {
    match (a.0, b.0) {
        (Some(ValueStat::Decibel(x)), Some(ValueStat::Decibel(y))) => x > y,
        (Some(ValueStat::Relative(x)), Some(ValueStat::Relative(y))) => x > y,
        _ => false,
    }
}

impl SignalStrength {
    pub fn associated_command() -> (r: Command)
        ensures
            r == Command::DTV_STAT_SIGNAL_STRENGTH,
    {
        Command::DTV_STAT_SIGNAL_STRENGTH
    }

    /// Whether this reading is strictly stronger than the other.
    ///
    /// Readings of incompatible scale kinds cannot be compared: one
    /// tuner reports one scale kind throughout a scan, so a mismatch
    /// is an internal-consistency failure, reported as an error
    /// rather than miscompared silently.
    pub fn stronger_than(&self, other: &SignalStrength) -> (r: Result<bool, ScanError>)
        ensures
            match r {
                Ok(b) => spec_scale_compatible(*self, *other) && b == spec_stronger(
                    *self,
                    *other,
                ),
                Err(e) => !spec_scale_compatible(*self, *other) && e
                    == ScanError::InconsistentSignalScale,
            },
    {
        match (&self.0, &other.0) {
            (Some(ValueStat::Decibel(x)), Some(ValueStat::Decibel(y))) => Ok(*x > *y),
            (Some(ValueStat::Relative(x)), Some(ValueStat::Relative(y))) => Ok(*x > *y),
            (None, None) => Ok(false),
            _ => Err(ScanError::InconsistentSignalScale),
        }
    }
}

/// A carrier signal-to-noise reading, if the hardware offers one.
#[derive(Debug, Copy, Clone, PartialEq, Eq, Structural)]
pub struct CarrierSignalToNoise(pub Option<ValueStat>);

/// A count of transmitted blocks, if the hardware offers one.
#[derive(Debug, Copy, Clone, PartialEq, Eq, Structural)]
pub struct TotalBlockCount(pub Option<u64>);

impl TotalBlockCount {
    pub fn associated_command() -> (r: Command)
        ensures
            r == Command::DTV_STAT_TOTAL_BLOCK_COUNT,
    {
        Command::DTV_STAT_TOTAL_BLOCK_COUNT
    }
}

} // verus!
