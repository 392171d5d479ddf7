//! Properties that are written to a frontend, one type per command.

use vstd::prelude::*;

use crate::frontend::sys::property::Command;
use crate::frontend::sys::{FeDeliverySystem, FeModulation, FeSpectralInversion};

verus! {

/// Ask the frontend to start tuning with the parameters set so far.
#[derive(Debug, Copy, Clone, PartialEq, Eq, Structural)]
pub struct Tune {}

impl Tune {
    pub fn command(&self) -> (r: Command)
        ensures
            r == Command::DTV_TUNE,
    {
        Command::DTV_TUNE
    }
}

/// Clear any pending parameters.
#[derive(Debug, Copy, Clone, PartialEq, Eq, Structural)]
pub struct Clear {}

impl Clear {
    pub fn command(&self) -> (r: Command)
        ensures
            r == Command::DTV_CLEAR,
    {
        Command::DTV_CLEAR
    }
}

/// The frequency to tune to.
#[derive(Debug, Copy, Clone, PartialEq, Eq, Structural)]
pub struct Frequency(pub u32);

impl Frequency {
    pub fn new(frequency: u32) -> (r: Frequency)
        ensures
            r.0 == frequency,
    {
        Frequency(frequency)
    }

    pub fn command(&self) -> (r: Command)
        ensures
            r == Command::DTV_FREQUENCY,
    {
        Command::DTV_FREQUENCY
    }
}

/// The modulation to use.
#[derive(Debug, Copy, Clone, PartialEq, Eq, Structural)]
pub struct Modulation(pub FeModulation);

impl Modulation {
    pub fn new(modulation: FeModulation) -> (r: Modulation)
        ensures
            r.0 == modulation,
    {
        Modulation(modulation)
    }

    pub fn command(&self) -> (r: Command)
        ensures
            r == Command::DTV_MODULATION,
    {
        Command::DTV_MODULATION
    }
}

/// The channel bandwidth to use.
#[derive(Debug, Copy, Clone, PartialEq, Eq, Structural)]
#[allow(non_camel_case_types)]
pub enum Bandwidth {
    _1_172MHz,
    _5MHz,
    _6MHz,
    _7MHz,
    _8MHz,
    _10MHz,
}

/// What [`Bandwidth::value`] returns: the width in Hz.
pub open spec fn spec_bandwidth_value(b: Bandwidth) -> u32 {
    match b {
        Bandwidth::_1_172MHz => 1712000,
        Bandwidth::_5MHz => 5000000,
        Bandwidth::_6MHz => 6000000,
        Bandwidth::_7MHz => 7000000,
        Bandwidth::_8MHz => 8000000,
        Bandwidth::_10MHz => 10000000,
    }
}

impl Bandwidth {
    /// The width in Hz.
    pub fn value(&self) -> (r: u32)
        ensures
            r == spec_bandwidth_value(*self),
    {
        match self {
            Bandwidth::_1_172MHz => 1712000,
            Bandwidth::_5MHz => 5000000,
            Bandwidth::_6MHz => 6000000,
            Bandwidth::_7MHz => 7000000,
            Bandwidth::_8MHz => 8000000,
            Bandwidth::_10MHz => 10000000,
        }
    }

    pub fn command(&self) -> (r: Command)
        ensures
            r == Command::DTV_BANDWIDTH_HZ,
    {
        Command::DTV_BANDWIDTH_HZ
    }
}

/// Whether the frontend should presume spectral inversion.
#[derive(Debug, Copy, Clone, PartialEq, Eq, Structural)]
pub struct Inversion(pub FeSpectralInversion);

impl Inversion {
    pub fn new(inversion: FeSpectralInversion) -> (r: Inversion)
        ensures
            r.0 == inversion,
    {
        Inversion(inversion)
    }

    pub fn command(&self) -> (r: Command)
        ensures
            r == Command::DTV_INVERSION,
    {
        Command::DTV_INVERSION
    }
}

/// The symbol rate, for cable and satellite systems.
#[derive(Debug, Copy, Clone, PartialEq, Eq, Structural)]
pub struct SymbolRate {}

/// The inner forward error correction.
#[derive(Debug, Copy, Clone, PartialEq, Eq, Structural)]
pub struct InnerFec {}

/// Pilot tones, for DVB-S2.
#[derive(Debug, Copy, Clone, PartialEq, Eq, Structural)]
pub struct Pilot {}

/// The rolloff factor, for DVB-S2.
#[derive(Debug, Copy, Clone, PartialEq, Eq, Structural)]
pub struct Rolloff {}

/// The delivery system to tune for.
#[derive(Debug, Copy, Clone, PartialEq, Eq, Structural)]
pub struct DeliverySystem(pub FeDeliverySystem);

impl DeliverySystem {
    pub fn new(system: FeDeliverySystem) -> (r: DeliverySystem)
        ensures
            r.0 == system,
    {
        DeliverySystem(system)
    }

    pub fn command(&self) -> (r: Command)
        ensures
            r == Command::DTV_DELIVERY_SYSTEM,
    {
        Command::DTV_DELIVERY_SYSTEM
    }
}

/// The LNB voltage, for satellite dishes.
#[derive(Debug, Copy, Clone, PartialEq, Eq, Structural)]
pub struct Voltage {}

/// The 22 kHz tone, for satellite dishes.
#[derive(Debug, Copy, Clone, PartialEq, Eq, Structural)]
pub struct Tone {}

/// The code rate of the high-priority stream.
#[derive(Debug, Copy, Clone, PartialEq, Eq, Structural)]
pub struct CodeRateHp {}

/// The code rate of the low-priority stream.
#[derive(Debug, Copy, Clone, PartialEq, Eq, Structural)]
pub struct CodeRateLp {}

/// The guard interval.
#[derive(Debug, Copy, Clone, PartialEq, Eq, Structural)]
pub struct GuardInterval {}

/// The transmission mode.
#[derive(Debug, Copy, Clone, PartialEq, Eq, Structural)]
pub struct TransmissionMode {}

/// The hierarchy mode.
#[derive(Debug, Copy, Clone, PartialEq, Eq, Structural)]
pub struct Hierarchy {}

/// The interleaving mode.
#[derive(Debug, Copy, Clone, PartialEq, Eq, Structural)]
pub struct Interleaving {}

} // verus!
