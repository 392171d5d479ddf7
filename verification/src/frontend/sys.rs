//! Values exchanged with the kernel's frontend interface.

pub mod property;

use vstd::prelude::*;

verus! {

/// The status word a frontend reports, one bit per condition.
#[derive(Debug, Copy, Clone, PartialEq, Eq, Structural)]
pub struct FeStatus(pub u32);

/// The frontend doesn't have any kind of lock; the initial status.
pub open spec fn spec_status_none(s: FeStatus) -> bool {
    s.0 == 0
}

/// Has found something above the noise level.
pub open spec fn spec_has_signal(s: FeStatus) -> bool {
    (s.0 & 1) != 0
}

/// Has found a signal.
pub open spec fn spec_has_carrier(s: FeStatus) -> bool {
    (s.0 & 2) != 0
}

/// FEC inner coding (Viterbi, LDPC or other inner code) is stable.
pub open spec fn spec_has_viterbi(s: FeStatus) -> bool {
    (s.0 & 4) != 0
}

/// Synchronization bytes were found.
pub open spec fn spec_has_sync(s: FeStatus) -> bool {
    (s.0 & 8) != 0
}

/// Digital TV is locked and everything is working.
pub open spec fn spec_has_lock(s: FeStatus) -> bool {
    (s.0 & 16) != 0
}

/// No lock within the last couple of seconds.
pub open spec fn spec_timed_out(s: FeStatus) -> bool {
    (s.0 & 32) != 0
}

/// The frontend was reinitialized; DiSEqC, tone and parameters should
/// be reset.
pub open spec fn spec_reinit(s: FeStatus) -> bool {
    (s.0 & 64) != 0
}

impl FeStatus {
    pub fn none(&self) -> (r: bool)
        ensures
            r == spec_status_none(*self),
    {
        self.0 == 0
    }

    pub fn has_signal(&self) -> (r: bool)
        ensures
            r == spec_has_signal(*self),
    {
        (self.0 & 1) != 0
    }

    pub fn has_carrier(&self) -> (r: bool)
        ensures
            r == spec_has_carrier(*self),
    {
        (self.0 & 2) != 0
    }

    pub fn has_viterbi(&self) -> (r: bool)
        ensures
            r == spec_has_viterbi(*self),
    {
        (self.0 & 4) != 0
    }

    pub fn has_sync(&self) -> (r: bool)
        ensures
            r == spec_has_sync(*self),
    {
        (self.0 & 8) != 0
    }

    pub fn has_lock(&self) -> (r: bool)
        ensures
            r == spec_has_lock(*self),
    {
        (self.0 & 16) != 0
    }

    pub fn timed_out(&self) -> (r: bool)
        ensures
            r == spec_timed_out(*self),
    {
        (self.0 & 32) != 0
    }

    pub fn reinit(&self) -> (r: bool)
        ensures
            r == spec_reinit(*self),
    {
        (self.0 & 64) != 0
    }
}

//
// -----

/// Kind of frontend, for the legacy info call.
#[derive(Debug, Copy, Clone, PartialEq, Eq, Structural)]
#[allow(non_camel_case_types)]
pub enum FeType {
    FE_QPSK,
    FE_QAM,
    FE_OFDM,
    FE_ATSC,
}

/// Capability bits a frontend advertises.
#[derive(Debug, Copy, Clone, PartialEq, Eq, Structural)]
pub struct FeCaps(pub u32);

/// Type of the delivery system.
#[derive(Debug, Copy, Clone, PartialEq, Eq, Hash, Structural)]
#[allow(non_camel_case_types)]
pub enum FeDeliverySystem {
    /// Undefined standard; generally indicates an error.
    UNDEFINED,
    /// Cable TV: DVB-C following ITU-T J.83 Annex A spec.
    DVBC_ANNEX_A,
    /// Cable TV: DVB-C following ITU-T J.83 Annex B spec (ClearQAM).
    DVBC_ANNEX_B,
    /// Terrestrial TV: DVB-T.
    DVBT,
    /// Satellite TV: DSS (not fully supported).
    DSS,
    /// Satellite TV: DVB-S.
    DVBS,
    /// Satellite TV: DVB-S2 and DVB-S2X.
    DVBS2,
    /// Terrestrial TV (mobile): DVB-H (standard deprecated).
    DVBH,
    /// Terrestrial TV: ISDB-T.
    ISDBT,
    /// Satellite TV: ISDB-S.
    ISDBS,
    /// Cable TV: ISDB-C (no drivers yet).
    ISDBC,
    /// Terrestrial TV: ATSC.
    ATSC,
    /// Terrestrial TV (mobile): ATSC-M/H.
    ATSCMH,
    /// Terrestrial TV: DTMB.
    DTMB,
    /// Terrestrial TV (mobile): CMMB (not fully supported).
    CMMB,
    /// Digital audio: DAB (not fully supported).
    DAB,
    /// Terrestrial TV: DVB-T2.
    DVBT2,
    /// Satellite TV: DVB-S Turbo.
    TURBO,
    /// Cable TV: DVB-C following ITU-T J.83 Annex C spec.
    DVBC_ANNEX_C,
    /// Cable TV: DVB-C2.
    DVBC2,
}

/// The number each delivery system is written as in kernel calls.
pub open spec fn spec_delivery_system_code(s: FeDeliverySystem) -> u32 {
    match s {
        FeDeliverySystem::UNDEFINED => 0,
        FeDeliverySystem::DVBC_ANNEX_A => 1,
        FeDeliverySystem::DVBC_ANNEX_B => 2,
        FeDeliverySystem::DVBT => 3,
        FeDeliverySystem::DSS => 4,
        FeDeliverySystem::DVBS => 5,
        FeDeliverySystem::DVBS2 => 6,
        FeDeliverySystem::DVBH => 7,
        FeDeliverySystem::ISDBT => 8,
        FeDeliverySystem::ISDBS => 9,
        FeDeliverySystem::ISDBC => 10,
        FeDeliverySystem::ATSC => 11,
        FeDeliverySystem::ATSCMH => 12,
        FeDeliverySystem::DTMB => 13,
        FeDeliverySystem::CMMB => 14,
        FeDeliverySystem::DAB => 15,
        FeDeliverySystem::DVBT2 => 16,
        FeDeliverySystem::TURBO => 17,
        FeDeliverySystem::DVBC_ANNEX_C => 18,
        FeDeliverySystem::DVBC2 => 19,
    }
}

/// What [`FeDeliverySystem::try_from_discriminant`] returns: the
/// delivery system a kernel value stands for, if any.
pub open spec fn spec_delivery_system_from(v: u32) -> Option<FeDeliverySystem> {
    if v == 0 { Some(FeDeliverySystem::UNDEFINED) }
    else if v == 1 { Some(FeDeliverySystem::DVBC_ANNEX_A) }
    else if v == 2 { Some(FeDeliverySystem::DVBC_ANNEX_B) }
    else if v == 3 { Some(FeDeliverySystem::DVBT) }
    else if v == 4 { Some(FeDeliverySystem::DSS) }
    else if v == 5 { Some(FeDeliverySystem::DVBS) }
    else if v == 6 { Some(FeDeliverySystem::DVBS2) }
    else if v == 7 { Some(FeDeliverySystem::DVBH) }
    else if v == 8 { Some(FeDeliverySystem::ISDBT) }
    else if v == 9 { Some(FeDeliverySystem::ISDBS) }
    else if v == 10 { Some(FeDeliverySystem::ISDBC) }
    else if v == 11 { Some(FeDeliverySystem::ATSC) }
    else if v == 12 { Some(FeDeliverySystem::ATSCMH) }
    else if v == 13 { Some(FeDeliverySystem::DTMB) }
    else if v == 14 { Some(FeDeliverySystem::CMMB) }
    else if v == 15 { Some(FeDeliverySystem::DAB) }
    else if v == 16 { Some(FeDeliverySystem::DVBT2) }
    else if v == 17 { Some(FeDeliverySystem::TURBO) }
    else if v == 18 { Some(FeDeliverySystem::DVBC_ANNEX_C) }
    else if v == 19 { Some(FeDeliverySystem::DVBC2) }
    else { None }
}

impl FeDeliverySystem {
    /// The numeric value used for this system in kernel calls.
    pub fn code(&self) -> (r: u32)
        ensures
            r == spec_delivery_system_code(*self),
    {
        match self {
            FeDeliverySystem::UNDEFINED => 0,
            FeDeliverySystem::DVBC_ANNEX_A => 1,
            FeDeliverySystem::DVBC_ANNEX_B => 2,
            FeDeliverySystem::DVBT => 3,
            FeDeliverySystem::DSS => 4,
            FeDeliverySystem::DVBS => 5,
            FeDeliverySystem::DVBS2 => 6,
            FeDeliverySystem::DVBH => 7,
            FeDeliverySystem::ISDBT => 8,
            FeDeliverySystem::ISDBS => 9,
            FeDeliverySystem::ISDBC => 10,
            FeDeliverySystem::ATSC => 11,
            FeDeliverySystem::ATSCMH => 12,
            FeDeliverySystem::DTMB => 13,
            FeDeliverySystem::CMMB => 14,
            FeDeliverySystem::DAB => 15,
            FeDeliverySystem::DVBT2 => 16,
            FeDeliverySystem::TURBO => 17,
            FeDeliverySystem::DVBC_ANNEX_C => 18,
            FeDeliverySystem::DVBC2 => 19,
        }
    }

    /// The delivery system a kernel value stands for, if any.
    pub fn try_from_discriminant(v: u32) -> (r: Option<FeDeliverySystem>)
        ensures
            r == spec_delivery_system_from(v),
    {
        match v {
            0 => Some(FeDeliverySystem::UNDEFINED),
            1 => Some(FeDeliverySystem::DVBC_ANNEX_A),
            2 => Some(FeDeliverySystem::DVBC_ANNEX_B),
            3 => Some(FeDeliverySystem::DVBT),
            4 => Some(FeDeliverySystem::DSS),
            5 => Some(FeDeliverySystem::DVBS),
            6 => Some(FeDeliverySystem::DVBS2),
            7 => Some(FeDeliverySystem::DVBH),
            8 => Some(FeDeliverySystem::ISDBT),
            9 => Some(FeDeliverySystem::ISDBS),
            10 => Some(FeDeliverySystem::ISDBC),
            11 => Some(FeDeliverySystem::ATSC),
            12 => Some(FeDeliverySystem::ATSCMH),
            13 => Some(FeDeliverySystem::DTMB),
            14 => Some(FeDeliverySystem::CMMB),
            15 => Some(FeDeliverySystem::DAB),
            16 => Some(FeDeliverySystem::DVBT2),
            17 => Some(FeDeliverySystem::TURBO),
            18 => Some(FeDeliverySystem::DVBC_ANNEX_C),
            19 => Some(FeDeliverySystem::DVBC2),
            _ => None,
        }
    }
}

/// Type of modulation/constellation.
#[derive(Debug, Copy, Clone, PartialEq, Eq, Structural)]
#[allow(non_camel_case_types)]
pub enum FeModulation {
    QPSK,
    QAM_16,
    QAM_32,
    QAM_64,
    QAM_128,
    QAM_256,
    QAM_AUTO,
    VSB_8,
    VSB_16,
    PSK_8,
    APSK_16,
    APSK_32,
    DQPSK,
    QAM_4_NR,
    QAM_1024,
    QAM_4096,
    APSK_8_L,
    APSK_16_L,
    APSK_32_L,
    APSK_64,
    APSK_64_L,
}

/// Whether spectral inversion should be presumed.
#[derive(Debug, Copy, Clone, PartialEq, Eq, Structural)]
#[allow(non_camel_case_types)]
pub enum FeSpectralInversion {
    /// Don't do spectral band inversion.
    INVERSION_OFF,
    /// Do spectral band inversion.
    INVERSION_ON,
    /// Autodetect spectral band inversion.
    INVERSION_AUTO,
}

} // verus!
