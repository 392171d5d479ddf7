//! Property commands for the frontend get/set interface.

use vstd::prelude::*;

verus! {

/// The commands of the frontend property interface. The declaration
/// order matches the kernel's numbering exactly; [`Command::code`]
/// gives the number each command is sent as.
#[derive(Debug, Copy, Clone, PartialEq, Eq, Structural)]
#[allow(non_camel_case_types)]
pub enum Command {
    DTV_UNDEFINED,
    DTV_TUNE,
    DTV_CLEAR,
    /// Frequency of the digital TV transponder/channel, in Hz for cable
    /// and terrestrial delivery systems and in kHz for satellite ones.
    DTV_FREQUENCY,
    DTV_MODULATION,
    /// Bandwidth for the channel, in Hz; set only for terrestrial
    /// delivery systems.
    DTV_BANDWIDTH_HZ,
    DTV_INVERSION,
    DTV_DISEQC_MASTER,
    DTV_SYMBOL_RATE,
    DTV_INNER_FEC,
    DTV_VOLTAGE,
    DTV_TONE,
    DTV_PILOT,
    DTV_ROLLOFF,
    DTV_DISEQC_SLAVE_REPLY,
    DTV_FE_CAPABILITY_COUNT,
    DTV_FE_CAPABILITY,
    DTV_DELIVERY_SYSTEM,
    DTV_ISDBT_PARTIAL_RECEPTION,
    DTV_ISDBT_SOUND_BROADCASTING,
    DTV_ISDBT_SB_SUBCHANNEL_ID,
    DTV_ISDBT_SB_SEGMENT_IDX,
    DTV_ISDBT_SB_SEGMENT_COUNT,
    DTV_ISDBT_LAYERA_FEC,
    DTV_ISDBT_LAYERA_MODULATION,
    DTV_ISDBT_LAYERA_SEGMENT_COUNT,
    DTV_ISDBT_LAYERA_TIME_INTERLEAVING,
    DTV_ISDBT_LAYERB_FEC,
    DTV_ISDBT_LAYERB_MODULATION,
    DTV_ISDBT_LAYERB_SEGMENT_COUNT,
    DTV_ISDBT_LAYERB_TIME_INTERLEAVING,
    DTV_ISDBT_LAYERC_FEC,
    DTV_ISDBT_LAYERC_MODULATION,
    DTV_ISDBT_LAYERC_SEGMENT_COUNT,
    DTV_ISDBT_LAYERC_TIME_INTERLEAVING,
    DTV_API_VERSION,
    DTV_CODE_RATE_HP,
    DTV_CODE_RATE_LP,
    DTV_GUARD_INTERVAL,
    DTV_TRANSMISSION_MODE,
    DTV_HIERARCHY,
    DTV_ISDBT_LAYER_ENABLED,
    DTV_STREAM_ID,
    DTV_DVBT2_PLP_ID_LEGACY,
    /// Enumerates the delivery systems the frontend can work with.
    DTV_ENUM_DELSYS,
    DTV_ATSCMH_FIC_VER,
    DTV_ATSCMH_PARADE_ID,
    DTV_ATSCMH_NOG,
    DTV_ATSCMH_TNOG,
    DTV_ATSCMH_SGN,
    DTV_ATSCMH_PRC,
    DTV_ATSCMH_RS_FRAME_MODE,
    DTV_ATSCMH_RS_FRAME_ENSEMBLE,
    DTV_ATSCMH_RS_CODE_MODE_PRI,
    DTV_ATSCMH_RS_CODE_MODE_SEC,
    DTV_ATSCMH_SCCC_BLOCK_MODE,
    DTV_ATSCMH_SCCC_CODE_MODE_A,
    DTV_ATSCMH_SCCC_CODE_MODE_B,
    DTV_ATSCMH_SCCC_CODE_MODE_C,
    DTV_ATSCMH_SCCC_CODE_MODE_D,
    DTV_INTERLEAVING,
    DTV_LNA,
    DTV_STAT_SIGNAL_STRENGTH,
    DTV_STAT_CNR,
    DTV_STAT_PRE_ERROR_BIT_COUNT,
    DTV_STAT_PRE_TOTAL_BIT_COUNT,
    DTV_STAT_POST_ERROR_BIT_COUNT,
    DTV_STAT_POST_TOTAL_BIT_COUNT,
    DTV_STAT_ERROR_BLOCK_COUNT,
    DTV_STAT_TOTAL_BLOCK_COUNT,
    DTV_SCRAMBLING_SEQUENCE_INDEX,
}

/// The number each command is written as on the property interface.
pub open spec fn spec_command_code(c: Command) -> u32 {
    match c {
        Command::DTV_UNDEFINED => 0,
        Command::DTV_TUNE => 1,
        Command::DTV_CLEAR => 2,
        Command::DTV_FREQUENCY => 3,
        Command::DTV_MODULATION => 4,
        Command::DTV_BANDWIDTH_HZ => 5,
        Command::DTV_INVERSION => 6,
        Command::DTV_DISEQC_MASTER => 7,
        Command::DTV_SYMBOL_RATE => 8,
        Command::DTV_INNER_FEC => 9,
        Command::DTV_VOLTAGE => 10,
        Command::DTV_TONE => 11,
        Command::DTV_PILOT => 12,
        Command::DTV_ROLLOFF => 13,
        Command::DTV_DISEQC_SLAVE_REPLY => 14,
        Command::DTV_FE_CAPABILITY_COUNT => 15,
        Command::DTV_FE_CAPABILITY => 16,
        Command::DTV_DELIVERY_SYSTEM => 17,
        Command::DTV_ISDBT_PARTIAL_RECEPTION => 18,
        Command::DTV_ISDBT_SOUND_BROADCASTING => 19,
        Command::DTV_ISDBT_SB_SUBCHANNEL_ID => 20,
        Command::DTV_ISDBT_SB_SEGMENT_IDX => 21,
        Command::DTV_ISDBT_SB_SEGMENT_COUNT => 22,
        Command::DTV_ISDBT_LAYERA_FEC => 23,
        Command::DTV_ISDBT_LAYERA_MODULATION => 24,
        Command::DTV_ISDBT_LAYERA_SEGMENT_COUNT => 25,
        Command::DTV_ISDBT_LAYERA_TIME_INTERLEAVING => 26,
        Command::DTV_ISDBT_LAYERB_FEC => 27,
        Command::DTV_ISDBT_LAYERB_MODULATION => 28,
        Command::DTV_ISDBT_LAYERB_SEGMENT_COUNT => 29,
        Command::DTV_ISDBT_LAYERB_TIME_INTERLEAVING => 30,
        Command::DTV_ISDBT_LAYERC_FEC => 31,
        Command::DTV_ISDBT_LAYERC_MODULATION => 32,
        Command::DTV_ISDBT_LAYERC_SEGMENT_COUNT => 33,
        Command::DTV_ISDBT_LAYERC_TIME_INTERLEAVING => 34,
        Command::DTV_API_VERSION => 35,
        Command::DTV_CODE_RATE_HP => 36,
        Command::DTV_CODE_RATE_LP => 37,
        Command::DTV_GUARD_INTERVAL => 38,
        Command::DTV_TRANSMISSION_MODE => 39,
        Command::DTV_HIERARCHY => 40,
        Command::DTV_ISDBT_LAYER_ENABLED => 41,
        Command::DTV_STREAM_ID => 42,
        Command::DTV_DVBT2_PLP_ID_LEGACY => 43,
        Command::DTV_ENUM_DELSYS => 44,
        Command::DTV_ATSCMH_FIC_VER => 45,
        Command::DTV_ATSCMH_PARADE_ID => 46,
        Command::DTV_ATSCMH_NOG => 47,
        Command::DTV_ATSCMH_TNOG => 48,
        Command::DTV_ATSCMH_SGN => 49,
        Command::DTV_ATSCMH_PRC => 50,
        Command::DTV_ATSCMH_RS_FRAME_MODE => 51,
        Command::DTV_ATSCMH_RS_FRAME_ENSEMBLE => 52,
        Command::DTV_ATSCMH_RS_CODE_MODE_PRI => 53,
        Command::DTV_ATSCMH_RS_CODE_MODE_SEC => 54,
        Command::DTV_ATSCMH_SCCC_BLOCK_MODE => 55,
        Command::DTV_ATSCMH_SCCC_CODE_MODE_A => 56,
        Command::DTV_ATSCMH_SCCC_CODE_MODE_B => 57,
        Command::DTV_ATSCMH_SCCC_CODE_MODE_C => 58,
        Command::DTV_ATSCMH_SCCC_CODE_MODE_D => 59,
        Command::DTV_INTERLEAVING => 60,
        Command::DTV_LNA => 61,
        Command::DTV_STAT_SIGNAL_STRENGTH => 62,
        Command::DTV_STAT_CNR => 63,
        Command::DTV_STAT_PRE_ERROR_BIT_COUNT => 64,
        Command::DTV_STAT_PRE_TOTAL_BIT_COUNT => 65,
        Command::DTV_STAT_POST_ERROR_BIT_COUNT => 66,
        Command::DTV_STAT_POST_TOTAL_BIT_COUNT => 67,
        Command::DTV_STAT_ERROR_BLOCK_COUNT => 68,
        Command::DTV_STAT_TOTAL_BLOCK_COUNT => 69,
        Command::DTV_SCRAMBLING_SEQUENCE_INDEX => 70,
    }
}

impl Command {
    /// The number this command is written as on the property interface.
    pub fn code(&self) -> (r: u32)
        ensures
            r == spec_command_code(*self),
    {
        match self {
            Command::DTV_UNDEFINED => 0,
            Command::DTV_TUNE => 1,
            Command::DTV_CLEAR => 2,
            Command::DTV_FREQUENCY => 3,
            Command::DTV_MODULATION => 4,
            Command::DTV_BANDWIDTH_HZ => 5,
            Command::DTV_INVERSION => 6,
            Command::DTV_DISEQC_MASTER => 7,
            Command::DTV_SYMBOL_RATE => 8,
            Command::DTV_INNER_FEC => 9,
            Command::DTV_VOLTAGE => 10,
            Command::DTV_TONE => 11,
            Command::DTV_PILOT => 12,
            Command::DTV_ROLLOFF => 13,
            Command::DTV_DISEQC_SLAVE_REPLY => 14,
            Command::DTV_FE_CAPABILITY_COUNT => 15,
            Command::DTV_FE_CAPABILITY => 16,
            Command::DTV_DELIVERY_SYSTEM => 17,
            Command::DTV_ISDBT_PARTIAL_RECEPTION => 18,
            Command::DTV_ISDBT_SOUND_BROADCASTING => 19,
            Command::DTV_ISDBT_SB_SUBCHANNEL_ID => 20,
            Command::DTV_ISDBT_SB_SEGMENT_IDX => 21,
            Command::DTV_ISDBT_SB_SEGMENT_COUNT => 22,
            Command::DTV_ISDBT_LAYERA_FEC => 23,
            Command::DTV_ISDBT_LAYERA_MODULATION => 24,
            Command::DTV_ISDBT_LAYERA_SEGMENT_COUNT => 25,
            Command::DTV_ISDBT_LAYERA_TIME_INTERLEAVING => 26,
            Command::DTV_ISDBT_LAYERB_FEC => 27,
            Command::DTV_ISDBT_LAYERB_MODULATION => 28,
            Command::DTV_ISDBT_LAYERB_SEGMENT_COUNT => 29,
            Command::DTV_ISDBT_LAYERB_TIME_INTERLEAVING => 30,
            Command::DTV_ISDBT_LAYERC_FEC => 31,
            Command::DTV_ISDBT_LAYERC_MODULATION => 32,
            Command::DTV_ISDBT_LAYERC_SEGMENT_COUNT => 33,
            Command::DTV_ISDBT_LAYERC_TIME_INTERLEAVING => 34,
            Command::DTV_API_VERSION => 35,
            Command::DTV_CODE_RATE_HP => 36,
            Command::DTV_CODE_RATE_LP => 37,
            Command::DTV_GUARD_INTERVAL => 38,
            Command::DTV_TRANSMISSION_MODE => 39,
            Command::DTV_HIERARCHY => 40,
            Command::DTV_ISDBT_LAYER_ENABLED => 41,
            Command::DTV_STREAM_ID => 42,
            Command::DTV_DVBT2_PLP_ID_LEGACY => 43,
            Command::DTV_ENUM_DELSYS => 44,
            Command::DTV_ATSCMH_FIC_VER => 45,
            Command::DTV_ATSCMH_PARADE_ID => 46,
            Command::DTV_ATSCMH_NOG => 47,
            Command::DTV_ATSCMH_TNOG => 48,
            Command::DTV_ATSCMH_SGN => 49,
            Command::DTV_ATSCMH_PRC => 50,
            Command::DTV_ATSCMH_RS_FRAME_MODE => 51,
            Command::DTV_ATSCMH_RS_FRAME_ENSEMBLE => 52,
            Command::DTV_ATSCMH_RS_CODE_MODE_PRI => 53,
            Command::DTV_ATSCMH_RS_CODE_MODE_SEC => 54,
            Command::DTV_ATSCMH_SCCC_BLOCK_MODE => 55,
            Command::DTV_ATSCMH_SCCC_CODE_MODE_A => 56,
            Command::DTV_ATSCMH_SCCC_CODE_MODE_B => 57,
            Command::DTV_ATSCMH_SCCC_CODE_MODE_C => 58,
            Command::DTV_ATSCMH_SCCC_CODE_MODE_D => 59,
            Command::DTV_INTERLEAVING => 60,
            Command::DTV_LNA => 61,
            Command::DTV_STAT_SIGNAL_STRENGTH => 62,
            Command::DTV_STAT_CNR => 63,
            Command::DTV_STAT_PRE_ERROR_BIT_COUNT => 64,
            Command::DTV_STAT_PRE_TOTAL_BIT_COUNT => 65,
            Command::DTV_STAT_POST_ERROR_BIT_COUNT => 66,
            Command::DTV_STAT_POST_TOTAL_BIT_COUNT => 67,
            Command::DTV_STAT_ERROR_BLOCK_COUNT => 68,
            Command::DTV_STAT_TOTAL_BLOCK_COUNT => 69,
            Command::DTV_SCRAMBLING_SEQUENCE_INDEX => 70,
        }
    }
}

/// The scale a statistics value is reported in.
#[derive(Debug, Copy, Clone, PartialEq, Eq, Structural)]
#[allow(non_camel_case_types)]
pub enum FeCapScaleParams {
    /// That QoS measure is not available.
    FE_SCALE_NOT_AVAILABLE,
    /// The scale is measured in 0.001 dB steps, typically used on
    /// signal measures.
    FE_SCALE_DECIBEL,
    /// The scale is a relative percentual measure, ranging from 0 to
    /// 65535.
    FE_SCALE_RELATIVE,
    /// The scale counts the occurrence of an event.
    FE_SCALE_COUNTER,
}

} // verus!
