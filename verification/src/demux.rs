//! Demultiplexer data types.
//!
//! The demux device itself is read outside this library; what lives
//! here are the filter parameter values handed to it, and the pure
//! construction of a one-shot section filter.

use vstd::prelude::*;

use crate::mpeg::{DMX_CHECK_CRC, DMX_IMMEDIATE_START, DMX_ONESHOT};

verus! {

/// Number of bytes of a demux section filter pattern.
pub const DMX_FILTER_SIZE: usize = 16;

/// Where filtered output is sent.
#[derive(Debug, Copy, Clone, PartialEq, Eq, Structural)]
#[allow(non_camel_case_types)]
pub enum DmxOutput {
    DMX_OUT_DECODER,
    DMX_OUT_TAP,
    DMX_OUT_TS_TAP,
    DMX_OUT_TSDEMUX_TAP,
}

/// Where the demux takes its input from.
#[derive(Debug, Copy, Clone, PartialEq, Eq, Structural)]
#[allow(non_camel_case_types)]
pub enum DmxInput {
    DMX_IN_FRONTEND,
    DMX_IN_DVR,
}

/// The stream a PES filter feeds.
#[derive(Debug, Copy, Clone, PartialEq, Eq, Structural)]
#[allow(non_camel_case_types)]
pub enum DmxTsPes {
    DMX_PES_AUDIO0,
    DMX_PES_VIDEO0,
    DMX_PES_TELETEXT0,
    DMX_PES_SUBTITLE0,
    DMX_PES_PCR0,
    DMX_PES_AUDIO1,
    DMX_PES_VIDEO1,
    DMX_PES_TELETEXT1,
    DMX_PES_SUBTITLE1,
    DMX_PES_PCR1,
    DMX_PES_AUDIO2,
    DMX_PES_VIDEO2,
    DMX_PES_TELETEXT2,
    DMX_PES_SUBTITLE2,
    DMX_PES_PCR2,
    DMX_PES_AUDIO3,
    DMX_PES_VIDEO3,
    DMX_PES_TELETEXT3,
    DMX_PES_SUBTITLE3,
    DMX_PES_PCR3,
    DMX_PES_OTHER,
}

/// A section header filter: a byte is let through where
/// `byte & mask == filter & mask` holds at each position.
#[derive(Debug, Copy, Clone, PartialEq, Eq)]
pub struct DmxFilter {
    pub filter: [u8; 16],
    pub mask: [u8; 16],
    pub mode: [u8; 16],
}

impl DmxFilter {
    /// A filter that matches everything: all bytes zero.
    pub fn empty() -> (r: DmxFilter)
        ensures
            forall|i: int| 0 <= i < 16 ==> r.filter@[i] == 0,
            forall|i: int| 0 <= i < 16 ==> r.mask@[i] == 0,
            forall|i: int| 0 <= i < 16 ==> r.mode@[i] == 0,
    {
        DmxFilter { filter: [0; 16], mask: [0; 16], mode: [0; 16] }
    }

    /// Requires the first filtered byte — the table id of a section —
    /// to match the given value exactly.
    pub fn first_byte_mask(&mut self, value: u8)
        ensures
            final(self).filter@ == old(self).filter@.update(0, value),
            final(self).mask@ == old(self).mask@.update(0, 0xffu8),
            final(self).mode == old(self).mode,
    {
        self.filter[0] = value;
        self.mask[0] = 0xff;
    }
}

/// Configuration of an MPEG-TS section filter.
#[derive(Debug, Copy, Clone, PartialEq, Eq)]
pub struct DmxSctFilterParams {
    /// PID to be filtered.
    pub pid: u16,
    /// Section header filter.
    pub filter: DmxFilter,
    /// Maximum time to filter, in milliseconds; zero for no timeout.
    pub timeout: u32,
    /// Extra flags for the section filter.
    pub flags: u32,
}

/// Packetized Elementary Stream (PES) filter parameters.
#[derive(Debug, Copy, Clone, PartialEq, Eq, Structural)]
pub struct DmxPesFilterParams {
    /// PID to be filtered.
    pub pid: u16,
    /// Demux input.
    pub input: DmxInput,
    /// Demux output.
    pub output: DmxOutput,
    /// Type of the PES filter.
    pub pes_type: DmxTsPes,
    /// Demux PES flags.
    pub flags: u32,
}

/// One section request: a PID and, optionally, the table id its first
/// byte must match.
#[derive(Debug, Copy, Clone, PartialEq, Eq, Structural)]
pub struct PidTableIdPair {
    pub pid: u16,
    pub table_id: Option<u8>,
}

/// Builds the parameters of a one-shot section filter for one request:
/// CRC-checked, delivering a single section, started immediately. The
/// table id, when given, is matched by the hardware against the first
/// payload byte.
pub fn section_filter_params(pid: u16, table_id: Option<u8>, timeout_ms: u32) -> (r:
    DmxSctFilterParams)
    ensures
        r.pid == pid,
        r.timeout == timeout_ms,
        r.flags == DMX_CHECK_CRC | DMX_ONESHOT | DMX_IMMEDIATE_START,
        match table_id {
            Some(t) => r.filter.filter@[0] == t && r.filter.mask@[0] == 0xff,
            None => forall|i: int| 0 <= i < 16 ==> r.filter.mask@[i] == 0,
        },
{
    let mut inner_filter = DmxFilter::empty();
    if let Some(t) = table_id {
        inner_filter.first_byte_mask(t);
    }
    DmxSctFilterParams {
        pid,
        filter: inner_filter,
        timeout: timeout_ms,
        flags: DMX_CHECK_CRC | DMX_ONESHOT | DMX_IMMEDIATE_START,
    }
}

} // verus!
