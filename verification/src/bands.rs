//! Frequency bands.
//!
//! Parameters that define a band for broadcast of TV services. This
//! allows scanning the most likely frequencies where a transponder
//! could be found. A user would choose their country's parameters to
//! get correct results while scanning.

use vstd::prelude::*;

use crate::frontend::properties::set::{spec_bandwidth_value, Bandwidth};

verus! {

/// Parameters for a single frequency slot.
#[derive(Copy, Clone, Debug, PartialEq, Eq)]
pub struct ChannelParameters {
    /// Corresponding frequency.
    pub frequency: u32,
    /// Bandwidth of this channel.
    pub bandwidth: Bandwidth,
    /// "Traditional" numbering for this channel.
    pub number: Option<u32>,
    /// Optional prefix to show before the traditional channel number.
    pub display_prefix: &'static str,
}

/// Contiguous region of frequency slots.
#[derive(Copy, Clone, Debug)]
pub struct BroadcastBand {
    pub first_frequency: u32,
    pub first_channel: u32,
    pub last_channel: u32,
    pub bandwidth: Bandwidth,
    pub display_prefix: &'static str,
}

/// The frequency of a channel number within a band.
pub open spec fn spec_channel_frequency(band: BroadcastBand, channel: u32) -> int {
    band.first_frequency + (channel - band.first_channel) * spec_bandwidth_value(band.bandwidth)
}

impl BroadcastBand {
    /// A band is well formed when its channel range is non-empty and
    /// every frequency in it fits the frequency field.
    pub open spec fn wf(self) -> bool {
        &&& self.first_channel <= self.last_channel
        &&& self.last_channel < u32::MAX
        &&& spec_channel_frequency(self, self.last_channel) <= u32::MAX
    }

    /// Return the amount of channels in this band.
    pub fn channel_count(&self) -> (r: u32)
        requires
            self.first_channel <= self.last_channel,
            self.last_channel - self.first_channel + 1 <= u32::MAX,
        ensures
            r == self.last_channel - self.first_channel + 1,
    {
        self.last_channel - self.first_channel + 1
    }

    /// Iterate over all frequencies.
    pub fn iter(&self) -> (r: FrequencyIter<'_>)
        ensures
            r.band == self,
            r.current_channel == self.first_channel,
    {
        FrequencyIter { band: self, current_channel: self.first_channel }
    }
}

/// Iterator over the frequencies of a band, produced by
/// [`BroadcastBand::iter`].
pub struct FrequencyIter<'a> {
    pub band: &'a BroadcastBand,
    pub current_channel: u32,
}

impl<'a> FrequencyIter<'a> {
    /// The next frequency slot of the band, or nothing once the band
    /// is exhausted.
    pub fn next(&mut self) -> (r: Option<ChannelParameters>)
        requires
            old(self).band.wf(),
            old(self).band.first_channel <= old(self).current_channel,
            old(self).current_channel <= old(self).band.last_channel + 1,
        ensures
            final(self).band == old(self).band,
            old(self).current_channel > old(self).band.last_channel ==> r is None
                && final(self).current_channel == old(self).current_channel,
            old(self).current_channel <= old(self).band.last_channel ==> {
                &&& final(self).current_channel == old(self).current_channel + 1
                &&& r matches Some(p)
                &&& p.frequency == spec_channel_frequency(*old(self).band, old(self).current_channel)
                &&& p.bandwidth == old(self).band.bandwidth
                &&& p.number == Some(old(self).current_channel)
                &&& p.display_prefix@ == old(self).band.display_prefix@
            },
    {
        if self.current_channel > self.band.last_channel {
            return None;
        }

        proof {
            let d1 = (self.current_channel - self.band.first_channel) as int;
            let d2 = (self.band.last_channel - self.band.first_channel) as int;
            let bw = spec_bandwidth_value(self.band.bandwidth) as int;
            assert(d1 * bw <= d2 * bw) by (nonlinear_arith)
                requires
                    0 <= d1 <= d2,
                    bw >= 0,
            ;
        }
        let frequency = self.band.first_frequency
            + (self.current_channel - self.band.first_channel) * self.band.bandwidth.value();
        let number = Some(self.current_channel);

        self.current_channel = self.current_channel + 1;

        Some(ChannelParameters {
            frequency,
            bandwidth: self.band.bandwidth,
            number,
            display_prefix: self.band.display_prefix,
        })
    }
}

} // verus!
