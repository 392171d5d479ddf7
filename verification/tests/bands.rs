//! Frequency band iteration.

use rdvb::bands::{BroadcastBand, ChannelParameters, FrequencyIter};
use rdvb::frontend::properties::set::Bandwidth;

fn france_uhf() -> BroadcastBand {
    // The European UHF band IV/V with the French frequency offset.
    BroadcastBand {
        first_frequency: 474_000_000 + 166_000,
        first_channel: 21,
        last_channel: 49,
        bandwidth: Bandwidth::_8MHz,
        display_prefix: "",
    }
}

fn collect(mut iter: FrequencyIter<'_>) -> Vec<ChannelParameters> {
    let mut out = Vec::new();
    while let Some(parameters) = iter.next() {
        out.push(parameters);
    }
    out
}

#[test]
fn check() {
    let band = france_uhf();
    let frequencies: Vec<ChannelParameters> = collect(band.iter());

    let first = ChannelParameters {
        frequency: 474_166_000,
        bandwidth: Bandwidth::_8MHz,
        number: Some(21),
        display_prefix: "",
    };

    let expected = vec![
        first,
        ChannelParameters { frequency: 482_166_000, number: Some(22), ..first },
        ChannelParameters { frequency: 490_166_000, number: Some(23), ..first },
        ChannelParameters { frequency: 498_166_000, number: Some(24), ..first },
        ChannelParameters { frequency: 506_166_000, number: Some(25), ..first },
        ChannelParameters { frequency: 514_166_000, number: Some(26), ..first },
        ChannelParameters { frequency: 522_166_000, number: Some(27), ..first },
        ChannelParameters { frequency: 530_166_000, number: Some(28), ..first },
        ChannelParameters { frequency: 538_166_000, number: Some(29), ..first },
        ChannelParameters { frequency: 546_166_000, number: Some(30), ..first },
        ChannelParameters { frequency: 554_166_000, number: Some(31), ..first },
        ChannelParameters { frequency: 562_166_000, number: Some(32), ..first },
        ChannelParameters { frequency: 570_166_000, number: Some(33), ..first },
        ChannelParameters { frequency: 578_166_000, number: Some(34), ..first },
        ChannelParameters { frequency: 586_166_000, number: Some(35), ..first },
        ChannelParameters { frequency: 594_166_000, number: Some(36), ..first },
        ChannelParameters { frequency: 602_166_000, number: Some(37), ..first },
        ChannelParameters { frequency: 610_166_000, number: Some(38), ..first },
        ChannelParameters { frequency: 618_166_000, number: Some(39), ..first },
        ChannelParameters { frequency: 626_166_000, number: Some(40), ..first },
        ChannelParameters { frequency: 634_166_000, number: Some(41), ..first },
        ChannelParameters { frequency: 642_166_000, number: Some(42), ..first },
        ChannelParameters { frequency: 650_166_000, number: Some(43), ..first },
        ChannelParameters { frequency: 658_166_000, number: Some(44), ..first },
        ChannelParameters { frequency: 666_166_000, number: Some(45), ..first },
        ChannelParameters { frequency: 674_166_000, number: Some(46), ..first },
        ChannelParameters { frequency: 682_166_000, number: Some(47), ..first },
        ChannelParameters { frequency: 690_166_000, number: Some(48), ..first },
        ChannelParameters { frequency: 698_166_000, number: Some(49), ..first },
    ];

    assert_eq!(frequencies, expected)
}

#[test]
fn band_endpoints() {
    let band = france_uhf();
    assert_eq!(band.channel_count(), 29);

    let frequencies = collect(band.iter());
    assert_eq!(frequencies.len(), 29);
    assert_eq!(frequencies[0].frequency, 474_166_000);
    assert_eq!(frequencies[0].number, Some(21));
    assert_eq!(frequencies[28].frequency, 698_166_000);
    assert_eq!(frequencies[28].number, Some(49));
}
