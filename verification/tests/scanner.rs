//! Scan decisions: lock polling, tie-break, and the per-frequency step.

use rdvb::error::ScanError;
use rdvb::frontend::properties::get::{SignalStrength, ValueStat};
use rdvb::frontend::properties::set::Bandwidth;
use rdvb::frontend::sys::{FeDeliverySystem, FeStatus};
use rdvb::frontend::{lock_poll, LockPoll, DEFAULT_POLL_INTERVAL_MS};
use rdvb::mpeg::Packet;
use rdvb::scan::{
    plan_requests, scan_step, ChannelObservation, ScanConfig, Transponder, TransponderSet,
};
use rdvb::si::nit::NetworkInformation;
use rdvb::si::pat::{parse_pat, PatValue};
use rdvb::si::sdt::ServiceDescription;

fn section(table_id: u8, identifier: u16, payload: &[u8]) -> Vec<u8> {
    let section_length = (payload.len() + 9) as u16;
    let mut buf = vec![
        table_id,
        0x80 | ((section_length >> 8) as u8),
        (section_length & 0xff) as u8,
        (identifier >> 8) as u8,
        (identifier & 0xff) as u8,
        0x01,
        0x00,
        0x00,
    ];
    buf.extend_from_slice(payload);
    buf.extend_from_slice(&[0, 0, 0, 0]);
    buf
}

fn relative(value: u64) -> SignalStrength {
    SignalStrength(Some(ValueStat::Relative(value)))
}

fn empty_transponder(frequency: u32, strength: SignalStrength) -> Transponder {
    Transponder {
        frequency,
        system: FeDeliverySystem::DVBT,
        bandwidth: Bandwidth::_8MHz,
        strength,
        program_map: Vec::new(),
        service_description: ServiceDescription { original_network_id: 0, services: Vec::new() },
        network_information: NetworkInformation {
            network_descriptors: Vec::new(),
            elements: Vec::new(),
        },
    }
}

#[test]
fn lock_timeout_elapses() {
    // A frontend that never locks: the wait must fail once strictly
    // more than the budget has elapsed — about 100 ms here, not fewer
    // and not indefinitely.
    let unlocked = FeStatus(0);
    let timeout_ms = 100u64;
    let mut elapsed: u64 = 0;
    let mut rounds = 0;
    loop {
        match lock_poll(unlocked, elapsed, Some(timeout_ms)) {
            LockPoll::Locked => panic!("an unlocked frontend must not report lock"),
            LockPoll::TimedOut => break,
            LockPoll::Poll => {
                elapsed += DEFAULT_POLL_INTERVAL_MS;
                rounds += 1;
                assert!(rounds < 100, "the wait must not run indefinitely");
            },
        }
    }
    assert!(elapsed >= timeout_ms);
    assert_eq!(elapsed, 150);
}

#[test]
fn lock_poll_sees_lock_first() {
    let locked = FeStatus(16);
    assert_eq!(lock_poll(locked, 0, Some(100)), LockPoll::Locked);
    // Lock wins even when the budget is already spent.
    assert_eq!(lock_poll(locked, 500, Some(100)), LockPoll::Locked);
    // Without a timeout the wait never gives up.
    assert_eq!(lock_poll(FeStatus(0), 1_000_000, None), LockPoll::Poll);
}

#[test]
fn scan_config_defaults() {
    let config = ScanConfig::default();
    assert_eq!(config.lock_timeout_ms, 1000);
    assert_eq!(config.pat_timeout_ms, 3000);
}

#[test]
fn tie_break_keeps_strongest_either_order() {
    let weaker = empty_transponder(474_000_000, relative(10));
    let stronger = empty_transponder(482_000_000, relative(20));

    let mut first_weak = TransponderSet::new();
    first_weak.record_observation(7, weaker).unwrap();
    assert_eq!(first_weak.record_observation(7, stronger), Ok(true));
    let values = first_weak.values();
    assert_eq!(values.len(), 1);
    assert_eq!(values[0].strength, relative(20));
    assert_eq!(values[0].frequency, 482_000_000);

    let weaker = empty_transponder(474_000_000, relative(10));
    let stronger = empty_transponder(482_000_000, relative(20));
    let mut first_strong = TransponderSet::new();
    first_strong.record_observation(7, stronger).unwrap();
    assert_eq!(first_strong.record_observation(7, weaker), Ok(false));
    let values = first_strong.values();
    assert_eq!(values.len(), 1);
    assert_eq!(values[0].strength, relative(20));
    assert_eq!(values[0].frequency, 482_000_000);
}

#[test]
fn tie_break_keeps_first_on_equal_strength() {
    let first = empty_transponder(474_000_000, relative(10));
    let second = empty_transponder(482_000_000, relative(10));

    let mut set = TransponderSet::new();
    set.record_observation(7, first).unwrap();
    assert_eq!(set.record_observation(7, second), Ok(false));
    let values = set.values();
    assert_eq!(values.len(), 1);
    assert_eq!(values[0].frequency, 474_000_000);
}

#[test]
fn incompatible_scales_are_an_error() {
    let decibel = SignalStrength(Some(ValueStat::Decibel(-20_000)));
    let rel = relative(10);
    assert_eq!(
        rel.stronger_than(&decibel),
        Err(ScanError::InconsistentSignalScale)
    );

    let mut set = TransponderSet::new();
    set.record_observation(7, empty_transponder(474_000_000, rel)).unwrap();
    assert_eq!(
        set.record_observation(7, empty_transponder(482_000_000, decibel)),
        Err(ScanError::InconsistentSignalScale)
    );
    assert_eq!(set.len(), 1);
}

#[test]
fn plan_follows_pat_order() {
    let payload = [0x00, 0x00, 0xe0, 0x10, 0x00, 0x01, 0xe0, 0x20];
    let packet = Packet::from_buf(&section(0x00, 7, &payload)).unwrap();
    let entries = parse_pat(&packet).unwrap();
    assert_eq!(entries[0].value, PatValue::Network(0x10));

    let plan = plan_requests(&entries);
    assert_eq!(plan.pairs.len(), 3);
    assert_eq!(plan.pairs[0].pid, 0x10);
    assert_eq!(plan.pairs[0].table_id, Some(0x40));
    assert_eq!(plan.pairs[1].pid, 0x20);
    assert_eq!(plan.pairs[1].table_id, Some(0x02));
    assert_eq!(plan.pairs[2].pid, 0x11);
    assert_eq!(plan.pairs[2].table_id, Some(0x42));
    assert_eq!(plan.nit_indices, vec![0]);
    assert_eq!(plan.pmt_indices, vec![1]);
    assert_eq!(plan.sdt_index, 2);
}

fn captured_frequency(transport_stream_id: u16, strength: SignalStrength) -> ChannelObservation {
    let pat_payload = [0x00, 0x00, 0xe0, 0x10, 0x00, 0x01, 0xe0, 0x20];
    let pat = Packet::from_buf(&section(0x00, transport_stream_id, &pat_payload)).unwrap();
    let nit = Packet::from_buf(&section(0x40, 9, &[0xf0, 0x00, 0xf0, 0x00])).unwrap();
    let pmt = Packet::from_buf(&section(0x02, 1, &[0xe1, 0x00, 0xf0, 0x00])).unwrap();
    let sdt = Packet::from_buf(&section(0x42, transport_stream_id, &[0x00, 0x05, 0xff])).unwrap();
    ChannelObservation::Received { pat, strength, sections: vec![nit, pmt, sdt] }
}

#[test]
fn scan_skips_frequencies_without_lock() {
    // Three candidate frequencies of which only the second locks: the
    // sweep yields exactly that frequency's transponder, and the other
    // two contribute nothing and raise no error.
    let mut found = TransponderSet::new();
    let candidates = [474_000_000u32, 482_000_000, 490_000_000];

    for (i, frequency) in candidates.iter().enumerate() {
        let observation = if i == 1 {
            captured_frequency(7, relative(12))
        } else {
            ChannelObservation::NoLock
        };
        let changed = scan_step(
            &mut found,
            *frequency,
            FeDeliverySystem::DVBT,
            Bandwidth::_8MHz,
            observation,
        ).unwrap();
        assert_eq!(changed, i == 1);
    }

    assert_eq!(found.len(), 1);
    let values = found.values();
    assert_eq!(values[0].frequency, 482_000_000);
    assert_eq!(values[0].strength, relative(12));
    assert_eq!(values[0].program_map.len(), 1);
    assert_eq!(values[0].program_map[0].pcr_pid, 0x100);
    assert_eq!(values[0].service_description.original_network_id, 5);
}

#[test]
fn scan_skips_pat_timeouts() {
    let mut found = TransponderSet::new();
    let changed = scan_step(
        &mut found,
        474_000_000,
        FeDeliverySystem::DVBT,
        Bandwidth::_8MHz,
        ChannelObservation::PatTimeout,
    ).unwrap();
    assert!(!changed);
    assert_eq!(found.len(), 0);
}

#[test]
fn scan_rejects_batch_not_matching_plan() {
    let mut found = TransponderSet::new();
    let pat_payload = [0x00, 0x00, 0xe0, 0x10];
    let pat = Packet::from_buf(&section(0x00, 7, &pat_payload)).unwrap();
    let observation = ChannelObservation::Received {
        pat,
        strength: relative(10),
        sections: Vec::new(),
    };
    assert_eq!(
        scan_step(&mut found, 474_000_000, FeDeliverySystem::DVBT, Bandwidth::_8MHz, observation),
        Err(ScanError::PlanMismatch)
    );
}
