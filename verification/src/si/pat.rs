//! Program Association Table (ISO/IEC 13818-1).

use vstd::prelude::*;

use crate::error::DecodeError;
use crate::mpeg::{Packet, PacketHeader, PacketModel};
use crate::utils::{be16, combine_parsed, spec_be16};

verus! {

/// The PAT is always carried on this packet id.
pub const PID: u16 = 0x0000;

/// "Program association section" table id.
pub const TABLE_ID: u8 = 0x00;

#[derive(Debug, Copy, Clone, PartialEq, Eq, Structural)]
pub struct PatElement {
    pub program_number: u16,
    pub value: PatValue,
}

/// The packet id a PAT entry points at: the network PID when the
/// program number is zero, a program map PID otherwise.
#[derive(Debug, Copy, Clone, PartialEq, Eq, Structural)]
pub enum PatValue {
    Network(u16),
    ProgramMap(u16),
}

/// Consecutive 4-byte PAT entries: a program number and a 13-bit PID.
pub open spec fn spec_pat_entries(b: Seq<u8>) -> Result<Seq<PatElement>, DecodeError>
    decreases b.len(),
{
    if b.len() == 0 {
        Ok(Seq::empty())
    } else if b.len() < 4 {
        Err(DecodeError::ShortBuffer)
    } else {
        let program_number = spec_be16(b[0], b[1]);
        let value = spec_be16(b[2] & 0x1f, b[3]);
        let e = PatElement {
            program_number,
            value: if program_number == 0 {
                PatValue::Network(value)
            } else {
                PatValue::ProgramMap(value)
            },
        };
        match spec_pat_entries(b.skip(4)) {
            Ok(rest) => Ok(seq![e] + rest),
            Err(err) => Err(err),
        }
    }
}

/// What [`parse_pat`] decodes from a whole section: the entries that
/// fill the payload region the header's section length announces.
pub open spec fn spec_parse_pat(p: PacketModel) -> Result<Seq<PatElement>, DecodeError> {
    if p.header.section_length < 9 {
        Err(DecodeError::LengthOutOfRange)
    } else if p.data.len() < p.header.section_length - 9 {
        Err(DecodeError::ShortBuffer)
    } else {
        spec_pat_entries(p.data.take(p.header.section_length - 9))
    }
}

//
// ----- Law: PAT round trip

/// The packet id a PAT entry points at, whichever role it plays.
pub open spec fn spec_pat_pid(e: PatElement) -> u16 {
    match e.value {
        PatValue::Network(pid) => pid,
        PatValue::ProgramMap(pid) => pid,
    }
}

/// A PAT entry that can be written down: its PID fits 13 bits, and it
/// is a network entry exactly when its program number is zero, as the
/// decoder classifies them.
pub open spec fn spec_pat_entry_wf(e: PatElement) -> bool {
    &&& spec_pat_pid(e) <= 0x1fff
    &&& (e.program_number == 0 <==> e.value is Network)
}

/// A hand-encoded run of PAT entries: four bytes each, the reserved
/// bits of the PID's first byte set as broadcast streams carry them.
pub open spec fn spec_encode_pat_entries(entries: Seq<PatElement>) -> Seq<u8>
    decreases entries.len(),
{
    if entries.len() == 0 {
        Seq::empty()
    } else {
        seq![
            (entries[0].program_number >> 8) as u8,
            (entries[0].program_number & 0xff) as u8,
            0xe0u8 | ((spec_pat_pid(entries[0]) >> 8) as u8),
            (spec_pat_pid(entries[0]) & 0xff) as u8,
        ] + spec_encode_pat_entries(entries.skip(1))
    }
}

/// Round trip on synthetic PAT payloads: a buffer hand-encoded from
/// any run of writable entries decodes back to exactly those entries,
/// program numbers, PIDs and network/program-map roles included.
pub proof fn lemma_pat_entries_round_trip(entries: Seq<PatElement>)
    requires
        forall|i: int| 0 <= i < entries.len() ==> spec_pat_entry_wf(#[trigger] entries[i]),
    ensures
        spec_pat_entries(spec_encode_pat_entries(entries)) == Ok::<Seq<PatElement>, DecodeError>(
            entries,
        ),
    decreases entries.len(),
{
    let b = spec_encode_pat_entries(entries);
    if entries.len() == 0 {
        assert(spec_pat_entries(b) == Ok::<Seq<PatElement>, DecodeError>(Seq::empty()));
        assert(entries =~= Seq::<PatElement>::empty());
    } else {
        let e = entries[0];
        let pn = e.program_number;
        let pid = spec_pat_pid(e);
        let rest = spec_encode_pat_entries(entries.skip(1));

        assert(b.len() == 4 + rest.len());
        assert(b[0] == (pn >> 8) as u8);
        assert(b[1] == (pn & 0xff) as u8);
        assert(b[2] == 0xe0u8 | ((pid >> 8) as u8));
        assert(b[3] == (pid & 0xff) as u8);

        assert(((((pn >> 8) as u8) as u16) << 8) | (((pn & 0xff) as u8) as u16) == pn)
            by (bit_vector);
        assert((((((0xe0u8 | ((pid >> 8) as u8)) & 0x1f) as u16) << 8) | (((pid & 0xff) as u8)
            as u16)) == pid) by (bit_vector)
            requires
                pid <= 0x1fff,
        ;
        assert(spec_be16(b[0], b[1]) == pn);
        assert(spec_be16(b[2] & 0x1f, b[3]) == pid);

        assert(b.skip(4) =~= rest);
        assert(forall|i: int|
            0 <= i < entries.skip(1).len() ==> spec_pat_entry_wf(#[trigger] entries.skip(1)[i]));
        lemma_pat_entries_round_trip(entries.skip(1));

        assert(seq![e] + entries.skip(1) =~= entries);
    }
}

/// Round trip of a whole PAT section payload: a packet whose data is a
/// hand-encoded run of writable entries, and whose header announces
/// exactly that payload, decodes back to those entries.
pub proof fn lemma_parse_pat_round_trip(h: PacketHeader, entries: Seq<PatElement>, crc: u32)
    requires
        forall|i: int| 0 <= i < entries.len() ==> spec_pat_entry_wf(#[trigger] entries[i]),
        h.section_length == spec_encode_pat_entries(entries).len() + 9,
        h.section_length <= 0x3fd,
    ensures
        spec_parse_pat(
            PacketModel { header: h, data: spec_encode_pat_entries(entries), crc },
        ) == Ok::<Seq<PatElement>, DecodeError>(entries),
{
    let payload = spec_encode_pat_entries(entries);
    assert(payload.take(h.section_length - 9) =~= payload);
    lemma_pat_entries_round_trip(entries);
}

/// Decodes a Program Association Table section payload.
pub fn parse_pat(packet: &Packet) -> (r: Result<Vec<PatElement>, DecodeError>)
    ensures
        match r {
            Ok(es) => spec_parse_pat(packet@) == Ok::<Seq<PatElement>, DecodeError>(es@),
            Err(e) => spec_parse_pat(packet@) == Err::<Seq<PatElement>, DecodeError>(e),
        },
{
    if packet.header.section_length < 9 {
        return Err(DecodeError::LengthOutOfRange);
    }
    let payload_len = packet.header.payload_len() as usize;
    if packet.data.len() < payload_len {
        return Err(DecodeError::ShortBuffer);
    }
    let ghost region = packet@.data.take(payload_len as int);

    let mut elements: Vec<PatElement> = Vec::new();

    proof {
        assert(region.skip(0) =~= region);
        assert(elements@ =~= Seq::<PatElement>::empty());
    }

    let mut offset: usize = 0;
    while offset < payload_len
        invariant
            offset <= payload_len <= packet.data.len(),
            region == packet@.data.take(payload_len as int),
            spec_parse_pat(packet@) == spec_pat_entries(region),
            spec_pat_entries(region) == combine_parsed(
                elements@,
                spec_pat_entries(region.skip(offset as int)),
            ),
        decreases payload_len - offset,
    {
        let ghost rem = region.skip(offset as int);
        if payload_len - offset < 4 {
            return Err(DecodeError::ShortBuffer);
        }
        let program_number = be16(packet.data[offset], packet.data[offset + 1]);
        let value = be16(packet.data[offset + 2] & 0x1f, packet.data[offset + 3]);
        let element = PatElement {
            program_number,
            value: if program_number == 0 {
                PatValue::Network(value)
            } else {
                PatValue::ProgramMap(value)
            },
        };
        proof {
            assert(rem[0] == packet@.data[offset as int]);
            assert(rem[1] == packet@.data[offset as int + 1]);
            assert(rem[2] == packet@.data[offset as int + 2]);
            assert(rem[3] == packet@.data[offset as int + 3]);
            assert(rem.skip(4) =~= region.skip(offset as int + 4));
            match spec_pat_entries(region.skip(offset as int + 4)) {
                Ok(rest) => {
                    assert(elements@ + (seq![element] + rest) =~= elements@.push(element) + rest);
                },
                Err(_) => {},
            }
        }
        elements.push(element);
        offset = offset + 4;
    }

    proof {
        assert(region.skip(payload_len as int) =~= Seq::<u8>::empty());
        assert(elements@ + Seq::<PatElement>::empty() =~= elements@);
    }
    Ok(elements)
}

} // verus!
