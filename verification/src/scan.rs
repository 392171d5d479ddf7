//! Scanning a DVB system for transponders.
//!
//! The scanner sweeps a set of candidate frequencies. Driving the
//! hardware — tuning, waiting for lock, reading filtered sections —
//! happens outside this library; what lives here are the decisions:
//! which sections to request for a PAT, how to decode a captured batch
//! into a [`Transponder`], and how to fold an observation into the
//! result set, keeping the strongest copy of each transport stream.

use vstd::prelude::*;

use crate::demux::PidTableIdPair;
use crate::error::ScanError;
use crate::frontend::properties::get::{spec_scale_compatible, spec_stronger, SignalStrength};
use crate::frontend::properties::set::Bandwidth;
use crate::frontend::sys::FeDeliverySystem;
use crate::mpeg::{Packet, PacketModel};
use crate::si::nit::{spec_parse_nit, NetworkInformation, NetworkInformationModel};
use crate::si::pat::{spec_parse_pat, PatElement, PatValue};
use crate::si::pmt::{spec_parse_pmt, ProgramMapTable, ProgramMapTableModel};
use crate::si::sdt::{spec_parse_sdt, ServiceDescription, ServiceDescriptionModel};
use crate::utils::seq_view;
use vstd::pervasive::VecAdditionalExecFns;

verus! {

/// How long each scan step waits, in milliseconds: for the frontend to
/// lock, and for the PAT section to arrive. The PAT budget is longer
/// on purpose — some delivery systems retransmit it less often.
#[derive(Debug, Copy, Clone, PartialEq, Eq, Structural)]
pub struct ScanConfig {
    pub lock_timeout_ms: u64,
    pub pat_timeout_ms: u64,
}

impl Default for ScanConfig {
    /// One second to lock, three seconds for the PAT.
    fn default() -> (r: ScanConfig)
        ensures
            r.lock_timeout_ms == 1000,
            r.pat_timeout_ms == 3000,
    {
        ScanConfig { lock_timeout_ms: 1000, pat_timeout_ms: 3000 }
    }
}

/// A single physical transponder emitting DVB data over a frequency.
#[derive(Debug)]
pub struct Transponder {
    pub frequency: u32,
    pub system: FeDeliverySystem,
    pub bandwidth: Bandwidth,
    pub strength: SignalStrength,
    pub program_map: Vec<ProgramMapTable>,
    pub service_description: ServiceDescription,
    pub network_information: NetworkInformation,
}

/// The mathematical value of a [`Transponder`].
pub struct TransponderModel {
    pub frequency: u32,
    pub system: FeDeliverySystem,
    pub bandwidth: Bandwidth,
    pub strength: SignalStrength,
    pub program_map: Seq<ProgramMapTableModel>,
    pub service_description: ServiceDescriptionModel,
    pub network_information: NetworkInformationModel,
}

impl View for Transponder {
    type V = TransponderModel;

    open spec fn view(&self) -> TransponderModel {
        TransponderModel {
            frequency: self.frequency,
            system: self.system,
            bandwidth: self.bandwidth,
            strength: self.strength,
            program_map: seq_view(self.program_map@),
            service_description: self.service_description@,
            network_information: self.network_information@,
        }
    }
}

//
// ----- The scan result set

/// The transponder a key maps to in an association list: the value of
/// the first entry carrying the key.
pub open spec fn spec_find(s: Seq<(u16, Transponder)>, key: u16) -> Option<Transponder>
    decreases s.len(),
{
    if s.len() == 0 {
        None
    } else if s[0].0 == key {
        Some(s[0].1)
    } else {
        spec_find(s.skip(1), key)
    }
}

proof fn lemma_find_update(s: Seq<(u16, Transponder)>, i: int, key: u16, t: Transponder, k: u16)
    requires
        0 <= i < s.len(),
        s[i].0 == key,
        forall|j: int| 0 <= j < i ==> (#[trigger] s[j]).0 != key,
    ensures
        spec_find(s.update(i, (key, t)), key) == Some(t),
        k != key ==> spec_find(s.update(i, (key, t)), k) == spec_find(s, k),
    decreases s.len(),
{
    let u = s.update(i, (key, t));
    if i == 0 {
        assert(u[0] == (key, t));
        assert(u.skip(1) =~= s.skip(1));
    } else {
        assert(u[0] == s[0]);
        assert(u.skip(1) =~= s.skip(1).update(i - 1, (key, t)));
        lemma_find_update(s.skip(1), i - 1, key, t, k);
    }
}

proof fn lemma_find_push(s: Seq<(u16, Transponder)>, v: (u16, Transponder), k: u16)
    ensures
        spec_find(s, k) is Some ==> spec_find(s.push(v), k) == spec_find(s, k),
        spec_find(s, k) is None && v.0 == k ==> spec_find(s.push(v), k) == Some(v.1),
        spec_find(s, k) is None && v.0 != k ==> spec_find(s.push(v), k) is None,
    decreases s.len(),
{
    if s.len() == 0 {
        assert(s.push(v)[0] == v);
        assert(s.push(v).skip(1) =~= Seq::<(u16, Transponder)>::empty());
        assert(spec_find(Seq::<(u16, Transponder)>::empty(), k) is None);
    } else {
        assert(s.push(v)[0] == s[0]);
        assert(s.push(v).skip(1) =~= s.skip(1).push(v));
        lemma_find_push(s.skip(1), v, k);
    }
}

/// The transponders found so far in a scan, keyed by transport stream
/// id. The id is assumed globally unique within one delivery system
/// scan, so each key appears at most once.
pub struct TransponderSet {
    pub entries: Vec<(u16, Transponder)>,
}

impl View for TransponderSet {
    type V = Map<u16, TransponderModel>;

    open spec fn view(&self) -> Map<u16, TransponderModel> {
        Map::new(
            |k: u16| spec_find(self.entries@, k) is Some,
            |k: u16| spec_find(self.entries@, k).unwrap()@,
        )
    }
}

/// How one observation changes the scan result: an unseen transport
/// stream id is inserted; a seen one is replaced only by a strictly
/// stronger reading, so an equal or weaker copy is discarded and the
/// first-found entry wins ties.
pub open spec fn spec_observe(
    m: Map<u16, TransponderModel>,
    key: u16,
    t: TransponderModel,
) -> Map<u16, TransponderModel> {
    if !m.dom().contains(key) {
        m.insert(key, t)
    } else if spec_stronger(t.strength, m[key].strength) {
        m.insert(key, t)
    } else {
        m
    }
}

impl TransponderSet {
    pub fn new() -> (r: TransponderSet)
        ensures
            r@ == Map::<u16, TransponderModel>::empty(),
            r.entries@.len() == 0,
    {
        let r = TransponderSet { entries: Vec::new() };
        proof {
            assert(r@ =~= Map::<u16, TransponderModel>::empty());
        }
        r
    }

    /// How many distinct transport streams have been found.
    pub fn len(&self) -> (r: usize)
        ensures
            r == self.entries@.len(),
    {
        self.entries.len()
    }

    /// The recorded transponder for a transport stream id, if any.
    pub fn get(&self, key: u16) -> (r: Option<&Transponder>)
        ensures
            match r {
                Some(t) => self@.dom().contains(key) && self@[key] == t@ && spec_find(
                    self.entries@,
                    key,
                ) == Some(*t),
                None => !self@.dom().contains(key),
            },
    {
        let ghost all = self.entries@;
        proof {
            assert(all.skip(0) =~= all);
        }
        let mut i: usize = 0;
        while i < self.entries.len()
            invariant
                i <= all.len(),
                all == self.entries@,
                spec_find(all, key) == spec_find(all.skip(i as int), key),
            decreases all.len() - i,
        {
            proof {
                assert(all.skip(i as int)[0] == all[i as int]);
                assert(all.skip(i as int).skip(1) =~= all.skip(i as int + 1));
            }
            if self.entries[i].0 == key {
                proof {
                    assert(spec_find(all, key) == Some(all[i as int].1));
                }
                return Some(&self.entries[i].1);
            }
            i = i + 1;
        }
        proof {
            assert(all.skip(all.len() as int) =~= Seq::<(u16, Transponder)>::empty());
        }
        None
    }

    /// Whether a frequency carrying this transport stream id at this
    /// signal strength is worth capturing: yes when the id is new or
    /// the reading is strictly stronger than the recorded one. A
    /// reading incompatible with the recorded one is an error.
    pub fn should_fetch(&self, key: u16, strength: &SignalStrength) -> (r: Result<bool, ScanError>)
        ensures
            match r {
                Ok(b) => b == (!self@.dom().contains(key) || spec_stronger(
                    *strength,
                    self@[key].strength,
                )) && (self@.dom().contains(key) ==> spec_scale_compatible(
                    *strength,
                    self@[key].strength,
                )),
                Err(e) => self@.dom().contains(key) && !spec_scale_compatible(
                    *strength,
                    self@[key].strength,
                ) && e == ScanError::InconsistentSignalScale,
            },
    {
        match self.get(key) {
            None => Ok(true),
            Some(prev) => strength.stronger_than(&prev.strength),
        }
    }

    /// Folds one observed transponder into the set, keeping the
    /// strongest copy per transport stream id: inserts an unseen id,
    /// replaces a seen one only when the new reading is strictly
    /// stronger, and reports whether the set changed. Readings of
    /// incompatible scale kinds leave the set unchanged and error.
    pub fn record_observation(&mut self, key: u16, transponder: Transponder) -> (r: Result<
        bool,
        ScanError,
    >)
        ensures
            match r {
                Ok(b) => final(self)@ == spec_observe(old(self)@, key, transponder@) && b == (
                !old(self)@.dom().contains(key) || spec_stronger(
                    transponder@.strength,
                    old(self)@[key].strength,
                )),
                Err(e) => final(self)@ == old(self)@ && old(self)@.dom().contains(key)
                    && !spec_scale_compatible(transponder@.strength, old(self)@[key].strength)
                    && e == ScanError::InconsistentSignalScale,
            },
    {
        let ghost all = self.entries@;
        proof {
            assert(all.skip(0) =~= all);
        }
        let mut i: usize = 0;
        while i < self.entries.len()
            invariant
                i <= all.len(),
                all == self.entries@,
                all == old(self).entries@,
                spec_find(all, key) == spec_find(all.skip(i as int), key),
                forall|j: int| 0 <= j < i ==> (#[trigger] all[j]).0 != key,
            decreases all.len() - i,
        {
            proof {
                assert(all.skip(i as int)[0] == all[i as int]);
                assert(all.skip(i as int).skip(1) =~= all.skip(i as int + 1));
            }
            if self.entries[i].0 == key {
                proof {
                    assert(spec_find(all, key) == Some(all[i as int].1));
                    assert(old(self)@.dom().contains(key));
                    assert(old(self)@[key] == all[i as int].1@);
                }
                let stronger = match transponder.strength.stronger_than(&self.entries[i].1.strength) {
                    Ok(b) => b,
                    Err(e) => {
                        return Err(e);
                    },
                };
                if stronger {
                    proof {
                        lemma_find_update(all, i as int, key, transponder, key);
                        assert forall|k: u16| k != key implies spec_find(
                            all.update(i as int, (key, transponder)),
                            k,
                        ) == spec_find(all, k) by {
                            lemma_find_update(all, i as int, key, transponder, k);
                        }
                    }
                    let ghost tv = transponder@;
                    self.entries.set(i, (key, transponder));
                    proof {
                        assert(final(self)@ =~= spec_observe(old(self)@, key, tv));
                    }
                    return Ok(true);
                } else {
                    proof {
                        assert(final(self)@ =~= spec_observe(old(self)@, key, transponder@));
                    }
                    return Ok(false);
                }
            }
            i = i + 1;
        }
        proof {
            assert(all.skip(all.len() as int) =~= Seq::<(u16, Transponder)>::empty());
            assert(spec_find(all, key) is None);
            assert forall|k: u16| true implies #[trigger] spec_find(all.push((key, transponder)), k)
                == (if k == key {
                Some(transponder)
            } else {
                spec_find(all, k)
            }) by {
            lemma_find_push(all, (key, transponder), k);
            }
        }
        let ghost tv = transponder@;
        self.entries.push((key, transponder));
        proof {
            assert(final(self)@ =~= spec_observe(old(self)@, key, tv));
        }
        Ok(true)
    }

    /// Hands the found transponders out, in the order their transport
    /// stream ids were first observed.
    pub fn values(self) -> (r: Vec<Transponder>)
        ensures
            r@.len() == self.entries@.len(),
            forall|i: int| 0 <= i < r@.len() ==> r@[i] == (#[trigger] self.entries@[i]).1,
    {
        let mut out: Vec<Transponder> = Vec::new();
        let mut remaining = self.entries;
        let ghost all = remaining@;
        let ghost n = all.len() as int;
        while remaining.len() > 0
            invariant
                out@.len() + remaining@.len() == n,
                forall|i: int| 0 <= i < out@.len() ==> out@[i] == (#[trigger] all[i]).1,
                forall|i: int| 0 <= i < remaining@.len() ==> (#[trigger] remaining@[i])
                    == all[out@.len() + i],
            decreases remaining@.len(),
        {
            let entry = remaining.remove(0);
            out.push(entry.1);
        }
        out
    }
}

//
// ----- Planning and decoding one frequency

/// The section request a PAT entry gives rise to: the network PID is
/// asked for the actual-network NIT, a program map PID for its PMT.
pub open spec fn spec_pair_for(e: PatElement) -> PidTableIdPair {
    match e.value {
        PatValue::Network(pid) => PidTableIdPair {
            pid,
            table_id: Some(crate::si::nit::ACTUAL_NETWORK_TABLE_ID),
        },
        PatValue::ProgramMap(pid) => PidTableIdPair {
            pid,
            table_id: Some(crate::si::pmt::TABLE_ID),
        },
    }
}

/// The positions of the network entries (or, for `network == false`,
/// of the program map entries) of a PAT, in order.
pub open spec fn spec_indices_with(s: Seq<PatElement>, network: bool) -> Seq<usize>
    decreases s.len(),
{
    if s.len() == 0 {
        Seq::empty()
    } else {
        let pre = spec_indices_with(s.drop_last(), network);
        if (s.last().value is Network) == network {
            pre.push((s.len() - 1) as usize)
        } else {
            pre
        }
    }
}

pub proof fn lemma_indices_with_bounds(s: Seq<PatElement>, network: bool)
    requires
        s.len() <= usize::MAX,
    ensures
        forall|k: int|
            0 <= k < spec_indices_with(s, network).len() ==> (#[trigger] spec_indices_with(
                s,
                network,
            )[k]) < s.len(),
    decreases s.len(),
{
    if s.len() > 0 {
        lemma_indices_with_bounds(s.drop_last(), network);
        let pre = spec_indices_with(s.drop_last(), network);
        let all = spec_indices_with(s, network);
        assert forall|k: int| 0 <= k < all.len() implies all[k] < s.len() by {
            if (s.last().value is Network) == network {
                if k < pre.len() {
                    assert(all[k] == pre[k]);
                } else {
                    assert(all[k] == s.len() - 1);
                }
            } else {
                assert(all[k] == pre[k]);
            }
        }
    }
}



/// The batch of section requests derived from one decoded PAT: one
/// request per NIT-bearing PID, one per PMT-bearing PID, and one fixed
/// request for the SDT, with the positions of each kind remembered.
/// All filters of the batch are set up before any is read, so the
/// broadcast's section repetition cycle cannot be missed.
pub struct AcquisitionPlan {
    pub pairs: Vec<PidTableIdPair>,
    pub nit_indices: Vec<usize>,
    pub pmt_indices: Vec<usize>,
    pub sdt_index: usize,
}

/// Builds the acquisition plan for one decoded PAT: the requests keep
/// the PAT's order, and the SDT request comes last.
pub fn plan_requests(pat_entries: &Vec<PatElement>) -> (r: AcquisitionPlan)
    requires
        pat_entries@.len() < usize::MAX,
    ensures
        r.pairs@.len() == pat_entries@.len() + 1,
        forall|i: int|
            0 <= i < pat_entries@.len() ==> r.pairs@[i] == spec_pair_for(
                #[trigger] pat_entries@[i],
            ),
        r.pairs@[pat_entries@.len() as int] == (PidTableIdPair {
            pid: crate::si::sdt::PID,
            table_id: Some(crate::si::sdt::ACTUAL_TRANSPORT_TABLE_ID),
        }),
        r.nit_indices@ == spec_indices_with(pat_entries@, true),
        r.pmt_indices@ == spec_indices_with(pat_entries@, false),
        r.sdt_index == pat_entries@.len(),
{
    let mut pairs: Vec<PidTableIdPair> = Vec::new();
    let mut nit_indices: Vec<usize> = Vec::new();
    let mut pmt_indices: Vec<usize> = Vec::new();

    proof {
        assert(pat_entries@.take(0) =~= Seq::<PatElement>::empty());
    }

    let mut i: usize = 0;
    while i < pat_entries.len()
        invariant
            i <= pat_entries@.len() < usize::MAX,
            pairs@.len() == i,
            forall|j: int|
                0 <= j < i ==> pairs@[j] == spec_pair_for(#[trigger] pat_entries@[j]),
            nit_indices@ == spec_indices_with(pat_entries@.take(i as int), true),
            pmt_indices@ == spec_indices_with(pat_entries@.take(i as int), false),
        decreases pat_entries@.len() - i,
    {
        proof {
            assert(pat_entries@.take(i as int + 1).drop_last() =~= pat_entries@.take(i as int));
            assert(pat_entries@.take(i as int + 1).last() == pat_entries@[i as int]);
        }
        match pat_entries[i].value {
            PatValue::Network(pid) => {
                nit_indices.push(i);
                pairs.push(PidTableIdPair {
                    pid,
                    table_id: Some(crate::si::nit::ACTUAL_NETWORK_TABLE_ID),
                });
            },
            PatValue::ProgramMap(pid) => {
                pmt_indices.push(i);
                pairs.push(PidTableIdPair {
                    pid,
                    table_id: Some(crate::si::pmt::TABLE_ID),
                });
            },
        }
        i = i + 1;
    }

    proof {
        assert(pat_entries@.take(pat_entries@.len() as int) =~= pat_entries@);
    }
    let sdt_index = pairs.len();
    pairs.push(PidTableIdPair {
        pid: crate::si::sdt::PID,
        table_id: Some(crate::si::sdt::ACTUAL_TRANSPORT_TABLE_ID),
    });

    AcquisitionPlan { pairs, nit_indices, pmt_indices, sdt_index }
}

/// The program map tables decoded from the sections at the given
/// positions, or nothing as soon as one of them is malformed.
pub open spec fn spec_parse_pmts(sections: Seq<PacketModel>, idxs: Seq<usize>) -> Option<
    Seq<ProgramMapTableModel>,
>
    decreases idxs.len(),
{
    if idxs.len() == 0 {
        Some(Seq::empty())
    } else {
        match spec_parse_pmts(sections, idxs.drop_last()) {
            None => None,
            Some(pre) => match spec_parse_pmt(sections[idxs.last() as int]) {
                Err(_) => None,
                Ok(m) => Some(pre.push(m)),
            },
        }
    }
}

/// The transponder assembled from one captured frequency: the NIT from
/// the last network request, the SDT from the fixed trailing request,
/// and one PMT per program map request. Nothing is assembled when the
/// PAT named no network PID or any section is malformed.
pub open spec fn spec_assemble(
    frequency: u32,
    system: FeDeliverySystem,
    bandwidth: Bandwidth,
    strength: SignalStrength,
    entries: Seq<PatElement>,
    sections: Seq<PacketModel>,
) -> Option<TransponderModel> {
    let nit_idxs = spec_indices_with(entries, true);
    let pmt_idxs = spec_indices_with(entries, false);
    if nit_idxs.len() == 0 {
        None
    } else {
        match spec_parse_nit(sections[nit_idxs.last() as int]) {
            Err(_) => None,
            Ok(nit) => match spec_parse_sdt(sections[entries.len() as int]) {
                Err(_) => None,
                Ok(sdt) => match spec_parse_pmts(sections, pmt_idxs) {
                    None => None,
                    Some(pmts) => Some(TransponderModel {
                        frequency,
                        system,
                        bandwidth,
                        strength,
                        program_map: pmts,
                        service_description: sdt,
                        network_information: nit,
                    }),
                },
            },
        }
    }
}

/// What one candidate frequency yielded, as the hardware reported it.
pub enum ChannelObservation {
    /// The frontend never locked: the frequency carries nothing
    /// receivable.
    NoLock,
    /// The frontend locked but the PAT never arrived: reception is too
    /// weak to use.
    PatTimeout,
    /// The PAT arrived; the batch of sections planned from it was
    /// captured, in the plan's order, along with a signal strength
    /// reading.
    Received { pat: Packet, strength: SignalStrength, sections: Vec<Packet> },
}

/// One step of the scan sweep: folds what one candidate frequency
/// yielded into the result set.
///
/// A frequency that did not lock, lost the PAT, or delivered malformed
/// sections contributes nothing and raises no error; a batch that does
/// not line up with the plan, or a signal reading on a different scale
/// than the recorded one, is an internal-consistency failure and
/// aborts the scan. The result says whether the set changed.
#[verifier::rlimit(100)]
pub fn scan_step(
    found: &mut TransponderSet,
    frequency: u32,
    system: FeDeliverySystem,
    bandwidth: Bandwidth,
    observation: ChannelObservation,
) -> (r: Result<bool, ScanError>)
    ensures
        match observation {
            ChannelObservation::NoLock | ChannelObservation::PatTimeout => r == Ok::<
                bool,
                ScanError,
            >(false) && final(found)@ == old(found)@,
            ChannelObservation::Received { pat, strength, sections } => {
                let key = pat@.header.identifier;
                match spec_parse_pat(pat@) {
                    Err(_) => r == Ok::<bool, ScanError>(false) && final(found)@ == old(found)@,
                    Ok(entries) => if sections@.len() != entries.len() + 1 {
                        r == Err::<bool, ScanError>(ScanError::PlanMismatch) && final(found)@
                            == old(found)@
                    } else if old(found)@.dom().contains(key) && !spec_scale_compatible(
                        strength,
                        old(found)@[key].strength,
                    ) {
                        r == Err::<bool, ScanError>(ScanError::InconsistentSignalScale)
                            && final(found)@ == old(found)@
                    } else if old(found)@.dom().contains(key) && !spec_stronger(
                        strength,
                        old(found)@[key].strength,
                    ) {
                        r == Ok::<bool, ScanError>(false) && final(found)@ == old(found)@
                    } else {
                        match spec_assemble(
                            frequency,
                            system,
                            bandwidth,
                            strength,
                            entries,
                            seq_view(sections@),
                        ) {
                            None => r == Ok::<bool, ScanError>(false)
                                && final(found)@ == old(found)@,
                            Some(t) => r == Ok::<bool, ScanError>(true)
                                && final(found)@ == old(found)@.insert(key, t),
                        }
                    },
                }
            },
        },
{
    let (pat, strength, sections) = match observation {
        ChannelObservation::NoLock => { return Ok(false); },
        ChannelObservation::PatTimeout => { return Ok(false); },
        ChannelObservation::Received { pat, strength, sections } => (pat, strength, sections),
    };

    let key = pat.header.identifier;

    let pat_entries = match crate::si::pat::parse_pat(&pat) {
        Ok(es) => es,
        Err(_) => { return Ok(false); },
    };

    if sections.len() == 0 || sections.len() - 1 != pat_entries.len() {
        return Err(ScanError::PlanMismatch);
    }

    let worth_it = match found.should_fetch(key, &strength) {
        Ok(b) => b,
        Err(e) => { return Err(e); },
    };
    if !worth_it {
        return Ok(false);
    }

    let plan = plan_requests(&pat_entries);
    let ghost secs = seq_view(sections@);
    let ghost entries = pat_entries@;

    proof {
        lemma_indices_with_bounds(entries, true);
        lemma_indices_with_bounds(entries, false);
    }

    // Parse the NIT from the last network request; there should only
    // be one on a well-formed transport stream.
    if plan.nit_indices.len() == 0 {
        return Ok(false);
    }
    let nit_index = plan.nit_indices[plan.nit_indices.len() - 1];
    proof {
        assert(plan.nit_indices@.last() == plan.nit_indices@[plan.nit_indices@.len() - 1]);
    }
    let network_information = match NetworkInformation::from_packet(&sections[nit_index]) {
        Ok(n) => n,
        Err(_) => { return Ok(false); },
    };

    // Parse all PMTs.
    let program_map = match parse_pmts(&sections, &plan.pmt_indices) {
        Ok(pm) => pm,
        Err(_) => { return Ok(false); },
    };

    // Parse the SDT from the fixed trailing request.
    let service_description = match ServiceDescription::from_packet(&sections[plan.sdt_index]) {
        Ok(s) => s,
        Err(_) => { return Ok(false); },
    };

    let transponder = Transponder {
        frequency,
        system,
        bandwidth,
        strength,
        program_map,
        service_description,
        network_information,
    };
    let ghost tv = transponder@;
    let changed = match found.record_observation(key, transponder) {
        Ok(b) => b,
        Err(e) => { return Err(e); },
    };
    proof {
        assert(spec_assemble(frequency, system, bandwidth, strength, entries, secs) == Some(tv));
        assert(final(found)@ == old(found)@.insert(key, tv));
    }
    Ok(changed)
}

/// Decodes the program map tables at the given positions of a
/// captured batch, in order; the first malformed one fails the batch.
#[verifier::rlimit(60)]
fn parse_pmts(sections: &Vec<Packet>, idxs: &Vec<usize>) -> (r: Result<
    Vec<ProgramMapTable>,
    crate::error::DecodeError,
>)
    requires
        forall|k: int| 0 <= k < idxs@.len() ==> (#[trigger] idxs@[k]) < sections@.len(),
    ensures
        match r {
            Ok(pm) => spec_parse_pmts(seq_view(sections@), idxs@) == Some(seq_view(pm@)),
            Err(_) => spec_parse_pmts(seq_view(sections@), idxs@) is None,
        },
{
    let ghost secs = seq_view(sections@);
    let mut program_map: Vec<ProgramMapTable> = Vec::new();
    proof {
        assert(idxs@.take(0) =~= Seq::<usize>::empty());
        assert(seq_view(program_map@) =~= Seq::<ProgramMapTableModel>::empty());
    }
    let mut i: usize = 0;
    while i < idxs.len()
        invariant
            i <= idxs@.len(),
            forall|k: int| 0 <= k < idxs@.len() ==> (#[trigger] idxs@[k]) < sections@.len(),
            secs == seq_view(sections@),
            spec_parse_pmts(secs, idxs@.take(i as int)) == Some(seq_view(program_map@)),
        decreases idxs@.len() - i,
    {
        let idx = idxs[i];
        proof {
            assert(idxs@.take(i as int + 1).drop_last() =~= idxs@.take(i as int));
            assert(idxs@.take(i as int + 1).last() == idxs@[i as int]);
            assert(secs[idxs@[i as int] as int] == sections@[idxs@[i as int] as int]@);
        }
        let pmt = match crate::si::pmt::parse_pmt(&sections[idx]) {
            Ok(p) => p,
            Err(e) => {
                proof {
                    lemma_take_prefix_parse_fails(secs, idxs@, i as int);
                }
                return Err(e);
            },
        };
        proof {
            crate::utils::lemma_seq_view_push(program_map@, pmt);
        }
        program_map.push(pmt);
        i = i + 1;
    }
    proof {
        assert(idxs@.take(idxs@.len() as int) =~= idxs@);
    }
    Ok(program_map)
}

/// When the program map table at one position of the plan is
/// malformed, the whole prefix list fails, and with it the full list.
proof fn lemma_take_prefix_parse_fails(secs: Seq<PacketModel>, idxs: Seq<usize>, i: int)
    requires
        0 <= i < idxs.len(),
        spec_parse_pmt(secs[idxs[i] as int]) is Err,
    ensures
        spec_parse_pmts(secs, idxs) is None,
    decreases idxs.len(),
{
    if idxs.len() > 0 {
        if i == idxs.len() - 1 {
        } else {
            assert(idxs.drop_last()[i] == idxs[i]);
            lemma_take_prefix_parse_fails(secs, idxs.drop_last(), i);
        }
    }
}

//
// ----- Laws of the tie-break

/// Tie-break monotonicity, unequal readings: two observations of the
/// same transport stream id whose strengths compare strictly leave the
/// stronger one recorded, whichever order they arrive in.
pub proof fn lemma_tie_break_monotonic(
    m: Map<u16, TransponderModel>,
    key: u16,
    weaker: TransponderModel,
    stronger: TransponderModel,
)
    requires
        !m.dom().contains(key),
        spec_stronger(stronger.strength, weaker.strength),
    ensures
        spec_observe(spec_observe(m, key, weaker), key, stronger) == m.insert(key, stronger),
        spec_observe(spec_observe(m, key, stronger), key, weaker) == m.insert(key, stronger),
{
    assert(spec_observe(spec_observe(m, key, weaker), key, stronger) =~= m.insert(key, stronger));
    assert(m.insert(key, stronger).insert(key, stronger) =~= m.insert(key, stronger));
}

/// Tie-break on equal readings: re-inserting an observation whose
/// strength is not strictly stronger — equal in particular — leaves
/// the first-recorded entry in place.
pub proof fn lemma_tie_break_equal_keeps_first(
    m: Map<u16, TransponderModel>,
    key: u16,
    first: TransponderModel,
    second: TransponderModel,
)
    requires
        !m.dom().contains(key),
        !spec_stronger(second.strength, first.strength),
    ensures
        spec_observe(spec_observe(m, key, first), key, second) == m.insert(key, first),
{
}

} // verus!
