//! The assembled case: the decoded header and one ordered collection
//! per record kind, and the driver that produces it from a raw byte
//! buffer.

use vstd::prelude::*;
use vstd::slice::slice_subrange;
use crate::CaseRevision;
use crate::components::area::{area_section_ok, parse_areas, Area};
use crate::components::branch::{branch_section_ok, parse_lines, Branch};
use crate::components::bus::{bus_section_ok, parse_buses, Bus};
use crate::components::facts::{facts_section_ok, parse_facts, Facts};
use crate::components::fixed_shunt::{fixed_shunt_section_ok, parse_fixedshunts, FixedShunt};
use crate::components::generator::{generator_section_ok, parse_generators, Generator};
use crate::components::header::{header_matches, HeaderInfo};
use crate::components::impedance_correction::{corr_section_ok, parse_impedance_correction_table,
    ImpedanceCorrectionTable};
use crate::components::induction_machine::{induction_machine_section_ok, parse_induction_machines,
    InductionMachine};
use crate::components::interarea_transfer::{parse_area_transfers, transfer_section_ok,
    InterAreaTransfer};
use crate::components::load::{load_section_ok, parse_loads, Load};
use crate::components::multisection_line::{multisection_section_ok, parse_multisection_lines,
    MultiSectionLine};
use crate::components::multiterminal_dc_line::{mtdc_section_ok, parse_multiterminal_dc_line,
    MultiTermDCLine};
use crate::components::owner::{owner_section_ok, parse_owners, Owner};
use crate::components::switched_shunt::{parse_switched_shunts, switched_shunt_section_ok,
    SwitchedShunt};
use crate::components::system_switching_device::{parse_system_switching_device,
    switching_device_section_ok, SystemSwitchingDevice};
use crate::components::transformer::{parse_transformers, xf_section_ok, Transformer};
use crate::components::two_terminal_dc::{parse_two_terminal_dc_line, ttdc_section_ok,
    TwoTerminalDc};
use crate::components::vsc_dc::{parse_vsc_dc_line, vsc_section_ok, VSCDc};
use crate::components::zone::{parse_zones, zone_section_ok, Zone};
use crate::lines::{line_views, split_lines, split_newlines};
use crate::scan::{header_is_default, scan_sections, spec_scan_header, spec_scan_ranges,
    Section};
use crate::{classify_revision, spec_revision};

verus! {

/// The record kinds of a RAW case, in the order their sections appear;
/// `SwitchingDevice` exists only under Modern revisions.
#[derive(Debug, PartialEq, Eq)]
pub enum PSSEDatatype {
    /// The case header pseudo-section.
    Header,
    /// Buses.
    Bus,
    /// Loads.
    Load,
    /// Fixed shunts.
    FixedShunt,
    /// Generators.
    Generator,
    /// Non-transformer branches.
    Branch,
    /// System switching devices; Modern revisions only.
    SwitchingDevice,
    /// Transformers.
    Transformer,
    /// Area interchanges.
    Area,
    /// Two-terminal DC lines.
    TwoTerminalDc,
    /// VSC DC lines.
    VscDc,
    /// Impedance correction tables.
    ImpedanceCorrection,
    /// Multi-terminal DC lines.
    MultiTerminalDc,
    /// Multi-section line groupings.
    MultiSectionLine,
    /// Zones.
    Zone,
    /// Inter-area transfers.
    InterAreaTransfer,
    /// Owners.
    Owner,
    /// FACTS devices.
    Facts,
    /// Switched shunts.
    SwitchedShunt,
    /// GNE devices; recognized but not decoded.
    GneDevice,
    /// A line or section of no recognized kind.
    Unknown,
    /// The end of the file.
    EndOfFile,
}

/// System switching devices, its own kind only under Modern revisions.
/// The Legacy order simply omits it.
pub open spec fn spec_section_kind(number: int, rev: CaseRevision) -> PSSEDatatype {
    let a: int = if rev is Modern {
        1
    } else {
        0
    };
    if number == 0 {
        PSSEDatatype::Header
    } else if number == 1 {
        PSSEDatatype::Bus
    } else if number == 2 {
        PSSEDatatype::Load
    } else if number == 3 {
        PSSEDatatype::FixedShunt
    } else if number == 4 {
        PSSEDatatype::Generator
    } else if number == 5 {
        PSSEDatatype::Branch
    } else if rev is Modern && number == 6 {
        PSSEDatatype::SwitchingDevice
    } else if number == 6 + a {
        PSSEDatatype::Transformer
    } else if number == 7 + a {
        PSSEDatatype::Area
    } else if number == 8 + a {
        PSSEDatatype::TwoTerminalDc
    } else if number == 9 + a {
        PSSEDatatype::VscDc
    } else if number == 10 + a {
        PSSEDatatype::ImpedanceCorrection
    } else if number == 11 + a {
        PSSEDatatype::MultiTerminalDc
    } else if number == 12 + a {
        PSSEDatatype::MultiSectionLine
    } else if number == 13 + a {
        PSSEDatatype::Zone
    } else if number == 14 + a {
        PSSEDatatype::InterAreaTransfer
    } else if number == 15 + a {
        PSSEDatatype::Owner
    } else if number == 16 + a {
        PSSEDatatype::Facts
    } else if number == 17 + a {
        PSSEDatatype::SwitchedShunt
    } else {
        PSSEDatatype::Unknown
    }
}

/// The assembled case: the header and one ordered collection per record
/// kind.  A kind absent from the file keeps an empty collection.
#[derive(Debug, Clone, Default)]
pub struct PSSEData {
    /// The case header.
    pub header: HeaderInfo,
    /// Buses, in file order.
    pub buses: Vec<Bus>,
    /// Loads, in file order.
    pub loads: Vec<Load>,
    /// Fixed shunts, in file order.
    pub fixed_shunts: Vec<FixedShunt>,
    /// Generators, in file order.
    pub generators: Vec<Generator>,
    /// Branches, in file order.
    pub branches: Vec<Branch>,
    /// Switching devices; always empty under Legacy revisions.
    pub switching_devices: Vec<SystemSwitchingDevice>,
    /// Transformers, in file order.
    pub transformers: Vec<Transformer>,
    /// Areas, in file order.
    pub areas: Vec<Area>,
    /// Two-terminal DC lines, in file order.
    pub two_terminal_dc: Vec<TwoTerminalDc>,
    /// VSC DC lines, in file order.
    pub vsc_dc: Vec<VSCDc>,
    /// Impedance correction tables, in file order.
    pub impedance_correction: Vec<ImpedanceCorrectionTable>,
    /// Multi-terminal DC lines, in file order.
    pub multi_terminal_line: Vec<MultiTermDCLine>,
    /// Multi-section line groupings, in file order.
    pub multi_section_line: Vec<MultiSectionLine>,
    /// Zones, in file order.
    pub zones: Vec<Zone>,
    /// Inter-area transfers, in file order.
    pub inter_area_transfer: Vec<InterAreaTransfer>,
    /// Owners, in file order.
    pub owners: Vec<Owner>,
    /// FACTS devices, in file order.
    pub facts: Vec<Facts>,
    /// Switched shunts, in file order.
    pub switched_shunts: Vec<SwitchedShunt>,
    /// Induction machines, in file order.
    pub induction_machines: Vec<InductionMachine>,
}

/// The lines of numbered section `num`, or no lines when the section is
/// missing or its range is unusable.
pub open spec fn range_lines(lines: Seq<Seq<u8>>, ranges: Seq<(int, int)>, num: int) -> Seq<
    Seq<u8>,
> {
    if 0 <= num < ranges.len() {
        let s = ranges[num].0;
        let e = ranges[num].1;
        if 0 <= s <= e <= lines.len() {
            lines.subrange(s, e)
        } else {
            Seq::empty()
        }
    } else {
        Seq::empty()
    }
}

/// The lines of the bus section.  Under Legacy the bootstrap consumes
/// the first bus line and records the section as starting just past it,
/// so a section whose start equals its end still decodes that one
/// consumed line rather than being treated as empty.
pub open spec fn bus_lines(lines: Seq<Seq<u8>>, ranges: Seq<(int, int)>, legacy: bool) -> Seq<
    Seq<u8>,
> {
    if 0 <= 1 < ranges.len() {
        let s = ranges[1].0;
        let e = ranges[1].1;
        if legacy && s == e && 1 <= s <= lines.len() {
            lines.subrange(s - 1, s)
        } else {
            range_lines(lines, ranges, 1)
        }
    } else {
        Seq::empty()
    }
}

/// An assembled case is correct for a byte buffer: the header comes
/// from the scan, and every kind's collection decodes its scanned
/// section under the header's revision.
pub open spec fn case_ok(c: PSSEData, buf: Seq<u8>) -> bool {
    let lines = split_newlines(buf);
    let ranges = spec_scan_ranges(lines);
    let rev = spec_revision(c.header.revision as int);
    let a: int = if rev is Modern {
        1
    } else {
        0
    };
    &&& match spec_scan_header(lines) {
        Some(ps) => header_matches(c.header, ps),
        None => header_is_default(c.header),
    }
    &&& bus_section_ok(c.buses@, bus_lines(lines, ranges, rev is Legacy))
    &&& load_section_ok(c.loads@, range_lines(lines, ranges, 2))
    &&& fixed_shunt_section_ok(c.fixed_shunts@, range_lines(lines, ranges, 3))
    &&& generator_section_ok(c.generators@, range_lines(lines, ranges, 4), rev)
    &&& branch_section_ok(c.branches@, range_lines(lines, ranges, 5), rev)
    &&& if rev is Modern {
        switching_device_section_ok(c.switching_devices@, range_lines(lines, ranges, 6))
    } else {
        c.switching_devices@.len() == 0
    }
    &&& xf_section_ok(c.transformers@, range_lines(lines, ranges, 6 + a), rev)
    &&& area_section_ok(c.areas@, range_lines(lines, ranges, 7 + a))
    &&& ttdc_section_ok(c.two_terminal_dc@, range_lines(lines, ranges, 8 + a), rev)
    &&& vsc_section_ok(c.vsc_dc@, range_lines(lines, ranges, 9 + a), rev)
    &&& corr_section_ok(c.impedance_correction@, range_lines(lines, ranges, 10 + a), rev)
    &&& mtdc_section_ok(c.multi_terminal_line@, range_lines(lines, ranges, 11 + a))
    &&& multisection_section_ok(c.multi_section_line@, range_lines(lines, ranges, 12 + a))
    &&& zone_section_ok(c.zones@, range_lines(lines, ranges, 13 + a))
    &&& transfer_section_ok(c.inter_area_transfer@, range_lines(lines, ranges, 14 + a))
    &&& owner_section_ok(c.owners@, range_lines(lines, ranges, 15 + a))
    &&& facts_section_ok(c.facts@, range_lines(lines, ranges, 16 + a), rev)
    &&& switched_shunt_section_ok(c.switched_shunts@, range_lines(lines, ranges, 17 + a), rev)
    &&& induction_machine_section_ok(c.induction_machines@, range_lines(lines, ranges, 18 + a))
}

/// The record kind that numbered section `num` holds under the given
/// revision.
pub fn section_kind(number: usize, rev: CaseRevision) -> (k: PSSEDatatype)
    ensures
        k == spec_section_kind(number as int, rev),
{
    let a: usize = match rev {
        CaseRevision::Modern => 1,
        CaseRevision::Legacy => 0,
    };
    if number == 0 {
        PSSEDatatype::Header
    } else if number == 1 {
        PSSEDatatype::Bus
    } else if number == 2 {
        PSSEDatatype::Load
    } else if number == 3 {
        PSSEDatatype::FixedShunt
    } else if number == 4 {
        PSSEDatatype::Generator
    } else if number == 5 {
        PSSEDatatype::Branch
    } else if a == 1 && number == 6 {
        PSSEDatatype::SwitchingDevice
    } else if number == 6 + a {
        PSSEDatatype::Transformer
    } else if number == 7 + a {
        PSSEDatatype::Area
    } else if number == 8 + a {
        PSSEDatatype::TwoTerminalDc
    } else if number == 9 + a {
        PSSEDatatype::VscDc
    } else if number == 10 + a {
        PSSEDatatype::ImpedanceCorrection
    } else if number == 11 + a {
        PSSEDatatype::MultiTerminalDc
    } else if number == 12 + a {
        PSSEDatatype::MultiSectionLine
    } else if number == 13 + a {
        PSSEDatatype::Zone
    } else if number == 14 + a {
        PSSEDatatype::InterAreaTransfer
    } else if number == 15 + a {
        PSSEDatatype::Owner
    } else if number == 16 + a {
        PSSEDatatype::Facts
    } else if number == 17 + a {
        PSSEDatatype::SwitchedShunt
    } else {
        PSSEDatatype::Unknown
    }
}

/// The slice of numbered section `num`, empty when the section is
/// missing or its range is unusable.
fn section_slice<'a, 'b>(lines: &'b [&'a [u8]], secs: &Vec<Section>, num: usize) -> (r: &'b [&'a [u8]])
    ensures
        line_views(r@) =~= range_lines(
            line_views(lines@),
            secs@.map_values(|s: Section| (s.start as int, s.end as int)),
            num as int,
        ),
{
    let ghost lv = line_views(lines@);
    let ghost ranges = secs@.map_values(|s: Section| (s.start as int, s.end as int));
    if num < secs.len() {
        let sc = secs[num];
        if sc.start <= sc.end && sc.end <= lines.len() {
            let r = slice_subrange(lines, sc.start, sc.end);
            proof {
                assert(line_views(r@) =~= lv.subrange(sc.start as int, sc.end as int));
            }
            r
        } else {
            let r = slice_subrange(lines, 0, 0);
            proof {
                assert(line_views(r@) =~= Seq::<Seq<u8>>::empty());
            }
            r
        }
    } else {
        let r = slice_subrange(lines, 0, 0);
        proof {
            assert(line_views(r@) =~= Seq::<Seq<u8>>::empty());
        }
        r
    }
}

/// The slice of the bus section, with the Legacy bootstrap-consumed
/// single line restored.
fn bus_slice<'a, 'b>(lines: &'b [&'a [u8]], secs: &Vec<Section>, legacy: bool) -> (r: &'b [&'a [u8]])
    ensures
        line_views(r@) =~= bus_lines(
            line_views(lines@),
            secs@.map_values(|s: Section| (s.start as int, s.end as int)),
            legacy,
        ),
{
    let ghost lv = line_views(lines@);
    if 1 < secs.len() {
        let sc = secs[1];
        if legacy && sc.start == sc.end && 1 <= sc.start && sc.start <= lines.len() {
            let r = slice_subrange(lines, sc.start - 1, sc.start);
            proof {
                assert(line_views(r@) =~= lv.subrange(sc.start - 1, sc.start as int));
            }
            r
        } else {
            section_slice(lines, secs, 1)
        }
    } else {
        let r = slice_subrange(lines, 0, 0);
        proof {
            assert(line_views(r@) =~= Seq::<Seq<u8>>::empty());
        }
        r
    }
}

/// Decodes a whole RAW case from a byte buffer: the buffer is split on
/// newlines, the scanner finds the header and the section ranges, and
/// each present kind's section is grouped and decoded under the
/// header's revision.  A kind absent from the file yields an empty
/// collection, never an error.
pub fn parse_case(buf: &[u8]) -> (c: PSSEData)
    ensures
        case_ok(c, buf@),
{
    let lines_vec = split_lines(buf);
    let lines: &[&[u8]] = lines_vec.as_slice();
    let ghost lv = line_views(lines@);
    proof {
        assert(lv =~~= split_newlines(buf@));
    }
    let (secs, header) = scan_sections(lines);
    let ghost ranges = secs@.map_values(|s: Section| (s.start as int, s.end as int));
    proof {
        assert(ranges == spec_scan_ranges(lv));
    }
    let version: i8 = header.revision;
    let rev = classify_revision(version);
    let modern = matches!(rev, CaseRevision::Modern);
    let legacy = !modern;
    let a: usize = if modern {
        1
    } else {
        0
    };
    let buses = parse_buses(bus_slice(lines, &secs, legacy));
    let loads = parse_loads(section_slice(lines, &secs, 2));
    let fixed_shunts = parse_fixedshunts(section_slice(lines, &secs, 3));
    let generators = parse_generators(section_slice(lines, &secs, 4), version);
    let branches = parse_lines(section_slice(lines, &secs, 5), version);
    let switching_devices = if modern {
        parse_system_switching_device(section_slice(lines, &secs, 6))
    } else {
        Vec::new()
    };
    let transformers = parse_transformers(section_slice(lines, &secs, 6 + a), version);
    let areas = parse_areas(section_slice(lines, &secs, 7 + a));
    let two_terminal_dc = parse_two_terminal_dc_line(section_slice(lines, &secs, 8 + a), version);
    let vsc_dc = parse_vsc_dc_line(section_slice(lines, &secs, 9 + a), version);
    let impedance_correction = parse_impedance_correction_table(
        section_slice(lines, &secs, 10 + a),
        version,
    );
    let multi_terminal_line = parse_multiterminal_dc_line(section_slice(lines, &secs, 11 + a));
    let multi_section_line = parse_multisection_lines(section_slice(lines, &secs, 12 + a));
    let zones = parse_zones(section_slice(lines, &secs, 13 + a));
    let inter_area_transfer = parse_area_transfers(section_slice(lines, &secs, 14 + a));
    let owners = parse_owners(section_slice(lines, &secs, 15 + a));
    let facts = parse_facts(section_slice(lines, &secs, 16 + a), version);
    let switched_shunts = parse_switched_shunts(section_slice(lines, &secs, 17 + a), version);
    let induction_machines = parse_induction_machines(section_slice(lines, &secs, 18 + a));
    PSSEData {
        header,
        buses,
        loads,
        fixed_shunts,
        generators,
        branches,
        switching_devices,
        transformers,
        areas,
        two_terminal_dc,
        vsc_dc,
        impedance_correction,
        multi_terminal_line,
        multi_section_line,
        zones,
        inter_area_transfer,
        owners,
        facts,
        switched_shunts,
        induction_machines,
    }
}

} // verus!
