//! Two-terminal DC lines: one logical record per three physical lines
//! (line data, rectifier data, inverter data).  A trailing partial group
//! is discarded as malformed.

use vstd::prelude::*;
use crate::CaseRevision;
use crate::fields::{int8_at, int32_at, read_i8, read_i32, read_real, read_text, real_at, sel,
    spec_off, text_at};
use crate::lines::{line_views, table_of, tokenize_lines};
use crate::{classify_revision, spec_revision};

verus! {

/// One two-terminal DC transmission line of the case.
#[derive(Debug, Clone, Default, PartialEq)]
pub struct TwoTerminalDc {
    /// Line name.
    pub name: String,
    /// Power control mode.
    pub power_ctrl_mode: i8,
    /// DC line resistance, Ohms.
    pub resistance: String,
    /// Scheduled power, MW.
    pub sending_pow: String,
    /// Scheduled compounded DC voltage, kV.
    pub voltage: String,
    /// Mode-switch DC voltage, kV.
    pub voltage_ctrl_mode: String,
    /// Compounding resistance, Ohms.
    pub r_comp: String,
    /// Power margin fraction.
    pub dc_pow_margin: String,
    /// Metered end.
    pub metered_end: String,
    /// Minimum compounded DC voltage, kV.
    pub min_volt: String,
    /// Iteration limit.
    pub iteration_limit: i32,
    /// Acceleration factor.
    pub acceleration_fac: String,
    /// Rectifier converter bus.
    pub rec_bus_id: i32,
    /// Rectifier bridges in series.
    pub rec_num_bridges: i32,
    /// Rectifier maximum firing angle, degrees.
    pub rec_max_firing_angle: String,
    /// Rectifier minimum firing angle, degrees.
    pub rec_min_firing_angle: String,
    /// Rectifier commutating transformer resistance, Ohms.
    pub rec_comm_xfmr_r: String,
    /// Rectifier commutating transformer reactance, Ohms.
    pub rec_comm_xfmr_x: String,
    /// Rectifier primary base AC voltage, kV.
    pub rec_base_volt_ac: String,
    /// Rectifier transformer ratio.
    pub rec_xfmr_ratio: String,
    /// Rectifier tap setting.
    pub rec_tap_setting: String,
    /// Rectifier maximum tap setting.
    pub rec_max_tap_set: String,
    /// Rectifier minimum tap setting.
    pub rec_min_tap_set: String,
    /// Rectifier tap step.
    pub rec_tap_step: String,
    /// Rectifier firing-angle measuring bus.
    pub rec_comm_bus_id: i32,
    /// Rectifier firing-angle measuring node; Modern only.
    pub rec_comm_bus_node: i32,
    /// From bus of the rectifier commutating branch.
    pub rec_from_bus: i32,
    /// To bus of the rectifier commutating branch.
    pub rec_to_bus: i32,
    /// Circuit of the rectifier commutating branch.
    pub rec_ckt_id: String,
    /// Rectifier commutating capacitor reactance, Ohms.
    pub rec_comm_cap_x: String,
    /// Inverter converter bus.
    pub inv_bus_id: i32,
    /// Inverter bridges in series.
    pub inv_num_bridges: i32,
    /// Inverter maximum firing angle, degrees.
    pub inv_max_firing_angle: String,
    /// Inverter minimum firing angle, degrees.
    pub inv_min_firing_angle: String,
    /// Inverter commutating transformer resistance, Ohms.
    pub inv_comm_xfmr_r: String,
    /// Inverter commutating transformer reactance, Ohms.
    pub inv_comm_xfmr_x: String,
    /// Inverter primary base AC voltage, kV.
    pub inv_base_volt_ac: String,
    /// Inverter transformer ratio.
    pub inv_xfmr_ratio: String,
    /// Inverter tap setting.
    pub inv_tap_setting: String,
    /// Inverter maximum tap setting.
    pub inv_max_tap_set: String,
    /// Inverter minimum tap setting.
    pub inv_min_tap_set: String,
    /// Inverter tap step.
    pub inv_tap_step: String,
    /// Inverter firing-angle measuring bus.
    pub inv_comm_bus_id: i32,
    /// Inverter firing-angle measuring node; Modern only.
    pub inv_comm_bus_node: i32,
    /// From bus of the inverter commutating branch.
    pub inv_from_bus: i32,
    /// To bus of the inverter commutating branch.
    pub inv_to_bus: i32,
    /// Circuit of the inverter commutating branch.
    pub inv_ckt_id: String,
    /// Inverter commutating capacitor reactance, Ohms.
    pub inv_comm_cap_x: String,
}

/// The column schema of a converter line (the second and third physical
/// lines share one layout).
pub open spec fn ttdc_converter_matches(
    bus_id: int,
    num_bridges: int,
    max_fa: Seq<char>,
    min_fa: Seq<char>,
    xfmr_r: Seq<char>,
    xfmr_x: Seq<char>,
    base_volt: Seq<char>,
    ratio: Seq<char>,
    tap: Seq<char>,
    max_tap: Seq<char>,
    min_tap: Seq<char>,
    tap_step: Seq<char>,
    comm_bus: int,
    comm_node: int,
    from_bus: int,
    to_bus: int,
    ckt: Seq<char>,
    cap_x: Seq<char>,
    p: Seq<Seq<char>>,
    rev: CaseRevision,
) -> bool {
    let a = spec_off(rev, 0, 1);
    &&& bus_id == int32_at(p, 0, 0)
    &&& num_bridges == int32_at(p, 1, 0)
    &&& max_fa == real_at(p, 2, "0.0"@)
    &&& min_fa == real_at(p, 3, "0.0"@)
    &&& xfmr_r == real_at(p, 4, "0.0"@)
    &&& xfmr_x == real_at(p, 5, "0.0"@)
    &&& base_volt == real_at(p, 6, "0.0"@)
    &&& ratio == real_at(p, 7, "1.0"@)
    &&& tap == real_at(p, 8, "1.0"@)
    &&& max_tap == real_at(p, 9, "1.5"@)
    &&& min_tap == real_at(p, 10, "0.51"@)
    &&& tap_step == real_at(p, 11, "0.00625"@)
    &&& comm_bus == int32_at(p, 12, 0)
    &&& comm_node == (if rev is Modern {
        int32_at(p, 13, 0)
    } else {
        0int
    })
    &&& from_bus == int32_at(p, 13 + a, 0)
    &&& to_bus == int32_at(p, 14 + a, 0)
    &&& ckt == text_at(p, 15 + a, "1"@)
    &&& cap_x == real_at(p, 16 + a, "0.0"@)
}

/// The column schema of a two-terminal DC record over its three token
/// rows under the given revision.
pub open spec fn ttdc_matches(
    d: TwoTerminalDc,
    p1: Seq<Seq<char>>,
    p2: Seq<Seq<char>>,
    p3: Seq<Seq<char>>,
    rev: CaseRevision,
) -> bool {
    &&& d.name@ == text_at(p1, 0, ""@)
    &&& d.power_ctrl_mode == int8_at(p1, 1, 0)
    &&& d.resistance@ == real_at(p1, 2, "0.0"@)
    &&& d.sending_pow@ == real_at(p1, 3, "0.0"@)
    &&& d.voltage@ == real_at(p1, 4, "0.0"@)
    &&& d.voltage_ctrl_mode@ == real_at(p1, 5, "0.0"@)
    &&& d.r_comp@ == real_at(p1, 6, "0.0"@)
    &&& d.dc_pow_margin@ == real_at(p1, 7, "0.0"@)
    &&& d.metered_end@ == text_at(p1, 8, "I"@)
    &&& d.min_volt@ == real_at(p1, 9, "0.0"@)
    &&& d.iteration_limit == int32_at(p1, 10, 20)
    &&& d.acceleration_fac@ == real_at(p1, 11, "1.0"@)
    &&& ttdc_converter_matches(
        d.rec_bus_id as int,
        d.rec_num_bridges as int,
        d.rec_max_firing_angle@,
        d.rec_min_firing_angle@,
        d.rec_comm_xfmr_r@,
        d.rec_comm_xfmr_x@,
        d.rec_base_volt_ac@,
        d.rec_xfmr_ratio@,
        d.rec_tap_setting@,
        d.rec_max_tap_set@,
        d.rec_min_tap_set@,
        d.rec_tap_step@,
        d.rec_comm_bus_id as int,
        d.rec_comm_bus_node as int,
        d.rec_from_bus as int,
        d.rec_to_bus as int,
        d.rec_ckt_id@,
        d.rec_comm_cap_x@,
        p2,
        rev,
    )
    &&& ttdc_converter_matches(
        d.inv_bus_id as int,
        d.inv_num_bridges as int,
        d.inv_max_firing_angle@,
        d.inv_min_firing_angle@,
        d.inv_comm_xfmr_r@,
        d.inv_comm_xfmr_x@,
        d.inv_base_volt_ac@,
        d.inv_xfmr_ratio@,
        d.inv_tap_setting@,
        d.inv_max_tap_set@,
        d.inv_min_tap_set@,
        d.inv_tap_step@,
        d.inv_comm_bus_id as int,
        d.inv_comm_bus_node as int,
        d.inv_from_bus as int,
        d.inv_to_bus as int,
        d.inv_ckt_id@,
        d.inv_comm_cap_x@,
        p3,
        rev,
    )
}

/// A decoded two-terminal DC section: the decodable lines are chunked
/// into consecutive groups of three, and a trailing partial group is
/// discarded.
pub open spec fn ttdc_section_ok(
    r: Seq<TwoTerminalDc>,
    lines: Seq<Seq<u8>>,
    rev: CaseRevision,
) -> bool {
    let t = table_of(lines);
    &&& r.len() == t.len() / 3
    &&& forall|i: int|
        0 <= i < r.len() ==> ttdc_matches(#[trigger] r[i], t[3 * i], t[3 * i + 1], t[3 * i + 2], rev)
}

/// Decodes one two-terminal DC record from its three token rows.
pub fn ttdc_from_tokens(
    p1: &Vec<Vec<char>>,
    p2: &Vec<Vec<char>>,
    p3: &Vec<Vec<char>>,
    rev: CaseRevision,
) -> (d: TwoTerminalDc)
    ensures
        ttdc_matches(d, p1.deep_view(), p2.deep_view(), p3.deep_view(), rev),
{
    let a = sel(rev, 0, 1);
    let modern = matches!(rev, CaseRevision::Modern);
    TwoTerminalDc {
        name: read_text(p1, 0, ""),
        power_ctrl_mode: read_i8(p1, 1, 0),
        resistance: read_real(p1, 2, "0.0"),
        sending_pow: read_real(p1, 3, "0.0"),
        voltage: read_real(p1, 4, "0.0"),
        voltage_ctrl_mode: read_real(p1, 5, "0.0"),
        r_comp: read_real(p1, 6, "0.0"),
        dc_pow_margin: read_real(p1, 7, "0.0"),
        metered_end: read_text(p1, 8, "I"),
        min_volt: read_real(p1, 9, "0.0"),
        iteration_limit: read_i32(p1, 10, 20),
        acceleration_fac: read_real(p1, 11, "1.0"),
        rec_bus_id: read_i32(p2, 0, 0),
        rec_num_bridges: read_i32(p2, 1, 0),
        rec_max_firing_angle: read_real(p2, 2, "0.0"),
        rec_min_firing_angle: read_real(p2, 3, "0.0"),
        rec_comm_xfmr_r: read_real(p2, 4, "0.0"),
        rec_comm_xfmr_x: read_real(p2, 5, "0.0"),
        rec_base_volt_ac: read_real(p2, 6, "0.0"),
        rec_xfmr_ratio: read_real(p2, 7, "1.0"),
        rec_tap_setting: read_real(p2, 8, "1.0"),
        rec_max_tap_set: read_real(p2, 9, "1.5"),
        rec_min_tap_set: read_real(p2, 10, "0.51"),
        rec_tap_step: read_real(p2, 11, "0.00625"),
        rec_comm_bus_id: read_i32(p2, 12, 0),
        rec_comm_bus_node: if modern {
            read_i32(p2, 13, 0)
        } else {
            0
        },
        rec_from_bus: read_i32(p2, 13 + a, 0),
        rec_to_bus: read_i32(p2, 14 + a, 0),
        rec_ckt_id: read_text(p2, 15 + a, "1"),
        rec_comm_cap_x: read_real(p2, 16 + a, "0.0"),
        inv_bus_id: read_i32(p3, 0, 0),
        inv_num_bridges: read_i32(p3, 1, 0),
        inv_max_firing_angle: read_real(p3, 2, "0.0"),
        inv_min_firing_angle: read_real(p3, 3, "0.0"),
        inv_comm_xfmr_r: read_real(p3, 4, "0.0"),
        inv_comm_xfmr_x: read_real(p3, 5, "0.0"),
        inv_base_volt_ac: read_real(p3, 6, "0.0"),
        inv_xfmr_ratio: read_real(p3, 7, "1.0"),
        inv_tap_setting: read_real(p3, 8, "1.0"),
        inv_max_tap_set: read_real(p3, 9, "1.5"),
        inv_min_tap_set: read_real(p3, 10, "0.51"),
        inv_tap_step: read_real(p3, 11, "0.00625"),
        inv_comm_bus_id: read_i32(p3, 12, 0),
        inv_comm_bus_node: if modern {
            read_i32(p3, 13, 0)
        } else {
            0
        },
        inv_from_bus: read_i32(p3, 13 + a, 0),
        inv_to_bus: read_i32(p3, 14 + a, 0),
        inv_ckt_id: read_text(p3, 15 + a, "1"),
        inv_comm_cap_x: read_real(p3, 16 + a, "0.0"),
    }
}

/// Decodes the two-terminal DC section under the given revision number.
#[verifier::rlimit(60)]
pub fn parse_two_terminal_dc_line(lines: &[&[u8]], psse_version: i8) -> (r: Vec<TwoTerminalDc>)
    ensures
        ttdc_section_ok(r@, line_views(lines@), spec_revision(psse_version as int)),
{
    let rev = classify_revision(psse_version);
    let t = tokenize_lines(lines);
    let n = t.len();
    let mut r: Vec<TwoTerminalDc> = Vec::new();
    let mut i: usize = 0;
    let mut g: usize = 0;
    while n - i >= 3
        invariant
            0 <= i <= n == t@.len(),
            i == 3 * g,
            rev == spec_revision(psse_version as int),
            t.deep_view() == table_of(line_views(lines@)),
            r@.len() == g,
            forall|k: int|
                0 <= k < g ==> ttdc_matches(
                    #[trigger] r@[k],
                    t.deep_view()[3 * k],
                    t.deep_view()[3 * k + 1],
                    t.deep_view()[3 * k + 2],
                    rev,
                ),
        decreases n - i,
    {
        proof {
            assert(t.deep_view()[i as int] == t@[i as int].deep_view());
            assert(t.deep_view()[i + 1] == t@[i + 1].deep_view());
            assert(t.deep_view()[i + 2] == t@[i + 2].deep_view());
        }
        let d = ttdc_from_tokens(&t[i], &t[i + 1], &t[i + 2], rev);
        r.push(d);
        proof {
            assert(3 * (g as int) == i as int);
            assert(r@[g as int] == d);
        }
        i += 3;
        g += 1;
    }
    proof {
        assert(n as int == 3 * (g as int) + (n - i));
        assert(g as int == n as int / 3);
    }
    r
}

} // verus!
