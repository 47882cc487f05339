//! Induction machines: one logical record per physical line.

use vstd::prelude::*;
use crate::fields::{int8_at, int32_at, read_i8, read_i32, read_real, read_text, real_at, text_at};
use crate::lines::{line_views, table_of, tokenize_lines};

verus! {

/// One induction machine of the case.
#[derive(Debug, Clone, Default, PartialEq)]
pub struct InductionMachine {
    /// Bus the machine is connected to.
    pub bus_id: i32,
    /// Machine identifier.
    pub id: String,
    /// Machine status.
    pub status: i8,
    /// Standard code.
    pub standard_code: i8,
    /// Design code.
    pub design_code: i8,
    /// Area number.
    pub area: i32,
    /// Zone number.
    pub zone: i32,
    /// Owner number.
    pub owner: i32,
    /// Load torque variation code.
    pub torque_code: i8,
    /// Base power code.
    pub base_power_code: i8,
    /// Nominal power base, MVA.
    pub sbase: String,
    /// Rated voltage, kV.
    pub rated_voltage: String,
    /// Power code.
    pub power_code: i32,
    /// Scheduled active power, MW.
    pub sched_active_power: String,
    /// Machine inertia.
    pub inertia: String,
    /// Torque parameters, four slots.
    pub torque_params: Vec<String>,
    /// Armature resistance, p.u.
    pub arm_resistance: String,
    /// Armature reactance, p.u.
    pub arm_reactance: String,
    /// Magnetizing reactance, p.u.
    pub mag_reactance: String,
    /// Rotor winding 1 resistance, p.u.
    pub windng1_resist: String,
    /// Rotor winding 1 reactance, p.u.
    pub windng1_react: String,
    /// Rotor winding 2 resistance, p.u.
    pub windng2_resist: String,
    /// Rotor winding 2 reactance, p.u.
    pub windng2_react: String,
    /// Rotor winding 3 reactance, p.u.
    pub windng3_react: String,
    /// Open-circuit voltage point 1, p.u.
    pub volt_point_1: String,
    /// Saturation factor at voltage point 1.
    pub v_sat1: String,
    /// Open-circuit voltage point 2, p.u.
    pub volt_point_2: String,
    /// Saturation factor at voltage point 2.
    pub v_sat2: String,
    /// Stator current at voltage point 1, p.u.
    pub stator_current_1: String,
    /// Stator current at voltage point 2, p.u.
    pub stator_current_2: String,
    /// Saturated-value multiplier.
    pub saturation_mult: String,
}

/// The column schema of an induction-machine record.
pub open spec fn induction_machine_matches(m: InductionMachine, p: Seq<Seq<char>>) -> bool {
    &&& m.bus_id == int32_at(p, 0, 0)
    &&& m.id@ == text_at(p, 1, "1"@)
    &&& m.status == int8_at(p, 2, 1)
    &&& m.standard_code == int8_at(p, 3, 1)
    &&& m.design_code == int8_at(p, 4, 2)
    &&& m.area == int32_at(p, 5, 0)
    &&& m.zone == int32_at(p, 6, 0)
    &&& m.owner == int32_at(p, 7, 0)
    &&& m.torque_code == int8_at(p, 8, 1)
    &&& m.base_power_code == int8_at(p, 9, 1)
    &&& m.sbase@ == real_at(p, 10, "100.0"@)
    &&& m.rated_voltage@ == real_at(p, 11, "0.0"@)
    &&& m.power_code == int32_at(p, 12, 1)
    &&& m.sched_active_power@ == real_at(p, 13, "0.0"@)
    &&& m.inertia@ == real_at(p, 14, "1.0"@)
    &&& m.torque_params@.len() == 4
    &&& forall|j: int| 0 <= j < 4 ==> (#[trigger] m.torque_params@[j])@ == real_at(p, 15 + j, "1.0"@)
    &&& m.arm_resistance@ == real_at(p, 19, "0.0"@)
    &&& m.arm_reactance@ == real_at(p, 20, "0.0"@)
    &&& m.mag_reactance@ == real_at(p, 21, "2.5"@)
    &&& m.windng1_resist@ == real_at(p, 22, "999.0"@)
    &&& m.windng1_react@ == real_at(p, 23, "999.0"@)
    &&& m.windng2_resist@ == real_at(p, 24, "999.0"@)
    &&& m.windng2_react@ == real_at(p, 25, "999.0"@)
    &&& m.windng3_react@ == real_at(p, 26, "0.0"@)
    &&& m.volt_point_1@ == real_at(p, 27, "1.0"@)
    &&& m.v_sat1@ == real_at(p, 28, "0.0"@)
    &&& m.volt_point_2@ == real_at(p, 29, "1.2"@)
    &&& m.v_sat2@ == real_at(p, 30, "0.0"@)
    &&& m.stator_current_1@ == real_at(p, 31, "0.0"@)
    &&& m.stator_current_2@ == real_at(p, 32, "0.0"@)
    &&& m.saturation_mult@ == real_at(p, 33, "1.0"@)
}

/// A decoded induction-machine section: one record per decodable line,
/// in file order.
pub open spec fn induction_machine_section_ok(r: Seq<InductionMachine>, lines: Seq<Seq<u8>>) -> bool {
    let t = table_of(lines);
    &&& r.len() == t.len()
    &&& forall|i: int| 0 <= i < t.len() ==> induction_machine_matches(#[trigger] r[i], t[i])
}

/// Decodes one induction-machine record from a token row.
pub fn induction_machine_from_tokens(p: &Vec<Vec<char>>) -> (m: InductionMachine)
    ensures
        induction_machine_matches(m, p.deep_view()),
{
    let mut torque_params: Vec<String> = Vec::new();
    let mut j: usize = 0;
    while j < 4
        invariant
            0 <= j <= 4,
            torque_params@.len() == j,
            forall|k: int|
                0 <= k < j ==> (#[trigger] torque_params@[k])@ == real_at(
                    p.deep_view(),
                    15 + k,
                    "1.0"@,
                ),
        decreases 4 - j,
    {
        let v = read_real(p, 15 + j, "1.0");
        torque_params.push(v);
        j += 1;
    }
    InductionMachine {
        bus_id: read_i32(p, 0, 0),
        id: read_text(p, 1, "1"),
        status: read_i8(p, 2, 1),
        standard_code: read_i8(p, 3, 1),
        design_code: read_i8(p, 4, 2),
        area: read_i32(p, 5, 0),
        zone: read_i32(p, 6, 0),
        owner: read_i32(p, 7, 0),
        torque_code: read_i8(p, 8, 1),
        base_power_code: read_i8(p, 9, 1),
        sbase: read_real(p, 10, "100.0"),
        rated_voltage: read_real(p, 11, "0.0"),
        power_code: read_i32(p, 12, 1),
        sched_active_power: read_real(p, 13, "0.0"),
        inertia: read_real(p, 14, "1.0"),
        torque_params,
        arm_resistance: read_real(p, 19, "0.0"),
        arm_reactance: read_real(p, 20, "0.0"),
        mag_reactance: read_real(p, 21, "2.5"),
        windng1_resist: read_real(p, 22, "999.0"),
        windng1_react: read_real(p, 23, "999.0"),
        windng2_resist: read_real(p, 24, "999.0"),
        windng2_react: read_real(p, 25, "999.0"),
        windng3_react: read_real(p, 26, "0.0"),
        volt_point_1: read_real(p, 27, "1.0"),
        v_sat1: read_real(p, 28, "0.0"),
        volt_point_2: read_real(p, 29, "1.2"),
        v_sat2: read_real(p, 30, "0.0"),
        stator_current_1: read_real(p, 31, "0.0"),
        stator_current_2: read_real(p, 32, "0.0"),
        saturation_mult: read_real(p, 33, "1.0"),
    }
}

/// Decodes the induction-machine section.
pub fn parse_induction_machines(lines: &[&[u8]]) -> (r: Vec<InductionMachine>)
    ensures
        induction_machine_section_ok(r@, line_views(lines@)),
{
    let t = tokenize_lines(lines);
    let n = t.len();
    let mut r: Vec<InductionMachine> = Vec::new();
    let mut i: usize = 0;
    while i < n
        invariant
            0 <= i <= n == t@.len(),
            t.deep_view() == table_of(line_views(lines@)),
            r@.len() == i,
            forall|k: int|
                0 <= k < i ==> induction_machine_matches(#[trigger] r@[k], t.deep_view()[k]),
        decreases n - i,
    {
        proof {
            assert(t.deep_view()[i as int] == t@[i as int].deep_view());
        }
        let m = induction_machine_from_tokens(&t[i]);
        r.push(m);
        i += 1;
    }
    r
}

} // verus!
