//! Transformers: one logical record per four physical lines for a
//! two-winding unit, or five for a three-winding unit.  The
//! tertiary-bus token of a prospective group's first line decides the
//! group's size, so the two shapes interleave freely within one
//! section; a trailing partial group is discarded as malformed.

use vstd::prelude::*;
use crate::CaseRevision;
use crate::fields::{int8_at, int16_at, int32_at, read_i8, read_i16, read_i32, read_real, read_text,
    real_at, sel, spec_off, text_at};
use crate::lines::{line_views, table_of, tokenize_lines};
use crate::{classify_revision, spec_revision};

verus! {

/// One transformer of the case; a two-winding unit keeps the
/// winding-three fields at their defaults.
#[derive(Debug, Clone, Default, PartialEq)]
pub struct Transformer {
    /// Winding 1 bus.
    pub from_bus: i32,
    /// Winding 2 bus.
    pub to_bus: i32,
    /// Winding 3 bus; zero for a two-winding unit.
    pub tertiary_bus: i32,
    /// Circuit identifier.
    pub circuit: String,
    /// Winding data I/O code.
    pub cw: i8,
    /// Impedance data I/O code.
    pub cz: i8,
    /// Magnetizing admittance I/O code.
    pub cm: i8,
    /// Magnetizing conductance or no-load loss.
    pub mag1: String,
    /// Magnetizing susceptance or exciting current.
    pub mag2: String,
    /// Metered-end code.
    pub metered_end: i8,
    /// Transformer name.
    pub name: String,
    /// Transformer status.
    pub status: i8,
    /// Owner number 1.
    pub owner1: i16,
    /// Ownership fraction 1.
    pub owner1_percent: String,
    /// Owner number 2.
    pub owner2: i16,
    /// Ownership fraction 2.
    pub owner2_percent: String,
    /// Owner number 3.
    pub owner3: i16,
    /// Ownership fraction 3.
    pub owner3_percent: String,
    /// Owner number 4.
    pub owner4: i16,
    /// Ownership fraction 4.
    pub owner4_percent: String,
    /// Vector group.
    pub vector_group: String,
    /// Impedance correction code; three-winding units only.
    pub zcod: i8,
    /// Winding 1-2 resistance, p.u.
    pub r12: String,
    /// Winding 1-2 reactance, p.u.
    pub x12: String,
    /// Winding 1-2 MVA base.
    pub sbase12: String,
    /// Winding 2-3 resistance, p.u.
    pub r23: String,
    /// Winding 2-3 reactance, p.u.
    pub x23: String,
    /// Winding 2-3 MVA base.
    pub sbase23: String,
    /// Winding 3-1 resistance, p.u.
    pub r31: String,
    /// Winding 3-1 reactance, p.u.
    pub x31: String,
    /// Winding 3-1 MVA base.
    pub sbase31: String,
    /// Star-point voltage magnitude, p.u.
    pub star_vm: String,
    /// Star-point voltage angle, degrees.
    pub star_ang: String,
    /// Winding 1 off-nominal turns ratio.
    pub winding_1_volt: String,
    /// Winding 1 nominal voltage, kV.
    pub nominal_volt1: String,
    /// Winding 1 phase shift, degrees.
    pub angle1: String,
    /// Winding 1 rating 1, MVA.
    pub w1_rate1: String,
    /// Winding 1 rating 2, MVA.
    pub w1_rate2: String,
    /// Winding 1 rating 3, MVA.
    pub w1_rate3: String,
    /// Winding 1 rating 4, MVA; Modern only.
    pub w1_rate4: String,
    /// Winding 1 rating 5, MVA; Modern only.
    pub w1_rate5: String,
    /// Winding 1 rating 6, MVA; Modern only.
    pub w1_rate6: String,
    /// Winding 1 rating 7, MVA; Modern only.
    pub w1_rate7: String,
    /// Winding 1 rating 8, MVA; Modern only.
    pub w1_rate8: String,
    /// Winding 1 rating 9, MVA; Modern only.
    pub w1_rate9: String,
    /// Winding 1 rating 10, MVA; Modern only.
    pub w1_rate10: String,
    /// Winding 1 rating 11, MVA; Modern only.
    pub w1_rate11: String,
    /// Winding 1 rating 12, MVA; Modern only.
    pub w1_rate12: String,
    /// Winding 1 control mode.
    pub control_mode_1: i32,
    /// Bus controlled by winding 1.
    pub controlled_bus_id_1: i32,
    /// Winding 1 ratio or angle upper limit.
    pub rma1: String,
    /// Winding 1 ratio or angle lower limit.
    pub rmi1: String,
    /// Winding 1 controlled-quantity upper limit.
    pub vma1: String,
    /// Winding 1 controlled-quantity lower limit.
    pub vmi1: String,
    /// Winding 1 tap positions.
    pub tap_positions_1: i32,
    /// Winding 1 impedance correction table.
    pub impedance_correction_table_1: i32,
    /// Winding 1 load-drop compensation resistance, p.u.
    pub load_drop_comp_r1: String,
    /// Winding 1 load-drop compensation reactance, p.u.
    pub load_drop_comp_x1: String,
    /// Winding 1 connection angle, degrees.
    pub connection_ang_1: String,
    /// Winding 2 off-nominal turns ratio.
    pub winding_2_volt: String,
    /// Winding 2 nominal voltage, kV.
    pub nominal_volt2: String,
    /// Winding 2 phase shift, degrees.
    pub angle2: String,
    /// Winding 2 rating 1, MVA.
    pub w2_rate1: String,
    /// Winding 2 rating 2, MVA.
    pub w2_rate2: String,
    /// Winding 2 rating 3, MVA.
    pub w2_rate3: String,
    /// Winding 2 rating 4, MVA; Modern only.
    pub w2_rate4: String,
    /// Winding 2 rating 5, MVA; Modern only.
    pub w2_rate5: String,
    /// Winding 2 rating 6, MVA; Modern only.
    pub w2_rate6: String,
    /// Winding 2 rating 7, MVA; Modern only.
    pub w2_rate7: String,
    /// Winding 2 rating 8, MVA; Modern only.
    pub w2_rate8: String,
    /// Winding 2 rating 9, MVA; Modern only.
    pub w2_rate9: String,
    /// Winding 2 rating 10, MVA; Modern only.
    pub w2_rate10: String,
    /// Winding 2 rating 11, MVA; Modern only.
    pub w2_rate11: String,
    /// Winding 2 rating 12, MVA; Modern only.
    pub w2_rate12: String,
    /// Winding 2 control mode.
    pub control_mode_2: i32,
    /// Bus controlled by winding 2.
    pub controlled_bus_id_2: i32,
    /// Winding 2 ratio or angle upper limit.
    pub rma2: String,
    /// Winding 2 ratio or angle lower limit.
    pub rmi2: String,
    /// Winding 2 controlled-quantity upper limit.
    pub vma2: String,
    /// Winding 2 controlled-quantity lower limit.
    pub vmi2: String,
    /// Winding 2 tap positions.
    pub tap_positions_2: i32,
    /// Winding 2 impedance correction table.
    pub impedance_correction_table_2: i32,
    /// Winding 2 load-drop compensation resistance, p.u.
    pub load_drop_comp_r2: String,
    /// Winding 2 load-drop compensation reactance, p.u.
    pub load_drop_comp_x2: String,
    /// Winding 2 connection angle, degrees.
    pub connection_ang_2: String,
    /// Winding 3 off-nominal turns ratio.
    pub winding_3_volt: String,
    /// Winding 3 nominal voltage, kV.
    pub nominal_volt3: String,
    /// Winding 3 phase shift, degrees.
    pub angle3: String,
    /// Winding 3 rating 1, MVA.
    pub w3_rate1: String,
    /// Winding 3 rating 2, MVA.
    pub w3_rate2: String,
    /// Winding 3 rating 3, MVA.
    pub w3_rate3: String,
    /// Winding 3 rating 4, MVA; Modern only.
    pub w3_rate4: String,
    /// Winding 3 rating 5, MVA; Modern only.
    pub w3_rate5: String,
    /// Winding 3 rating 6, MVA; Modern only.
    pub w3_rate6: String,
    /// Winding 3 rating 7, MVA; Modern only.
    pub w3_rate7: String,
    /// Winding 3 rating 8, MVA; Modern only.
    pub w3_rate8: String,
    /// Winding 3 rating 9, MVA; Modern only.
    pub w3_rate9: String,
    /// Winding 3 rating 10, MVA; Modern only.
    pub w3_rate10: String,
    /// Winding 3 rating 11, MVA; Modern only.
    pub w3_rate11: String,
    /// Winding 3 rating 12, MVA; Modern only.
    pub w3_rate12: String,
    /// Winding 3 control mode.
    pub control_mode_3: i32,
    /// Bus controlled by winding 3.
    pub controlled_bus_id_3: i32,
    /// Winding 3 ratio or angle upper limit.
    pub rma3: String,
    /// Winding 3 ratio or angle lower limit.
    pub rmi3: String,
    /// Winding 3 controlled-quantity upper limit.
    pub vma3: String,
    /// Winding 3 controlled-quantity lower limit.
    pub vmi3: String,
    /// Winding 3 tap positions.
    pub tap_positions_3: i32,
    /// Winding 3 impedance correction table.
    pub impedance_correction_table_3: i32,
    /// Winding 3 load-drop compensation resistance, p.u.
    pub load_drop_comp_r3: String,
    /// Winding 3 load-drop compensation reactance, p.u.
    pub load_drop_comp_x3: String,
    /// Winding 3 connection angle, degrees.
    pub connection_ang_3: String,
}

/// A prospective group's first line opens a two-winding (four-line)
/// group exactly when its tertiary-bus token reads as zero.
pub open spec fn is_two_winding(row: Seq<Seq<char>>) -> bool {
    int32_at(row, 2, 0) == 0
}

/// The column schema of a record's first line; `two` selects the
/// two-winding constants for the tertiary bus and impedance code.
pub open spec fn xf_first_matches(
    x: Transformer,
    p: Seq<Seq<char>>,
    two: bool,
) -> bool {
    &&& x.from_bus == int32_at(p, 0, 0)
    &&& x.to_bus == int32_at(p, 1, 0)
    &&& x.tertiary_bus == (if two {
        0int
    } else {
        int32_at(p, 2, 0)
    })
    &&& x.circuit@ == text_at(p, 3, "1"@)
    &&& x.cw == int8_at(p, 4, 1)
    &&& x.cz == int8_at(p, 5, 1)
    &&& x.cm == int8_at(p, 6, 1)
    &&& x.mag1@ == real_at(p, 7, "0.0"@)
    &&& x.mag2@ == real_at(p, 8, "0.0"@)
    &&& x.metered_end == int8_at(p, 9, 1)
    &&& x.name@ == text_at(p, 10, ""@)
    &&& x.status == int8_at(p, 11, 1)
    &&& x.owner1 == int16_at(p, 12, 1)
    &&& x.owner1_percent@ == real_at(p, 13, "1.0"@)
    &&& x.owner2 == int16_at(p, 14, 0)
    &&& x.owner2_percent@ == real_at(p, 15, "1.0"@)
    &&& x.owner3 == int16_at(p, 16, 0)
    &&& x.owner3_percent@ == real_at(p, 17, "1.0"@)
    &&& x.owner4 == int16_at(p, 18, 0)
    &&& x.owner4_percent@ == real_at(p, 19, "1.0"@)
    &&& x.vector_group@ == text_at(p, 20, ""@)
    &&& x.zcod == (if two {
        0int
    } else {
        int8_at(p, 21, 0)
    })
}

/// The column schema of a winding control line (the third, fourth, and
/// fifth lines of a three-winding record, and the third line of a
/// two-winding record).
pub open spec fn xf_winding_matches(
    volt: Seq<char>,
    nominal: Seq<char>,
    ang: Seq<char>,
    rate1: Seq<char>,
    rate2: Seq<char>,
    rate3: Seq<char>,
    rate4: Seq<char>,
    rate5: Seq<char>,
    rate6: Seq<char>,
    rate7: Seq<char>,
    rate8: Seq<char>,
    rate9: Seq<char>,
    rate10: Seq<char>,
    rate11: Seq<char>,
    rate12: Seq<char>,
    cod: int,
    cont: int,
    rma: Seq<char>,
    rmi: Seq<char>,
    vma: Seq<char>,
    vmi: Seq<char>,
    ntp: int,
    tab: int,
    cr: Seq<char>,
    cx: Seq<char>,
    cnxa: Seq<char>,
    p: Seq<Seq<char>>,
    rev: CaseRevision,
) -> bool {
    let a = spec_off(rev, 0, 9);
    &&& volt == real_at(p, 0, "1.0"@)
    &&& nominal == real_at(p, 1, "0.0"@)
    &&& ang == real_at(p, 2, "0.0"@)
    &&& rate1 == real_at(p, 3, "0.0"@)
    &&& rate2 == real_at(p, 4, "0.0"@)
    &&& rate3 == real_at(p, 5, "0.0"@)
    &&& rate4 == (if rev is Modern {
        real_at(p, 6, "0.0"@)
    } else {
        "0.0"@
    })
    &&& rate5 == (if rev is Modern {
        real_at(p, 7, "0.0"@)
    } else {
        "0.0"@
    })
    &&& rate6 == (if rev is Modern {
        real_at(p, 8, "0.0"@)
    } else {
        "0.0"@
    })
    &&& rate7 == (if rev is Modern {
        real_at(p, 9, "0.0"@)
    } else {
        "0.0"@
    })
    &&& rate8 == (if rev is Modern {
        real_at(p, 10, "0.0"@)
    } else {
        "0.0"@
    })
    &&& rate9 == (if rev is Modern {
        real_at(p, 11, "0.0"@)
    } else {
        "0.0"@
    })
    &&& rate10 == (if rev is Modern {
        real_at(p, 12, "0.0"@)
    } else {
        "0.0"@
    })
    &&& rate11 == (if rev is Modern {
        real_at(p, 13, "0.0"@)
    } else {
        "0.0"@
    })
    &&& rate12 == (if rev is Modern {
        real_at(p, 14, "0.0"@)
    } else {
        "0.0"@
    })
    &&& cod == int32_at(p, 6 + a, 0)
    &&& cont == int32_at(p, 7 + a, 0)
    &&& rma == real_at(p, 8 + a, "1.1"@)
    &&& rmi == real_at(p, 9 + a, "0.9"@)
    &&& vma == real_at(p, 10 + a, "1.1"@)
    &&& vmi == real_at(p, 11 + a, "0.9"@)
    &&& ntp == int32_at(p, 12 + a, 33)
    &&& tab == int32_at(p, 13 + a, 0)
    &&& cr == real_at(p, 14 + a, "0.0"@)
    &&& cx == real_at(p, 15 + a, "0.0"@)
    &&& cnxa == real_at(p, 16 + a, "0.0"@)
}

/// The schema of a two-winding record over its four token rows: the
/// second winding carries only its turns ratio, and the third winding
/// stays at defaults.
pub open spec fn xf2_matches(
    x: Transformer,
    p1: Seq<Seq<char>>,
    p2: Seq<Seq<char>>,
    p3: Seq<Seq<char>>,
    p4: Seq<Seq<char>>,
    rev: CaseRevision,
) -> bool {
    &&& xf_first_matches(x, p1, true)
    &&& x.r12@ == real_at(p2, 0, "0.0"@)
    &&& x.x12@ == real_at(p2, 1, "0.0"@)
    &&& x.sbase12@ == real_at(p2, 2, "100.0"@)
    &&& x.r23@ == "0.0"@
    &&& x.x23@ == "0.0"@
    &&& x.sbase23@ == "0.0"@
    &&& x.r31@ == "0.0"@
    &&& x.x31@ == "0.0"@
    &&& x.sbase31@ == "0.0"@
    &&& x.star_vm@ == "0.0"@
    &&& x.star_ang@ == "0.0"@
    &&& xf_winding_matches(
        x.winding_1_volt@,
        x.nominal_volt1@,
        x.angle1@,
        x.w1_rate1@,
        x.w1_rate2@,
        x.w1_rate3@,
        x.w1_rate4@,
        x.w1_rate5@,
        x.w1_rate6@,
        x.w1_rate7@,
        x.w1_rate8@,
        x.w1_rate9@,
        x.w1_rate10@,
        x.w1_rate11@,
        x.w1_rate12@,
        x.control_mode_1 as int,
        x.controlled_bus_id_1 as int,
        x.rma1@,
        x.rmi1@,
        x.vma1@,
        x.vmi1@,
        x.tap_positions_1 as int,
        x.impedance_correction_table_1 as int,
        x.load_drop_comp_r1@,
        x.load_drop_comp_x1@,
        x.connection_ang_1@,
        p3,
        rev,
    )
    &&& x.winding_2_volt@ == real_at(p4, 0, "1.0"@)
    &&& x.nominal_volt2@ == real_at(p4, 0, "1.0"@)
    &&& x.angle2@ == "0.0"@
    &&& x.w2_rate1@ == "0.0"@
    &&& x.w2_rate2@ == "0.0"@
    &&& x.w2_rate3@ == "0.0"@
    &&& x.w2_rate4@ == "0.0"@
    &&& x.w2_rate5@ == "0.0"@
    &&& x.w2_rate6@ == "0.0"@
    &&& x.w2_rate7@ == "0.0"@
    &&& x.w2_rate8@ == "0.0"@
    &&& x.w2_rate9@ == "0.0"@
    &&& x.w2_rate10@ == "0.0"@
    &&& x.w2_rate11@ == "0.0"@
    &&& x.w2_rate12@ == "0.0"@
    &&& x.control_mode_2 == 0
    &&& x.controlled_bus_id_2 == 0
    &&& x.rma2@ == "0.0"@
    &&& x.rmi2@ == "0.0"@
    &&& x.vma2@ == "0.0"@
    &&& x.vmi2@ == "0.0"@
    &&& x.tap_positions_2 == 0
    &&& x.impedance_correction_table_2 == 0
    &&& x.load_drop_comp_r2@ == "0.0"@
    &&& x.load_drop_comp_x2@ == "0.0"@
    &&& x.connection_ang_2@ == "0.0"@
    &&& x.winding_3_volt@ == "0.0"@
    &&& x.nominal_volt3@ == "0.0"@
    &&& x.angle3@ == "0.0"@
    &&& x.w3_rate1@ == "0.0"@
    &&& x.w3_rate2@ == "0.0"@
    &&& x.w3_rate3@ == "0.0"@
    &&& x.w3_rate4@ == "0.0"@
    &&& x.w3_rate5@ == "0.0"@
    &&& x.w3_rate6@ == "0.0"@
    &&& x.w3_rate7@ == "0.0"@
    &&& x.w3_rate8@ == "0.0"@
    &&& x.w3_rate9@ == "0.0"@
    &&& x.w3_rate10@ == "0.0"@
    &&& x.w3_rate11@ == "0.0"@
    &&& x.w3_rate12@ == "0.0"@
    &&& x.control_mode_3 == 0
    &&& x.controlled_bus_id_3 == 0
    &&& x.rma3@ == "0.0"@
    &&& x.rmi3@ == "0.0"@
    &&& x.vma3@ == "0.0"@
    &&& x.vmi3@ == "0.0"@
    &&& x.tap_positions_3 == 0
    &&& x.impedance_correction_table_3 == 0
    &&& x.load_drop_comp_r3@ == "0.0"@
    &&& x.load_drop_comp_x3@ == "0.0"@
    &&& x.connection_ang_3@ == "0.0"@
}

/// The schema of a three-winding record over its five token rows.
pub open spec fn xf3_matches(
    x: Transformer,
    p1: Seq<Seq<char>>,
    p2: Seq<Seq<char>>,
    p3: Seq<Seq<char>>,
    p4: Seq<Seq<char>>,
    p5: Seq<Seq<char>>,
    rev: CaseRevision,
) -> bool {
    &&& xf_first_matches(x, p1, false)
    &&& x.r12@ == real_at(p2, 0, "0.0"@)
    &&& x.x12@ == real_at(p2, 1, "0.0"@)
    &&& x.sbase12@ == real_at(p2, 2, "100.0"@)
    &&& x.r23@ == real_at(p2, 3, "0.0"@)
    &&& x.x23@ == real_at(p2, 4, "0.0"@)
    &&& x.sbase23@ == real_at(p2, 5, "100.0"@)
    &&& x.r31@ == real_at(p2, 6, "0.0"@)
    &&& x.x31@ == real_at(p2, 7, "0.0"@)
    &&& x.sbase31@ == real_at(p2, 8, "100.0"@)
    &&& x.star_vm@ == real_at(p2, 9, "1.0"@)
    &&& x.star_ang@ == real_at(p2, 10, "0.0"@)
    &&& xf_winding_matches(
        x.winding_1_volt@,
        x.nominal_volt1@,
        x.angle1@,
        x.w1_rate1@,
        x.w1_rate2@,
        x.w1_rate3@,
        x.w1_rate4@,
        x.w1_rate5@,
        x.w1_rate6@,
        x.w1_rate7@,
        x.w1_rate8@,
        x.w1_rate9@,
        x.w1_rate10@,
        x.w1_rate11@,
        x.w1_rate12@,
        x.control_mode_1 as int,
        x.controlled_bus_id_1 as int,
        x.rma1@,
        x.rmi1@,
        x.vma1@,
        x.vmi1@,
        x.tap_positions_1 as int,
        x.impedance_correction_table_1 as int,
        x.load_drop_comp_r1@,
        x.load_drop_comp_x1@,
        x.connection_ang_1@,
        p3,
        rev,
    )
    &&& xf_winding_matches(
        x.winding_2_volt@,
        x.nominal_volt2@,
        x.angle2@,
        x.w2_rate1@,
        x.w2_rate2@,
        x.w2_rate3@,
        x.w2_rate4@,
        x.w2_rate5@,
        x.w2_rate6@,
        x.w2_rate7@,
        x.w2_rate8@,
        x.w2_rate9@,
        x.w2_rate10@,
        x.w2_rate11@,
        x.w2_rate12@,
        x.control_mode_2 as int,
        x.controlled_bus_id_2 as int,
        x.rma2@,
        x.rmi2@,
        x.vma2@,
        x.vmi2@,
        x.tap_positions_2 as int,
        x.impedance_correction_table_2 as int,
        x.load_drop_comp_r2@,
        x.load_drop_comp_x2@,
        x.connection_ang_2@,
        p4,
        rev,
    )
    &&& xf_winding_matches(
        x.winding_3_volt@,
        x.nominal_volt3@,
        x.angle3@,
        x.w3_rate1@,
        x.w3_rate2@,
        x.w3_rate3@,
        x.w3_rate4@,
        x.w3_rate5@,
        x.w3_rate6@,
        x.w3_rate7@,
        x.w3_rate8@,
        x.w3_rate9@,
        x.w3_rate10@,
        x.w3_rate11@,
        x.w3_rate12@,
        x.control_mode_3 as int,
        x.controlled_bus_id_3 as int,
        x.rma3@,
        x.rmi3@,
        x.vma3@,
        x.vmi3@,
        x.tap_positions_3 as int,
        x.impedance_correction_table_3 as int,
        x.load_drop_comp_r3@,
        x.load_drop_comp_x3@,
        x.connection_ang_3@,
        p5,
        rev,
    )
}

/// The start indices of the transformer groups found from row `i` on:
/// each group consumes four or five rows as its first line decides, and
/// a trailing partial group opens no group.
pub open spec fn xf_group_starts(t: Seq<Seq<Seq<char>>>, i: int) -> Seq<int>
    decreases t.len() - i when i >= 0
{
    if i < 0 {
        Seq::empty()
    } else if is_two_winding(t[i]) {
        if i + 4 <= t.len() {
            seq![i] + xf_group_starts(t, i + 4)
        } else {
            Seq::empty()
        }
    } else {
        if i + 5 <= t.len() {
            seq![i] + xf_group_starts(t, i + 5)
        } else {
            Seq::empty()
        }
    }
}

/// A decoded transformer section: one record per discriminated group,
/// in file order.
pub open spec fn xf_section_ok(r: Seq<Transformer>, lines: Seq<Seq<u8>>, rev: CaseRevision) -> bool {
    let t = table_of(lines);
    let starts = xf_group_starts(t, 0);
    &&& r.len() == starts.len()
    &&& forall|k: int|
        0 <= k < starts.len() ==> {
            let s = #[trigger] starts[k];
            if is_two_winding(t[s]) {
                xf2_matches(r[k], t[s], t[s + 1], t[s + 2], t[s + 3], rev)
            } else {
                xf3_matches(r[k], t[s], t[s + 1], t[s + 2], t[s + 3], t[s + 4], rev)
            }
        }
}

/// Decodes one two-winding transformer from its four token rows.
pub fn parse_two_winding_transformer(
    p1: &Vec<Vec<char>>,
    p2: &Vec<Vec<char>>,
    p3: &Vec<Vec<char>>,
    p4: &Vec<Vec<char>>,
    rev: CaseRevision,
) -> (x: Transformer)
    ensures
        xf2_matches(x, p1.deep_view(), p2.deep_view(), p3.deep_view(), p4.deep_view(), rev),
{
    let a = sel(rev, 0, 9);
    let modern = matches!(rev, CaseRevision::Modern);
    Transformer {
        from_bus: read_i32(p1, 0, 0),
        to_bus: read_i32(p1, 1, 0),
        tertiary_bus: 0,
        circuit: read_text(p1, 3, "1"),
        cw: read_i8(p1, 4, 1),
        cz: read_i8(p1, 5, 1),
        cm: read_i8(p1, 6, 1),
        mag1: read_real(p1, 7, "0.0"),
        mag2: read_real(p1, 8, "0.0"),
        metered_end: read_i8(p1, 9, 1),
        name: read_text(p1, 10, ""),
        status: read_i8(p1, 11, 1),
        owner1: read_i16(p1, 12, 1),
        owner1_percent: read_real(p1, 13, "1.0"),
        owner2: read_i16(p1, 14, 0),
        owner2_percent: read_real(p1, 15, "1.0"),
        owner3: read_i16(p1, 16, 0),
        owner3_percent: read_real(p1, 17, "1.0"),
        owner4: read_i16(p1, 18, 0),
        owner4_percent: read_real(p1, 19, "1.0"),
        vector_group: read_text(p1, 20, ""),
        zcod: 0,
        r12: read_real(p2, 0, "0.0"),
        x12: read_real(p2, 1, "0.0"),
        sbase12: read_real(p2, 2, "100.0"),
        r23: "0.0".to_owned(),
        x23: "0.0".to_owned(),
        sbase23: "0.0".to_owned(),
        r31: "0.0".to_owned(),
        x31: "0.0".to_owned(),
        sbase31: "0.0".to_owned(),
        star_vm: "0.0".to_owned(),
        star_ang: "0.0".to_owned(),
        winding_1_volt: read_real(p3, 0, "1.0"),
        nominal_volt1: read_real(p3, 1, "0.0"),
        angle1: read_real(p3, 2, "0.0"),
        w1_rate1: read_real(p3, 3, "0.0"),
        w1_rate2: read_real(p3, 4, "0.0"),
        w1_rate3: read_real(p3, 5, "0.0"),
        w1_rate4: if modern {
            read_real(p3, 6, "0.0")
        } else {
            "0.0".to_owned()
        },
        w1_rate5: if modern {
            read_real(p3, 7, "0.0")
        } else {
            "0.0".to_owned()
        },
        w1_rate6: if modern {
            read_real(p3, 8, "0.0")
        } else {
            "0.0".to_owned()
        },
        w1_rate7: if modern {
            read_real(p3, 9, "0.0")
        } else {
            "0.0".to_owned()
        },
        w1_rate8: if modern {
            read_real(p3, 10, "0.0")
        } else {
            "0.0".to_owned()
        },
        w1_rate9: if modern {
            read_real(p3, 11, "0.0")
        } else {
            "0.0".to_owned()
        },
        w1_rate10: if modern {
            read_real(p3, 12, "0.0")
        } else {
            "0.0".to_owned()
        },
        w1_rate11: if modern {
            read_real(p3, 13, "0.0")
        } else {
            "0.0".to_owned()
        },
        w1_rate12: if modern {
            read_real(p3, 14, "0.0")
        } else {
            "0.0".to_owned()
        },
        control_mode_1: read_i32(p3, 6 + a, 0),
        controlled_bus_id_1: read_i32(p3, 7 + a, 0),
        rma1: read_real(p3, 8 + a, "1.1"),
        rmi1: read_real(p3, 9 + a, "0.9"),
        vma1: read_real(p3, 10 + a, "1.1"),
        vmi1: read_real(p3, 11 + a, "0.9"),
        tap_positions_1: read_i32(p3, 12 + a, 33),
        impedance_correction_table_1: read_i32(p3, 13 + a, 0),
        load_drop_comp_r1: read_real(p3, 14 + a, "0.0"),
        load_drop_comp_x1: read_real(p3, 15 + a, "0.0"),
        connection_ang_1: read_real(p3, 16 + a, "0.0"),
        winding_2_volt: read_real(p4, 0, "1.0"),
        nominal_volt2: read_real(p4, 0, "1.0"),
        angle2: "0.0".to_owned(),
        w2_rate1: "0.0".to_owned(),
        w2_rate2: "0.0".to_owned(),
        w2_rate3: "0.0".to_owned(),
        w2_rate4: "0.0".to_owned(),
        w2_rate5: "0.0".to_owned(),
        w2_rate6: "0.0".to_owned(),
        w2_rate7: "0.0".to_owned(),
        w2_rate8: "0.0".to_owned(),
        w2_rate9: "0.0".to_owned(),
        w2_rate10: "0.0".to_owned(),
        w2_rate11: "0.0".to_owned(),
        w2_rate12: "0.0".to_owned(),
        control_mode_2: 0,
        controlled_bus_id_2: 0,
        rma2: "0.0".to_owned(),
        rmi2: "0.0".to_owned(),
        vma2: "0.0".to_owned(),
        vmi2: "0.0".to_owned(),
        tap_positions_2: 0,
        impedance_correction_table_2: 0,
        load_drop_comp_r2: "0.0".to_owned(),
        load_drop_comp_x2: "0.0".to_owned(),
        connection_ang_2: "0.0".to_owned(),
        winding_3_volt: "0.0".to_owned(),
        nominal_volt3: "0.0".to_owned(),
        angle3: "0.0".to_owned(),
        w3_rate1: "0.0".to_owned(),
        w3_rate2: "0.0".to_owned(),
        w3_rate3: "0.0".to_owned(),
        w3_rate4: "0.0".to_owned(),
        w3_rate5: "0.0".to_owned(),
        w3_rate6: "0.0".to_owned(),
        w3_rate7: "0.0".to_owned(),
        w3_rate8: "0.0".to_owned(),
        w3_rate9: "0.0".to_owned(),
        w3_rate10: "0.0".to_owned(),
        w3_rate11: "0.0".to_owned(),
        w3_rate12: "0.0".to_owned(),
        control_mode_3: 0,
        controlled_bus_id_3: 0,
        rma3: "0.0".to_owned(),
        rmi3: "0.0".to_owned(),
        vma3: "0.0".to_owned(),
        vmi3: "0.0".to_owned(),
        tap_positions_3: 0,
        impedance_correction_table_3: 0,
        load_drop_comp_r3: "0.0".to_owned(),
        load_drop_comp_x3: "0.0".to_owned(),
        connection_ang_3: "0.0".to_owned(),
    }
}

/// Decodes one three-winding transformer from its five token rows.
pub fn parse_three_winding_transformer(
    p1: &Vec<Vec<char>>,
    p2: &Vec<Vec<char>>,
    p3: &Vec<Vec<char>>,
    p4: &Vec<Vec<char>>,
    p5: &Vec<Vec<char>>,
    rev: CaseRevision,
) -> (x: Transformer)
    ensures
        xf3_matches(
            x,
            p1.deep_view(),
            p2.deep_view(),
            p3.deep_view(),
            p4.deep_view(),
            p5.deep_view(),
            rev,
        ),
{
    let a = sel(rev, 0, 9);
    let modern = matches!(rev, CaseRevision::Modern);
    Transformer {
        from_bus: read_i32(p1, 0, 0),
        to_bus: read_i32(p1, 1, 0),
        tertiary_bus: read_i32(p1, 2, 0),
        circuit: read_text(p1, 3, "1"),
        cw: read_i8(p1, 4, 1),
        cz: read_i8(p1, 5, 1),
        cm: read_i8(p1, 6, 1),
        mag1: read_real(p1, 7, "0.0"),
        mag2: read_real(p1, 8, "0.0"),
        metered_end: read_i8(p1, 9, 1),
        name: read_text(p1, 10, ""),
        status: read_i8(p1, 11, 1),
        owner1: read_i16(p1, 12, 1),
        owner1_percent: read_real(p1, 13, "1.0"),
        owner2: read_i16(p1, 14, 0),
        owner2_percent: read_real(p1, 15, "1.0"),
        owner3: read_i16(p1, 16, 0),
        owner3_percent: read_real(p1, 17, "1.0"),
        owner4: read_i16(p1, 18, 0),
        owner4_percent: read_real(p1, 19, "1.0"),
        vector_group: read_text(p1, 20, ""),
        zcod: read_i8(p1, 21, 0),
        r12: read_real(p2, 0, "0.0"),
        x12: read_real(p2, 1, "0.0"),
        sbase12: read_real(p2, 2, "100.0"),
        r23: read_real(p2, 3, "0.0"),
        x23: read_real(p2, 4, "0.0"),
        sbase23: read_real(p2, 5, "100.0"),
        r31: read_real(p2, 6, "0.0"),
        x31: read_real(p2, 7, "0.0"),
        sbase31: read_real(p2, 8, "100.0"),
        star_vm: read_real(p2, 9, "1.0"),
        star_ang: read_real(p2, 10, "0.0"),
        winding_1_volt: read_real(p3, 0, "1.0"),
        nominal_volt1: read_real(p3, 1, "0.0"),
        angle1: read_real(p3, 2, "0.0"),
        w1_rate1: read_real(p3, 3, "0.0"),
        w1_rate2: read_real(p3, 4, "0.0"),
        w1_rate3: read_real(p3, 5, "0.0"),
        w1_rate4: if modern {
            read_real(p3, 6, "0.0")
        } else {
            "0.0".to_owned()
        },
        w1_rate5: if modern {
            read_real(p3, 7, "0.0")
        } else {
            "0.0".to_owned()
        },
        w1_rate6: if modern {
            read_real(p3, 8, "0.0")
        } else {
            "0.0".to_owned()
        },
        w1_rate7: if modern {
            read_real(p3, 9, "0.0")
        } else {
            "0.0".to_owned()
        },
        w1_rate8: if modern {
            read_real(p3, 10, "0.0")
        } else {
            "0.0".to_owned()
        },
        w1_rate9: if modern {
            read_real(p3, 11, "0.0")
        } else {
            "0.0".to_owned()
        },
        w1_rate10: if modern {
            read_real(p3, 12, "0.0")
        } else {
            "0.0".to_owned()
        },
        w1_rate11: if modern {
            read_real(p3, 13, "0.0")
        } else {
            "0.0".to_owned()
        },
        w1_rate12: if modern {
            read_real(p3, 14, "0.0")
        } else {
            "0.0".to_owned()
        },
        control_mode_1: read_i32(p3, 6 + a, 0),
        controlled_bus_id_1: read_i32(p3, 7 + a, 0),
        rma1: read_real(p3, 8 + a, "1.1"),
        rmi1: read_real(p3, 9 + a, "0.9"),
        vma1: read_real(p3, 10 + a, "1.1"),
        vmi1: read_real(p3, 11 + a, "0.9"),
        tap_positions_1: read_i32(p3, 12 + a, 33),
        impedance_correction_table_1: read_i32(p3, 13 + a, 0),
        load_drop_comp_r1: read_real(p3, 14 + a, "0.0"),
        load_drop_comp_x1: read_real(p3, 15 + a, "0.0"),
        connection_ang_1: read_real(p3, 16 + a, "0.0"),
        winding_2_volt: read_real(p4, 0, "1.0"),
        nominal_volt2: read_real(p4, 1, "0.0"),
        angle2: read_real(p4, 2, "0.0"),
        w2_rate1: read_real(p4, 3, "0.0"),
        w2_rate2: read_real(p4, 4, "0.0"),
        w2_rate3: read_real(p4, 5, "0.0"),
        w2_rate4: if modern {
            read_real(p4, 6, "0.0")
        } else {
            "0.0".to_owned()
        },
        w2_rate5: if modern {
            read_real(p4, 7, "0.0")
        } else {
            "0.0".to_owned()
        },
        w2_rate6: if modern {
            read_real(p4, 8, "0.0")
        } else {
            "0.0".to_owned()
        },
        w2_rate7: if modern {
            read_real(p4, 9, "0.0")
        } else {
            "0.0".to_owned()
        },
        w2_rate8: if modern {
            read_real(p4, 10, "0.0")
        } else {
            "0.0".to_owned()
        },
        w2_rate9: if modern {
            read_real(p4, 11, "0.0")
        } else {
            "0.0".to_owned()
        },
        w2_rate10: if modern {
            read_real(p4, 12, "0.0")
        } else {
            "0.0".to_owned()
        },
        w2_rate11: if modern {
            read_real(p4, 13, "0.0")
        } else {
            "0.0".to_owned()
        },
        w2_rate12: if modern {
            read_real(p4, 14, "0.0")
        } else {
            "0.0".to_owned()
        },
        control_mode_2: read_i32(p4, 6 + a, 0),
        controlled_bus_id_2: read_i32(p4, 7 + a, 0),
        rma2: read_real(p4, 8 + a, "1.1"),
        rmi2: read_real(p4, 9 + a, "0.9"),
        vma2: read_real(p4, 10 + a, "1.1"),
        vmi2: read_real(p4, 11 + a, "0.9"),
        tap_positions_2: read_i32(p4, 12 + a, 33),
        impedance_correction_table_2: read_i32(p4, 13 + a, 0),
        load_drop_comp_r2: read_real(p4, 14 + a, "0.0"),
        load_drop_comp_x2: read_real(p4, 15 + a, "0.0"),
        connection_ang_2: read_real(p4, 16 + a, "0.0"),
        winding_3_volt: read_real(p5, 0, "1.0"),
        nominal_volt3: read_real(p5, 1, "0.0"),
        angle3: read_real(p5, 2, "0.0"),
        w3_rate1: read_real(p5, 3, "0.0"),
        w3_rate2: read_real(p5, 4, "0.0"),
        w3_rate3: read_real(p5, 5, "0.0"),
        w3_rate4: if modern {
            read_real(p5, 6, "0.0")
        } else {
            "0.0".to_owned()
        },
        w3_rate5: if modern {
            read_real(p5, 7, "0.0")
        } else {
            "0.0".to_owned()
        },
        w3_rate6: if modern {
            read_real(p5, 8, "0.0")
        } else {
            "0.0".to_owned()
        },
        w3_rate7: if modern {
            read_real(p5, 9, "0.0")
        } else {
            "0.0".to_owned()
        },
        w3_rate8: if modern {
            read_real(p5, 10, "0.0")
        } else {
            "0.0".to_owned()
        },
        w3_rate9: if modern {
            read_real(p5, 11, "0.0")
        } else {
            "0.0".to_owned()
        },
        w3_rate10: if modern {
            read_real(p5, 12, "0.0")
        } else {
            "0.0".to_owned()
        },
        w3_rate11: if modern {
            read_real(p5, 13, "0.0")
        } else {
            "0.0".to_owned()
        },
        w3_rate12: if modern {
            read_real(p5, 14, "0.0")
        } else {
            "0.0".to_owned()
        },
        control_mode_3: read_i32(p5, 6 + a, 0),
        controlled_bus_id_3: read_i32(p5, 7 + a, 0),
        rma3: read_real(p5, 8 + a, "1.1"),
        rmi3: read_real(p5, 9 + a, "0.9"),
        vma3: read_real(p5, 10 + a, "1.1"),
        vmi3: read_real(p5, 11 + a, "0.9"),
        tap_positions_3: read_i32(p5, 12 + a, 33),
        impedance_correction_table_3: read_i32(p5, 13 + a, 0),
        load_drop_comp_r3: read_real(p5, 14 + a, "0.0"),
        load_drop_comp_x3: read_real(p5, 15 + a, "0.0"),
        connection_ang_3: read_real(p5, 16 + a, "0.0"),
    }
}

/// Decodes the transformer section under the given revision number,
/// deciding each group's size from its own first line.
#[verifier::rlimit(100)]
pub fn parse_transformers(lines: &[&[u8]], psse_version: i8) -> (r: Vec<Transformer>)
    ensures
        xf_section_ok(r@, line_views(lines@), spec_revision(psse_version as int)),
{
    let rev = classify_revision(psse_version);
    let t = tokenize_lines(lines);
    let n = t.len();
    let ghost td = t.deep_view();
    let mut r: Vec<Transformer> = Vec::new();
    let ghost mut done: Seq<int> = Seq::empty();
    let mut i: usize = 0;
    loop
        invariant_except_break
            xf_group_starts(td, 0) =~= done + xf_group_starts(td, i as int),
        invariant
            0 <= i <= n == t@.len(),
            td == t.deep_view(),
            td == table_of(line_views(lines@)),
            rev == spec_revision(psse_version as int),
            r@.len() == done.len(),
            forall|k: int|
                0 <= k < done.len() ==> {
                    let s = #[trigger] done[k];
                    &&& 0 <= s
                    &&& if is_two_winding(td[s]) {
                        s + 4 <= n && xf2_matches(r@[k], td[s], td[s + 1], td[s + 2], td[s + 3], rev)
                    } else {
                        s + 5 <= n && xf3_matches(
                            r@[k],
                            td[s],
                            td[s + 1],
                            td[s + 2],
                            td[s + 3],
                            td[s + 4],
                            rev,
                        )
                    }
                },
        ensures
            xf_group_starts(td, 0) =~= done,
        decreases n - i,
    {
        if i >= n {
            proof {
                assert(xf_group_starts(td, i as int) =~= Seq::empty());
            }
            break ;
        }
        proof {
            assert(td[i as int] == t@[i as int].deep_view());
        }
        let two = {
            let v = read_i32(&t[i], 2, 0);
            v == 0
        };
        if two {
            if n - i >= 4 {
                proof {
                    assert(td[i + 1] == t@[i + 1].deep_view());
                    assert(td[i + 2] == t@[i + 2].deep_view());
                    assert(td[i + 3] == t@[i + 3].deep_view());
                    assert(xf_group_starts(td, i as int) =~= seq![i as int] + xf_group_starts(
                        td,
                        i + 4,
                    ));
                }
                let x = parse_two_winding_transformer(&t[i], &t[i + 1], &t[i + 2], &t[i + 3], rev);
                r.push(x);
                proof {
                    done = done + seq![i as int];
                }
                i += 4;
            } else {
                proof {
                    assert(xf_group_starts(td, i as int) =~= Seq::empty());
                }
                break ;
            }
        } else {
            if n - i >= 5 {
                proof {
                    assert(td[i + 1] == t@[i + 1].deep_view());
                    assert(td[i + 2] == t@[i + 2].deep_view());
                    assert(td[i + 3] == t@[i + 3].deep_view());
                    assert(td[i + 4] == t@[i + 4].deep_view());
                    assert(xf_group_starts(td, i as int) =~= seq![i as int] + xf_group_starts(
                        td,
                        i + 5,
                    ));
                }
                let x = parse_three_winding_transformer(
                    &t[i],
                    &t[i + 1],
                    &t[i + 2],
                    &t[i + 3],
                    &t[i + 4],
                    rev,
                );
                r.push(x);
                proof {
                    done = done + seq![i as int];
                }
                i += 5;
            } else {
                proof {
                    assert(xf_group_starts(td, i as int) =~= Seq::empty());
                }
                break ;
            }
        }
    }
    r
}

} // verus!
