//! VSC DC lines: one logical record per three physical lines (line
//! data, then one line per converter).  A trailing partial group is
//! discarded as malformed.

use vstd::prelude::*;
use crate::CaseRevision;
use crate::fields::{int8_at, int16_at, int32_at, read_i8, read_i16, read_i32, read_real, read_text,
    real_at, sel, spec_off, text_at};
use crate::lines::{line_views, table_of, tokenize_lines};
use crate::{classify_revision, spec_revision};

verus! {

/// One voltage-source-converter DC line of the case.
#[derive(Debug, Clone, Default, PartialEq)]
pub struct VSCDc {
    /// Line name.
    pub name: String,
    /// Line status.
    pub status: i8,
    /// DC line resistance, Ohms.
    pub resistance: String,
    /// Owner number 1.
    pub owner1: i16,
    /// Ownership fraction 1.
    pub owner1_percent: String,
    /// Owner number 2.
    pub owner2: i16,
    /// Ownership fraction 2.
    pub owner2_percent: String,
    /// Owner number 3.
    pub owner3: i16,
    /// Ownership fraction 3.
    pub owner3_percent: String,
    /// Owner number 4.
    pub owner4: i16,
    /// Ownership fraction 4.
    pub owner4_percent: String,
    /// Converter 1 bus.
    pub converter_1_bus_id: i32,
    /// Converter 1 DC control mode.
    pub converter_1_dc_control: i8,
    /// Converter 1 AC control mode.
    pub converter_1_ac_control: i8,
    /// Converter 1 DC setpoint.
    pub dc_setpoint_1: String,
    /// Converter 1 AC setpoint.
    pub ac_setpoint_1: String,
    /// Converter 1 constant loss coefficient, kW.
    pub cont_loss_coeff_1: String,
    /// Converter 1 proportional loss coefficient, kW/A.
    pub prop_loss_coeff_1: String,
    /// Converter 1 minimum loss, kW.
    pub min_converter_loss_1: String,
    /// Converter 1 MVA rating.
    pub mva_rating_1: String,
    /// Converter 1 AC current rating.
    pub ac_rating_1: String,
    /// Converter 1 power weighting factor.
    pub power_weighting_factor_1: String,
    /// Converter 1 maximum reactive power, Mvar.
    pub max_reac_1: String,
    /// Converter 1 minimum reactive power, Mvar.
    pub min_reac_1: String,
    /// Bus controlled by converter 1.
    pub control_bus_id_1: i32,
    /// Node controlled by converter 1; Modern only.
    pub control_node_1: i32,
    /// Percent of Mvar converter 1 contributes.
    pub control_bus_percent_mvar_1: String,
    /// Converter 2 bus.
    pub converter_2_bus_id: i32,
    /// Converter 2 DC control mode.
    pub converter_2_dc_control: i8,
    /// Converter 2 AC control mode.
    pub converter_2_ac_control: i8,
    /// Converter 2 DC setpoint.
    pub dc_setpoint_2: String,
    /// Converter 2 AC setpoint.
    pub ac_setpoint_2: String,
    /// Converter 2 constant loss coefficient, kW.
    pub cont_loss_coeff_2: String,
    /// Converter 2 proportional loss coefficient, kW/A.
    pub prop_loss_coeff_2: String,
    /// Converter 2 minimum loss, kW.
    pub min_converter_loss_2: String,
    /// Converter 2 MVA rating.
    pub mva_rating_2: String,
    /// Converter 2 AC current rating.
    pub ac_rating_2: String,
    /// Converter 2 power weighting factor.
    pub power_weighting_factor_2: String,
    /// Converter 2 maximum reactive power, Mvar.
    pub max_reac_2: String,
    /// Converter 2 minimum reactive power, Mvar.
    pub min_reac_2: String,
    /// Bus controlled by converter 2.
    pub control_bus_id_2: i32,
    /// Node controlled by converter 2; Modern only.
    pub control_node_2: i32,
    /// Percent of Mvar converter 2 contributes.
    pub control_bus_percent_mvar_2: String,
}

/// The column schema of one converter line under the given revision.
pub open spec fn vsc_converter_matches(
    bus_id: int,
    dc_control: int,
    ac_control: int,
    dc_setpoint: Seq<char>,
    ac_setpoint: Seq<char>,
    cont_loss: Seq<char>,
    prop_loss: Seq<char>,
    min_loss: Seq<char>,
    mva_rating: Seq<char>,
    ac_rating: Seq<char>,
    weighting: Seq<char>,
    max_reac: Seq<char>,
    min_reac: Seq<char>,
    control_bus: int,
    control_node: int,
    percent_mvar: Seq<char>,
    p: Seq<Seq<char>>,
    rev: CaseRevision,
) -> bool {
    let a = spec_off(rev, 0, 1);
    &&& bus_id == int32_at(p, 0, 0)
    &&& dc_control == int8_at(p, 1, 0)
    &&& ac_control == int8_at(p, 2, 1)
    &&& dc_setpoint == real_at(p, 3, "0.0"@)
    &&& ac_setpoint == real_at(p, 4, "0.0"@)
    &&& cont_loss == real_at(p, 5, "0.0"@)
    &&& prop_loss == real_at(p, 6, "0.0"@)
    &&& min_loss == real_at(p, 7, "0.0"@)
    &&& mva_rating == real_at(p, 8, "0.0"@)
    &&& ac_rating == real_at(p, 9, "0.0"@)
    &&& weighting == real_at(p, 10, "1.0"@)
    &&& max_reac == real_at(p, 11, "9999.0"@)
    &&& min_reac == real_at(p, 12, "-9999.0"@)
    &&& control_bus == int32_at(p, 13, 0)
    &&& control_node == (if rev is Modern {
        int32_at(p, 14, 0)
    } else {
        0int
    })
    &&& percent_mvar == real_at(p, 14 + a, "100.0"@)
}

/// The column schema of a VSC DC record over its three token rows.
pub open spec fn vsc_matches(
    v: VSCDc,
    p1: Seq<Seq<char>>,
    p2: Seq<Seq<char>>,
    p3: Seq<Seq<char>>,
    rev: CaseRevision,
) -> bool {
    &&& v.name@ == text_at(p1, 0, ""@)
    &&& v.status == int8_at(p1, 1, 1)
    &&& v.resistance@ == real_at(p1, 2, "0.0"@)
    &&& v.owner1 == int16_at(p1, 3, 1)
    &&& v.owner1_percent@ == real_at(p1, 4, "1.0"@)
    &&& v.owner2 == int16_at(p1, 5, 0)
    &&& v.owner2_percent@ == real_at(p1, 6, "1.0"@)
    &&& v.owner3 == int16_at(p1, 7, 0)
    &&& v.owner3_percent@ == real_at(p1, 8, "1.0"@)
    &&& v.owner4 == int16_at(p1, 9, 0)
    &&& v.owner4_percent@ == real_at(p1, 10, "1.0"@)
    &&& vsc_converter_matches(
        v.converter_1_bus_id as int,
        v.converter_1_dc_control as int,
        v.converter_1_ac_control as int,
        v.dc_setpoint_1@,
        v.ac_setpoint_1@,
        v.cont_loss_coeff_1@,
        v.prop_loss_coeff_1@,
        v.min_converter_loss_1@,
        v.mva_rating_1@,
        v.ac_rating_1@,
        v.power_weighting_factor_1@,
        v.max_reac_1@,
        v.min_reac_1@,
        v.control_bus_id_1 as int,
        v.control_node_1 as int,
        v.control_bus_percent_mvar_1@,
        p2,
        rev,
    )
    &&& vsc_converter_matches(
        v.converter_2_bus_id as int,
        v.converter_2_dc_control as int,
        v.converter_2_ac_control as int,
        v.dc_setpoint_2@,
        v.ac_setpoint_2@,
        v.cont_loss_coeff_2@,
        v.prop_loss_coeff_2@,
        v.min_converter_loss_2@,
        v.mva_rating_2@,
        v.ac_rating_2@,
        v.power_weighting_factor_2@,
        v.max_reac_2@,
        v.min_reac_2@,
        v.control_bus_id_2 as int,
        v.control_node_2 as int,
        v.control_bus_percent_mvar_2@,
        p3,
        rev,
    )
}

/// A decoded VSC DC section: the decodable lines are chunked into
/// consecutive groups of three, and a trailing partial group is
/// discarded.
pub open spec fn vsc_section_ok(r: Seq<VSCDc>, lines: Seq<Seq<u8>>, rev: CaseRevision) -> bool {
    let t = table_of(lines);
    &&& r.len() == t.len() / 3
    &&& forall|i: int|
        0 <= i < r.len() ==> vsc_matches(#[trigger] r[i], t[3 * i], t[3 * i + 1], t[3 * i + 2], rev)
}

/// Decodes one VSC DC record from its three token rows.
pub fn vsc_from_tokens(
    p1: &Vec<Vec<char>>,
    p2: &Vec<Vec<char>>,
    p3: &Vec<Vec<char>>,
    rev: CaseRevision,
) -> (v: VSCDc)
    ensures
        vsc_matches(v, p1.deep_view(), p2.deep_view(), p3.deep_view(), rev),
{
    let a = sel(rev, 0, 1);
    let modern = matches!(rev, CaseRevision::Modern);
    VSCDc {
        name: read_text(p1, 0, ""),
        status: read_i8(p1, 1, 1),
        resistance: read_real(p1, 2, "0.0"),
        owner1: read_i16(p1, 3, 1),
        owner1_percent: read_real(p1, 4, "1.0"),
        owner2: read_i16(p1, 5, 0),
        owner2_percent: read_real(p1, 6, "1.0"),
        owner3: read_i16(p1, 7, 0),
        owner3_percent: read_real(p1, 8, "1.0"),
        owner4: read_i16(p1, 9, 0),
        owner4_percent: read_real(p1, 10, "1.0"),
        converter_1_bus_id: read_i32(p2, 0, 0),
        converter_1_dc_control: read_i8(p2, 1, 0),
        converter_1_ac_control: read_i8(p2, 2, 1),
        dc_setpoint_1: read_real(p2, 3, "0.0"),
        ac_setpoint_1: read_real(p2, 4, "0.0"),
        cont_loss_coeff_1: read_real(p2, 5, "0.0"),
        prop_loss_coeff_1: read_real(p2, 6, "0.0"),
        min_converter_loss_1: read_real(p2, 7, "0.0"),
        mva_rating_1: read_real(p2, 8, "0.0"),
        ac_rating_1: read_real(p2, 9, "0.0"),
        power_weighting_factor_1: read_real(p2, 10, "1.0"),
        max_reac_1: read_real(p2, 11, "9999.0"),
        min_reac_1: read_real(p2, 12, "-9999.0"),
        control_bus_id_1: read_i32(p2, 13, 0),
        control_node_1: if modern {
            read_i32(p2, 14, 0)
        } else {
            0
        },
        control_bus_percent_mvar_1: read_real(p2, 14 + a, "100.0"),
        converter_2_bus_id: read_i32(p3, 0, 0),
        converter_2_dc_control: read_i8(p3, 1, 0),
        converter_2_ac_control: read_i8(p3, 2, 1),
        dc_setpoint_2: read_real(p3, 3, "0.0"),
        ac_setpoint_2: read_real(p3, 4, "0.0"),
        cont_loss_coeff_2: read_real(p3, 5, "0.0"),
        prop_loss_coeff_2: read_real(p3, 6, "0.0"),
        min_converter_loss_2: read_real(p3, 7, "0.0"),
        mva_rating_2: read_real(p3, 8, "0.0"),
        ac_rating_2: read_real(p3, 9, "0.0"),
        power_weighting_factor_2: read_real(p3, 10, "1.0"),
        max_reac_2: read_real(p3, 11, "9999.0"),
        min_reac_2: read_real(p3, 12, "-9999.0"),
        control_bus_id_2: read_i32(p3, 13, 0),
        control_node_2: if modern {
            read_i32(p3, 14, 0)
        } else {
            0
        },
        control_bus_percent_mvar_2: read_real(p3, 14 + a, "100.0"),
    }
}

/// Decodes the VSC DC section under the given revision number.
#[verifier::rlimit(60)]
pub fn parse_vsc_dc_line(lines: &[&[u8]], psse_version: i8) -> (r: Vec<VSCDc>)
    ensures
        vsc_section_ok(r@, line_views(lines@), spec_revision(psse_version as int)),
{
    let rev = classify_revision(psse_version);
    let t = tokenize_lines(lines);
    let n = t.len();
    let mut r: Vec<VSCDc> = Vec::new();
    let mut i: usize = 0;
    let mut g: usize = 0;
    while n - i >= 3
        invariant
            0 <= i <= n == t@.len(),
            i == 3 * g,
            rev == spec_revision(psse_version as int),
            t.deep_view() == table_of(line_views(lines@)),
            r@.len() == g,
            forall|k: int|
                0 <= k < g ==> vsc_matches(
                    #[trigger] r@[k],
                    t.deep_view()[3 * k],
                    t.deep_view()[3 * k + 1],
                    t.deep_view()[3 * k + 2],
                    rev,
                ),
        decreases n - i,
    {
        proof {
            assert(t.deep_view()[i as int] == t@[i as int].deep_view());
            assert(t.deep_view()[i + 1] == t@[i + 1].deep_view());
            assert(t.deep_view()[i + 2] == t@[i + 2].deep_view());
        }
        let v = vsc_from_tokens(&t[i], &t[i + 1], &t[i + 2], rev);
        r.push(v);
        proof {
            assert(3 * (g as int) == i as int);
            assert(r@[g as int] == v);
        }
        i += 3;
        g += 1;
    }
    proof {
        assert(n as int == 3 * (g as int) + (n - i));
        assert(g as int == n as int / 3);
    }
    r
}

} // verus!
