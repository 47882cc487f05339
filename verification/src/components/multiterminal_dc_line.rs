//! Multi-terminal DC lines: one logical record per three physical lines
//! (line data, converter data, DC bus data).  A trailing partial group
//! is discarded as malformed.

use vstd::prelude::*;
use crate::fields::{int8_at, int16_at, int32_at, read_i8, read_i16, read_i32, read_real, read_text,
    real_at, text_at};
use crate::lines::{line_views, table_of, tokenize_lines};

verus! {

/// One multi-terminal DC line of the case.
#[derive(Debug, Clone, Default, PartialEq)]
pub struct MultiTermDCLine {
    /// Line name.
    pub name: String,
    /// Number of AC converter stations.
    pub num_converters: i32,
    /// Number of DC buses.
    pub num_dc_buses: i32,
    /// Number of DC links.
    pub num_dc_links: i32,
    /// Control mode.
    pub control_mode: i8,
    /// Positive-pole AC converter bus.
    pub positive_ac_conv_bus_id: i32,
    /// Mode-switch DC voltage, kV.
    pub mode_switch_dc_volt: String,
    /// Negative-pole AC converter bus.
    pub negative_ac_conv_bus_id: i32,
    /// AC converter bus.
    pub ac_conv_bus_1_id: i32,
    /// Bridges in series.
    pub series_bridges: i32,
    /// Maximum firing angle, degrees.
    pub max_alpha_gamma: String,
    /// Minimum firing angle, degrees.
    pub min_alpha_gamma: String,
    /// Commutating resistance per bridge, Ohms.
    pub bridge_r: String,
    /// Commutating reactance per bridge, Ohms.
    pub bridge_x: String,
    /// Primary base AC voltage, kV.
    pub base_ac_volt: String,
    /// Transformer ratio.
    pub xfmr_ratio: String,
    /// Tap setting.
    pub xfmr_tap: String,
    /// Maximum tap setting.
    pub xfmr_max_tap: String,
    /// Minimum tap setting.
    pub xfmr_min_tap: String,
    /// Converter setpoint.
    pub conv_setpoint: String,
    /// Converter participation factor.
    pub conv_participation_factor: String,
    /// Rectifier margin.
    pub rec_margin: String,
    /// Converter code.
    pub conv_code: i8,
    /// DC bus number.
    pub dc_bus_num: i32,
    /// AC converter bus tied to the DC bus.
    pub ac_conv_bus_2_id: i32,
    /// Area number.
    pub area: i16,
    /// Zone number.
    pub zone: i16,
    /// DC bus name.
    pub dc_bus_name: String,
    /// Second DC bus number.
    pub dc_bus_num_2: i32,
    /// Resistance to ground, Ohms.
    pub resist_to_ground: String,
    /// Owner number.
    pub owner: i16,
}

/// The column schema of a multi-terminal DC record over its three token
/// rows.  The layout is the same under both revisions.
pub open spec fn mtdc_matches(
    m: MultiTermDCLine,
    p1: Seq<Seq<char>>,
    p2: Seq<Seq<char>>,
    p3: Seq<Seq<char>>,
) -> bool {
    &&& m.name@ == text_at(p1, 0, ""@)
    &&& m.num_converters == int32_at(p1, 1, 0)
    &&& m.num_dc_buses == int32_at(p1, 2, 0)
    &&& m.num_dc_links == int32_at(p1, 3, 0)
    &&& m.control_mode == int8_at(p1, 4, 0)
    &&& m.positive_ac_conv_bus_id == int32_at(p1, 5, 0)
    &&& m.mode_switch_dc_volt@ == real_at(p1, 6, "0.0"@)
    &&& m.negative_ac_conv_bus_id == int32_at(p1, 7, 0)
    &&& m.ac_conv_bus_1_id == int32_at(p2, 0, 0)
    &&& m.series_bridges == int32_at(p2, 1, 0)
    &&& m.max_alpha_gamma@ == real_at(p2, 2, "0.0"@)
    &&& m.min_alpha_gamma@ == real_at(p2, 3, "0.0"@)
    &&& m.bridge_r@ == real_at(p2, 4, "0.0"@)
    &&& m.bridge_x@ == real_at(p2, 5, "0.0"@)
    &&& m.base_ac_volt@ == real_at(p2, 6, "0.0"@)
    &&& m.xfmr_ratio@ == real_at(p2, 7, "1.0"@)
    &&& m.xfmr_tap@ == real_at(p2, 8, "1.0"@)
    &&& m.xfmr_max_tap@ == real_at(p2, 9, "1.5"@)
    &&& m.xfmr_min_tap@ == real_at(p2, 10, "0.00625"@)
    &&& m.conv_setpoint@ == real_at(p2, 11, "0.0"@)
    &&& m.conv_participation_factor@ == real_at(p2, 12, "1.0"@)
    &&& m.rec_margin@ == real_at(p2, 13, "0.0"@)
    &&& m.conv_code == int8_at(p2, 14, 1)
    &&& m.dc_bus_num == int32_at(p3, 0, 1)
    &&& m.ac_conv_bus_2_id == int32_at(p3, 1, 0)
    &&& m.area == int16_at(p3, 2, 1)
    &&& m.zone == int16_at(p3, 3, 1)
    &&& m.dc_bus_name@ == text_at(p3, 4, ""@)
    &&& m.dc_bus_num_2 == int32_at(p3, 5, 1)
    &&& m.resist_to_ground@ == real_at(p3, 6, "0.0"@)
    &&& m.owner == int16_at(p3, 7, 1)
}

/// A decoded multi-terminal DC section: the decodable lines are chunked
/// into consecutive groups of three, and a trailing partial group is
/// discarded.
pub open spec fn mtdc_section_ok(r: Seq<MultiTermDCLine>, lines: Seq<Seq<u8>>) -> bool {
    let t = table_of(lines);
    &&& r.len() == t.len() / 3
    &&& forall|i: int|
        0 <= i < r.len() ==> mtdc_matches(#[trigger] r[i], t[3 * i], t[3 * i + 1], t[3 * i + 2])
}

/// Decodes one multi-terminal DC record from its three token rows.
pub fn mtdc_from_tokens(p1: &Vec<Vec<char>>, p2: &Vec<Vec<char>>, p3: &Vec<Vec<char>>) -> (m:
    MultiTermDCLine)
    ensures
        mtdc_matches(m, p1.deep_view(), p2.deep_view(), p3.deep_view()),
{
    MultiTermDCLine {
        name: read_text(p1, 0, ""),
        num_converters: read_i32(p1, 1, 0),
        num_dc_buses: read_i32(p1, 2, 0),
        num_dc_links: read_i32(p1, 3, 0),
        control_mode: read_i8(p1, 4, 0),
        positive_ac_conv_bus_id: read_i32(p1, 5, 0),
        mode_switch_dc_volt: read_real(p1, 6, "0.0"),
        negative_ac_conv_bus_id: read_i32(p1, 7, 0),
        ac_conv_bus_1_id: read_i32(p2, 0, 0),
        series_bridges: read_i32(p2, 1, 0),
        max_alpha_gamma: read_real(p2, 2, "0.0"),
        min_alpha_gamma: read_real(p2, 3, "0.0"),
        bridge_r: read_real(p2, 4, "0.0"),
        bridge_x: read_real(p2, 5, "0.0"),
        base_ac_volt: read_real(p2, 6, "0.0"),
        xfmr_ratio: read_real(p2, 7, "1.0"),
        xfmr_tap: read_real(p2, 8, "1.0"),
        xfmr_max_tap: read_real(p2, 9, "1.5"),
        xfmr_min_tap: read_real(p2, 10, "0.00625"),
        conv_setpoint: read_real(p2, 11, "0.0"),
        conv_participation_factor: read_real(p2, 12, "1.0"),
        rec_margin: read_real(p2, 13, "0.0"),
        conv_code: read_i8(p2, 14, 1),
        dc_bus_num: read_i32(p3, 0, 1),
        ac_conv_bus_2_id: read_i32(p3, 1, 0),
        area: read_i16(p3, 2, 1),
        zone: read_i16(p3, 3, 1),
        dc_bus_name: read_text(p3, 4, ""),
        dc_bus_num_2: read_i32(p3, 5, 1),
        resist_to_ground: read_real(p3, 6, "0.0"),
        owner: read_i16(p3, 7, 1),
    }
}

/// Decodes the multi-terminal DC section.
#[verifier::rlimit(60)]
pub fn parse_multiterminal_dc_line(lines: &[&[u8]]) -> (r: Vec<MultiTermDCLine>)
    ensures
        mtdc_section_ok(r@, line_views(lines@)),
{
    let t = tokenize_lines(lines);
    let n = t.len();
    let mut r: Vec<MultiTermDCLine> = Vec::new();
    let mut i: usize = 0;
    let mut g: usize = 0;
    while n - i >= 3
        invariant
            0 <= i <= n == t@.len(),
            i == 3 * g,
            t.deep_view() == table_of(line_views(lines@)),
            r@.len() == g,
            forall|k: int|
                0 <= k < g ==> mtdc_matches(
                    #[trigger] r@[k],
                    t.deep_view()[3 * k],
                    t.deep_view()[3 * k + 1],
                    t.deep_view()[3 * k + 2],
                ),
        decreases n - i,
    {
        proof {
            assert(t.deep_view()[i as int] == t@[i as int].deep_view());
            assert(t.deep_view()[i + 1] == t@[i + 1].deep_view());
            assert(t.deep_view()[i + 2] == t@[i + 2].deep_view());
        }
        let m = mtdc_from_tokens(&t[i], &t[i + 1], &t[i + 2]);
        r.push(m);
        proof {
            assert(3 * (g as int) == i as int);
            assert(r@[g as int] == m);
        }
        i += 3;
        g += 1;
    }
    proof {
        assert(n as int == 3 * (g as int) + (n - i));
        assert(g as int == n as int / 3);
    }
    r
}

} // verus!
