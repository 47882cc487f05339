//! FACTS devices: one logical record per physical line.  The Modern
//! layout inserts the regulated-bus node before the master device name.

use vstd::prelude::*;
use crate::CaseRevision;
use crate::fields::{int8_at, int16_at, int32_at, read_i8, read_i16, read_i32, read_real, read_text,
    real_at, sel, spec_off, text_at};
use crate::lines::{line_views, table_of, tokenize_lines};
use crate::{classify_revision, spec_revision};

verus! {

/// One FACTS device of the case.
#[derive(Debug, Clone, Default, PartialEq)]
pub struct Facts {
    /// Device name.
    pub deivce_name: String,
    /// Sending-end bus.
    pub from_bus: i32,
    /// Terminal-end bus.
    pub to_bus: i32,
    /// Control mode.
    pub control_mode: i8,
    /// Desired active power at the terminal end, MW.
    pub desired_active_power: String,
    /// Desired reactive power at the terminal end, Mvar.
    pub desired_reactive_power: String,
    /// Sending-end voltage setpoint, p.u.
    pub from_bus_volt_setpoint: String,
    /// Maximum shunt current, MVA at unity voltage.
    pub max_shunt_current: String,
    /// Maximum bridge active power, MW.
    pub max_bridge_active_power: String,
    /// Minimum terminal-end voltage, p.u.
    pub to_bus_min_voltage: String,
    /// Maximum terminal-end voltage, p.u.
    pub to_bus_max_voltage: String,
    /// Maximum series voltage, p.u.
    pub max_series_voltage: String,
    /// Maximum series current, MVA at unity voltage.
    pub max_series_current: String,
    /// Dummy series reactance, p.u.
    pub series_reactance: String,
    /// Percent of Mvar required to hold the sending-end voltage.
    pub shunt_mvar_share: String,
    /// Owner number.
    pub owner: i16,
    /// Voltage reference code.
    pub volt_ref_code: i8,
    /// Remote bus regulated by the shunt element.
    pub regulated_bus_id: i32,
    /// Remote node regulated by the shunt element; Modern only.
    pub regulated_bus_node: i32,
    /// Master device name of an IPFC pair.
    pub master_device_name: String,
}

/// The column schema of a FACTS record under the given revision.
pub open spec fn facts_matches(f: Facts, p: Seq<Seq<char>>, rev: CaseRevision) -> bool {
    let a = spec_off(rev, 0, 1);
    &&& f.deivce_name@ == text_at(p, 0, ""@)
    &&& f.from_bus == int32_at(p, 1, 0)
    &&& f.to_bus == int32_at(p, 2, 0)
    &&& f.control_mode == int8_at(p, 3, 1)
    &&& f.desired_active_power@ == real_at(p, 4, "0.0"@)
    &&& f.desired_reactive_power@ == real_at(p, 5, "0.0"@)
    &&& f.from_bus_volt_setpoint@ == real_at(p, 6, "1.0"@)
    &&& f.max_shunt_current@ == real_at(p, 7, "9999.0"@)
    &&& f.max_bridge_active_power@ == real_at(p, 8, "9999.0"@)
    &&& f.to_bus_min_voltage@ == real_at(p, 9, "0.9"@)
    &&& f.to_bus_max_voltage@ == real_at(p, 10, "1.1"@)
    &&& f.max_series_voltage@ == real_at(p, 11, "1.0"@)
    &&& f.max_series_current@ == real_at(p, 12, "0.0"@)
    &&& f.series_reactance@ == real_at(p, 13, "0.05"@)
    &&& f.shunt_mvar_share@ == real_at(p, 14, "100.0"@)
    &&& f.owner == int16_at(p, 15, 1)
    &&& f.volt_ref_code == int8_at(p, 16, 0)
    &&& f.regulated_bus_id == int32_at(p, 17, 0)
    &&& f.regulated_bus_node == (if rev is Modern {
        int32_at(p, 18, 0)
    } else {
        0int
    })
    &&& f.master_device_name@ == text_at(p, 18 + a, ""@)
}

/// A decoded FACTS section: one record per decodable line, in file
/// order.
pub open spec fn facts_section_ok(r: Seq<Facts>, lines: Seq<Seq<u8>>, rev: CaseRevision) -> bool {
    let t = table_of(lines);
    &&& r.len() == t.len()
    &&& forall|i: int| 0 <= i < t.len() ==> facts_matches(#[trigger] r[i], t[i], rev)
}

/// Decodes one FACTS record from a token row.
pub fn facts_from_tokens(p: &Vec<Vec<char>>, rev: CaseRevision) -> (f: Facts)
    ensures
        facts_matches(f, p.deep_view(), rev),
{
    let a = sel(rev, 0, 1);
    Facts {
        deivce_name: read_text(p, 0, ""),
        from_bus: read_i32(p, 1, 0),
        to_bus: read_i32(p, 2, 0),
        control_mode: read_i8(p, 3, 1),
        desired_active_power: read_real(p, 4, "0.0"),
        desired_reactive_power: read_real(p, 5, "0.0"),
        from_bus_volt_setpoint: read_real(p, 6, "1.0"),
        max_shunt_current: read_real(p, 7, "9999.0"),
        max_bridge_active_power: read_real(p, 8, "9999.0"),
        to_bus_min_voltage: read_real(p, 9, "0.9"),
        to_bus_max_voltage: read_real(p, 10, "1.1"),
        max_series_voltage: read_real(p, 11, "1.0"),
        max_series_current: read_real(p, 12, "0.0"),
        series_reactance: read_real(p, 13, "0.05"),
        shunt_mvar_share: read_real(p, 14, "100.0"),
        owner: read_i16(p, 15, 1),
        volt_ref_code: read_i8(p, 16, 0),
        regulated_bus_id: read_i32(p, 17, 0),
        regulated_bus_node: if let CaseRevision::Modern = rev {
            read_i32(p, 18, 0)
        } else {
            0
        },
        master_device_name: read_text(p, 18 + a, ""),
    }
}

/// Decodes the FACTS section under the given revision number.
pub fn parse_facts(lines: &[&[u8]], psse_version: i8) -> (r: Vec<Facts>)
    ensures
        facts_section_ok(r@, line_views(lines@), spec_revision(psse_version as int)),
{
    let rev = classify_revision(psse_version);
    let t = tokenize_lines(lines);
    let n = t.len();
    let mut r: Vec<Facts> = Vec::new();
    let mut i: usize = 0;
    while i < n
        invariant
            0 <= i <= n == t@.len(),
            rev == spec_revision(psse_version as int),
            t.deep_view() == table_of(line_views(lines@)),
            r@.len() == i,
            forall|k: int| 0 <= k < i ==> facts_matches(#[trigger] r@[k], t.deep_view()[k], rev),
        decreases n - i,
    {
        proof {
            assert(t.deep_view()[i as int] == t@[i as int].deep_view());
        }
        let f = facts_from_tokens(&t[i], rev);
        r.push(f);
        i += 1;
    }
    r
}

} // verus!
