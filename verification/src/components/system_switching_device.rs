//! System switching devices: one logical record per physical line.  The
//! kind exists only under Modern revisions; Legacy cases have none.

use vstd::prelude::*;
use crate::fields::{int8_at, int32_at, read_i8, read_i32, read_real, read_text, real_at, text_at};
use crate::lines::{line_views, table_of, tokenize_lines};

verus! {

/// One system switching device of the case.
#[derive(Debug, Clone, Default, PartialEq)]
pub struct SystemSwitchingDevice {
    /// Bus the device leaves from.
    pub from_bus: i32,
    /// Bus the device goes to.
    pub to_bus: i32,
    /// Circuit identifier.
    pub circuit: String,
    /// Reactance, p.u.
    pub x: String,
    /// Rating 1, MVA.
    pub rate1: String,
    /// Rating 2, MVA.
    pub rate2: String,
    /// Rating 3, MVA.
    pub rate3: String,
    /// Rating 4, MVA.
    pub rate4: String,
    /// Rating 5, MVA.
    pub rate5: String,
    /// Rating 6, MVA.
    pub rate6: String,
    /// Rating 7, MVA.
    pub rate7: String,
    /// Rating 8, MVA.
    pub rate8: String,
    /// Rating 9, MVA.
    pub rate9: String,
    /// Rating 10, MVA.
    pub rate10: String,
    /// Rating 11, MVA.
    pub rate11: String,
    /// Rating 12, MVA.
    pub rate12: String,
    /// Device status.
    pub status: i8,
    /// Normal service status.
    pub normal_status: i8,
    /// Metered-end flag.
    pub meter_end: i8,
    /// Device type.
    pub device_type: i8,
    /// Device name.
    pub name: String,
}

/// The column schema of a switching-device record.
pub open spec fn switching_device_matches(d: SystemSwitchingDevice, p: Seq<Seq<char>>) -> bool {
    &&& d.from_bus == int32_at(p, 0, 0)
    &&& d.to_bus == int32_at(p, 1, 0)
    &&& d.circuit@ == text_at(p, 2, "1"@)
    &&& d.x@ == real_at(p, 3, "0.0001"@)
    &&& d.rate1@ == real_at(p, 6, "0.0"@)
    &&& d.rate2@ == real_at(p, 7, "0.0"@)
    &&& d.rate3@ == real_at(p, 8, "0.0"@)
    &&& d.rate4@ == real_at(p, 9, "0.0"@)
    &&& d.rate5@ == real_at(p, 10, "0.0"@)
    &&& d.rate6@ == real_at(p, 11, "0.0"@)
    &&& d.rate7@ == real_at(p, 12, "0.0"@)
    &&& d.rate8@ == real_at(p, 13, "0.0"@)
    &&& d.rate9@ == real_at(p, 14, "0.0"@)
    &&& d.rate10@ == real_at(p, 15, "0.0"@)
    &&& d.rate11@ == real_at(p, 16, "0.0"@)
    &&& d.rate12@ == real_at(p, 17, "0.0"@)
    &&& d.status == int8_at(p, 18, 1)
    &&& d.normal_status == int8_at(p, 19, 1)
    &&& d.meter_end == int8_at(p, 20, 1)
    &&& d.device_type == int8_at(p, 21, 1)
    &&& d.name@ == text_at(p, 22, ""@)
}

/// A decoded switching-device section: one record per decodable line,
/// in file order.
pub open spec fn switching_device_section_ok(
    r: Seq<SystemSwitchingDevice>,
    lines: Seq<Seq<u8>>,
) -> bool {
    let t = table_of(lines);
    &&& r.len() == t.len()
    &&& forall|i: int| 0 <= i < t.len() ==> switching_device_matches(#[trigger] r[i], t[i])
}

/// Decodes one switching-device record from a token row.
pub fn switching_device_from_tokens(p: &Vec<Vec<char>>) -> (d: SystemSwitchingDevice)
    ensures
        switching_device_matches(d, p.deep_view()),
{
    SystemSwitchingDevice {
        from_bus: read_i32(p, 0, 0),
        to_bus: read_i32(p, 1, 0),
        circuit: read_text(p, 2, "1"),
        x: read_real(p, 3, "0.0001"),
        rate1: read_real(p, 6, "0.0"),
        rate2: read_real(p, 7, "0.0"),
        rate3: read_real(p, 8, "0.0"),
        rate4: read_real(p, 9, "0.0"),
        rate5: read_real(p, 10, "0.0"),
        rate6: read_real(p, 11, "0.0"),
        rate7: read_real(p, 12, "0.0"),
        rate8: read_real(p, 13, "0.0"),
        rate9: read_real(p, 14, "0.0"),
        rate10: read_real(p, 15, "0.0"),
        rate11: read_real(p, 16, "0.0"),
        rate12: read_real(p, 17, "0.0"),
        status: read_i8(p, 18, 1),
        normal_status: read_i8(p, 19, 1),
        meter_end: read_i8(p, 20, 1),
        device_type: read_i8(p, 21, 1),
        name: read_text(p, 22, ""),
    }
}

/// Decodes the switching-device section.
pub fn parse_system_switching_device(lines: &[&[u8]]) -> (r: Vec<SystemSwitchingDevice>)
    ensures
        switching_device_section_ok(r@, line_views(lines@)),
{
    let t = tokenize_lines(lines);
    let n = t.len();
    let mut r: Vec<SystemSwitchingDevice> = Vec::new();
    let mut i: usize = 0;
    while i < n
        invariant
            0 <= i <= n == t@.len(),
            t.deep_view() == table_of(line_views(lines@)),
            r@.len() == i,
            forall|k: int|
                0 <= k < i ==> switching_device_matches(#[trigger] r@[k], t.deep_view()[k]),
        decreases n - i,
    {
        proof {
            assert(t.deep_view()[i as int] == t@[i as int].deep_view());
        }
        let d = switching_device_from_tokens(&t[i]);
        r.push(d);
        i += 1;
    }
    r
}

} // verus!
