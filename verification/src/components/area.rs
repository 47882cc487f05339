//! Area interchanges: one logical record per physical line.

use vstd::prelude::*;
use crate::fields::{int32_at, read_i32, read_real, read_text, real_at, text_at};
use crate::lines::{line_views, table_of, tokenize_lines};

verus! {

/// One area interchange record of the case.
#[derive(Debug, Clone, Default, PartialEq)]
pub struct Area {
    /// Area number.
    pub area_id: i32,
    /// Bus number of the area's slack bus.
    pub swing_bus_id: i32,
    /// Desired net export, MW.
    pub desired_interchange: String,
    /// Interchange tolerance bandwidth, MW.
    pub mw_tolerance: String,
    /// Area name.
    pub name: String,
}

/// The column schema of an area record.
pub open spec fn area_matches(a: Area, p: Seq<Seq<char>>) -> bool {
    &&& a.area_id == int32_at(p, 0, 0)
    &&& a.swing_bus_id == int32_at(p, 1, 0)
    &&& a.desired_interchange@ == real_at(p, 2, "0.0"@)
    &&& a.mw_tolerance@ == real_at(p, 3, "0.0"@)
    &&& a.name@ == text_at(p, 4, ""@)
}

/// A decoded area section: one record per decodable line, in file order.
pub open spec fn area_section_ok(r: Seq<Area>, lines: Seq<Seq<u8>>) -> bool {
    let t = table_of(lines);
    &&& r.len() == t.len()
    &&& forall|i: int| 0 <= i < t.len() ==> area_matches(#[trigger] r[i], t[i])
}

/// Decodes one area record from a token row.
pub fn area_from_tokens(p: &Vec<Vec<char>>) -> (a: Area)
    ensures
        area_matches(a, p.deep_view()),
{
    Area {
        area_id: read_i32(p, 0, 0),
        swing_bus_id: read_i32(p, 1, 0),
        desired_interchange: read_real(p, 2, "0.0"),
        mw_tolerance: read_real(p, 3, "0.0"),
        name: read_text(p, 4, ""),
    }
}

/// Decodes the area section: one record per UTF-8-decodable line.
pub fn parse_areas(lines: &[&[u8]]) -> (r: Vec<Area>)
    ensures
        area_section_ok(r@, line_views(lines@)),
{
    let t = tokenize_lines(lines);
    let n = t.len();
    let mut r: Vec<Area> = Vec::new();
    let mut i: usize = 0;
    while i < n
        invariant
            0 <= i <= n == t@.len(),
            t.deep_view() == table_of(line_views(lines@)),
            r@.len() == i,
            forall|k: int| 0 <= k < i ==> area_matches(#[trigger] r@[k], t.deep_view()[k]),
        decreases n - i,
    {
        proof {
            assert(t.deep_view()[i as int] == t@[i as int].deep_view());
        }
        let a = area_from_tokens(&t[i]);
        r.push(a);
        i += 1;
    }
    r
}

} // verus!
