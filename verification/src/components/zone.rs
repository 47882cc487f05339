//! Zones: one logical record per physical line.

use vstd::prelude::*;
use crate::fields::{int32_at, read_i32, read_text, text_at};
use crate::lines::{line_views, table_of, tokenize_lines};

verus! {

/// One zone of the case.
#[derive(Debug, Clone, Default, PartialEq)]
pub struct Zone {
    /// Zone number.
    pub zone_id: i32,
    /// Zone name.
    pub zone_name: String,
}

/// The column schema of a zone record.
pub open spec fn zone_matches(z: Zone, p: Seq<Seq<char>>) -> bool {
    &&& z.zone_id == int32_at(p, 0, 0)
    &&& z.zone_name@ == text_at(p, 1, ""@)
}

/// A decoded zone section: one record per decodable line, in file order.
pub open spec fn zone_section_ok(r: Seq<Zone>, lines: Seq<Seq<u8>>) -> bool {
    let t = table_of(lines);
    &&& r.len() == t.len()
    &&& forall|i: int| 0 <= i < t.len() ==> zone_matches(#[trigger] r[i], t[i])
}

/// Decodes one zone record from a token row.
pub fn zone_from_tokens(p: &Vec<Vec<char>>) -> (z: Zone)
    ensures
        zone_matches(z, p.deep_view()),
{
    Zone { zone_id: read_i32(p, 0, 0), zone_name: read_text(p, 1, "") }
}

/// Decodes the zone section: one record per UTF-8-decodable line.
pub fn parse_zones(lines: &[&[u8]]) -> (r: Vec<Zone>)
    ensures
        zone_section_ok(r@, line_views(lines@)),
{
    let t = tokenize_lines(lines);
    let n = t.len();
    let mut r: Vec<Zone> = Vec::new();
    let mut i: usize = 0;
    while i < n
        invariant
            0 <= i <= n == t@.len(),
            t.deep_view() == table_of(line_views(lines@)),
            r@.len() == i,
            forall|k: int| 0 <= k < i ==> zone_matches(#[trigger] r@[k], t.deep_view()[k]),
        decreases n - i,
    {
        proof {
            assert(t.deep_view()[i as int] == t@[i as int].deep_view());
        }
        let z = zone_from_tokens(&t[i]);
        r.push(z);
        i += 1;
    }
    r
}

} // verus!
