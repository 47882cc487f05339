//! Multi-section line groupings: one logical record per physical line,
//! with up to nine dummy-bus columns.

use vstd::prelude::*;
use crate::fields::{int8_at, int32_at, read_i8, read_i32, read_text, text_at};
use crate::lines::{line_views, table_of, tokenize_lines};

verus! {

/// One multi-section line grouping of the case.
#[derive(Debug, Clone, Default, PartialEq)]
pub struct MultiSectionLine {
    /// Bus the grouping leaves from.
    pub from_bus: i32,
    /// Bus the grouping goes to.
    pub to_bus: i32,
    /// Circuit identifier.
    pub circuit: String,
    /// Metered-end flag.
    pub meter_end: i8,
    /// The nine dummy-bus columns; absent columns keep zero.
    pub dummy_bus_ids: Vec<i32>,
}

/// The column schema of a multi-section line record.
pub open spec fn multisection_matches(m: MultiSectionLine, p: Seq<Seq<char>>) -> bool {
    &&& m.from_bus == int32_at(p, 0, 0)
    &&& m.to_bus == int32_at(p, 1, 0)
    &&& m.circuit@ == text_at(p, 2, "1"@)
    &&& m.meter_end == int8_at(p, 3, 1)
    &&& m.dummy_bus_ids@.len() == 9
    &&& forall|j: int| 0 <= j < 9 ==> #[trigger] m.dummy_bus_ids@[j] == int32_at(p, 4 + j, 0)
}

/// A decoded multi-section line section: one record per decodable line,
/// in file order.
pub open spec fn multisection_section_ok(r: Seq<MultiSectionLine>, lines: Seq<Seq<u8>>) -> bool {
    let t = table_of(lines);
    &&& r.len() == t.len()
    &&& forall|i: int| 0 <= i < t.len() ==> multisection_matches(#[trigger] r[i], t[i])
}

/// Decodes one multi-section line record from a token row.
pub fn multisection_from_tokens(p: &Vec<Vec<char>>) -> (m: MultiSectionLine)
    ensures
        multisection_matches(m, p.deep_view()),
{
    let mut dummies: Vec<i32> = Vec::new();
    let mut j: usize = 0;
    while j < 9
        invariant
            0 <= j <= 9,
            dummies@.len() == j,
            forall|k: int|
                0 <= k < j ==> #[trigger] dummies@[k] == int32_at(p.deep_view(), 4 + k, 0),
        decreases 9 - j,
    {
        let d = read_i32(p, 4 + j, 0);
        dummies.push(d);
        j += 1;
    }
    MultiSectionLine {
        from_bus: read_i32(p, 0, 0),
        to_bus: read_i32(p, 1, 0),
        circuit: read_text(p, 2, "1"),
        meter_end: read_i8(p, 3, 1),
        dummy_bus_ids: dummies,
    }
}

/// Decodes the multi-section line section.
pub fn parse_multisection_lines(lines: &[&[u8]]) -> (r: Vec<MultiSectionLine>)
    ensures
        multisection_section_ok(r@, line_views(lines@)),
{
    let t = tokenize_lines(lines);
    let n = t.len();
    let mut r: Vec<MultiSectionLine> = Vec::new();
    let mut i: usize = 0;
    while i < n
        invariant
            0 <= i <= n == t@.len(),
            t.deep_view() == table_of(line_views(lines@)),
            r@.len() == i,
            forall|k: int| 0 <= k < i ==> multisection_matches(#[trigger] r@[k], t.deep_view()[k]),
        decreases n - i,
    {
        proof {
            assert(t.deep_view()[i as int] == t@[i as int].deep_view());
        }
        let m = multisection_from_tokens(&t[i]);
        r.push(m);
        i += 1;
    }
    r
}

} // verus!
