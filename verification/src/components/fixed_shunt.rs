//! Fixed shunts: one logical record per physical line.

use vstd::prelude::*;
use crate::fields::{int8_at, int32_at, read_i8, read_i32, read_real, read_text, real_at, text_at};
use crate::lines::{line_views, table_of, tokenize_lines};

verus! {

/// One fixed shunt of the case.
#[derive(Debug, Clone, Default, PartialEq)]
pub struct FixedShunt {
    /// Bus the shunt is connected to.
    pub bus_id: i32,
    /// Shunt identifier.
    pub id: String,
    /// Shunt status.
    pub status: i8,
    /// Active component of the shunt admittance, MW at unity voltage.
    pub gl_mw: String,
    /// Reactive component of the shunt admittance, Mvar at unity voltage.
    pub bl_mvar: String,
}

/// The column schema of a fixed-shunt record.
pub open spec fn fixed_shunt_matches(s: FixedShunt, p: Seq<Seq<char>>) -> bool {
    &&& s.bus_id == int32_at(p, 0, 0)
    &&& s.id@ == text_at(p, 1, "1"@)
    &&& s.status == int8_at(p, 2, 1)
    &&& s.gl_mw@ == real_at(p, 3, "0.0"@)
    &&& s.bl_mvar@ == real_at(p, 4, "0.0"@)
}

/// A decoded fixed-shunt section: one record per decodable line, in
/// file order.
pub open spec fn fixed_shunt_section_ok(r: Seq<FixedShunt>, lines: Seq<Seq<u8>>) -> bool {
    let t = table_of(lines);
    &&& r.len() == t.len()
    &&& forall|i: int| 0 <= i < t.len() ==> fixed_shunt_matches(#[trigger] r[i], t[i])
}

/// Decodes one fixed-shunt record from a token row.
pub fn fixed_shunt_from_tokens(p: &Vec<Vec<char>>) -> (s: FixedShunt)
    ensures
        fixed_shunt_matches(s, p.deep_view()),
{
    FixedShunt {
        bus_id: read_i32(p, 0, 0),
        id: read_text(p, 1, "1"),
        status: read_i8(p, 2, 1),
        gl_mw: read_real(p, 3, "0.0"),
        bl_mvar: read_real(p, 4, "0.0"),
    }
}

/// Decodes the fixed-shunt section.
pub fn parse_fixedshunts(lines: &[&[u8]]) -> (r: Vec<FixedShunt>)
    ensures
        fixed_shunt_section_ok(r@, line_views(lines@)),
{
    let t = tokenize_lines(lines);
    let n = t.len();
    let mut r: Vec<FixedShunt> = Vec::new();
    let mut i: usize = 0;
    while i < n
        invariant
            0 <= i <= n == t@.len(),
            t.deep_view() == table_of(line_views(lines@)),
            r@.len() == i,
            forall|k: int| 0 <= k < i ==> fixed_shunt_matches(#[trigger] r@[k], t.deep_view()[k]),
        decreases n - i,
    {
        proof {
            assert(t.deep_view()[i as int] == t@[i as int].deep_view());
        }
        let s = fixed_shunt_from_tokens(&t[i]);
        r.push(s);
        i += 1;
    }
    r
}

} // verus!
