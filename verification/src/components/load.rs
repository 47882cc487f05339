//! Loads: one logical record per physical line.

use vstd::prelude::*;
use crate::fields::{int8_at, int16_at, int32_at, read_i8, read_i16, read_i32, read_real, read_text,
    real_at, text_at};
use crate::lines::{line_views, table_of, tokenize_lines};

verus! {

/// One load of the case.
#[derive(Debug, Clone, Default, PartialEq)]
pub struct Load {
    /// Bus the load is connected to.
    pub bus_id: i32,
    /// Load identifier.
    pub id: String,
    /// Load status.
    pub status: i8,
    /// Area number.
    pub area: i16,
    /// Zone number.
    pub zone: i16,
    /// Constant-power active load, MW.
    pub pl_mw: String,
    /// Constant-power reactive load, Mvar.
    pub ql_mvar: String,
    /// Constant-current active load, MW at unity voltage.
    pub ip_mw: String,
    /// Constant-current reactive load, Mvar at unity voltage.
    pub iq_mvar: String,
    /// Constant-admittance active load, MW at unity voltage.
    pub yp_mw: String,
    /// Constant-admittance reactive load, Mvar at unity voltage.
    pub yq_mvar: String,
    /// Owner number.
    pub owner: i16,
    /// Load scaling flag.
    pub scale: i8,
    /// Interruptible-load flag.
    pub interruptable: i8,
    /// Distributed-generation active power, MW.
    pub dgen_mw: String,
    /// Distributed-generation reactive power, Mvar.
    pub dgen_mvar: String,
    /// Distributed-generation mode.
    pub dgen_mode: i8,
    /// Load descriptor; read from the same column as the
    /// distributed-generation reactive power.
    pub load_type: String,
}

/// The column schema of a load record.
pub open spec fn load_matches(l: Load, p: Seq<Seq<char>>) -> bool {
    &&& l.bus_id == int32_at(p, 0, 0)
    &&& l.id@ == text_at(p, 1, "1"@)
    &&& l.status == int8_at(p, 2, 1)
    &&& l.area == int16_at(p, 3, 0)
    &&& l.zone == int16_at(p, 4, 0)
    &&& l.pl_mw@ == real_at(p, 5, "99.99"@)
    &&& l.ql_mvar@ == real_at(p, 6, "99.99"@)
    &&& l.ip_mw@ == real_at(p, 7, "0.0"@)
    &&& l.iq_mvar@ == real_at(p, 8, "0.0"@)
    &&& l.yp_mw@ == real_at(p, 9, "0.0"@)
    &&& l.yq_mvar@ == real_at(p, 10, "0.0"@)
    &&& l.owner == int16_at(p, 11, 1)
    &&& l.scale == int8_at(p, 12, 1)
    &&& l.interruptable == int8_at(p, 13, 0)
    &&& l.dgen_mw@ == real_at(p, 14, "0.0"@)
    &&& l.dgen_mvar@ == real_at(p, 15, "0.0"@)
    &&& l.dgen_mode == int8_at(p, 16, 0)
    &&& l.load_type@ == text_at(p, 15, ""@)
}

/// A decoded load section: one record per decodable line, in file order.
pub open spec fn load_section_ok(r: Seq<Load>, lines: Seq<Seq<u8>>) -> bool {
    let t = table_of(lines);
    &&& r.len() == t.len()
    &&& forall|i: int| 0 <= i < t.len() ==> load_matches(#[trigger] r[i], t[i])
}

/// Decodes one load record from a token row.
pub fn load_from_tokens(p: &Vec<Vec<char>>) -> (l: Load)
    ensures
        load_matches(l, p.deep_view()),
{
    Load {
        bus_id: read_i32(p, 0, 0),
        id: read_text(p, 1, "1"),
        status: read_i8(p, 2, 1),
        area: read_i16(p, 3, 0),
        zone: read_i16(p, 4, 0),
        pl_mw: read_real(p, 5, "99.99"),
        ql_mvar: read_real(p, 6, "99.99"),
        ip_mw: read_real(p, 7, "0.0"),
        iq_mvar: read_real(p, 8, "0.0"),
        yp_mw: read_real(p, 9, "0.0"),
        yq_mvar: read_real(p, 10, "0.0"),
        owner: read_i16(p, 11, 1),
        scale: read_i8(p, 12, 1),
        interruptable: read_i8(p, 13, 0),
        dgen_mw: read_real(p, 14, "0.0"),
        dgen_mvar: read_real(p, 15, "0.0"),
        dgen_mode: read_i8(p, 16, 0),
        load_type: read_text(p, 15, ""),
    }
}

/// Decodes the load section.
pub fn parse_loads(lines: &[&[u8]]) -> (r: Vec<Load>)
    ensures
        load_section_ok(r@, line_views(lines@)),
{
    let t = tokenize_lines(lines);
    let n = t.len();
    let mut r: Vec<Load> = Vec::new();
    let mut i: usize = 0;
    while i < n
        invariant
            0 <= i <= n == t@.len(),
            t.deep_view() == table_of(line_views(lines@)),
            r@.len() == i,
            forall|k: int| 0 <= k < i ==> load_matches(#[trigger] r@[k], t.deep_view()[k]),
        decreases n - i,
    {
        proof {
            assert(t.deep_view()[i as int] == t@[i as int].deep_view());
        }
        let l = load_from_tokens(&t[i]);
        r.push(l);
        i += 1;
    }
    r
}

} // verus!
