//! Network buses: one logical record per physical line.

use vstd::prelude::*;
use crate::fields::{int8_at, int16_at, int32_at, read_i8, read_i16, read_i32, read_real, read_text,
    real_at, text_at};
use crate::lines::{line_views, table_of, tokenize_lines};

verus! {

/// One network bus of the case.  Floating-point quantities are kept as
/// their validated token text.
#[derive(Debug, Clone, Default, PartialEq)]
pub struct Bus {
    /// Bus number.
    pub id: i32,
    /// Bus name.
    pub name: String,
    /// Bus base voltage, kV.
    pub base_kv: String,
    /// Bus type code.
    pub type_code: i8,
    /// Area number.
    pub area: i16,
    /// Zone number.
    pub zone: i16,
    /// Owner number.
    pub owner: i16,
    /// Voltage magnitude, p.u.
    pub vm_pu: String,
    /// Voltage phase angle, degrees.
    pub va_deg: String,
    /// Normal voltage high limit, p.u.
    pub nvhi: String,
    /// Normal voltage low limit, p.u.
    pub nvlo: String,
    /// Emergency voltage high limit, p.u.
    pub evhi: String,
    /// Emergency voltage low limit, p.u.
    pub evlo: String,
}

/// The column schema of a bus record: field, offset, and default.  Bus
/// records have the same layout under both revisions.
pub open spec fn bus_matches(b: Bus, p: Seq<Seq<char>>) -> bool {
    &&& b.id == int32_at(p, 0, 0)
    &&& b.name@ == text_at(p, 1, ""@)
    &&& b.base_kv@ == real_at(p, 2, "999.99"@)
    &&& b.type_code == int8_at(p, 3, 1)
    &&& b.area == int16_at(p, 4, 0)
    &&& b.zone == int16_at(p, 5, 0)
    &&& b.owner == int16_at(p, 6, 0)
    &&& b.vm_pu@ == real_at(p, 7, "0.95"@)
    &&& b.va_deg@ == real_at(p, 8, "0.0"@)
    &&& b.nvhi@ == real_at(p, 9, "1.1"@)
    &&& b.nvlo@ == real_at(p, 10, "0.9"@)
    &&& b.evhi@ == real_at(p, 11, "1.1"@)
    &&& b.evlo@ == real_at(p, 12, "0.9"@)
}

/// A decoded bus section: one record per decodable line, in file order.
pub open spec fn bus_section_ok(r: Seq<Bus>, lines: Seq<Seq<u8>>) -> bool {
    let t = table_of(lines);
    &&& r.len() == t.len()
    &&& forall|i: int| 0 <= i < t.len() ==> bus_matches(#[trigger] r[i], t[i])
}

/// Decodes one bus record from a token row.
pub fn bus_from_tokens(p: &Vec<Vec<char>>) -> (b: Bus)
    ensures
        bus_matches(b, p.deep_view()),
{
    Bus {
        id: read_i32(p, 0, 0),
        name: read_text(p, 1, ""),
        base_kv: read_real(p, 2, "999.99"),
        type_code: read_i8(p, 3, 1),
        area: read_i16(p, 4, 0),
        zone: read_i16(p, 5, 0),
        owner: read_i16(p, 6, 0),
        vm_pu: read_real(p, 7, "0.95"),
        va_deg: read_real(p, 8, "0.0"),
        nvhi: read_real(p, 9, "1.1"),
        nvlo: read_real(p, 10, "0.9"),
        evhi: read_real(p, 11, "1.1"),
        evlo: read_real(p, 12, "0.9"),
    }
}

/// Decodes the bus section: one record per UTF-8-decodable line.
pub fn parse_buses(lines: &[&[u8]]) -> (r: Vec<Bus>)
    ensures
        bus_section_ok(r@, line_views(lines@)),
{
    let t = tokenize_lines(lines);
    let n = t.len();
    let mut r: Vec<Bus> = Vec::new();
    let mut i: usize = 0;
    while i < n
        invariant
            0 <= i <= n == t@.len(),
            t.deep_view() == table_of(line_views(lines@)),
            r@.len() == i,
            forall|k: int| 0 <= k < i ==> bus_matches(#[trigger] r@[k], t.deep_view()[k]),
        decreases n - i,
    {
        proof {
            assert(t.deep_view()[i as int] == t@[i as int].deep_view());
        }
        let b = bus_from_tokens(&t[i]);
        r.push(b);
        i += 1;
    }
    r
}

} // verus!
