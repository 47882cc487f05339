//! Inter-area transfers: one logical record per physical line.

use vstd::prelude::*;
use crate::fields::{int32_at, read_i32, read_real, read_text, real_at, text_at};
use crate::lines::{line_views, table_of, tokenize_lines};

verus! {

/// One inter-area transfer record of the case.
#[derive(Debug, Clone, Default, PartialEq)]
pub struct InterAreaTransfer {
    /// Area the transfer leaves from.
    pub from_area: i32,
    /// Area the transfer goes to.
    pub to_area: i32,
    /// Transfer identifier.
    pub transfer_id: String,
    /// Transferred power, MW.
    pub power_transfer: String,
}

/// The column schema of an inter-area transfer record.
pub open spec fn transfer_matches(x: InterAreaTransfer, p: Seq<Seq<char>>) -> bool {
    &&& x.from_area == int32_at(p, 0, 0)
    &&& x.to_area == int32_at(p, 1, 0)
    &&& x.transfer_id@ == text_at(p, 2, ""@)
    &&& x.power_transfer@ == real_at(p, 3, "0.0"@)
}

/// A decoded transfer section: one record per decodable line, in file
/// order.
pub open spec fn transfer_section_ok(r: Seq<InterAreaTransfer>, lines: Seq<Seq<u8>>) -> bool {
    let t = table_of(lines);
    &&& r.len() == t.len()
    &&& forall|i: int| 0 <= i < t.len() ==> transfer_matches(#[trigger] r[i], t[i])
}

/// Decodes one inter-area transfer record from a token row.
pub fn transfer_from_tokens(p: &Vec<Vec<char>>) -> (x: InterAreaTransfer)
    ensures
        transfer_matches(x, p.deep_view()),
{
    InterAreaTransfer {
        from_area: read_i32(p, 0, 0),
        to_area: read_i32(p, 1, 0),
        transfer_id: read_text(p, 2, ""),
        power_transfer: read_real(p, 3, "0.0"),
    }
}

/// Decodes the inter-area transfer section.
pub fn parse_area_transfers(lines: &[&[u8]]) -> (r: Vec<InterAreaTransfer>)
    ensures
        transfer_section_ok(r@, line_views(lines@)),
{
    let t = tokenize_lines(lines);
    let n = t.len();
    let mut r: Vec<InterAreaTransfer> = Vec::new();
    let mut i: usize = 0;
    while i < n
        invariant
            0 <= i <= n == t@.len(),
            t.deep_view() == table_of(line_views(lines@)),
            r@.len() == i,
            forall|k: int| 0 <= k < i ==> transfer_matches(#[trigger] r@[k], t.deep_view()[k]),
        decreases n - i,
    {
        proof {
            assert(t.deep_view()[i as int] == t@[i as int].deep_view());
        }
        let x = transfer_from_tokens(&t[i]);
        r.push(x);
        i += 1;
    }
    r
}

} // verus!
