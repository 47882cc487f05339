//! Switched shunts: one logical record per physical line, carrying up
//! to eight blocks of steps and admittance increments.  The Modern
//! layout inserts the identifier and node columns and a per-block
//! status column.

use vstd::prelude::*;
use crate::CaseRevision;
use crate::fields::{int8_at, int32_at, read_i8, read_i32, read_real, read_text, real_at, sel,
    spec_off, text_at};
use crate::lines::{line_views, table_of, tokenize_lines};
use crate::{classify_revision, spec_revision};

verus! {

/// One switched shunt of the case.
#[derive(Debug, Clone, Default, PartialEq)]
pub struct SwitchedShunt {
    /// Bus the shunt is connected to.
    pub bus_id: i32,
    /// Shunt identifier.
    pub id: String,
    /// Control mode.
    pub control_mode: i8,
    /// Adjustment method.
    pub adjust_method: i8,
    /// Shunt status.
    pub status: i8,
    /// Maximum controlled voltage or reactive power upper limit.
    pub upper_limit: String,
    /// Minimum controlled voltage or reactive power lower limit.
    pub x_lower_limit: String,
    /// Bus controlled by the shunt.
    pub controlled_bus_id: i32,
    /// Node controlled by the shunt.
    pub controlled_bus_node: i32,
    /// Percent of Mvar required to hold the controlled voltage.
    pub mvar_contribution_perc: String,
    /// Name of the controlled element.
    pub controlled_bus_name: String,
    /// Initial shunt admittance, Mvar at unity voltage.
    pub b_init: String,
    /// Per-block status, eight slots; all in service under Legacy.
    pub block_status: Vec<i8>,
    /// Per-block step counts, eight slots.
    pub steps: Vec<i32>,
    /// Per-block admittance increments, eight slots.
    pub b_increment: Vec<String>,
}

/// The column of block `k`'s status under Modern layouts.
pub open spec fn block_status_off(k: int) -> int {
    12 + 3 * k
}

/// The column of block `k`'s step count under the given revision.
pub open spec fn steps_off(rev: CaseRevision, k: int) -> int {
    spec_off(rev, 10 + 2 * k, 13 + 3 * k)
}

/// The column schema of a switched-shunt record under the given
/// revision.
pub open spec fn switched_shunt_matches(s: SwitchedShunt, p: Seq<Seq<char>>, rev: CaseRevision) -> bool {
    let a = spec_off(rev, 0, 1);
    &&& s.bus_id == int32_at(p, 0, 0)
    &&& s.id@ == text_at(p, 1, "1"@)
    &&& s.control_mode == int8_at(p, 1 + a, 1)
    &&& s.adjust_method == int8_at(p, 2 + a, 0)
    &&& s.status == int8_at(p, 3 + a, 1)
    &&& s.upper_limit@ == real_at(p, 4 + a, "1.0"@)
    &&& s.x_lower_limit@ == real_at(p, 5 + a, "1.0"@)
    &&& s.controlled_bus_id == int32_at(p, 6 + a, 0)
    &&& s.controlled_bus_node == int32_at(p, 7 + a, 0)
    &&& s.mvar_contribution_perc@ == real_at(p, 7 + 2 * a, "100.0"@)
    &&& s.controlled_bus_name@ == text_at(p, 8 + 2 * a, ""@)
    &&& s.b_init@ == real_at(p, 9 + 2 * a, "0.0"@)
    &&& s.block_status@.len() == 8
    &&& forall|k: int|
        0 <= k < 8 ==> #[trigger] s.block_status@[k] as int == (if rev is Modern {
            int8_at(p, block_status_off(k), 1)
        } else {
            1int
        })
    &&& s.steps@.len() == 8
    &&& forall|k: int| 0 <= k < 8 ==> #[trigger] s.steps@[k] as int == int32_at(p, steps_off(rev, k), 0)
    &&& s.b_increment@.len() == 8
    &&& forall|k: int|
        0 <= k < 8 ==> (#[trigger] s.b_increment@[k])@ == real_at(p, steps_off(rev, k) + 1, "0.0"@)
}

/// A decoded switched-shunt section: one record per decodable line, in
/// file order.
pub open spec fn switched_shunt_section_ok(
    r: Seq<SwitchedShunt>,
    lines: Seq<Seq<u8>>,
    rev: CaseRevision,
) -> bool {
    let t = table_of(lines);
    &&& r.len() == t.len()
    &&& forall|i: int| 0 <= i < t.len() ==> switched_shunt_matches(#[trigger] r[i], t[i], rev)
}

/// Decodes one switched-shunt record from a token row.
pub fn switched_shunt_from_tokens(p: &Vec<Vec<char>>, rev: CaseRevision) -> (s: SwitchedShunt)
    ensures
        switched_shunt_matches(s, p.deep_view(), rev),
{
    let a = sel(rev, 0, 1);
    let modern = matches!(rev, CaseRevision::Modern);
    let mut block_status: Vec<i8> = Vec::new();
    let mut steps: Vec<i32> = Vec::new();
    let mut b_increment: Vec<String> = Vec::new();
    let mut k: usize = 0;
    while k < 8
        invariant
            0 <= k <= 8,
            modern == rev is Modern,
            block_status@.len() == k,
            steps@.len() == k,
            b_increment@.len() == k,
            forall|j: int|
                0 <= j < k ==> #[trigger] block_status@[j] as int == (if rev is Modern {
                    int8_at(p.deep_view(), block_status_off(j), 1)
                } else {
                    1int
                }),
            forall|j: int|
                0 <= j < k ==> #[trigger] steps@[j] as int == int32_at(
                    p.deep_view(),
                    steps_off(rev, j),
                    0,
                ),
            forall|j: int|
                0 <= j < k ==> (#[trigger] b_increment@[j])@ == real_at(
                    p.deep_view(),
                    steps_off(rev, j) + 1,
                    "0.0"@,
                ),
        decreases 8 - k,
    {
        let bs = if modern {
            read_i8(p, 12 + 3 * k, 1)
        } else {
            1
        };
        let so = if modern {
            13 + 3 * k
        } else {
            10 + 2 * k
        };
        block_status.push(bs);
        steps.push(read_i32(p, so, 0));
        b_increment.push(read_real(p, so + 1, "0.0"));
        k += 1;
    }
    SwitchedShunt {
        bus_id: read_i32(p, 0, 0),
        id: read_text(p, 1, "1"),
        control_mode: read_i8(p, 1 + a, 1),
        adjust_method: read_i8(p, 2 + a, 0),
        status: read_i8(p, 3 + a, 1),
        upper_limit: read_real(p, 4 + a, "1.0"),
        x_lower_limit: read_real(p, 5 + a, "1.0"),
        controlled_bus_id: read_i32(p, 6 + a, 0),
        controlled_bus_node: read_i32(p, 7 + a, 0),
        mvar_contribution_perc: read_real(p, 7 + 2 * a, "100.0"),
        controlled_bus_name: read_text(p, 8 + 2 * a, ""),
        b_init: read_real(p, 9 + 2 * a, "0.0"),
        block_status,
        steps,
        b_increment,
    }
}

/// Decodes the switched-shunt section under the given revision number.
pub fn parse_switched_shunts(lines: &[&[u8]], psse_version: i8) -> (r: Vec<SwitchedShunt>)
    ensures
        switched_shunt_section_ok(r@, line_views(lines@), spec_revision(psse_version as int)),
{
    let rev = classify_revision(psse_version);
    let t = tokenize_lines(lines);
    let n = t.len();
    let mut r: Vec<SwitchedShunt> = Vec::new();
    let mut i: usize = 0;
    while i < n
        invariant
            0 <= i <= n == t@.len(),
            rev == spec_revision(psse_version as int),
            t.deep_view() == table_of(line_views(lines@)),
            r@.len() == i,
            forall|k: int|
                0 <= k < i ==> switched_shunt_matches(#[trigger] r@[k], t.deep_view()[k], rev),
        decreases n - i,
    {
        proof {
            assert(t.deep_view()[i as int] == t@[i as int].deep_view());
        }
        let s = switched_shunt_from_tokens(&t[i], rev);
        r.push(s);
        i += 1;
    }
    r
}

} // verus!
