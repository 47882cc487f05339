//! Owners: one logical record per physical line.

use vstd::prelude::*;
use crate::fields::{int32_at, read_i32, read_text, text_at};
use crate::lines::{line_views, table_of, tokenize_lines};

verus! {

/// One owner of the case.
#[derive(Debug, Clone, Default, PartialEq)]
pub struct Owner {
    /// Owner number.
    pub owner_id: i32,
    /// Owner name.
    pub owner_name: String,
}

/// The column schema of an owner record.
pub open spec fn owner_matches(o: Owner, p: Seq<Seq<char>>) -> bool {
    &&& o.owner_id == int32_at(p, 0, 0)
    &&& o.owner_name@ == text_at(p, 1, ""@)
}

/// A decoded owner section: one record per decodable line, in file order.
pub open spec fn owner_section_ok(r: Seq<Owner>, lines: Seq<Seq<u8>>) -> bool {
    let t = table_of(lines);
    &&& r.len() == t.len()
    &&& forall|i: int| 0 <= i < t.len() ==> owner_matches(#[trigger] r[i], t[i])
}

/// Decodes one owner record from a token row.
pub fn owner_from_tokens(p: &Vec<Vec<char>>) -> (o: Owner)
    ensures
        owner_matches(o, p.deep_view()),
{
    Owner { owner_id: read_i32(p, 0, 0), owner_name: read_text(p, 1, "") }
}

/// Decodes the owner section: one record per UTF-8-decodable line.
pub fn parse_owners(lines: &[&[u8]]) -> (r: Vec<Owner>)
    ensures
        owner_section_ok(r@, line_views(lines@)),
{
    let t = tokenize_lines(lines);
    let n = t.len();
    let mut r: Vec<Owner> = Vec::new();
    let mut i: usize = 0;
    while i < n
        invariant
            0 <= i <= n == t@.len(),
            t.deep_view() == table_of(line_views(lines@)),
            r@.len() == i,
            forall|k: int| 0 <= k < i ==> owner_matches(#[trigger] r@[k], t.deep_view()[k]),
        decreases n - i,
    {
        proof {
            assert(t.deep_view()[i as int] == t@[i as int].deep_view());
        }
        let o = owner_from_tokens(&t[i]);
        r.push(o);
        i += 1;
    }
    r
}

} // verus!
