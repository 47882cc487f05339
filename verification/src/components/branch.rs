//! Non-transformer branches: one logical record per physical line.  The
//! Modern layout inserts the branch name after the charging susceptance
//! and nine further ratings after the third one.

use vstd::prelude::*;
use crate::CaseRevision;
use crate::fields::{int8_at, int16_at, int32_at, read_i8, read_i16, read_i32, read_real, read_text,
    real_at, sel, spec_off, text_at};
use crate::lines::{line_views, table_of, tokenize_lines};
use crate::{classify_revision, spec_revision};

verus! {

/// One network branch of the case.
#[derive(Debug, Clone, Default, PartialEq)]
pub struct Branch {
    /// Bus the branch leaves from.
    pub from_bus: i32,
    /// Bus the branch goes to.
    pub to_bus: i32,
    /// Circuit identifier.
    pub circuit: String,
    /// Resistance, p.u.
    pub r: String,
    /// Reactance, p.u.
    pub x: String,
    /// Charging susceptance, p.u.
    pub b: String,
    /// Branch name; present under Modern layouts only.
    pub name: String,
    /// Rating 1, MVA.
    pub rate1: String,
    /// Rating 2, MVA.
    pub rate2: String,
    /// Rating 3, MVA.
    pub rate3: String,
    /// Rating 4, MVA; Modern only.
    pub rate4: String,
    /// Rating 5, MVA; Modern only.
    pub rate5: String,
    /// Rating 6, MVA; Modern only.
    pub rate6: String,
    /// Rating 7, MVA; Modern only.
    pub rate7: String,
    /// Rating 8, MVA; Modern only.
    pub rate8: String,
    /// Rating 9, MVA; Modern only.
    pub rate9: String,
    /// Rating 10, MVA; Modern only.
    pub rate10: String,
    /// Rating 11, MVA; Modern only.
    pub rate11: String,
    /// Rating 12, MVA; Modern only.
    pub rate12: String,
    /// Line-shunt conductance at the from bus, p.u.
    pub gi: String,
    /// Line-shunt susceptance at the from bus, p.u.
    pub bi: String,
    /// Line-shunt conductance at the to bus, p.u.
    pub gj: String,
    /// Line-shunt susceptance at the to bus, p.u.
    pub bj: String,
    /// Branch status.
    pub status: i8,
    /// Metered-end flag.
    pub meter_end: i8,
    /// Line length.
    pub length: String,
    /// Owner number 1.
    pub owner1: i16,
    /// Owner number 2.
    pub owner2: i16,
    /// Owner number 3.
    pub owner3: i16,
    /// Owner number 4.
    pub owner4: i16,
    /// Ownership fraction 1.
    pub owner1_percent: String,
    /// Ownership fraction 2.
    pub owner2_percent: String,
    /// Ownership fraction 3.
    pub owner3_percent: String,
    /// Ownership fraction 4.
    pub owner4_percent: String,
}

/// The column schema of a branch record under the given revision.
pub open spec fn branch_matches(b: Branch, p: Seq<Seq<char>>, rev: CaseRevision) -> bool {
    let a = spec_off(rev, 0, 1);
    let ra = spec_off(rev, 0, 10);
    &&& b.from_bus == int32_at(p, 0, 0)
    &&& b.to_bus == int32_at(p, 1, 0)
    &&& b.circuit@ == text_at(p, 2, "1"@)
    &&& b.r@ == real_at(p, 3, "0.0"@)
    &&& b.x@ == real_at(p, 4, "0.0001"@)
    &&& b.b@ == real_at(p, 5, "0.0"@)
    &&& b.name@ == (if rev is Modern {
        text_at(p, 6, " "@)
    } else {
        " "@
    })
    &&& b.rate1@ == real_at(p, 6 + a, "0.0"@)
    &&& b.rate2@ == real_at(p, 7 + a, "0.0"@)
    &&& b.rate3@ == real_at(p, 8 + a, "0.0"@)
    &&& b.rate4@ == (if rev is Modern {
        real_at(p, 9 + a, "0.0"@)
    } else {
        "0.0"@
    })
    &&& b.rate5@ == (if rev is Modern {
        real_at(p, 10 + a, "0.0"@)
    } else {
        "0.0"@
    })
    &&& b.rate6@ == (if rev is Modern {
        real_at(p, 11 + a, "0.0"@)
    } else {
        "0.0"@
    })
    &&& b.rate7@ == (if rev is Modern {
        real_at(p, 12 + a, "0.0"@)
    } else {
        "0.0"@
    })
    &&& b.rate8@ == (if rev is Modern {
        real_at(p, 13 + a, "0.0"@)
    } else {
        "0.0"@
    })
    &&& b.rate9@ == (if rev is Modern {
        real_at(p, 14 + a, "0.0"@)
    } else {
        "0.0"@
    })
    &&& b.rate10@ == (if rev is Modern {
        real_at(p, 15 + a, "0.0"@)
    } else {
        "0.0"@
    })
    &&& b.rate11@ == (if rev is Modern {
        real_at(p, 16 + a, "0.0"@)
    } else {
        "0.0"@
    })
    &&& b.rate12@ == (if rev is Modern {
        real_at(p, 17 + a, "0.0"@)
    } else {
        "0.0"@
    })
    &&& b.gi@ == real_at(p, 9 + ra, "0.0"@)
    &&& b.bi@ == real_at(p, 10 + ra, "0.0"@)
    &&& b.gj@ == real_at(p, 11 + ra, "0.0"@)
    &&& b.bj@ == real_at(p, 12 + ra, "0.0"@)
    &&& b.status == int8_at(p, 13 + ra, 1)
    &&& b.meter_end == int8_at(p, 14 + ra, 0)
    &&& b.length@ == real_at(p, 15 + ra, "0.0"@)
    &&& b.owner1 == int16_at(p, 16 + ra, 1)
    &&& b.owner1_percent@ == real_at(p, 17 + ra, "1.0"@)
    &&& b.owner2 == int16_at(p, 18 + ra, 0)
    &&& b.owner2_percent@ == real_at(p, 19 + ra, "1.0"@)
    &&& b.owner3 == int16_at(p, 20 + ra, 0)
    &&& b.owner3_percent@ == real_at(p, 21 + ra, "1.0"@)
    &&& b.owner4 == int16_at(p, 22 + ra, 0)
    &&& b.owner4_percent@ == real_at(p, 23 + ra, "1.0"@)
}

/// A decoded branch section: one record per decodable line, in file
/// order.
pub open spec fn branch_section_ok(r: Seq<Branch>, lines: Seq<Seq<u8>>, rev: CaseRevision) -> bool {
    let t = table_of(lines);
    &&& r.len() == t.len()
    &&& forall|i: int| 0 <= i < t.len() ==> branch_matches(#[trigger] r[i], t[i], rev)
}

/// Decodes one branch record from a token row.
pub fn branch_from_tokens(p: &Vec<Vec<char>>, rev: CaseRevision) -> (b: Branch)
    ensures
        branch_matches(b, p.deep_view(), rev),
{
    let a = sel(rev, 0, 1);
    let ra = sel(rev, 0, 10);
    let modern = matches!(rev, CaseRevision::Modern);
    Branch {
        from_bus: read_i32(p, 0, 0),
        to_bus: read_i32(p, 1, 0),
        circuit: read_text(p, 2, "1"),
        r: read_real(p, 3, "0.0"),
        x: read_real(p, 4, "0.0001"),
        b: read_real(p, 5, "0.0"),
        name: if modern {
            read_text(p, 6, " ")
        } else {
            " ".to_owned()
        },
        rate1: read_real(p, 6 + a, "0.0"),
        rate2: read_real(p, 7 + a, "0.0"),
        rate3: read_real(p, 8 + a, "0.0"),
        rate4: if modern {
            read_real(p, 9 + a, "0.0")
        } else {
            "0.0".to_owned()
        },
        rate5: if modern {
            read_real(p, 10 + a, "0.0")
        } else {
            "0.0".to_owned()
        },
        rate6: if modern {
            read_real(p, 11 + a, "0.0")
        } else {
            "0.0".to_owned()
        },
        rate7: if modern {
            read_real(p, 12 + a, "0.0")
        } else {
            "0.0".to_owned()
        },
        rate8: if modern {
            read_real(p, 13 + a, "0.0")
        } else {
            "0.0".to_owned()
        },
        rate9: if modern {
            read_real(p, 14 + a, "0.0")
        } else {
            "0.0".to_owned()
        },
        rate10: if modern {
            read_real(p, 15 + a, "0.0")
        } else {
            "0.0".to_owned()
        },
        rate11: if modern {
            read_real(p, 16 + a, "0.0")
        } else {
            "0.0".to_owned()
        },
        rate12: if modern {
            read_real(p, 17 + a, "0.0")
        } else {
            "0.0".to_owned()
        },
        gi: read_real(p, 9 + ra, "0.0"),
        bi: read_real(p, 10 + ra, "0.0"),
        gj: read_real(p, 11 + ra, "0.0"),
        bj: read_real(p, 12 + ra, "0.0"),
        status: read_i8(p, 13 + ra, 1),
        meter_end: read_i8(p, 14 + ra, 0),
        length: read_real(p, 15 + ra, "0.0"),
        owner1: read_i16(p, 16 + ra, 1),
        owner1_percent: read_real(p, 17 + ra, "1.0"),
        owner2: read_i16(p, 18 + ra, 0),
        owner2_percent: read_real(p, 19 + ra, "1.0"),
        owner3: read_i16(p, 20 + ra, 0),
        owner3_percent: read_real(p, 21 + ra, "1.0"),
        owner4: read_i16(p, 22 + ra, 0),
        owner4_percent: read_real(p, 23 + ra, "1.0"),
    }
}

/// Decodes the branch section under the given revision number.
pub fn parse_lines(lines: &[&[u8]], psse_version: i8) -> (r: Vec<Branch>)
    ensures
        branch_section_ok(r@, line_views(lines@), spec_revision(psse_version as int)),
{
    let rev = classify_revision(psse_version);
    let t = tokenize_lines(lines);
    let n = t.len();
    let mut r: Vec<Branch> = Vec::new();
    let mut i: usize = 0;
    while i < n
        invariant
            0 <= i <= n == t@.len(),
            rev == spec_revision(psse_version as int),
            t.deep_view() == table_of(line_views(lines@)),
            r@.len() == i,
            forall|k: int| 0 <= k < i ==> branch_matches(#[trigger] r@[k], t.deep_view()[k], rev),
        decreases n - i,
    {
        proof {
            assert(t.deep_view()[i as int] == t@[i as int].deep_view());
        }
        let b = branch_from_tokens(&t[i], rev);
        r.push(b);
        i += 1;
    }
    r
}

/// Fields placed before the first Modern column insertion occupy the
/// same columns under both layout eras, so the same token row decodes
/// them to the same values whichever way the revision is classified.
pub proof fn lemma_branch_shared_prefix_revision_independent(
    b1: Branch,
    b2: Branch,
    p: Seq<Seq<char>>,
)
    requires
        branch_matches(b1, p, CaseRevision::Legacy),
        branch_matches(b2, p, CaseRevision::Modern),
    ensures
        b1.from_bus == b2.from_bus,
        b1.to_bus == b2.to_bus,
        b1.circuit@ == b2.circuit@,
        b1.r@ == b2.r@,
        b1.x@ == b2.x@,
        b1.b@ == b2.b@,
{
}

} // verus!
