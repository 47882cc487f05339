//! Impedance correction tables: a variable number of physical lines per
//! logical group, terminated by an all-zero triple.
//!
//! The first token of a group's first line is the table index; the
//! remaining tokens, taken in fixed triples and realigned at each
//! physical line, are correction entries.  A triple whose three values
//! all read as zero closes the group without being stored.  Under the
//! Legacy revision every physical line is its own complete group.

use vstd::prelude::*;
use crate::CaseRevision;
use crate::fields::{int32_at, read_i32, read_real, real_at};
use crate::lines::{line_views, table_of, tokenize_lines};
use crate::text::{check_real, check_zero_real, is_real_token, is_zero_real_token};
use crate::{classify_revision, spec_revision};

verus! {

/// One correction entry: a tap or angle point and its complex scaling
/// factor.
#[derive(Debug, Clone, Default, PartialEq)]
pub struct ImpedanceCorrectionEntry {
    /// Off-nominal turns ratio or phase-shift angle, degrees.
    pub tap: String,
    /// Real part of the complex scaling factor.
    pub real_complex_scaling_factor: String,
    /// Imaginary part of the complex scaling factor.
    pub imag_complex_scaling_factor: String,
}

/// One impedance correction table: its index and its entries in file
/// order.
#[derive(Debug, Clone, Default, PartialEq)]
pub struct ImpedanceCorrectionTable {
    /// Table number.
    pub index: i32,
    /// The correction entries, in file order.
    pub correction_table_entries: Vec<ImpedanceCorrectionEntry>,
}

/// The three texts of the entry read at column `pos`: absent or invalid
/// tokens fall back to zero.
pub open spec fn corr_entry(p: Seq<Seq<char>>, pos: int) -> (Seq<char>, Seq<char>, Seq<char>) {
    (real_at(p, pos, "0.0"@), real_at(p, pos + 1, "0.0"@), real_at(p, pos + 2, "0.0"@))
}

/// The component at column `off` reads as zero: its token is a
/// real-number token of value zero, or it is absent or invalid and so
/// falls back to the zero default.
pub open spec fn component_zero(p: Seq<Seq<char>>, off: int) -> bool {
    if 0 <= off < p.len() && is_real_token(p[off]) {
        is_zero_real_token(p[off])
    } else {
        true
    }
}

/// The triple at column `pos` is the all-zero terminator.
pub open spec fn sentinel_at(p: Seq<Seq<char>>, pos: int) -> bool {
    component_zero(p, pos) && component_zero(p, pos + 1) && component_zero(p, pos + 2)
}

/// Scans one line's triples from column `pos`: the entries before the
/// terminator, and whether a terminator was found on this line.
pub open spec fn corr_line_scan(p: Seq<Seq<char>>, pos: int) -> (
    Seq<(Seq<char>, Seq<char>, Seq<char>)>,
    bool,
)
    decreases p.len() + 3 - pos when pos >= 0
{
    if pos < 0 || pos >= p.len() {
        (Seq::empty(), false)
    } else if sentinel_at(p, pos) {
        (Seq::empty(), true)
    } else {
        let rest = corr_line_scan(p, pos + 3);
        (seq![corr_entry(p, pos)] + rest.0, rest.1)
    }
}

/// The scan state: whether the next line opens a new table, the open
/// table's index and entries, and the closed tables.
pub struct CorrScan {
    /// The next line read opens a new table.
    pub begin: bool,
    /// Index of the open table.
    pub cur_index: int,
    /// Entries of the open table so far.
    pub cur_entries: Seq<(Seq<char>, Seq<char>, Seq<char>)>,
    /// The closed tables, in file order.
    pub tables: Seq<(int, Seq<(Seq<char>, Seq<char>, Seq<char>)>)>,
}

/// The scan state before any line is read.
pub open spec fn corr_init() -> CorrScan {
    CorrScan { begin: true, cur_index: 0, cur_entries: Seq::empty(), tables: Seq::empty() }
}

/// Advances the scan over one line.
pub open spec fn corr_step(st: CorrScan, p: Seq<Seq<char>>, legacy: bool) -> CorrScan {
    let idx = if st.begin {
        int32_at(p, 0, 0)
    } else {
        st.cur_index
    };
    let base = if st.begin {
        Seq::<(Seq<char>, Seq<char>, Seq<char>)>::empty()
    } else {
        st.cur_entries
    };
    let pos = if st.begin {
        1int
    } else {
        0int
    };
    let scan = corr_line_scan(p, pos);
    let entries = base + scan.0;
    if scan.1 || legacy {
        CorrScan {
            begin: true,
            cur_index: idx,
            cur_entries: Seq::empty(),
            tables: st.tables + seq![(idx, entries)],
        }
    } else {
        CorrScan { begin: false, cur_index: idx, cur_entries: entries, tables: st.tables }
    }
}

/// Runs the scan over the token table from row `i` on.
pub open spec fn corr_scan(t: Seq<Seq<Seq<char>>>, i: int, st: CorrScan, legacy: bool) -> CorrScan
    decreases t.len() - i when i >= 0
{
    if i < 0 || i >= t.len() {
        st
    } else {
        corr_scan(t, i + 1, corr_step(st, t[i], legacy), legacy)
    }
}

/// The triple texts of one decoded entry.
pub open spec fn entry_view(e: ImpedanceCorrectionEntry) -> (Seq<char>, Seq<char>, Seq<char>) {
    (e.tap@, e.real_complex_scaling_factor@, e.imag_complex_scaling_factor@)
}

/// The index and entry texts of one decoded table.
pub open spec fn corr_table_view(tb: ImpedanceCorrectionTable) -> (
    int,
    Seq<(Seq<char>, Seq<char>, Seq<char>)>,
) {
    (
        tb.index as int,
        tb.correction_table_entries@.map_values(|e: ImpedanceCorrectionEntry| entry_view(e)),
    )
}

/// The views of all decoded tables.
pub open spec fn corr_tables_view(v: Seq<ImpedanceCorrectionTable>) -> Seq<
    (int, Seq<(Seq<char>, Seq<char>, Seq<char>)>),
> {
    v.map_values(|tb: ImpedanceCorrectionTable| corr_table_view(tb))
}

/// A decoded impedance-correction section: exactly the tables that the
/// scan closes, in file order.
pub open spec fn corr_section_ok(
    r: Seq<ImpedanceCorrectionTable>,
    lines: Seq<Seq<u8>>,
    rev: CaseRevision,
) -> bool {
    corr_tables_view(r) == corr_scan(table_of(lines), 0, corr_init(), rev is Legacy).tables
}

impl ImpedanceCorrectionEntry {
    /// Whether this entry is the all-zero terminator.
    pub fn is_end_of_table(&self) -> (r: bool)
        ensures
            r == (is_zero_real_token(self.tap@) && is_zero_real_token(
                self.real_complex_scaling_factor@,
            ) && is_zero_real_token(self.imag_complex_scaling_factor@)),
    {
        let t: Vec<char> = string_chars(&self.tap);
        let re: Vec<char> = string_chars(&self.real_complex_scaling_factor);
        let im: Vec<char> = string_chars(&self.imag_complex_scaling_factor);
        check_zero_real(&t) && check_zero_real(&re) && check_zero_real(&im)
    }
}

/// Relies on `str::chars`: it yields the string's characters in order.
#[verifier::external_body]
fn string_chars(s: &String) -> (r: Vec<char>)
    ensures
        r@ == s@,
{
    s.chars().collect()
}

/// Reads the entry triple at column `pos` and reports whether it is the
/// all-zero terminator.  A component past the end of the row falls back
/// to zero.
fn read_entry(p: &Vec<Vec<char>>, pos: usize) -> (r: (ImpedanceCorrectionEntry, bool))
    requires
        pos < p@.len(),
    ensures
        entry_view(r.0) == corr_entry(p.deep_view(), pos as int),
        r.1 == sentinel_at(p.deep_view(), pos as int),
{
    let n = p.len();
    let o1 = if n - pos >= 2 {
        pos + 1
    } else {
        n
    };
    let o2 = if n - pos >= 3 {
        pos + 2
    } else {
        n
    };
    proof {
        let d = p.deep_view();
        assert(d.len() == p@.len());
        assert(real_at(d, o1 as int, "0.0"@) == real_at(d, pos + 1, "0.0"@));
        assert(real_at(d, o2 as int, "0.0"@) == real_at(d, pos + 2, "0.0"@));
        assert(component_zero(d, o1 as int) == component_zero(d, pos + 1));
        assert(component_zero(d, o2 as int) == component_zero(d, pos + 2));
    }
    let zero = component_zero_exec(p, pos) && component_zero_exec(p, o1)
        && component_zero_exec(p, o2);
    let e = ImpedanceCorrectionEntry {
        tap: read_real(p, pos, "0.0"),
        real_complex_scaling_factor: read_real(p, o1, "0.0"),
        imag_complex_scaling_factor: read_real(p, o2, "0.0"),
    };
    (e, zero)
}

fn component_zero_exec(p: &Vec<Vec<char>>, off: usize) -> (r: bool)
    ensures
        r == component_zero(p.deep_view(), off as int),
{
    proof {
        if (off as int) < p.deep_view().len() {
            assert(p.deep_view()[off as int] == p@[off as int]@);
        }
    }
    if off < p.len() && check_real(&p[off]) {
        check_zero_real(&p[off])
    } else {
        true
    }
}

/// Decodes the impedance-correction section under the given revision
/// number.
#[verifier::rlimit(100)]
pub fn parse_impedance_correction_table(lines: &[&[u8]], psse_version: i8) -> (r: Vec<
    ImpedanceCorrectionTable,
>)
    ensures
        corr_section_ok(r@, line_views(lines@), spec_revision(psse_version as int)),
{
    let rev = classify_revision(psse_version);
    let legacy = matches!(rev, CaseRevision::Legacy);
    let t = tokenize_lines(lines);
    let n = t.len();
    let ghost td = t.deep_view();
    let mut tables: Vec<ImpedanceCorrectionTable> = Vec::new();
    let mut begin: bool = true;
    let mut cur_index: i32 = 0;
    let mut cur_entries: Vec<ImpedanceCorrectionEntry> = Vec::new();
    let ghost init = corr_init();
    proof {
        assert(corr_tables_view(tables@) =~= Seq::empty());
        assert(cur_entries@.map_values(|e: ImpedanceCorrectionEntry| entry_view(e))
            =~= Seq::<(Seq<char>, Seq<char>, Seq<char>)>::empty());
        assert(corr_scan(td, 0, init, legacy) == corr_scan(
            td,
            0,
            CorrScan {
                begin: begin,
                cur_index: cur_index as int,
                cur_entries: cur_entries@.map_values(|e: ImpedanceCorrectionEntry| entry_view(e)),
                tables: corr_tables_view(tables@),
            },
            legacy,
        ));
    }
    let mut i: usize = 0;
    while i < n
        invariant
            0 <= i <= n == t@.len(),
            td == t.deep_view(),
            td == table_of(line_views(lines@)),
            legacy == (spec_revision(psse_version as int) is Legacy),
            init == corr_init(),
            corr_scan(td, 0, init, legacy) == corr_scan(
                td,
                i as int,
                CorrScan {
                    begin: begin,
                    cur_index: cur_index as int,
                    cur_entries: cur_entries@.map_values(
                        |e: ImpedanceCorrectionEntry| entry_view(e),
                    ),
                    tables: corr_tables_view(tables@),
                },
                legacy,
            ),
        decreases n - i,
    {
        let ghost st = CorrScan {
            begin: begin,
            cur_index: cur_index as int,
            cur_entries: cur_entries@.map_values(|e: ImpedanceCorrectionEntry| entry_view(e)),
            tables: corr_tables_view(tables@),
        };
        proof {
            assert(td[i as int] == t@[i as int].deep_view());
        }
        let p = &t[i];
        let ghost row = p.deep_view();
        let mut pos: usize;
        if begin {
            cur_index = read_i32(p, 0, 0);
            cur_entries = Vec::new();
            begin = false;
            pos = 1;
            proof {
                assert(cur_entries@.map_values(|e: ImpedanceCorrectionEntry| entry_view(e))
                    =~= Seq::<(Seq<char>, Seq<char>, Seq<char>)>::empty());
            }
        } else {
            pos = 0;
        }
        let ghost pos0 = pos as int;
        let ghost base = cur_entries@.map_values(|e: ImpedanceCorrectionEntry| entry_view(e));
        let mut closed: bool = false;
        proof {
            assert(base =~= (if st.begin {
                Seq::<(Seq<char>, Seq<char>, Seq<char>)>::empty()
            } else {
                st.cur_entries
            }));
        }
        while pos < p.len() && !closed
            invariant
                0 <= pos0 <= pos as int,
                row == p.deep_view(),
                p@.len() == row.len(),
                base.len() <= cur_entries@.len(),
                cur_entries@.map_values(|e: ImpedanceCorrectionEntry| entry_view(e)).take(
                    base.len() as int,
                ) =~= base,
                !closed ==> corr_line_scan(row, pos0).0 =~= cur_entries@.map_values(
                    |e: ImpedanceCorrectionEntry| entry_view(e),
                ).skip(base.len() as int) + corr_line_scan(row, pos as int).0,
                !closed ==> corr_line_scan(row, pos0).1 == corr_line_scan(row, pos as int).1,
                closed ==> corr_line_scan(row, pos0).0 =~= cur_entries@.map_values(
                    |e: ImpedanceCorrectionEntry| entry_view(e),
                ).skip(base.len() as int),
                closed ==> corr_line_scan(row, pos0).1 == true,
            decreases row.len() - pos as int + (if closed { 0int } else { 1int }),
        {
            let ghost cur_view = cur_entries@.map_values(
                |e: ImpedanceCorrectionEntry| entry_view(e),
            );
            let (e, zero) = read_entry(p, pos);
            if zero {
                closed = true;
                proof {
                    assert(corr_line_scan(row, pos as int).0 =~= Seq::empty());
                    assert(corr_line_scan(row, pos as int).1 == true);
                }
            } else {
                cur_entries.push(e);
                proof {
                    assert(cur_entries@.map_values(|e2: ImpedanceCorrectionEntry| entry_view(e2))
                        =~= cur_view + seq![entry_view(e)]);
                    assert(cur_entries@.map_values(|e2: ImpedanceCorrectionEntry| entry_view(e2))
                        .take(base.len() as int) =~= base);
                    assert(corr_line_scan(row, pos as int).0 =~= seq![corr_entry(row, pos as int)]
                        + corr_line_scan(row, pos as int + 3).0);
                    assert((cur_view + seq![entry_view(e)]).skip(base.len() as int) =~= cur_view
                        .skip(base.len() as int) + seq![corr_entry(row, pos as int)]);
                }
                let next = if p.len() - pos >= 3 {
                    pos + 3
                } else {
                    p.len()
                };
                proof {
                    assert(corr_line_scan(row, next as int).0 =~= corr_line_scan(
                        row,
                        pos as int + 3,
                    ).0);
                    assert(corr_line_scan(row, next as int).1 == corr_line_scan(
                        row,
                        pos as int + 3,
                    ).1);
                }
                pos = next;
            }
        }
        let ghost cur_view = cur_entries@.map_values(|e: ImpedanceCorrectionEntry| entry_view(e));
        proof {
            if !closed {
                assert(corr_line_scan(row, pos as int).0 =~= Seq::empty());
                assert(corr_line_scan(row, pos as int).1 == false);
            }
            // either way, this line contributed exactly the entries past `base`
            assert(corr_line_scan(row, pos0).0 =~= cur_view.skip(base.len() as int));
            assert(corr_line_scan(row, pos0).1 == closed);
            assert(base + corr_line_scan(row, pos0).0 =~= cur_view);
        }
        if closed || legacy {
            let tb = ImpedanceCorrectionTable {
                index: cur_index,
                correction_table_entries: cur_entries,
            };
            let ghost prev_tables = corr_tables_view(tables@);
            tables.push(tb);
            proof {
                assert(corr_tables_view(tables@) =~= prev_tables + seq![corr_table_view(tb)]);
            }
            cur_entries = Vec::new();
            begin = true;
            proof {
                assert(cur_entries@.map_values(|e: ImpedanceCorrectionEntry| entry_view(e))
                    =~= Seq::<(Seq<char>, Seq<char>, Seq<char>)>::empty());
            }
        }
        proof {
            let stepped = corr_step(st, td[i as int], legacy);
            assert(stepped.begin == begin);
            assert(stepped.cur_index == cur_index as int);
            assert(stepped.cur_entries =~~= cur_entries@.map_values(
                |e: ImpedanceCorrectionEntry| entry_view(e),
            ));
            assert(stepped.tables =~~= corr_tables_view(tables@));
            assert(stepped == CorrScan {
                begin: begin,
                cur_index: cur_index as int,
                cur_entries: cur_entries@.map_values(|e: ImpedanceCorrectionEntry| entry_view(e)),
                tables: corr_tables_view(tables@),
            });
            assert(corr_scan(td, i as int, st, legacy) == corr_scan(td, i + 1, stepped, legacy));
        }
        i += 1;
    }
    tables
}

} // verus!
