//! The section scanner: a single pass over the file's lines that
//! decodes the case header and emits the numbered line ranges of the
//! record-kind sections.
//!
//! The scan has two phases.  A bounded bootstrap inspects the first six
//! lines: the first substantive line that splits into four to seven
//! comma fields (before any `/` comment) is the header, and under a
//! Modern revision the bootstrap stops there, since Modern files mark
//! every later section end with an explicit `0 /` line.  Under Legacy
//! the bootstrap keeps looking for a line with more than ten comma
//! fields and a leading digit, which opens the bus section directly.
//! The sweep then walks every line: a line beginning `0 /` closes the
//! current section, and the next data line opens the following one.  A
//! section whose end is never marked is closed at end of file.

use vstd::prelude::*;
use crate::components::header::{header_from_tokens, header_matches, HeaderInfo};
use crate::fields::int8_at;
use crate::lines::{line_chars, line_decode, line_views};
use crate::text::{digit_exec, is_digit, split_line, split_trim, trim, trim_range};

verus! {

/// One numbered section: a half-open line range.
#[derive(Debug, Clone, Copy, PartialEq, Eq, Structural)]
pub struct Section {
    /// First line of the section.
    pub start: usize,
    /// One past the last line of the section.
    pub end: usize,
}

/// The mathematical values of collected section starts.
pub open spec fn starts_view(v: Seq<usize>) -> Seq<int> {
    v.map_values(|x: usize| x as int)
}

/// The mathematical values of collected sections and their end marks.
pub open spec fn secs_view(v: Seq<(usize, Option<usize>)>) -> Seq<(int, Option<int>)> {
    v.map_values(|se: (usize, Option<usize>)| (se.0 as int, sec_end_view(se.1)))
}

/// Index of the first `/` in `s`, or `s.len()`.
pub open spec fn find_slash(s: Seq<char>) -> int
    decreases s.len(),
{
    if s.len() == 0 {
        0
    } else if s[0] == '/' {
        0
    } else {
        1 + find_slash(s.drop_first())
    }
}

pub proof fn lemma_find_slash(s: Seq<char>)
    ensures
        0 <= find_slash(s) <= s.len(),
        find_slash(s) < s.len() ==> s[find_slash(s)] == '/',
        forall|k: int| 0 <= k < find_slash(s) ==> s[k] != '/',
    decreases s.len(),
{
    if s.len() > 0 && s[0] != '/' {
        lemma_find_slash(s.drop_first());
        assert(forall|k: int| 1 <= k < s.len() ==> s[k] == s.drop_first()[k - 1]);
    }
}

/// A section-marker line: the trimmed line begins with `0 /`.
pub open spec fn is_marker(tr: Seq<char>) -> bool {
    tr.len() >= 3 && tr[0] == '0' && tr[1] == ' ' && tr[2] == '/'
}

/// The header candidate tokens of a line: the part before any `/`
/// comment, split on commas and trimmed.
pub open spec fn header_tokens(tr: Seq<char>) -> Seq<Seq<char>> {
    split_trim(tr.take(find_slash(tr)))
}

/// The bootstrap state: section starts found so far, the header's
/// tokens if a header line was seen, and whether the bootstrap is done.
pub struct BootState {
    /// Section start lines, by section number.
    pub starts: Seq<int>,
    /// The tokens of the last header line seen.
    pub header_parts: Option<Seq<Seq<char>>>,
    /// The bootstrap found what it was looking for.
    pub done: bool,
}

/// The bootstrap state before any line is read.
pub open spec fn boot_init() -> BootState {
    BootState { starts: Seq::empty(), header_parts: None, done: false }
}

/// Advances the bootstrap over line `i`.
pub open spec fn boot_step(st: BootState, bytes: Seq<u8>, i: int) -> BootState {
    match line_decode(bytes) {
        None => st,
        Some(cs) => {
            let tr = trim(cs);
            if tr.len() == 0 || tr[0] == '/' || tr[0] == '@' {
                st
            } else {
                let parts = header_tokens(tr);
                if 4 <= parts.len() <= 7 {
                    BootState {
                        starts: st.starts + seq![i + 1],
                        header_parts: Some(parts),
                        done: int8_at(parts, 2, 33) >= 34,
                    }
                } else if parts.len() > 10 && is_digit(tr[0]) {
                    BootState {
                        starts: st.starts + seq![i + 1],
                        header_parts: st.header_parts,
                        done: true,
                    }
                } else {
                    st
                }
            }
        },
    }
}

/// The bootstrap's line bound: the first six lines.
pub open spec fn boot_bound(lines: Seq<Seq<u8>>) -> int {
    if lines.len() < 6 {
        lines.len() as int
    } else {
        6
    }
}

/// Runs the bootstrap from line `i` on.
pub open spec fn boot_scan(lines: Seq<Seq<u8>>, i: int, st: BootState) -> BootState
    decreases lines.len() - i when i >= 0
{
    if st.done || i < 0 || i >= boot_bound(lines) {
        st
    } else {
        boot_scan(lines, i + 1, boot_step(st, lines[i], i))
    }
}

/// The sweep state: numbered sections with their starts and, where a
/// marker closed them, their ends; and whether a marker was seen more
/// recently than a data line.
pub struct SweepState {
    /// The sections, by number: start line and closing marker line.
    pub secs: Seq<(int, Option<int>)>,
    /// A marker was seen and no data line has followed it yet.
    pub found: bool,
}

/// Advances the sweep over line `i`.
pub open spec fn sweep_step(st: SweepState, bytes: Seq<u8>, i: int) -> SweepState {
    match line_decode(bytes) {
        None => st,
        Some(cs) => {
            let tr = trim(cs);
            if is_marker(tr) {
                let opened = if st.found {
                    st.secs + seq![(i, None::<int>)]
                } else {
                    st.secs
                };
                let closed = if opened.len() > 0 {
                    opened.update(opened.len() - 1, (opened.last().0, Some(i)))
                } else {
                    opened
                };
                SweepState { secs: closed, found: true }
            } else if st.found && tr.len() > 0 && tr[0] != '@' {
                SweepState { secs: st.secs + seq![(i, None::<int>)], found: false }
            } else {
                st
            }
        },
    }
}

/// Runs the sweep from line `i` on.
pub open spec fn sweep_scan(lines: Seq<Seq<u8>>, i: int, st: SweepState) -> SweepState
    decreases lines.len() - i when i >= 0
{
    if i < 0 || i >= lines.len() {
        st
    } else {
        sweep_scan(lines, i + 1, sweep_step(st, lines[i], i))
    }
}

/// The scan of a whole file: bootstrap, then sweep over every line,
/// then each unmarked section closed at end of file.
pub open spec fn spec_scan_ranges(lines: Seq<Seq<u8>>) -> Seq<(int, int)> {
    let b = boot_scan(lines, 0, boot_init());
    let s = sweep_scan(
        lines,
        0,
        SweepState { secs: b.starts.map_values(|x: int| (x, None::<int>)), found: false },
    );
    s.secs.map_values(
        |se: (int, Option<int>)|
            (
                se.0,
                match se.1 {
                    Some(e) => e,
                    None => lines.len() as int,
                },
            ),
    )
}

/// The header tokens the scan decodes the case header from, if any
/// header line was found.
pub open spec fn spec_scan_header(lines: Seq<Seq<u8>>) -> Option<Seq<Seq<char>>> {
    boot_scan(lines, 0, boot_init()).header_parts
}

/// A header left at its defaults because no header line was found.
pub open spec fn header_is_default(h: HeaderInfo) -> bool {
    &&& h.ic == 0
    &&& h.sbase@ == "0.0"@
    &&& h.revision == 0
    &&& h.transformer_rating_code == 0
    &&& h.branch_rating_code == 0
    &&& h.system_frequency@ == "0.0"@
}

/// A scan result is correct for the file's lines: the numbered ranges
/// are the scan's, and the header is decoded from the header line the
/// bootstrap found, or left at its defaults.
pub open spec fn scan_ok(secs: Seq<Section>, h: HeaderInfo, lines: Seq<Seq<u8>>) -> bool {
    &&& secs.map_values(|s: Section| (s.start as int, s.end as int)) == spec_scan_ranges(lines)
    &&& match spec_scan_header(lines) {
        Some(parts) => header_matches(h, parts),
        None => header_is_default(h),
    }
}

/// Copies the range `[a, b)` of `cs`.
fn copy_range(cs: &Vec<char>, a: usize, b: usize) -> (r: Vec<char>)
    requires
        a <= b <= cs@.len(),
    ensures
        r@ =~= cs@.subrange(a as int, b as int),
{
    let mut r: Vec<char> = Vec::new();
    let mut k = a;
    while k < b
        invariant
            a <= k <= b <= cs@.len(),
            r@ =~= cs@.subrange(a as int, k as int),
        decreases b - k,
    {
        r.push(cs[k]);
        k += 1;
    }
    r
}

/// Scans the file's lines into the numbered section ranges and the
/// decoded case header.
pub fn scan_sections(lines: &[&[u8]]) -> (r: (Vec<Section>, HeaderInfo))
    ensures
        scan_ok(r.0@, r.1, line_views(lines@)),
{
    let ghost lv = line_views(lines@);
    let n = lines.len();
    let mut header: HeaderInfo = HeaderInfo::default();
    let ghost mut header_parts: Option<Seq<Seq<char>>> = None;
    let mut starts: Vec<usize> = Vec::new();
    let mut done: bool = false;

    // bootstrap over the first lines
    let bound = if n < 6 {
        n
    } else {
        6
    };
    let mut i: usize = 0;
    proof {
        assert(starts_view(starts@) =~= Seq::<int>::empty());
    }
    while i < bound && !done
        invariant
            0 <= i <= bound,
            bound == boot_bound(lv),
            n == lines@.len(),
            lv == line_views(lines@),
            boot_scan(lv, 0, boot_init()) == boot_scan(
                lv,
                i as int,
                BootState {
                    starts: starts_view(starts@),
                    header_parts: header_parts,
                    done: done,
                },
            ),
            match header_parts {
                Some(ps) => header_matches(header, ps),
                None => header_is_default(header),
            },
        decreases bound - i,
    {
        let ghost st = BootState {
            starts: starts_view(starts@),
            header_parts: header_parts,
            done: done,
        };
        proof {
            assert(lv[i as int] == lines@[i as int]@);
        }
        match line_chars(lines[i]) {
            None => {
                proof {
                    assert(boot_step(st, lv[i as int], i as int) == st);
                }
            },
            Some(cs) => {
                let tr = trim_range(&cs, 0, cs.len());
                proof {
                    assert(cs@.subrange(0, cs@.len() as int) =~= cs@);
                    assert(tr@ == trim(cs@));
                }
                if tr.len() == 0 || tr[0] == '/' || tr[0] == '@' {
                    proof {
                        assert(boot_step(st, lv[i as int], i as int) == st);
                    }
                } else {
                    // cut any `/` comment, then split into comma tokens
                    let mut sl: usize = 0;
                    while sl < tr.len() && tr[sl] != '/'
                        invariant
                            0 <= sl <= tr@.len(),
                            forall|k: int| 0 <= k < sl ==> tr@[k] != '/',
                        decreases tr@.len() - sl,
                    {
                        sl += 1;
                    }
                    proof {
                        lemma_find_slash(tr@);
                        if sl < tr.len() {
                            if find_slash(tr@) > sl as int {
                                assert(tr@[sl as int] != '/');
                            }
                            if find_slash(tr@) < sl as int {
                                assert(tr@[find_slash(tr@)] == '/');
                            }
                        } else {
                            if find_slash(tr@) < tr@.len() {
                                assert(tr@[find_slash(tr@)] == '/');
                            }
                        }
                        assert(find_slash(tr@) == sl as int);
                    }
                    let head = copy_range(&tr, 0, sl);
                    let parts = split_line(&head);
                    proof {
                        assert(parts.deep_view() == header_tokens(tr@));
                    }
                    let np = parts.len();
                    if 4 <= np && np <= 7 {
                        header = header_from_tokens(&parts);
                        proof {
                            header_parts = Some(parts.deep_view());
                        }
                        starts.push(i + 1);
                        done = header.revision >= 34;
                        proof {
                            assert(header.revision as int == int8_at(parts.deep_view(), 2, 33));
                            let stepped = boot_step(st, lv[i as int], i as int);
                            assert(stepped.starts == st.starts + seq![i + 1int]);
                            assert(starts_view(starts@) =~= st.starts + seq![i + 1int]);
                            assert(stepped.header_parts == header_parts);
                            assert(stepped.done == done);
                            assert(stepped == BootState {
                                starts: starts_view(starts@),
                                header_parts: header_parts,
                                done: done,
                            });
                        }
                    } else if np > 10 && digit_exec(tr[0]) {
                        starts.push(i + 1);
                        done = true;
                        proof {
                            assert(starts_view(starts@) =~= st.starts + seq![
                                i + 1,
                            ]);
                            assert(boot_step(st, lv[i as int], i as int) == BootState {
                                starts: starts_view(starts@),
                                header_parts: header_parts,
                                done: done,
                            });
                        }
                    } else {
                        proof {
                            assert(boot_step(st, lv[i as int], i as int) == st);
                        }
                    }
                }
            },
        }
        proof {
            let stepped = boot_step(st, lv[i as int], i as int);
            assert(boot_scan(lv, i as int, st) == boot_scan(lv, i + 1, stepped));
        }
        i += 1;
    }
    proof {
        let cur = BootState {
            starts: starts_view(starts@),
            header_parts: header_parts,
            done: done,
        };
        assert(boot_scan(lv, i as int, cur) == cur);
        assert(boot_scan(lv, 0, boot_init()) == cur);
    }

    // sweep over every line
    let mut secs: Vec<(usize, Option<usize>)> = Vec::new();
    let mut found: bool = false;
    let mut j: usize = 0;
    let mut k: usize = 0;
    while k < starts.len()
        invariant
            0 <= k <= starts@.len(),
            secs@.len() == k,
            forall|m: int|
                0 <= m < k ==> #[trigger] secs@[m] == (starts@[m], None::<usize>),
        decreases starts@.len() - k,
    {
        secs.push((starts[k], None));
        k += 1;
    }
    proof {
        assert(secs_view(secs@)
            =~= starts_view(starts@).map_values(
            |x: int| (x, None::<int>),
        ));
    }
    while j < n
        invariant
            0 <= j <= n == lines@.len(),
            lv == line_views(lines@),
            sweep_scan(
                lv,
                0,
                SweepState {
                    secs: boot_scan(lv, 0, boot_init()).starts.map_values(
                        |x: int| (x, None::<int>),
                    ),
                    found: false,
                },
            ) == sweep_scan(
                lv,
                j as int,
                SweepState {
                    secs: secs_view(secs@),
                    found: found,
                },
            ),
        decreases n - j,
    {
        let ghost st = SweepState {
            secs: secs_view(secs@),
            found: found,
        };
        proof {
            assert(lv[j as int] == lines@[j as int]@);
        }
        match line_chars(lines[j]) {
            None => {
                proof {
                    assert(sweep_step(st, lv[j as int], j as int) == st);
                }
            },
            Some(cs) => {
                let tr = trim_range(&cs, 0, cs.len());
                proof {
                    assert(cs@.subrange(0, cs@.len() as int) =~= cs@);
                    assert(tr@ == trim(cs@));
                }
                let marker = tr.len() >= 3 && tr[0] == '0' && tr[1] == ' ' && tr[2] == '/';
                if marker {
                    let ghost before = secs_view(secs@);
                    if found {
                        secs.push((j, None));
                        proof {
                            assert(secs_view(secs@) =~= before + seq![(j as int, None::<int>)]);
                        }
                    }
                    let ghost opened = secs_view(secs@);
                    if secs.len() > 0 {
                        let last = secs.len() - 1;
                        let s0 = secs[last].0;
                        secs[last] = (s0, Some(j));
                        proof {
                            assert(secs_view(secs@) =~= opened.update(
                                opened.len() - 1,
                                (opened.last().0, Some(j as int)),
                            ));
                        }
                    }
                    found = true;
                    proof {
                        assert(sweep_step(st, lv[j as int], j as int) == SweepState {
                            secs: secs_view(secs@),
                            found: found,
                        });
                    }
                } else if found && tr.len() > 0 && tr[0] != '@' {
                    let ghost before = secs_view(secs@);
                    secs.push((j, None));
                    found = false;
                    proof {
                        assert(secs_view(secs@) =~= before + seq![(j as int, None::<int>)]);
                        assert(sweep_step(st, lv[j as int], j as int) == SweepState {
                            secs: secs_view(secs@),
                            found: found,
                        });
                    }
                } else {
                    proof {
                        assert(sweep_step(st, lv[j as int], j as int) == st);
                    }
                }
            },
        }
        proof {
            let stepped = sweep_step(st, lv[j as int], j as int);
            assert(sweep_scan(lv, j as int, st) == sweep_scan(lv, j + 1, stepped));
        }
        j += 1;
    }
    proof {
        let cur = SweepState {
            secs: secs_view(secs@),
            found: found,
        };
        assert(sweep_scan(lv, j as int, cur) == cur);
    }

    // close every unmarked section at end of file
    let mut out: Vec<Section> = Vec::new();
    let mut m: usize = 0;
    while m < secs.len()
        invariant
            0 <= m <= secs@.len(),
            n == lines@.len(),
            out@.len() == m,
            forall|q: int|
                0 <= q < m ==> #[trigger] out@[q] == (Section {
                    start: secs@[q].0,
                    end: match secs@[q].1 {
                        Some(e) => e,
                        None => n,
                    },
                }),
        decreases secs@.len() - m,
    {
        let (s0, e0) = secs[m];
        let e = match e0 {
            Some(e) => e,
            None => n,
        };
        out.push(Section { start: s0, end: e });
        m += 1;
    }
    proof {
        assert(out@.map_values(|s: Section| (s.start as int, s.end as int)) =~= spec_scan_ranges(
            lv,
        ));
    }
    (out, header)
}

/// The end marker of a section as the scan's model sees it.
pub open spec fn sec_end_view(e: Option<usize>) -> Option<int> {
    match e {
        Some(x) => Some(x as int),
        None => None,
    }
}

} // verus!
