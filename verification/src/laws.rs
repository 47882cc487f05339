//! Engine-wide laws, stated once over the decoders' contracts and
//! proved from them.

use vstd::prelude::*;
use vstd::utf8::valid_utf8;
use crate::CaseRevision;
use crate::components::bus::{bus_section_ok, Bus};
use crate::components::owner::{owner_matches, Owner};
use crate::components::impedance_correction::{corr_init, corr_scan, corr_section_ok,
    corr_tables_view, ImpedanceCorrectionTable};
use crate::components::transformer::{is_two_winding, xf_group_starts, xf_section_ok, Transformer};
use crate::components::multiterminal_dc_line::{mtdc_section_ok, MultiTermDCLine};
use crate::components::two_terminal_dc::{ttdc_section_ok, TwoTerminalDc};
use crate::components::vsc_dc::{vsc_section_ok, VSCDc};
use crate::lines::{lemma_table_of_all_decodable, lemma_table_of_empty, table_of};
use crate::text::{all_digits, digit_val, digits_value, find_comma, is_digit, is_ws, lemma_find_comma,
    split_commas, split_trim, trim, trim_end, trim_start, unquote};

verus! {

/// A record-kind section with zero lines produces an empty collection,
/// not a decoding error: the single-line kinds.
pub proof fn lemma_empty_section_no_buses(r: Seq<Bus>, lines: Seq<Seq<u8>>)
    requires
        bus_section_ok(r, lines),
        lines.len() == 0,
    ensures
        r.len() == 0,
{
    lemma_table_of_empty(lines);
}

/// A record-kind section with zero lines produces an empty collection:
/// the fixed-count kinds.
pub proof fn lemma_empty_section_no_dc_lines(
    r: Seq<TwoTerminalDc>,
    lines: Seq<Seq<u8>>,
    rev: CaseRevision,
)
    requires
        ttdc_section_ok(r, lines, rev),
        lines.len() == 0,
    ensures
        r.len() == 0,
{
    lemma_table_of_empty(lines);
}

/// A record-kind section with zero lines produces an empty collection:
/// the discriminated-count kind.
pub proof fn lemma_empty_section_no_transformers(
    r: Seq<Transformer>,
    lines: Seq<Seq<u8>>,
    rev: CaseRevision,
)
    requires
        xf_section_ok(r, lines, rev),
        lines.len() == 0,
    ensures
        r.len() == 0,
{
    lemma_table_of_empty(lines);
    assert(xf_group_starts(table_of(lines), 0) =~= Seq::empty());
}

/// A record-kind section with zero lines produces an empty collection:
/// the sentinel-terminated kind.
pub proof fn lemma_empty_section_no_correction_tables(
    r: Seq<ImpedanceCorrectionTable>,
    lines: Seq<Seq<u8>>,
    rev: CaseRevision,
)
    requires
        corr_section_ok(r, lines, rev),
        lines.len() == 0,
    ensures
        r.len() == 0,
{
    lemma_table_of_empty(lines);
    assert(corr_scan(table_of(lines), 0, corr_init(), rev is Legacy) == corr_init());
    assert(corr_tables_view(r).len() == r.len());
}

/// Fixed-count grouping is exact: when every line of the section
/// decodes, the number of logical groups equals the line count divided
/// by the group size, and leftover lines join no group.
pub proof fn lemma_fixed_count_groups_exact(
    r: Seq<TwoTerminalDc>,
    lines: Seq<Seq<u8>>,
    rev: CaseRevision,
)
    requires
        ttdc_section_ok(r, lines, rev),
        forall|i: int| 0 <= i < lines.len() ==> valid_utf8(#[trigger] lines[i]),
    ensures
        r.len() == lines.len() / 3,
{
    lemma_table_of_all_decodable(lines);
}

/// Fixed-count grouping is exact for the VSC DC kind.
pub proof fn lemma_fixed_count_groups_exact_vsc(
    r: Seq<VSCDc>,
    lines: Seq<Seq<u8>>,
    rev: CaseRevision,
)
    requires
        vsc_section_ok(r, lines, rev),
        forall|i: int| 0 <= i < lines.len() ==> valid_utf8(#[trigger] lines[i]),
    ensures
        r.len() == lines.len() / 3,
{
    lemma_table_of_all_decodable(lines);
}

/// Fixed-count grouping is exact for the multi-terminal DC kind.
pub proof fn lemma_fixed_count_groups_exact_mtdc(r: Seq<MultiTermDCLine>, lines: Seq<Seq<u8>>)
    requires
        mtdc_section_ok(r, lines),
        forall|i: int| 0 <= i < lines.len() ==> valid_utf8(#[trigger] lines[i]),
    ensures
        r.len() == lines.len() / 3,
{
    lemma_table_of_all_decodable(lines);
}

/// Discriminated grouping consumes exactly four or five rows per group,
/// as each group's own first line decides: consecutive group starts
/// differ by the preceding group's size, so no leftover rows are merged
/// into an adjacent group.
pub proof fn lemma_discriminated_groups_consecutive(t: Seq<Seq<Seq<char>>>, i: int)
    requires
        0 <= i,
    ensures
        ({
            let starts = xf_group_starts(t, i);
            &&& (starts.len() > 0 ==> starts[0] == i)
            &&& forall|k: int|
                0 <= k < starts.len() ==> {
                    let s = #[trigger] starts[k];
                    &&& i <= s
                    &&& (if is_two_winding(t[s]) {
                        &&& s + 4 <= t.len()
                        &&& (k + 1 < starts.len() ==> starts[k + 1] == s + 4)
                    } else {
                        &&& s + 5 <= t.len()
                        &&& (k + 1 < starts.len() ==> starts[k + 1] == s + 5)
                    })
                }
        }),
    decreases t.len() - i,
{
    let starts = xf_group_starts(t, i);
    if is_two_winding(t[i]) {
        if i + 4 <= t.len() {
            lemma_discriminated_groups_consecutive(t, i + 4);
            let rest = xf_group_starts(t, i + 4);
            assert(starts =~= seq![i] + rest);
            assert(forall|k: int| 1 <= k < starts.len() ==> starts[k] == rest[k - 1]);
        }
    } else {
        if i + 5 <= t.len() {
            lemma_discriminated_groups_consecutive(t, i + 5);
            let rest = xf_group_starts(t, i + 5);
            assert(starts =~= seq![i] + rest);
            assert(forall|k: int| 1 <= k < starts.len() ==> starts[k] == rest[k - 1]);
        }
    }
}

/// The decimal digit character of `d`.
pub open spec fn digit_char(d: int) -> char {
    ((48 + d) as u8) as char
}

/// The decimal rendering of a non-negative integer.
pub open spec fn dec_digits(n: int) -> Seq<char>
    decreases n when n >= 0
{
    if n < 10 {
        seq![digit_char(n)]
    } else {
        dec_digits(n / 10) + seq![digit_char(n % 10)]
    }
}

proof fn lemma_digit_char(d: int)
    requires
        0 <= d <= 9,
    ensures
        is_digit(digit_char(d)),
        digit_val(digit_char(d)) == d,
{
}

proof fn lemma_dec_digits(n: int)
    requires
        n >= 0,
    ensures
        dec_digits(n).len() >= 1,
        all_digits(dec_digits(n)),
        digits_value(dec_digits(n)) == n,
    decreases n,
{
    if n < 10 {
        lemma_digit_char(n);
        let d = dec_digits(n);
        assert(d.drop_last() =~= Seq::<char>::empty());
        assert(digits_value(Seq::<char>::empty()) == 0);
        assert(d.last() == digit_char(n));
        assert(digits_value(d) == digits_value(d.drop_last()) * 10 + digit_val(d.last()));
    } else {
        lemma_dec_digits(n / 10);
        lemma_digit_char(n % 10);
        let head = dec_digits(n / 10);
        let d = dec_digits(n);
        assert(d.drop_last() =~= head);
        assert(d.last() == digit_char(n % 10));
        assert(digits_value(d) == digits_value(head) * 10 + digit_val(digit_char(n % 10)));
        assert((n / 10) * 10 + n % 10 == n);
        assert(forall|k: int| 0 <= k < d.len() - 1 ==> d[k] == head[k]);
    }
}

/// The first comma of a sequence is the comma that is known to have
/// none before it.
proof fn lemma_first_comma_at(s: Seq<char>, p: int)
    requires
        0 <= p < s.len(),
        s[p] == ',',
        forall|k: int| 0 <= k < p ==> s[k] != ',',
    ensures
        find_comma(s) == p,
{
    lemma_find_comma(s);
    if find_comma(s) > p {
        assert(s[p] != ',');
    }
    if find_comma(s) < p {
        assert(s[find_comma(s)] == ',');
    }
}

/// Trimming does not change a sequence that is empty or has no
/// whitespace at either end.
proof fn lemma_trim_id(s: Seq<char>)
    requires
        s.len() > 0 ==> !is_ws(s[0]) && !is_ws(s.last()),
    ensures
        trim(s) == s,
{
    assert(trim_start(s) == s);
    assert(trim_end(s) == s);
}

/// A re-serialization of an owner record: its identifier in decimal, a
/// comma, and its quoted name.
pub open spec fn owner_line(o: Owner) -> Seq<char> {
    dec_digits(o.owner_id as int) + seq![','] + (seq!['\''] + o.owner_name@ + seq!['\''])
}

/// Decoding an owner record's own re-serialization yields the record
/// back, field for field.  The round trip holds of fully-populated
/// records: a non-negative identifier, and a name free of commas and of
/// leading or trailing whitespace, so no lossy default substitution is
/// triggered.
pub proof fn lemma_owner_round_trip(o: Owner)
    requires
        o.owner_id >= 0,
        forall|k: int| 0 <= k < o.owner_name@.len() ==> o.owner_name@[k] != ',',
        o.owner_name@.len() > 0 ==> !is_ws(o.owner_name@[0]) && !is_ws(o.owner_name@.last()),
    ensures
        owner_matches(o, split_trim(owner_line(o))),
{
    let name = o.owner_name@;
    let d = dec_digits(o.owner_id as int);
    let q = seq!['\''] + name + seq!['\''];
    let line = owner_line(o);
    lemma_dec_digits(o.owner_id as int);
    // the line's first comma is the separator after the digits
    assert(line[d.len() as int] == ',');
    assert(forall|k: int| 0 <= k < d.len() ==> line[k] == d[k]);
    assert(forall|k: int| 0 <= k < d.len() ==> is_digit(line[k]) && line[k] != ',');
    lemma_first_comma_at(line, d.len() as int);
    assert(line.take(d.len() as int) =~= d);
    assert(line.skip(d.len() as int + 1) =~= q);
    // the quoted name holds no comma, so it is the second and last token
    assert(forall|k: int| 0 <= k < q.len() ==> q[k] != ',') by {
        assert(q[0] == '\'');
        assert(q[q.len() - 1] == '\'');
        assert(forall|k: int| 1 <= k < q.len() - 1 ==> q[k] == name[k - 1]);
    }
    lemma_find_comma(q);
    assert(find_comma(q) == q.len()) by {
        if find_comma(q) < q.len() {
            assert(q[find_comma(q)] == ',');
        }
    }
    assert(split_commas(q) =~= seq![q]);
    assert(split_commas(line) =~= seq![d] + split_commas(q));
    assert(split_commas(line) =~= seq![d, q]);
    // neither token carries whitespace at its ends
    assert(!is_ws(d[0]) && !is_ws(d.last()));
    lemma_trim_id(d);
    assert(q[0] == '\'' && q.last() == '\'');
    lemma_trim_id(q);
    let parts = split_trim(line);
    assert(parts =~~= seq![d, q]);
    // the identifier token reads back as the identifier
    assert(crate::text::strip_sign(d) == d);
    assert(crate::text::int_token_value(d) == o.owner_id);
    // the name token loses its quote layer and nothing else
    assert(unquote(q) =~= name);
    lemma_trim_id(name);
    assert(crate::text::clean_text(q) == name);
}

} // verus!
