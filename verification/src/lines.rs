//! The line store and the per-line tokenizing pipeline.
//!
//! A RAW case arrives as one byte buffer.  It is split on newline bytes
//! into lines; each line that decodes as UTF-8 is split into trimmed
//! comma-separated tokens, and lines that do not decode are skipped as
//! if absent.  Tokenizing the lines of a section is data-parallel, so it
//! fans out across worker threads with the results collected back in
//! line order.

use rayon::iter::{IntoParallelRefIterator, ParallelIterator};
use vstd::prelude::*;
use vstd::slice::slice_subrange;
use vstd::utf8::{decode_utf8, valid_utf8};
use crate::text::{split_line, split_trim};

verus! {

/// The characters of a line, if its bytes are valid UTF-8.
pub open spec fn line_decode(bytes: Seq<u8>) -> Option<Seq<char>> {
    if valid_utf8(bytes) {
        Some(decode_utf8(bytes))
    } else {
        None
    }
}

/// Relies on `str::from_utf8`: it accepts exactly the byte sequences that
/// are valid UTF-8 and yields the characters they encode, which
/// `str::chars` then produces in order.
#[verifier::external_body]
pub(crate) fn line_chars(b: &[u8]) -> (r: Option<Vec<char>>)
    ensures
        r is Some <==> valid_utf8(b@),
        r matches Some(v) ==> v@ == decode_utf8(b@),
{
    match core::str::from_utf8(b) {
        Ok(s) => Some(s.chars().collect()),
        Err(_) => None,
    }
}

/// Relies on `String::from_iter` over characters: the collected string
/// holds exactly the iterated characters, in order.
#[verifier::external_body]
pub(crate) fn string_of_chars(v: &Vec<char>) -> (r: String)
    ensures
        r@ == v@,
{
    v.iter().collect()
}

/// The token table of a section: one row of trimmed tokens for each line
/// whose bytes decode as UTF-8, in line order.
pub open spec fn table_of(lines: Seq<Seq<u8>>) -> Seq<Seq<Seq<char>>>
    decreases lines.len(),
{
    if lines.len() == 0 {
        Seq::empty()
    } else {
        table_of(lines.drop_last()) + match line_decode(lines.last()) {
            Some(cs) => seq![split_trim(cs)],
            None => Seq::empty(),
        }
    }
}

/// The byte sequences of a slice of line slices.
pub open spec fn line_views(lines: Seq<&[u8]>) -> Seq<Seq<u8>> {
    lines.map_values(|b: &[u8]| b@)
}

/// Tokenizes one line: the trimmed comma-separated tokens of its
/// characters, or nothing if the bytes are not valid UTF-8.
pub fn line_tokens(b: &[u8]) -> (r: Option<Vec<Vec<char>>>)
    ensures
        match line_decode(b@) {
            Some(cs) => r matches Some(t) && t.deep_view() == split_trim(cs),
            None => r is None,
        },
{
    match line_chars(b) {
        Some(cs) => Some(split_line(&cs)),
        None => None,
    }
}

/// Relies on rayon's `par_iter`, `ParallelIterator::filter_map` and
/// `collect` into `Vec`, which apply the closure to every line and
/// collect the retained results in input order; the closure only calls
/// the verified per-line tokenizer above.
#[verifier::external_body]
fn par_tokenize(lines: &[&[u8]]) -> (r: Vec<Vec<Vec<char>>>)
    ensures
        r.deep_view() == table_of(line_views(lines@)),
{
    lines.par_iter().filter_map(|b| line_tokens(b)).collect()
}

/// The token table of a section's lines: one row per UTF-8-decodable
/// line, in line order.
pub fn tokenize_lines(lines: &[&[u8]]) -> (r: Vec<Vec<Vec<char>>>)
    ensures
        r.deep_view() == table_of(line_views(lines@)),
{
    par_tokenize(lines)
}

/// A section with no lines has an empty token table.
pub proof fn lemma_table_of_empty(lines: Seq<Seq<u8>>)
    requires
        lines.len() == 0,
    ensures
        table_of(lines).len() == 0,
{
}

/// A section whose every line decodes has one token row per line.
pub proof fn lemma_table_of_all_decodable(lines: Seq<Seq<u8>>)
    requires
        forall|i: int| 0 <= i < lines.len() ==> valid_utf8(#[trigger] lines[i]),
    ensures
        table_of(lines).len() == lines.len(),
    decreases lines.len(),
{
    if lines.len() > 0 {
        assert(forall|i: int|
            0 <= i < lines.drop_last().len() ==> lines.drop_last()[i] == lines[i]);
        lemma_table_of_all_decodable(lines.drop_last());
    }
}

// ---------------------------------------------------------------------
// Splitting the raw buffer into lines
// ---------------------------------------------------------------------
/// Index of the first newline byte in `s`, or `s.len()`.
pub open spec fn find_nl(s: Seq<u8>) -> int
    decreases s.len(),
{
    if s.len() == 0 {
        0
    } else if s[0] == 10u8 {
        0
    } else {
        1 + find_nl(s.drop_first())
    }
}

pub proof fn lemma_find_nl(s: Seq<u8>)
    ensures
        0 <= find_nl(s) <= s.len(),
        find_nl(s) < s.len() ==> s[find_nl(s)] == 10u8,
        forall|k: int| 0 <= k < find_nl(s) ==> s[k] != 10u8,
    decreases s.len(),
{
    if s.len() > 0 && s[0] != 10u8 {
        lemma_find_nl(s.drop_first());
        assert(forall|k: int| 1 <= k < s.len() ==> s[k] == s.drop_first()[k - 1]);
    }
}

/// The newline-separated pieces of a buffer, in order.  A buffer without
/// a newline is a single line; a trailing newline yields a trailing
/// empty line.
pub open spec fn split_newlines(s: Seq<u8>) -> Seq<Seq<u8>>
    decreases s.len(),
{
    let p = find_nl(s);
    if p == s.len() {
        seq![s]
    } else if 0 <= p < s.len() {
        seq![s.take(p)] + split_newlines(s.skip(p + 1))
    } else {
        seq![s]  // unreachable: find_nl is within bounds
    }
}

/// Splits the buffer on newline bytes into borrowed line slices.
pub fn split_lines(buf: &[u8]) -> (r: Vec<&[u8]>)
    ensures
        line_views(r@) =~~= split_newlines(buf@),
{
    let n = buf.len();
    let mut r: Vec<&[u8]> = Vec::new();
    let mut start: usize = 0;
    let ghost whole = buf@;
    proof {
        assert(line_views(r@) =~~= Seq::<Seq<u8>>::empty());
        assert(whole.skip(0) =~= whole);
    }
    loop
        invariant_except_break
            split_newlines(whole) =~~= line_views(r@) + split_newlines(whole.skip(start as int)),
        invariant
            0 <= start <= n == buf@.len(),
            whole == buf@,
        ensures
            split_newlines(whole) =~~= line_views(r@),
        decreases n - start,
    {
        let mut j = start;
        while j < n && buf[j] != 10u8
            invariant
                start <= j <= n == buf@.len(),
                forall|k: int| start <= k < j ==> buf@[k] != 10u8,
            decreases n - j,
        {
            j += 1;
        }
        let ghost suf = whole.skip(start as int);
        proof {
            lemma_find_nl(suf);
            assert(forall|k: int| 0 <= k < suf.len() ==> suf[k] == whole[start + k]);
            assert(forall|k: int| 0 <= k < j - start ==> suf[k] != 10u8);
            if j < n {
                assert(suf[j - start] == 10u8);
                assert(find_nl(suf) <= j - start) by {
                    if find_nl(suf) > j - start {
                        assert(suf[j - start] != 10u8);
                    }
                }
                assert(find_nl(suf) >= j - start) by {
                    if find_nl(suf) < j - start {
                        assert(suf[find_nl(suf)] == 10u8);
                    }
                }
            } else {
                assert(find_nl(suf) == suf.len()) by {
                    if find_nl(suf) < suf.len() {
                        assert(suf[find_nl(suf)] == 10u8);
                    }
                }
            }
        }
        let piece = slice_subrange(buf, start, j);
        let ghost prev = line_views(r@);
        r.push(piece);
        proof {
            assert(line_views(r@) =~~= prev + seq![piece@]);
        }
        if j < n {
            proof {
                assert(suf.take(j - start) =~= whole.subrange(start as int, j as int));
                assert(suf.skip(j - start + 1) =~= whole.skip(j + 1));
                assert(split_newlines(suf) =~~= seq![suf.take(j - start)] + split_newlines(
                    whole.skip(j + 1),
                ));
                assert(split_newlines(whole) =~~= line_views(r@) + split_newlines(
                    whole.skip(j + 1),
                ));
            }
            start = j + 1;
        } else {
            proof {
                assert(split_newlines(suf) =~~= seq![suf]);
                assert(suf =~= whole.subrange(start as int, j as int));
                assert(split_newlines(whole) =~~= line_views(r@));
            }
            break ;
        }
    }
    r
}

} // verus!
