//! The generic record-decoding step.
//!
//! A decoded record is a struct whose every field is read from a token
//! table row by column offset.  The offset is selected by the case
//! revision; a missing or unparseable token never aborts the record but
//! falls back to the field's schema default.  Integer fields are
//! range-checked against their target width; floating-point fields keep
//! the validated token text; text fields are unquoted and trimmed.

use vstd::prelude::*;
use crate::CaseRevision;
use crate::lines::string_of_chars;
use crate::text::{
    check_real, clean_text, clean_text_exec, is_int_token, is_real_token, int_token_value,
    parse_int,
};

verus! {

/// The column offset of a field under the given revision.
pub open spec fn spec_off(rev: CaseRevision, legacy: int, modern: int) -> int {
    if rev is Modern {
        modern
    } else {
        legacy
    }
}

/// Selects a field's column offset by revision.
pub fn sel(rev: CaseRevision, legacy: usize, modern: usize) -> (r: usize)
    ensures
        r as int == spec_off(rev, legacy as int, modern as int),
{
    match rev {
        CaseRevision::Modern => modern,
        CaseRevision::Legacy => legacy,
    }
}

/// An integer field: the token's value when it is an integer token
/// within `[lo, hi]`, else the default.
pub open spec fn spec_int_field(p: Seq<Seq<char>>, off: int, lo: int, hi: int, dflt: int) -> int {
    if 0 <= off < p.len() && is_int_token(p[off]) && lo <= int_token_value(p[off]) <= hi {
        int_token_value(p[off])
    } else {
        dflt
    }
}

/// An integer field read at `i8` width.
pub open spec fn int8_at(p: Seq<Seq<char>>, off: int, dflt: int) -> int {
    spec_int_field(p, off, i8::MIN as int, i8::MAX as int, dflt)
}

/// An integer field read at `i16` width.
pub open spec fn int16_at(p: Seq<Seq<char>>, off: int, dflt: int) -> int {
    spec_int_field(p, off, i16::MIN as int, i16::MAX as int, dflt)
}

/// An integer field read at `i32` width.
pub open spec fn int32_at(p: Seq<Seq<char>>, off: int, dflt: int) -> int {
    spec_int_field(p, off, i32::MIN as int, i32::MAX as int, dflt)
}

/// A floating-point field: the token text when it is a real-number
/// token, else the default text.
pub open spec fn real_at(p: Seq<Seq<char>>, off: int, dflt: Seq<char>) -> Seq<char> {
    if 0 <= off < p.len() && is_real_token(p[off]) {
        p[off]
    } else {
        dflt
    }
}

/// A text field: the token with one layer of quotes stripped and
/// whitespace trimmed, or the default when the column is absent.
pub open spec fn text_at(p: Seq<Seq<char>>, off: int, dflt: Seq<char>) -> Seq<char> {
    if 0 <= off < p.len() {
        clean_text(p[off])
    } else {
        dflt
    }
}

fn int_field(p: &Vec<Vec<char>>, off: usize, lo: i64, hi: i64, dflt: i64) -> (r: i64)
    requires
        lo <= dflt <= hi,
    ensures
        r as int == spec_int_field(p.deep_view(), off as int, lo as int, hi as int, dflt as int),
        lo <= r <= hi,
{
    proof {
        if (off as int) < p.deep_view().len() {
            assert(p.deep_view()[off as int] == p@[off as int]@);
        }
    }
    if off < p.len() {
        match parse_int(&p[off], lo, hi) {
            Some(v) => v,
            None => dflt,
        }
    } else {
        dflt
    }
}

/// Reads an `i8`-width integer field.
pub fn read_i8(p: &Vec<Vec<char>>, off: usize, dflt: i8) -> (r: i8)
    ensures
        r as int == int8_at(p.deep_view(), off as int, dflt as int),
{
    int_field(p, off, i8::MIN as i64, i8::MAX as i64, dflt as i64) as i8
}

/// Reads an `i16`-width integer field.
pub fn read_i16(p: &Vec<Vec<char>>, off: usize, dflt: i16) -> (r: i16)
    ensures
        r as int == int16_at(p.deep_view(), off as int, dflt as int),
{
    int_field(p, off, i16::MIN as i64, i16::MAX as i64, dflt as i64) as i16
}

/// Reads an `i32`-width integer field.
pub fn read_i32(p: &Vec<Vec<char>>, off: usize, dflt: i32) -> (r: i32)
    ensures
        r as int == int32_at(p.deep_view(), off as int, dflt as int),
{
    int_field(p, off, i32::MIN as i64, i32::MAX as i64, dflt as i64) as i32
}

/// Reads a floating-point field as validated token text.
pub fn read_real(p: &Vec<Vec<char>>, off: usize, dflt: &str) -> (r: String)
    ensures
        r@ == real_at(p.deep_view(), off as int, dflt@),
{
    proof {
        if (off as int) < p.deep_view().len() {
            assert(p.deep_view()[off as int] == p@[off as int]@);
        }
    }
    if off < p.len() && check_real(&p[off]) {
        string_of_chars(&p[off])
    } else {
        dflt.to_owned()
    }
}

/// Reads a text field, stripping one layer of quotes and trimming.
pub fn read_text(p: &Vec<Vec<char>>, off: usize, dflt: &str) -> (r: String)
    ensures
        r@ == text_at(p.deep_view(), off as int, dflt@),
{
    proof {
        if (off as int) < p.deep_view().len() {
            assert(p.deep_view()[off as int] == p@[off as int]@);
        }
    }
    if off < p.len() {
        let c = clean_text_exec(&p[off]);
        string_of_chars(&c)
    } else {
        dflt.to_owned()
    }
}

} // verus!
