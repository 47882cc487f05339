//! Decoder for the PSS/E RAW power-system exchange format.
//!
//! The engine consumes a byte buffer, splits it into lines, segments the
//! lines into per-record-kind sections, groups physical lines into logical
//! records, and decodes each logical record into a typed structure using a
//! revision-conditioned column map.  A missing or unparseable field never
//! aborts a record: it falls back to the field's schema default.
//!
//! Floating-point quantities are carried as their validated token text,
//! never re-encoded, so decoding is exact and loss-free; callers parse
//! the text to a machine float when they need arithmetic.

pub mod components;
pub mod fields;
pub mod laws;
pub mod lines;
pub mod pssedata;
pub mod scan;
pub mod text;

use vstd::prelude::*;

verus! {

/// The two layout eras of the format. All version-conditional column
/// arithmetic is driven by this classification, never by the raw revision
/// integer.
#[derive(Debug, Clone, Copy, PartialEq, Eq, Structural)]
pub enum CaseRevision {
    /// Revision below 34.
    Legacy,
    /// Revision 34 and above.
    Modern,
}

/// Classifies a header revision number into its layout era.
pub fn classify_revision(revision: i8) -> (r: CaseRevision)
    ensures
        r == spec_revision(revision as int),
{
    if revision >= 34 {
        CaseRevision::Modern
    } else {
        CaseRevision::Legacy
    }
}

/// The layout era of a revision number.
pub open spec fn spec_revision(revision: int) -> CaseRevision {
    if revision >= 34 {
        CaseRevision::Modern
    } else {
        CaseRevision::Legacy
    }
}

} // verus!
