//! The case header: case-wide metadata decoded from the first data
//! line.  Every field independently falls back to its documented default
//! when absent or unparseable; in particular an unparseable revision
//! falls back to 33, a Legacy layout.

use vstd::prelude::*;
use crate::fields::{int8_at, read_i8, read_real, real_at};

verus! {

/// The case-wide metadata of a RAW case.
#[derive(Debug, Clone, PartialEq)]
pub struct HeaderInfo {
    /// New-case flag.
    pub ic: i8,
    /// System MVA base.
    pub sbase: String,
    /// Format revision number; below 34 is Legacy, 34 and above Modern.
    pub revision: i8,
    /// Units of the transformer ratings.
    pub transformer_rating_code: i8,
    /// Units of the non-transformer branch ratings.
    pub branch_rating_code: i8,
    /// System base frequency, Hz.
    pub system_frequency: String,
}

impl Default for HeaderInfo {
    /// The header of a case whose header line was never found: all
    /// fields zero, which classifies as Legacy.
    fn default() -> (r: HeaderInfo)
        ensures
            r.ic == 0,
            r.sbase@ == "0.0"@,
            r.revision == 0,
            r.transformer_rating_code == 0,
            r.branch_rating_code == 0,
            r.system_frequency@ == "0.0"@,
    {
        HeaderInfo {
            ic: 0,
            sbase: "0.0".to_owned(),
            revision: 0,
            transformer_rating_code: 0,
            branch_rating_code: 0,
            system_frequency: "0.0".to_owned(),
        }
    }
}

/// The column schema of the header line's tokens.
pub open spec fn header_matches(h: HeaderInfo, p: Seq<Seq<char>>) -> bool {
    &&& h.ic == int8_at(p, 0, 0)
    &&& h.sbase@ == real_at(p, 1, "100.0"@)
    &&& h.revision == int8_at(p, 2, 33)
    &&& h.transformer_rating_code == int8_at(p, 3, 0)
    &&& h.branch_rating_code == int8_at(p, 4, 0)
    &&& h.system_frequency@ == real_at(p, 5, "60.0"@)
}

/// Decodes the case header from the header line's tokens.
pub fn header_from_tokens(p: &Vec<Vec<char>>) -> (h: HeaderInfo)
    ensures
        header_matches(h, p.deep_view()),
{
    HeaderInfo {
        ic: read_i8(p, 0, 0),
        sbase: read_real(p, 1, "100.0"),
        revision: read_i8(p, 2, 33),
        transformer_rating_code: read_i8(p, 3, 0),
        branch_rating_code: read_i8(p, 4, 0),
        system_frequency: read_real(p, 5, "60.0"),
    }
}

} // verus!
