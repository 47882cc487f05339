//! Generators: one logical record per physical line; the Modern layout
//! inserts the regulated-bus node column after the regulated bus.

use vstd::prelude::*;
use crate::CaseRevision;
use crate::fields::{int8_at, int16_at, int32_at, read_i8, read_i16, read_i32, read_real, read_text,
    real_at, sel, spec_off, text_at};
use crate::lines::{line_views, table_of, tokenize_lines};
use crate::{classify_revision, spec_revision};

verus! {

/// One generator of the case.
#[derive(Debug, Clone, Default, PartialEq)]
pub struct Generator {
    /// Bus the machine is connected to.
    pub bus_id: i32,
    /// Machine identifier.
    pub id: String,
    /// Active power output, MW.
    pub pgen: String,
    /// Reactive power output, Mvar.
    pub qgen: String,
    /// Maximum reactive power output, Mvar.
    pub qmax: String,
    /// Minimum reactive power output, Mvar.
    pub qmin: String,
    /// Regulated voltage setpoint, p.u.
    pub voltage_set: String,
    /// Bus regulated by the machine.
    pub reg_bus_id: i32,
    /// Node regulated by the machine; present under Modern layouts only.
    pub reg_bus_node: i32,
    /// Machine MVA base.
    pub mbase: String,
    /// Machine impedance, real part, p.u.
    pub zr: String,
    /// Machine impedance, imaginary part, p.u.
    pub zx: String,
    /// Step-up transformer resistance, p.u.
    pub rt: String,
    /// Step-up transformer reactance, p.u.
    pub xt: String,
    /// Step-up transformer tap ratio.
    pub gtap: String,
    /// Machine status.
    pub status: i8,
    /// Percent of Mvar required to hold the regulated voltage.
    pub rmpct: String,
    /// Maximum active power output, MW.
    pub pmax: String,
    /// Minimum active power output, MW.
    pub pmin: String,
    /// Base-loaded flag.
    pub base_loaded: i8,
    /// Owner number 1.
    pub owner1: i16,
    /// Ownership fraction 1.
    pub owner1_percent: String,
    /// Owner number 2.
    pub owner2: i16,
    /// Ownership fraction 2.
    pub owner2_percent: String,
    /// Owner number 3.
    pub owner3: i16,
    /// Ownership fraction 3.
    pub owner3_percent: String,
    /// Owner number 4.
    pub owner4: i16,
    /// Ownership fraction 4.
    pub owner4_percent: String,
    /// Machine control mode.
    pub machine_mode: i8,
    /// Machine power factor.
    pub machine_powerfactor: String,
}

/// The column schema of a generator record under the given revision.
pub open spec fn generator_matches(g: Generator, p: Seq<Seq<char>>, rev: CaseRevision) -> bool {
    let a = spec_off(rev, 0, 1);
    &&& g.bus_id == int32_at(p, 0, 0)
    &&& g.id@ == text_at(p, 1, "1"@)
    &&& g.pgen@ == real_at(p, 2, "0.0"@)
    &&& g.qgen@ == real_at(p, 3, "0.0"@)
    &&& g.qmax@ == real_at(p, 4, "9999.0"@)
    &&& g.qmin@ == real_at(p, 5, "-9999.0"@)
    &&& g.voltage_set@ == real_at(p, 6, "1.0"@)
    &&& g.reg_bus_id == int32_at(p, 7, 0)
    &&& g.reg_bus_node == (if rev is Modern {
        int32_at(p, 8, 0)
    } else {
        0int
    })
    &&& g.mbase@ == real_at(p, 8 + a, "100.0"@)
    &&& g.zr@ == real_at(p, 9 + a, "0.0"@)
    &&& g.zx@ == real_at(p, 10 + a, "1.0"@)
    &&& g.rt@ == real_at(p, 11 + a, "0.0"@)
    &&& g.xt@ == real_at(p, 12 + a, "0.0"@)
    &&& g.gtap@ == real_at(p, 13 + a, "1.0"@)
    &&& g.status == int8_at(p, 14 + a, 1)
    &&& g.rmpct@ == real_at(p, 15 + a, "100.0"@)
    &&& g.pmax@ == real_at(p, 16 + a, "9999.0"@)
    &&& g.pmin@ == real_at(p, 17 + a, "-9999.0"@)
    &&& g.base_loaded == int8_at(p, 18 + a, 0)
    &&& g.owner1 == int16_at(p, 19 + a, 1)
    &&& g.owner1_percent@ == real_at(p, 20 + a, "1.0"@)
    &&& g.owner2 == int16_at(p, 21 + a, 0)
    &&& g.owner2_percent@ == real_at(p, 22 + a, "1.0"@)
    &&& g.owner3 == int16_at(p, 23 + a, 0)
    &&& g.owner3_percent@ == real_at(p, 24 + a, "1.0"@)
    &&& g.owner4 == int16_at(p, 25 + a, 0)
    &&& g.owner4_percent@ == real_at(p, 26 + a, "1.0"@)
    &&& g.machine_mode == int8_at(p, 27 + a, 0)
    &&& g.machine_powerfactor@ == real_at(p, 28 + a, "1.0"@)
}

/// A decoded generator section: one record per decodable line, in file
/// order.
pub open spec fn generator_section_ok(
    r: Seq<Generator>,
    lines: Seq<Seq<u8>>,
    rev: CaseRevision,
) -> bool {
    let t = table_of(lines);
    &&& r.len() == t.len()
    &&& forall|i: int| 0 <= i < t.len() ==> generator_matches(#[trigger] r[i], t[i], rev)
}

/// Decodes one generator record from a token row.
pub fn generator_from_tokens(p: &Vec<Vec<char>>, rev: CaseRevision) -> (g: Generator)
    ensures
        generator_matches(g, p.deep_view(), rev),
{
    let a = sel(rev, 0, 1);
    Generator {
        bus_id: read_i32(p, 0, 0),
        id: read_text(p, 1, "1"),
        pgen: read_real(p, 2, "0.0"),
        qgen: read_real(p, 3, "0.0"),
        qmax: read_real(p, 4, "9999.0"),
        qmin: read_real(p, 5, "-9999.0"),
        voltage_set: read_real(p, 6, "1.0"),
        reg_bus_id: read_i32(p, 7, 0),
        reg_bus_node: if let CaseRevision::Modern = rev {
            read_i32(p, 8, 0)
        } else {
            0
        },
        mbase: read_real(p, 8 + a, "100.0"),
        zr: read_real(p, 9 + a, "0.0"),
        zx: read_real(p, 10 + a, "1.0"),
        rt: read_real(p, 11 + a, "0.0"),
        xt: read_real(p, 12 + a, "0.0"),
        gtap: read_real(p, 13 + a, "1.0"),
        status: read_i8(p, 14 + a, 1),
        rmpct: read_real(p, 15 + a, "100.0"),
        pmax: read_real(p, 16 + a, "9999.0"),
        pmin: read_real(p, 17 + a, "-9999.0"),
        base_loaded: read_i8(p, 18 + a, 0),
        owner1: read_i16(p, 19 + a, 1),
        owner1_percent: read_real(p, 20 + a, "1.0"),
        owner2: read_i16(p, 21 + a, 0),
        owner2_percent: read_real(p, 22 + a, "1.0"),
        owner3: read_i16(p, 23 + a, 0),
        owner3_percent: read_real(p, 24 + a, "1.0"),
        owner4: read_i16(p, 25 + a, 0),
        owner4_percent: read_real(p, 26 + a, "1.0"),
        machine_mode: read_i8(p, 27 + a, 0),
        machine_powerfactor: read_real(p, 28 + a, "1.0"),
    }
}

/// Decodes the generator section under the given revision number.
pub fn parse_generators(lines: &[&[u8]], psse_version: i8) -> (r: Vec<Generator>)
    ensures
        generator_section_ok(r@, line_views(lines@), spec_revision(psse_version as int)),
{
    let rev = classify_revision(psse_version);
    let t = tokenize_lines(lines);
    let n = t.len();
    let mut r: Vec<Generator> = Vec::new();
    let mut i: usize = 0;
    while i < n
        invariant
            0 <= i <= n == t@.len(),
            rev == spec_revision(psse_version as int),
            t.deep_view() == table_of(line_views(lines@)),
            r@.len() == i,
            forall|k: int| 0 <= k < i ==> generator_matches(#[trigger] r@[k], t.deep_view()[k], rev),
        decreases n - i,
    {
        proof {
            assert(t.deep_view()[i as int] == t@[i as int].deep_view());
        }
        let g = generator_from_tokens(&t[i], rev);
        r.push(g);
        i += 1;
    }
    r
}

} // verus!
