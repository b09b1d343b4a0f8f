use vstd::prelude::*;

use crate::error::NautyError;
use crate::stats::{dense_status_known, EngineStats, MTOOBIG, NTOOBIG, STATUS_OK};

verus! {

/// Information on the automorphism group of a graph.
///
/// The order of the group is `grpsize_base * 10^grpsize_exp`, where
/// `grpsize_base` is the IEEE-754 double whose bit pattern is
/// `grpsize_base_bits`. Non-negative doubles have bit patterns ordered as the
/// numbers are, so the derived order compares mantissas numerically first.
#[derive(Copy, Clone, Debug, PartialEq, Eq, Structural, PartialOrd)]
pub struct Autom {
    /// Bit pattern of the mantissa of the group order.
    pub grpsize_base_bits: u64,
    /// Decimal exponent of the group order.
    pub grpsize_exp: u32,
    /// Number of orbits of the group on the vertices.
    pub num_orbits: u32,
    /// Number of generators the engine reported.
    pub num_generators: u32,
}

/// The all-zero summary, a placeholder before any computation.
pub open spec fn zero_autom() -> Autom {
    Autom { grpsize_base_bits: 0, grpsize_exp: 0, num_orbits: 0, num_generators: 0 }
}

impl Default for Autom {
    fn default() -> (r: Self)
        ensures
            r == zero_autom(),
    {
        Autom { grpsize_base_bits: 0, grpsize_exp: 0, num_orbits: 0, num_generators: 0 }
    }
}

/// The summary of an engine's statistics record: each field renamed, the
/// integer fields narrowed to `u32` as `as` does.
pub open spec fn autom_of(s: EngineStats) -> Autom {
    Autom {
        grpsize_base_bits: s.grpsize1_bits,
        grpsize_exp: s.grpsize2 as u32,
        num_orbits: s.numorbits as u32,
        num_generators: s.numgenerators as u32,
    }
}

/// What the dense strategy returns once the engine has filled `s`.
pub open spec fn spec_dense_outcome(s: EngineStats) -> Result<Autom, NautyError> {
    if s.errstatus == NTOOBIG {
        Err(NautyError::NTooBig)
    } else if s.errstatus == MTOOBIG {
        Err(NautyError::MTooBig)
    } else {
        Ok(autom_of(s))
    }
}

impl Autom {
    /// Converts an engine's statistics record, the same way for every engine.
    pub fn from_stats(s: EngineStats) -> (r: Autom)
        ensures
            r == autom_of(s),
    {
        Autom {
            grpsize_base_bits: s.grpsize1_bits,
            grpsize_exp: s.grpsize2 as u32,
            num_orbits: s.numorbits as u32,
            num_generators: s.numgenerators as u32,
        }
    }
}

/// Classifies the record that the dense engine filled: a completed run gives
/// its summary, the two size limits give their errors. No other status can
/// come from the dense engine on a well-formed encoding.
pub fn dense_outcome(s: EngineStats) -> (r: Result<Autom, NautyError>)
    requires
        dense_status_known(s.errstatus),
    ensures
        r == spec_dense_outcome(s),
        r is Ok <==> s.errstatus == STATUS_OK,
        r == Err::<Autom, NautyError>(NautyError::NTooBig) <==> s.errstatus == NTOOBIG,
        r == Err::<Autom, NautyError>(NautyError::MTooBig) <==> s.errstatus == MTOOBIG,
{
    if s.errstatus == NTOOBIG {
        Err(NautyError::NTooBig)
    } else if s.errstatus == MTOOBIG {
        Err(NautyError::MTooBig)
    } else {
        Ok(Autom::from_stats(s))
    }
}

/// Analyse a graph's automorphism group.
pub trait TryIntoAutom {
    type Error;

    fn try_into_autom(self) -> Result<Autom, Self::Error>;
}

/// Analyse a graph's automorphism group using sparse nauty.
pub trait TryIntoAutomNautySparse {
    type Error;

    fn try_into_autom_nauty_sparse(self) -> Result<Autom, Self::Error>;
}

/// Analyse a graph's automorphism group using dense nauty.
pub trait TryIntoAutomNautyDense {
    type Error;

    fn try_into_autom_nauty_dense(self) -> Result<Autom, Self::Error>;
}

/// Analyse a graph's automorphism group using Traces.
pub trait TryIntoAutomTraces {
    type Error;

    fn try_into_autom_traces(self) -> Result<Autom, Self::Error>;
}

} // verus!
