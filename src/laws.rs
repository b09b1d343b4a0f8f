//! Facts that relate the strategies to each other and to the engines' records.
use vstd::prelude::*;

use crate::autom::{autom_of, spec_dense_outcome};
use crate::options::{spec_options, Backend};
use crate::stats::{EngineStats, STATUS_OK};

verus! {

/// Bit pattern of the double `1.0`, the mantissa of the trivial group's order.
pub const ONE_BITS: u64 = 0x3ff0_0000_0000_0000;

/// Every count that an engine reports without a sign is kept exactly, and the
/// mantissa is carried bit for bit.
pub proof fn lemma_counts_kept(s: EngineStats)
    requires
        s.grpsize2 >= 0,
        s.numorbits >= 0,
        s.numgenerators >= 0,
    ensures
        autom_of(s).grpsize_base_bits == s.grpsize1_bits,
        autom_of(s).grpsize_exp == s.grpsize2,
        autom_of(s).num_orbits == s.numorbits,
        autom_of(s).num_generators == s.numgenerators,
{
}

/// An orbit count that an engine reports within `1..=n` for a graph on `n`
/// vertices stays within `1..=n` in the summary.
pub proof fn lemma_orbit_bounds_kept(s: EngineStats, n: nat)
    requires
        1 <= s.numorbits <= n,
    ensures
        1 <= autom_of(s).num_orbits <= n,
{
}

/// A trivial group reported by an engine (no generators, order `1.0 * 10^0`,
/// one orbit per vertex of a graph on `n` vertices) is summarised as the
/// trivial group on `n` vertices.
pub proof fn lemma_trivial_group_kept(s: EngineStats, n: nat)
    requires
        s.numgenerators == 0,
        s.grpsize1_bits == ONE_BITS,
        s.grpsize2 == 0,
        s.numorbits == n,
    ensures
        autom_of(s).num_generators == 0,
        autom_of(s).grpsize_base_bits == ONE_BITS,
        autom_of(s).grpsize_exp == 0,
        autom_of(s).num_orbits == n,
{
}

/// Dense and sparse nauty are configured alike on the same graph, and when
/// both engines report the same group order and orbit count, the dense
/// strategy succeeds with the same order and orbit count as the sparse one;
/// the generator counts may differ.
pub proof fn lemma_dense_sparse_agree(directed: bool, dense: EngineStats, sparse: EngineStats)
    requires
        dense.errstatus == STATUS_OK,
        dense.grpsize1_bits == sparse.grpsize1_bits,
        dense.grpsize2 == sparse.grpsize2,
        dense.numorbits == sparse.numorbits,
    ensures
        spec_options(Backend::NautyDense, directed) == spec_options(Backend::NautySparse, directed),
        spec_dense_outcome(dense) is Ok,
        spec_dense_outcome(dense)->Ok_0.grpsize_base_bits == autom_of(sparse).grpsize_base_bits,
        spec_dense_outcome(dense)->Ok_0.grpsize_exp == autom_of(sparse).grpsize_exp,
        spec_dense_outcome(dense)->Ok_0.num_orbits == autom_of(sparse).num_orbits,
{
}

/// Records that agree on the group order and the orbit count give summaries
/// that agree on them too, whatever generators were reported; records that
/// agree entirely give equal summaries and equal dense outcomes.
pub proof fn lemma_runs_repeat(s1: EngineStats, s2: EngineStats)
    requires
        s1.grpsize1_bits == s2.grpsize1_bits,
        s1.grpsize2 == s2.grpsize2,
        s1.numorbits == s2.numorbits,
    ensures
        autom_of(s1).grpsize_base_bits == autom_of(s2).grpsize_base_bits,
        autom_of(s1).grpsize_exp == autom_of(s2).grpsize_exp,
        autom_of(s1).num_orbits == autom_of(s2).num_orbits,
        s1 == s2 ==> autom_of(s1) == autom_of(s2),
        s1 == s2 ==> spec_dense_outcome(s1) == spec_dense_outcome(s2),
{
}

} // verus!
