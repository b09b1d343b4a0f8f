use vstd::prelude::*;

verus! {

/// The engines that can compute an automorphism group.
#[derive(Copy, Clone, Debug, PartialEq, Eq, Structural)]
pub enum Backend {
    /// nauty on a dense adjacency bit-matrix.
    NautyDense,
    /// nauty on sparse adjacency lists.
    NautySparse,
    /// Traces on sparse adjacency lists.
    Traces,
}

/// The engine options that this library sets; every other option keeps the
/// engine's default.
#[derive(Copy, Clone, Debug, PartialEq, Eq, Structural)]
pub struct SearchOptions {
    /// Compute a canonical labelling as well.
    pub getcanon: bool,
    /// Start from the one-cell partition instead of the supplied one.
    pub defaultptn: bool,
    /// Treat the adjacency as directed.
    pub digraph: bool,
}

/// The options for `backend` on a graph whose directedness is `directed`.
///
/// Canonical labelling is never asked for and the partition handed in always
/// counts. nauty follows the graph's directedness; Traces is always run in
/// directed mode, since its encoding stores an undirected edge as two arcs.
pub open spec fn spec_options(backend: Backend, directed: bool) -> SearchOptions {
    SearchOptions {
        getcanon: false,
        defaultptn: false,
        digraph: match backend {
            Backend::Traces => true,
            _ => directed,
        },
    }
}

/// The backend that the plain entry point uses.
pub open spec fn spec_default_backend() -> Backend {
    Backend::NautyDense
}

/// The backend that the plain entry point uses: dense nauty, the one with
/// explicit size-limit errors.
pub fn default_backend() -> (r: Backend)
    ensures
        r == spec_default_backend(),
{
    Backend::NautyDense
}

/// Configures `backend` for a graph whose directedness is `directed`.
pub fn options_for(backend: Backend, directed: bool) -> (r: SearchOptions)
    ensures
        r == spec_options(backend, directed),
{
    let digraph = match backend {
        Backend::Traces => true,
        Backend::NautyDense => directed,
        Backend::NautySparse => directed,
    };
    SearchOptions { getcanon: false, defaultptn: false, digraph }
}

} // verus!
