use vstd::prelude::*;

verus! {

/// `errstatus` of a run that completed.
pub const STATUS_OK: i32 = 0;

/// nauty's `NTOOBIG`: more vertices than the dense encoding can hold.
pub const NTOOBIG: i32 = 1;

/// nauty's `MTOOBIG`: more words per row than the dense encoding can hold.
pub const MTOOBIG: i32 = 2;

/// The fields of an engine's statistics record (nauty's `statsblk` or
/// Traces' `TracesStats`) that a summary is built from, as plain values.
///
/// The group order is `grpsize1 * 10^grpsize2`; `grpsize1` is an IEEE-754
/// double and is carried here by its bit pattern.
#[derive(Copy, Clone, Debug, PartialEq, Eq, Structural)]
pub struct EngineStats {
    pub grpsize1_bits: u64,
    pub grpsize2: i32,
    pub numorbits: i32,
    pub numgenerators: i32,
    pub errstatus: i32,
}

/// The status codes that the dense engine may report on inputs that this
/// library hands it.
pub open spec fn dense_status_known(status: i32) -> bool {
    status == STATUS_OK || status == NTOOBIG || status == MTOOBIG
}

} // verus!
