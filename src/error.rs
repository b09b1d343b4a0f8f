use vstd::prelude::*;

verus! {

/// Failures of the dense nauty backend: the graph does not fit its
/// fixed-capacity encoding.
#[derive(Copy, Clone, Debug, PartialEq, Eq, Structural)]
pub enum NautyError {
    /// More words per adjacency row are needed than the dense encoding allows.
    MTooBig,
    /// More vertices than the dense encoding allows.
    NTooBig,
}

impl NautyError {
    /// A short human-readable description of the failure.
    pub fn message(&self) -> (r: String)
        ensures
            *self == NautyError::MTooBig ==> r@ == "m too big"@,
            *self == NautyError::NTooBig ==> r@ == "n too big"@,
    {
        match self {
            NautyError::MTooBig => "m too big".to_string(),
            NautyError::NTooBig => "n too big".to_string(),
        }
    }
}

} // verus!
