use vstd::prelude::*;

verus! {

/// Why a geometric computation could not proceed.
#[derive(Debug)]
pub enum GeometryError {
    /// A measurement that must be strictly positive was zero or negative.
    NegativeValue,
    /// A measurement was zero where it must be non-zero (reserved: no rule
    /// of the library produces it; zero is reported as `NegativeValue`).
    ZeroValue,
    /// An angle was not in the range (0, 360] degrees.
    InvalidAngle,
    /// Any other violated requirement, with a description of it.
    InvalidInput(String),
}

impl GeometryError {
    /// Whether this is `InvalidInput` carrying the description `text`.
    pub open spec fn is_invalid_input_with(self, text: Seq<char>) -> bool {
        match self {
            GeometryError::InvalidInput(m) => m@ == text,
            _ => false,
        }
    }
}

} // verus!
