use vstd::prelude::*;

verus! {

/// An attempt to make a `NotNaN` from a NaN.
#[derive(Copy, Clone, PartialEq, Eq, Debug, Structural)]
pub struct FloatIsNaN;

impl FloatIsNaN {
    /// What went wrong, in words.
    pub fn description(&self) -> (r: &'static str)
        ensures
            r@ == "NotNaN constructed with NaN"@,
    {
        "NotNaN constructed with NaN"
    }
}

/// A failure to parse a `NotNaN` from text.
#[derive(Copy, Clone, PartialEq, Eq, Debug)]
pub enum ParseNotNaNError<E> {
    /// The text is not a float: the underlying parser's error.
    ParseFloatError(E),
    /// The text is a float, but a NaN.
    IsNaN,
}

impl<E> ParseNotNaNError<E> {
    /// What went wrong, in words.
    pub fn description(&self) -> (r: &'static str)
        ensures
            r@ == "Error parsing a not-NaN floating point value"@,
    {
        "Error parsing a not-NaN floating point value"
    }
}

} // verus!
