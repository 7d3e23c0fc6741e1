use vstd::prelude::*;

verus! {

/// How the colour channels of a specimen are treated.
#[derive(Debug, Clone, Copy, PartialEq, Eq, Structural)]
pub enum ColorMode {
    /// The three channels are mutated and scored separately.
    Rgb,
    /// The three channels always hold the same value.
    Grayscale,
}

} // verus!
