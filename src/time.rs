//! Units of frequency.
use vstd::prelude::*;

verus! {

/// A frequency in hertz.
#[derive(Clone, Copy, PartialEq, Eq, Structural, Debug)]
pub struct Hertz(pub u32);

/// A frequency in kilohertz.
#[derive(Clone, Copy, PartialEq, Eq, Structural, Debug)]
pub struct KiloHertz(pub u32);

impl KiloHertz {
    /// The same frequency in hertz.
    pub fn to_hertz(self) -> (r: Hertz)
        requires
            self.0 * 1000 <= u32::MAX,
        ensures
            r.0 == self.0 * 1000,
    {
        Hertz(self.0 * 1000)
    }
}

} // verus!
