//! Frequencies and line speeds.

use vstd::prelude::*;

verus! {

/// A frequency in cycles per second.
#[derive(Clone, Copy, Debug, PartialEq, Eq, PartialOrd, Ord, Structural)]
pub struct Hertz(pub u32);

/// A line speed in bits per second.
#[derive(Clone, Copy, Debug, PartialEq, Eq, PartialOrd, Ord, Structural)]
pub struct Bps(pub u32);

/// Unit suffixes for plain integers.
pub trait U32Ext {
    /// The frequency that the integer stands for when read as hertz.
    spec fn hz_spec(self) -> Hertz;

    /// The line speed that the integer stands for when read as bits per
    /// second.
    spec fn bps_spec(self) -> Bps;

    /// Reads the integer as a frequency in hertz.
    fn hz(self) -> (f: Hertz)
        ensures
            f == self.hz_spec(),
    ;

    /// Reads the integer as a line speed in bits per second.
    fn bps(self) -> (b: Bps)
        ensures
            b == self.bps_spec(),
    ;
}

impl U32Ext for u32 {
    open spec fn hz_spec(self) -> Hertz {
        Hertz(self)
    }

    open spec fn bps_spec(self) -> Bps {
        Bps(self)
    }

    fn hz(self) -> (f: Hertz) {
        Hertz(self)
    }

    fn bps(self) -> (b: Bps) {
        Bps(self)
    }
}

impl From<u32> for Hertz {
    fn from(v: u32) -> (f: Hertz) {
        Hertz(v)
    }
}

impl vstd::std_specs::convert::FromSpecImpl<u32> for Hertz {
    open spec fn obeys_from_spec() -> bool {
        true
    }

    open spec fn from_spec(v: u32) -> Hertz {
        Hertz(v)
    }
}

} // verus!
