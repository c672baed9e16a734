//! The message kinds that travel on the bus.
use vstd::prelude::*;

verus! {

/// A greeting carried as UTF-8 text.
#[derive(Debug)]
pub struct Hello {
    pub msg: String,
}

impl PartialEq for Hello {
    fn eq(&self, o: &Hello) -> (r: bool) {
        self.msg == o.msg
    }
}

impl vstd::std_specs::cmp::PartialEqSpecImpl for Hello {
    open spec fn obeys_eq_spec() -> bool {
        true
    }

    open spec fn eq_spec(&self, o: &Hello) -> bool {
        self.msg@ == o.msg@
    }
}

/// A three-component vector of IEEE-754 binary64 numbers.
///
/// Each component is held as its bit pattern (what `f64::to_bits` gives), so
/// that every value, negative zero and NaN payloads included, is passed
/// through unchanged.
#[derive(Debug, Clone, Copy, PartialEq, Eq, Structural)]
pub struct Vector3 {
    pub x: u64,
    pub y: u64,
    pub z: u64,
}

/// A velocity command: a linear and an angular vector.
#[derive(Debug, Clone, Copy, PartialEq, Eq, Structural)]
pub struct Twist {
    pub linear: Vector3,
    pub angular: Vector3,
}

} // verus!
