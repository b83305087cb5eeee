use vstd::prelude::*;

verus! {

/// A moment without a time zone: whole seconds since the start of 1970, and the nanoseconds that
/// go on top (a thousand million or more within a leap second).
#[derive(Clone, Copy, Debug, PartialEq, Eq, Structural)]
pub struct Timestamp {
    pub secs: i64,
    pub nanos: u32,
}

impl Timestamp {
    /// Whether this moment is `other` or comes after it.
    pub open spec fn at_or_after(self, other: Timestamp) -> bool {
        self.secs > other.secs || (self.secs == other.secs && self.nanos >= other.nanos)
    }

    /// Whether this moment is `other` or comes after it.
    pub fn not_before(&self, other: &Timestamp) -> (yes: bool)
        ensures
            yes == self.at_or_after(*other),
    {
        self.secs > other.secs || (self.secs == other.secs && self.nanos >= other.nanos)
    }
}

} // verus!
