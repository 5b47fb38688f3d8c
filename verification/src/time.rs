//! Points in time, counted in whole seconds.

use vstd::prelude::*;

verus! {

/// A point in time: whole seconds since the Unix epoch.
#[derive(Clone, Copy, Debug, PartialEq, Eq, Structural)]
pub struct Timestamp {
    pub secs: i64,
}

impl View for Timestamp {
    type V = int;

    open spec fn view(&self) -> int {
        self.secs as int
    }
}

/// Whether a number of seconds can be held by a [`Timestamp`].
pub open spec fn representable(secs: int) -> bool {
    i64::MIN <= secs <= i64::MAX
}

impl Timestamp {
    /// The timestamp `secs` seconds after the epoch.
    pub fn new(secs: i64) -> (t: Timestamp)
        ensures
            t@ == secs,
    {
        Timestamp { secs }
    }

    /// The seconds that lie between `earlier` and `self`; negative when
    /// `self` is the earlier one.
    pub fn seconds_since(self, earlier: Timestamp) -> (d: i128)
        ensures
            d == self@ - earlier@,
    {
        self.secs as i128 - earlier.secs as i128
    }

    /// The timestamp `offset` seconds after `self`, or `None` when that
    /// point cannot be represented.
    pub fn checked_add_seconds(self, offset: i128) -> (r: Option<Timestamp>)
        ensures
            r is Some <==> representable(self@ + offset),
            r matches Some(t) ==> t@ == self@ + offset,
    {
        let lo: i128 = i64::MIN as i128 - self.secs as i128;
        let hi: i128 = i64::MAX as i128 - self.secs as i128;
        if offset < lo || offset > hi {
            None
        } else {
            Some(Timestamp { secs: (self.secs as i128 + offset) as i64 })
        }
    }
}

} // verus!
