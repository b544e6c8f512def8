use vstd::prelude::*;

verus! {

/// Seconds slept between two reads of the watched file's timestamp.
pub const POLL_INTERVAL_SECS: u64 = 2;

/// A modification time: whole seconds and the nanoseconds past them.
#[derive(Clone, Copy, Debug, PartialEq, Eq, Structural)]
pub struct Timestamp {
    pub secs: u64,
    pub nanos: u32,
}

impl Timestamp {
    /// `self` is strictly later than `other`.
    pub open spec fn later_spec(self, other: Timestamp) -> bool {
        self.secs > other.secs || (self.secs == other.secs && self.nanos > other.nanos)
    }

    pub fn is_later_than(&self, other: &Timestamp) -> (r: bool)
        ensures
            r == self.later_spec(*other),
    {
        self.secs > other.secs || (self.secs == other.secs && self.nanos > other.nanos)
    }
}

/// Whether one poll saw the file change: a timestamp was read and it is
/// later than the baseline. A poll that could not read one sees no change.
pub open spec fn change_seen_spec(baseline: Timestamp, observed: Option<Timestamp>) -> bool {
    match observed {
        Some(t) => t.later_spec(baseline),
        None => false,
    }
}

/// Decides one poll of the change watcher.
pub fn change_seen(baseline: Timestamp, observed: Option<Timestamp>) -> (r: bool)
    ensures
        r == change_seen_spec(baseline, observed),
{
    match observed {
        Some(t) => t.is_later_than(&baseline),
        None => false,
    }
}

} // verus!
