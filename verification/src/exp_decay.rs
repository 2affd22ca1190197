//! State discipline of the asymmetric exponential-decay filter.
//!
//! The filter smooths a time-stamped signal: on each sample it blends the
//! new value into the stored one with a weight derived from the elapsed
//! time and a rise/fall time constant. The continuous blend is a function
//! of real-valued inputs and is computed by the caller; this module pins
//! the update discipline around it: the first sample seeds the state with
//! exactly the observed value and time, with no decay applied; a sample
//! whose timestamp equals the stored one leaves the state unchanged; any
//! other sample stores the caller's blended value and the new timestamp.

use vstd::prelude::*;

verus! {

/// Stored state of the decay filter: the last accepted value and its
/// timestamp in ticks, or nothing before the first sample.
pub struct ExpDecayState<T> {
    last: Option<(T, u64)>,
}

impl<T> ExpDecayState<T> {
    /// The held (value, time) pair, if any.
    pub closed spec fn state(self) -> Option<(T, u64)> {
        self.last
    }
}

impl<T: Copy> ExpDecayState<T> {
    /// A filter that has seen no sample yet.
    pub fn new() -> (s: ExpDecayState<T>)
        ensures
            s.state() is None,
    {
        ExpDecayState { last: None }
    }

    /// Whether a first sample has been accepted.
    pub fn is_seeded(&self) -> (r: bool)
        ensures
            r == (self.state() is Some),
    {
        self.last.is_some()
    }

    /// The held value and its timestamp, if any; the caller reads both to
    /// derive the elapsed time and the blend weight of the next sample.
    pub fn last(&self) -> (r: Option<(T, u64)>)
        ensures
            r == self.state(),
    {
        self.last
    }

    /// The current filtered value, once seeded.
    pub fn value(&self) -> (r: Option<T>)
        ensures
            match self.state() {
                Some(p) => r == Some(p.0),
                None => r is None,
            },
    {
        match &self.last {
            Some(p) => Some(p.0),
            None => None,
        }
    }

    /// Drop the held state, so that the next sample seeds the filter anew.
    /// The caller uses this when the held value has degenerated (it is the
    /// caller's numeric domain that knows what degenerate means).
    pub fn reset(&mut self)
        ensures
            final(self).state() is None,
    {
        self.last = None;
    }

    /// Accept a sample. The first sample seeds the state exactly, with no
    /// decay applied; a repeated timestamp is a no-op; otherwise the
    /// caller-computed blend of `value` into the stored value is kept,
    /// stamped with the new time.
    pub fn update(&mut self, value: T, time: u64, blended: T)
        ensures
            old(self).state() is None ==> final(self).state() == Some((value, time)),
            forall|p: (T, u64)|
                old(self).state() == Some(p) && time == p.1 ==> final(self).state() == Some(p),
            forall|p: (T, u64)|
                old(self).state() == Some(p) && time != p.1 ==> final(self).state() == Some(
                    (blended, time),
                ),
    {
        match &self.last {
            None => {
                self.last = Some((value, time));
            },
            Some(p) => {
                if time == p.1 {
                } else {
                    self.last = Some((blended, time));
                }
            },
        }
    }
}

} // verus!
