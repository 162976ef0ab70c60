use vstd::prelude::*;

verus! {

/// How one request attempt ended.
#[derive(Clone, Copy, Debug, PartialEq, Eq, Structural)]
pub enum Attempt {
    /// A response arrived with this status code.
    Responded(u16),
    /// No usable response: connection refused, timeout, name lookup failure,
    /// malformed response.
    Unreachable,
}

/// A status code in the success range 200 to 299.
pub open spec fn success_status(code: int) -> bool {
    200 <= code <= 299
}

/// An attempt counts as a success exactly when it got a success status.
pub open spec fn succeeded(a: Attempt) -> bool {
    match a {
        Attempt::Responded(code) => success_status(code as int),
        Attempt::Unreachable => false,
    }
}

/// Whether a status code is in the success range.
pub fn is_success_status(code: u16) -> (r: bool)
    ensures
        r == success_status(code as int),
{
    200 <= code && code <= 299
}

/// Classifies an attempt as success or failure.
pub fn classify(a: Attempt) -> (r: bool)
    ensures
        r == succeeded(a),
{
    match a {
        Attempt::Responded(code) => is_success_status(code),
        Attempt::Unreachable => false,
    }
}

/// The success and failure tallies of one run. They only grow, by one per
/// resolved attempt.
#[derive(Clone, Copy, Debug, PartialEq, Eq, Structural)]
pub struct Counters {
    pub success: u64,
    pub failure: u64,
}

impl Counters {
    /// The number of resolved attempts.
    pub open spec fn total(&self) -> int {
        self.success + self.failure
    }

    /// Both tallies at zero.
    pub fn new() -> (r: Counters)
        ensures
            r.success == 0,
            r.failure == 0,
    {
        Counters { success: 0, failure: 0 }
    }

    /// Counts one resolved attempt in exactly one of the two tallies.
    pub fn record(&mut self, a: Attempt)
        requires
            old(self).total() < u64::MAX,
        ensures
            succeeded(a) ==> *final(self) == (Counters { success: (old(self).success + 1) as u64, ..*old(self) }),
            !succeeded(a) ==> *final(self) == (Counters { failure: (old(self).failure + 1) as u64, ..*old(self) }),
            final(self).total() == old(self).total() + 1,
    {
        if classify(a) {
            self.success = self.success + 1;
        } else {
            self.failure = self.failure + 1;
        }
    }

    /// The number of resolved attempts.
    pub fn total_count(&self) -> (r: u64)
        requires
            self.total() <= u64::MAX,
        ensures
            r == self.total(),
    {
        self.success + self.failure
    }
}

} // verus!
