//! Per-call metadata propagated from caller to handler.
use vstd::prelude::*;

verus! {

/// A per-call value carrying an optional deadline and a trace identifier.
/// Immutable once created; a fresh one is made per outbound call or per
/// inbound request and consumed by exactly one invocation.
///
/// The deadline is an absolute instant measured in milliseconds on whatever
/// monotonic clock the embedding program uses; `None` means unbounded.
#[derive(Clone, Copy, Debug)]
pub struct Context {
    /// Absolute instant after which the call should be abandoned, if any.
    pub deadline: Option<u64>,
    /// Opaque identifier tying together the traces of a request's lifetime.
    pub trace_id: u64,
}

impl Context {
    /// Explicit constructor for a fresh context with a specified deadline.
    pub fn new(deadline: Option<u64>, trace_id: u64) -> (c: Context)
        ensures
            c.deadline == deadline,
            c.trace_id == trace_id,
    {
        Context { deadline, trace_id }
    }

    /// The ambient context when a caller supplies none: unbounded deadline,
    /// empty trace.
    pub fn current() -> (c: Context)
        ensures
            c.deadline is None,
            c.trace_id == 0,
    {
        Context { deadline: None, trace_id: 0 }
    }

    /// Whether `now` has reached this context's deadline.
    pub open spec fn has_elapsed(self, now: u64) -> bool {
        match self.deadline {
            Some(d) => now >= d,
            None => false,
        }
    }

    /// Decides whether the deadline has elapsed at instant `now`.
    /// A context without a deadline never elapses.
    pub fn deadline_elapsed(&self, now: u64) -> (r: bool)
        ensures
            r == self.has_elapsed(now),
    {
        match self.deadline {
            Some(d) => now >= d,
            None => false,
        }
    }
}

} // verus!
