//! Success and failure counters of the dispatched requests.

use vstd::prelude::*;

verus! {

/// The two counters of an enabled recorder.
#[derive(Clone, Copy, Debug, PartialEq, Eq, Structural)]
pub struct MetricsInner {
    pub succeeded: u64,
    pub failed: u64,
}

/// Runtime API metrics: either disabled, or a pair of counters.
#[derive(Clone, Debug)]
pub struct Metrics(pub Option<MetricsInner>);

/// One more than `count`; a counter that has reached `u64::MAX` stays there.
pub open spec fn bump(count: u64) -> u64 {
    if count < u64::MAX {
        (count + 1) as u64
    } else {
        count
    }
}

/// What the counters are after one request with the given outcome was recorded.
pub open spec fn recorded(before: Option<MetricsInner>, succeeded: bool) -> Option<MetricsInner> {
    match before {
        None => None,
        Some(inner) => if succeeded {
            Some(MetricsInner { succeeded: bump(inner.succeeded), failed: inner.failed })
        } else {
            Some(MetricsInner { succeeded: inner.succeeded, failed: bump(inner.failed) })
        },
    }
}

fn bumped(count: u64) -> (next: u64)
    ensures
        next == bump(count),
{
    if count < u64::MAX {
        count + 1
    } else {
        count
    }
}

impl View for Metrics {
    type V = Option<MetricsInner>;

    open spec fn view(&self) -> Option<MetricsInner> {
        self.0
    }
}

impl Metrics {
    /// A recorder that counts nothing.
    pub fn disabled() -> (metrics: Metrics)
        ensures
            metrics@ is None,
    {
        Metrics(None)
    }

    /// A recorder with both counters at zero.
    pub fn enabled() -> (metrics: Metrics)
        ensures
            metrics@ == Some(MetricsInner { succeeded: 0, failed: 0 }),
    {
        Metrics(Some(MetricsInner { succeeded: 0, failed: 0 }))
    }

    /// The number of requests recorded as succeeded, zero when disabled.
    pub open spec fn spec_succeeded(&self) -> u64 {
        match self.0 {
            Some(inner) => inner.succeeded,
            None => 0,
        }
    }

    /// The number of requests recorded as failed, zero when disabled.
    pub open spec fn spec_failed(&self) -> u64 {
        match self.0 {
            Some(inner) => inner.failed,
            None => 0,
        }
    }

    #[verifier::when_used_as_spec(spec_succeeded)]
    pub fn succeeded(&self) -> (count: u64)
        ensures
            count == self.spec_succeeded(),
    {
        match &self.0 {
            Some(inner) => inner.succeeded,
            None => 0,
        }
    }

    #[verifier::when_used_as_spec(spec_failed)]
    pub fn failed(&self) -> (count: u64)
        ensures
            count == self.spec_failed(),
    {
        match &self.0 {
            Some(inner) => inner.failed,
            None => 0,
        }
    }

    /// Records the outcome of one request: exactly one of the two counters moves,
    /// and a disabled recorder stays as it is.
    pub fn on_request(&mut self, succeeded: bool)
        ensures
            final(self)@ == recorded(old(self)@, succeeded),
    {
        match self.0 {
            Some(inner) => {
                if succeeded {
                    self.0 = Some(MetricsInner { succeeded: bumped(inner.succeeded), failed: inner.failed });
                } else {
                    self.0 = Some(MetricsInner { succeeded: inner.succeeded, failed: bumped(inner.failed) });
                }
            },
            None => {},
        }
    }
}

impl Default for Metrics {
    fn default() -> (metrics: Metrics)
        ensures
            metrics@ is None,
    {
        Metrics(None)
    }
}

} // verus!
