//! The admission controller: a counter of in-flight requests, bounded by a
//! configurable concurrency ceiling.

use vstd::prelude::*;

verus! {

/// Settings of the http client.
///
/// Tracks how many requests are currently in flight against a configurable
/// ceiling. `acquire` is the only increment and `release` the only decrement of
/// the counter. A ceiling of zero admits nothing; lowering the ceiling below
/// the current count never cancels anything, it only blocks new admissions
/// until enough completions drain.
pub struct HttpClientSetting {
    /// max concurrent requests; may be changed at any time and takes effect on
    /// the next `is_available` check
    pub max_concurrent: usize,
    /// requests currently counted as in flight; mutated only by `acquire` and
    /// `release`
    pub current_clients: usize,
}

impl HttpClientSetting {
    /// The number of requests currently counted as in flight.
    pub open spec fn current(&self) -> int {
        self.current_clients as int
    }

    /// create a new http client setting with the given concurrency ceiling
    pub fn new(max_concurrent: usize) -> (r: Self)
        ensures
            r.max_concurrent == max_concurrent,
            r.current() == 0,
    {
        Self { max_concurrent, current_clients: 0 }
    }

    /// check if one more request may be admitted
    pub fn is_available(&self) -> (r: bool)
        ensures
            r == (self.current() < self.max_concurrent),
    {
        self.current_clients < self.max_concurrent
    }

    /// Count one admitted request. Called at most once per request, right
    /// before its fetch job is handed out.
    pub fn acquire(&mut self)
        requires
            old(self).current() < old(self).max_concurrent,
        ensures
            final(self).current() == old(self).current() + 1,
            final(self).max_concurrent == old(self).max_concurrent,
    {
        self.current_clients = self.current_clients + 1;
    }

    /// Release one slot. Called exactly once per drained completion.
    pub fn release(&mut self)
        requires
            old(self).current() > 0,
        ensures
            final(self).current() == old(self).current() - 1,
            final(self).max_concurrent == old(self).max_concurrent,
    {
        self.current_clients = self.current_clients - 1;
    }
}

impl Default for HttpClientSetting {
    /// The default ceiling is five concurrent requests.
    fn default() -> (r: Self)
        ensures
            r.max_concurrent == 5,
            r.current() == 0,
    {
        Self { max_concurrent: 5, current_clients: 0 }
    }
}

} // verus!
