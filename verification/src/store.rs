//! Process-local observable state.
//!
//! Two fields read by external surfaces: the timestamp of the last
//! delivered event (liveness) and the count of successfully completed
//! reconciles (metrics). The driver keeps the store behind its shared
//! lock; the mutations themselves are decided and performed here.
use vstd::prelude::*;

verus! {

/// Relies on std::time::SystemTime::now and SystemTime::duration_since:
/// the current wall-clock time, taken as Unix seconds. The reading is
/// total — duration_since errs instead of panicking when the clock stands
/// before the Unix epoch, and such a clock reads as the epoch itself.
/// Nothing is assumed of the value; callers state what holds of every
/// outcome.
#[verifier::external_body]
fn utc_now_seconds() -> i64 {
    match std::time::SystemTime::now().duration_since(std::time::UNIX_EPOCH) {
        Ok(since_epoch) => since_epoch.as_secs() as i64,
        Err(_) => 0,
    }
}

/// In-memory reconciler state exposed on the external status surface.
pub struct State {
    /// When the dispatcher last saw an event, as Unix seconds.
    pub last_event: i64,
}

impl State {
    /// Starts the store at the current time.
    pub fn new() -> State {
        State { last_event: utc_now_seconds() }
    }

    /// Records that an event was just delivered: stamps the store with the
    /// current time and returns the stamp. This happens at the start of
    /// every dispatch, before anything can fail, so liveness stays
    /// observable independent of success.
    pub fn record_event(&mut self) -> (t: i64)
        ensures
            final(self).last_event == t,
    {
        let t = utc_now_seconds();
        self.last_event = t;
        t
    }
}

/// The metrics counter exposed on the external metrics surface.
pub struct Metrics {
    /// How many reconcile passes completed successfully.
    pub handled_events: u64,
}

impl Metrics {
    /// Starts the counter at zero.
    pub fn new() -> (m: Metrics)
        ensures
            m.handled_events == 0,
    {
        Metrics { handled_events: 0 }
    }

    /// Counts one successfully handled event. The counter is monotonic and
    /// sticks at its ceiling rather than wrapping.
    pub fn inc_handled_events(&mut self)
        ensures
            final(self).handled_events == if old(self).handled_events < u64::MAX {
                old(self).handled_events + 1
            } else {
                old(self).handled_events as int
            },
    {
        if self.handled_events < u64::MAX {
            self.handled_events = self.handled_events + 1;
        }
    }
}

} // verus!
