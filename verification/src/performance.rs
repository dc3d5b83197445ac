//! The performance clock behind the environment's `performance.now()`:
//! milliseconds since a reference timestamp captured once when the engine is
//! created, guaranteed monotonically non-decreasing across any sequence of
//! readings even if the underlying clock misbehaves.
//!
//! The raw reading comes from the platform's monotonic clock through trusted
//! wrappers; the monotonicity guarantee itself is enforced, and proved, in
//! verified code: every reported value is the maximum of the raw reading and
//! everything reported before.

use vstd::prelude::*;

verus! {

#[verifier::external_type_specification]
#[verifier::external_body]
pub struct ExInstant(std::time::Instant);

/// Relies on `std::time::Instant::now`: an opaque reading of the platform's
/// monotonic clock.  Nothing is assumed about the value.
#[verifier::external_body]
fn instant_now() -> (r: std::time::Instant) {
    std::time::Instant::now()
}

/// Relies on `std::time::Instant::elapsed`: the time between `start` and the
/// call, as an opaque duration.  Nothing is assumed about the value.
#[verifier::external_body]
fn instant_elapsed(start: &std::time::Instant) -> (r: core::time::Duration) {
    start.elapsed()
}

/// Relies on `core::time::Duration::as_millis`: the duration in whole
/// milliseconds.  Nothing is assumed about the value.
#[verifier::external_body]
fn duration_as_millis(d: &core::time::Duration) -> (r: u128) {
    d.as_millis()
}

/// What one clock reading reports given everything reported before: the raw
/// reading, unless something larger was already reported.
pub open spec fn observe_spec(last: u64, raw: u64) -> u64 {
    if raw >= last {
        raw
    } else {
        last
    }
}

/// The sequence of values the clock reports for a sequence of raw readings.
pub open spec fn clock_outputs(last: u64, raws: Seq<u64>) -> Seq<u64>
    decreases raws.len(),
{
    if raws.len() == 0 {
        Seq::empty()
    } else {
        let m = observe_spec(last, raws[0]);
        seq![m] + clock_outputs(m, raws.drop_first())
    }
}

/// The monotonic performance clock: a reference timestamp and the largest
/// value reported so far.
pub struct PerformanceClock {
    origin: std::time::Instant,
    last_ms: u64,
}

impl PerformanceClock {
    /// The largest value reported so far, for contracts.
    pub closed spec fn spec_last(&self) -> u64 {
        self.last_ms
    }

    /// Folds one raw reading into the clock: reports the maximum of the raw
    /// reading and everything reported before, and remembers it.
    pub fn observe(&mut self, raw_ms: u64) -> (ms: u64)
        ensures
            ms == observe_spec(old(self).spec_last(), raw_ms),
            final(self).spec_last() == ms,
    {
        let ms = if raw_ms >= self.last_ms {
            raw_ms
        } else {
            self.last_ms
        };
        self.last_ms = ms;
        ms
    }

    /// Milliseconds since the reference timestamp, monotonically
    /// non-decreasing across calls whatever the platform clock returns.
    pub fn now(&mut self) -> (ms: u64)
        ensures
            ms >= old(self).spec_last(),
            final(self).spec_last() == ms,
    {
        let elapsed = instant_elapsed(&self.origin);
        let millis = duration_as_millis(&elapsed);
        let raw: u64 = if millis > u64::MAX as u128 {
            u64::MAX
        } else {
            millis as u64
        };
        self.observe(raw)
    }
}

/// Captures the reference timestamp and starts a fresh performance clock.
pub fn start_performance_timer() -> (c: PerformanceClock)
    ensures
        c.spec_last() == 0,
{
    PerformanceClock { origin: instant_now(), last_ms: 0 }
}

/// Every value the clock reports is at least `last`, and the reported values
/// never decrease.  Stated over the pure reading-folding function, so it
/// holds of any sequence of raw readings.
pub proof fn lemma_clock_outputs_bounds(last: u64, raws: Seq<u64>)
    ensures
        clock_outputs(last, raws).len() == raws.len(),
        forall|k: int|
            0 <= k < raws.len() ==> #[trigger] clock_outputs(last, raws)[k] >= last,
        forall|i: int, j: int|
            0 <= i <= j < raws.len() ==> #[trigger] clock_outputs(last, raws)[i]
                <= #[trigger] clock_outputs(last, raws)[j],
    decreases raws.len(),
{
    if raws.len() > 0 {
        let m = observe_spec(last, raws[0]);
        let rest = clock_outputs(m, raws.drop_first());
        lemma_clock_outputs_bounds(m, raws.drop_first());
        assert(clock_outputs(last, raws) == seq![m] + rest);
        assert forall|k: int| 1 <= k < raws.len() implies #[trigger] clock_outputs(
            last,
            raws,
        )[k] == rest[k - 1] by {
            assert((seq![m] + rest)[k] == rest[k - 1]);
        }
    }
}

/// Law: `performance.now()` values are monotonically non-decreasing across
/// any sequence of calls in one clock lifetime.
pub proof fn lemma_performance_now_monotonic(last: u64, raws: Seq<u64>, i: int, j: int)
    requires
        0 <= i <= j < clock_outputs(last, raws).len(),
    ensures
        clock_outputs(last, raws)[i] <= clock_outputs(last, raws)[j],
{
    lemma_clock_outputs_bounds(last, raws);
}

} // verus!
