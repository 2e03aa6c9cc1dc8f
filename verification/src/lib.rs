//! A low-level library to build event driven applications. The core of the
//! library is [`poll`], which polls multiple event sources for readiness
//! events and hands them to an event sink.
//!
//! Event sources provided here are [`Queue`], a user space readiness queue,
//! and [`Timers`], a deadline based readiness queue.

use vstd::prelude::*;

pub mod atomic_state;
pub mod clock;
pub mod deadlines;
pub mod event;
pub mod os;
pub mod poll;
pub mod readiness;
pub mod registration;
pub mod selector_id;
pub mod time;
pub mod timer;
pub mod timers;
pub mod user_space;

use crate::event::{Sink, Source, sink_extended, lemma_sink_extended_trans, lemma_sink_extended_refl};
use crate::time::Duration;

verus! {

/// The smaller of two timeouts, where `None` means no limit.
pub open spec fn min_timeout_spec(left: Option<Duration>, right: Option<Duration>) -> Option<Duration> {
    match (left, right) {
        (Some(l), Some(r)) => if l.nanos() <= r.nanos() { Some(l) } else { Some(r) },
        (Some(l), None) => Some(l),
        (None, Some(r)) => Some(r),
        (None, None) => None,
    }
}

/// The timeout a poll uses given the provided `timeout` and the longest each
/// source may block, `limits`: the smallest of all of them.
pub open spec fn combined_timeout(timeout: Option<Duration>, limits: Seq<Option<Duration>>) -> Option<Duration>
    decreases limits.len(),
{
    if limits.len() == 0 {
        timeout
    } else {
        min_timeout_spec(combined_timeout(timeout, limits.drop_last()), limits.last())
    }
}

/// The timeout of a poll is the smallest of the provided timeout and the
/// sources' limits: it is no longer than any of them, it is one of them, and
/// it is no limit only where none of them is a limit.
pub proof fn lemma_combined_timeout_is_smallest(timeout: Option<Duration>, limits: Seq<Option<Duration>>)
    ensures
        combined_timeout(timeout, limits) is None <==> (timeout is None && forall|i: int|
            0 <= i < limits.len() ==> #[trigger] limits[i] is None),
        combined_timeout(timeout, limits) matches Some(c) ==> {
            &&& (timeout matches Some(t) ==> c.nanos() <= t.nanos())
            &&& forall|i: int| 0 <= i < limits.len() ==> (#[trigger] limits[i] matches Some(l) ==> c.nanos() <= l.nanos())
            &&& (timeout == Some(c) || exists|i: int| 0 <= i < limits.len() && #[trigger] limits[i] == Some(c))
        },
    decreases limits.len(),
{
    if limits.len() > 0 {
        let init = limits.drop_last();
        let last = limits.len() - 1;
        lemma_combined_timeout_is_smallest(timeout, init);
        assert forall|i: int| 0 <= i < init.len() implies #[trigger] init[i] == limits[i] by {}
        let c0 = combined_timeout(timeout, init);
        let b = limits[last];
        assert(combined_timeout(timeout, limits) == min_timeout_spec(c0, b));
        match combined_timeout(timeout, limits) {
            Some(c) => {
                assert(c.nanos() <= c0->0.nanos() || c0 is None);
                assert(c.nanos() <= b->0.nanos() || b is None);
                assert forall|i: int| 0 <= i < limits.len() implies (#[trigger] limits[i] matches Some(l)
                    ==> c.nanos() <= l.nanos()) by {
                    if i < last {
                        assert(init[i] == limits[i]);
                    }
                }
                if c0 == Some(c) {
                    if timeout != Some(c) {
                        let j = choose|j: int| 0 <= j < init.len() && #[trigger] init[j] == Some(c);
                        assert(limits[j] == Some(c));
                    }
                } else {
                    assert(b == Some(c));
                }
            },
            None => {
                assert forall|i: int| 0 <= i < limits.len() implies #[trigger] limits[i] is None by {
                    if i < last {
                        assert(init[i] == limits[i]);
                    }
                }
            },
        }
    }
}

/// Returns the smallest of the two timeouts provided.
pub fn min_timeout(left: Option<Duration>, right: Option<Duration>) -> (t: Option<Duration>)
    ensures
        t == min_timeout_spec(left, right),
{
    match (left, right) {
        (Some(l), Some(r)) => Some(l.min(r)),
        (Some(l), None) => Some(l),
        (None, Some(r)) => Some(r),
        (None, None) => None,
    }
}

/// Computes the timeout of a poll: the smallest of `timeout` and `limits`.
pub fn combine_timeouts(timeout: Option<Duration>, limits: &Vec<Option<Duration>>) -> (t: Option<Duration>)
    ensures
        t == combined_timeout(timeout, limits@),
{
    let mut t = timeout;
    let mut i: usize = 0;
    while i < limits.len()
        invariant
            i <= limits.len(),
            t == combined_timeout(timeout, limits@.subrange(0, i as int)),
        decreases limits.len() - i,
    {
        assert(limits@.subrange(0, i + 1).drop_last() == limits@.subrange(0, i as int));
        t = min_timeout(t, limits[i]);
        i = i + 1;
    }
    assert(limits@.subrange(0, limits.len() as int) == limits@);
    t
}

/// Poll event sources for readiness events.
///
/// The timeout used is the smallest of the provided `timeout` and the
/// [`max_timeout`] of every source. The first source is polled with that
/// timeout in a blocking poll, the others without blocking, in order. The
/// events go to `event_sink`. The first error a source returns is returned,
/// and the sources after it are not polled.
///
/// [`max_timeout`]: event::Source::max_timeout
pub fn poll<ES: Sink, E>(
    event_sources: &mut [&mut dyn Source<ES, E>],
    event_sink: &mut ES,
    timeout: Option<Duration>,
) -> (r: Result<(), E>)
    ensures
        sink_extended(*old(event_sink), *final(event_sink)),
        old(event_sources).len() == 0 ==> r is Ok && *final(event_sink) == *old(event_sink),
{
    let n = event_sources.len();
    let mut limits: Vec<Option<Duration>> = Vec::new();
    let mut i: usize = 0;
    while i < n
        invariant
            n == event_sources.len(),
            i <= n,
        decreases n - i,
    {
        limits.push(event_sources[i].max_timeout());
        i = i + 1;
    }
    let timeout = combine_timeouts(timeout, &limits);
    if n == 0 {
        proof {
            lemma_sink_extended_refl(*event_sink);
        }
        return Ok(());
    }
    event_sources[0].blocking_poll(event_sink, timeout)?;
    let mut i: usize = 1;
    while i < n
        invariant
            n == event_sources.len(),
            n == old(event_sources).len(),
            1 <= i <= n,
            sink_extended(*old(event_sink), *event_sink),
        decreases n - i,
    {
        let ghost before = *event_sink;
        let res = event_sources[i].poll(event_sink);
        proof {
            lemma_sink_extended_trans(*old(event_sink), before, *event_sink);
        }
        res?;
        i = i + 1;
    }
    Ok(())
}

} // verus!
