use vstd::prelude::*;
use crate::model::{delivered, AggState};

verus! {

/// Submitting the same items again before the batch is released leaves the
/// pending batch as it was: an item submitted several times, in one submission or
/// in several, is held once and delivered once.
pub proof fn lemma_resubmit_is_absorbed<T>(s: AggState<T>, items: Seq<T>, now: int, later: int)
    requires
        s.wf(),
        !s.expired(now),
        !s.submitted(items.to_set(), now).expired(later),
    ensures
        s.submitted(items.to_set(), now).buf == s.buf.union(items.to_set()),
        s.submitted(items.to_set(), now).submitted(items.to_set(), later).buf == s.submitted(
            items.to_set(),
            now,
        ).buf,
        s.submitted(items.to_set(), now).submitted(items.to_set(), later).fire_action().batch
            == delivered(s.buf.union(items.to_set())),
{
    let once = s.submitted(items.to_set(), now);
    assert(once.buf.union(items.to_set()) =~= once.buf);
}

/// A submission that does not reach the maximum delay arms one timer for exactly
/// `debounce`; when that timer fires, the batch delivered holds every item that
/// was pending before the submission and every item submitted with it.
pub proof fn lemma_debounce<T>(s: AggState<T>, items: Set<T>, now: int)
    requires
        s.wf(),
        !s.expired(now),
    ensures
        s.submit_action(items, now).arm == Some(s.debounce),
        s.submit_action(items, now).batch is None,
        s.submitted(items, now).fire_action().batch == delivered(s.buf.union(items)),
        s.submitted(items, now).cleared() == AggState::<T>::idle(s.debounce, s.max_delay),
{
    assert(s.submitted(items, now).cleared().buf =~= Set::<T>::empty());
}

/// The wait of a batch is bounded by the maximum delay plus one submission: the
/// anchor is set when the batch starts and stays fixed while it is pending, and
/// the first submission at or past `max_delay` after the anchor releases every
/// pending item together with the new ones and leaves no timer armed.
pub proof fn lemma_max_delay_bound<T>(s: AggState<T>, items: Set<T>, now: int)
    requires
        s.wf(),
    ensures
        s.anchor is None ==> s.submitted(items, now).anchor == Some(now),
        s.anchor is Some && !s.expired(now) ==> s.submitted(items, now).anchor == s.anchor,
        s.anchor matches Some(a) && now >= a + s.max_delay ==> {
            &&& s.submit_action(items, now).batch == delivered(s.buf.union(items))
            &&& s.submit_action(items, now).arm is None
            &&& s.submitted(items, now) == s.cleared()
        },
{
}

/// A flush of an empty buffer never hands a batch to the consumer: not when the
/// timer fires, not when the maximum delay is reached, and not when a flush is
/// repeated.
pub proof fn lemma_empty_flush_delivers_nothing<T>(s: AggState<T>, now: int)
    ensures
        s.buf.is_empty() ==> s.fire_action().batch is None,
        s.buf.is_empty() ==> s.schedule_action(now).batch is None,
        s.cleared().fire_action().batch is None,
{
}

/// At most one timer is ever outstanding. A submission cancels only the timer
/// that is armed and arms a new one only when none is left; a firing spends the
/// armed timer and arms none; a restart cancels the armed timer. After each event
/// the number of outstanding timers is the one the new state records.
pub proof fn lemma_single_timer<T>(s: AggState<T>, items: Set<T>, now: int)
    requires
        s.wf(),
    ensures
        s.submit_action(items, now).cancel ==> s.timers() == 1,
        s.submit_action(items, now).arm is Some ==> s.timers_after(
            0,
            s.submit_action(items, now),
        ) == 1,
        s.timers_after(0, s.submit_action(items, now)) == s.submitted(items, now).timers(),
        s.submitted(items, now).timers() <= 1,
        s.anchor is Some ==> s.timers_after(1, s.fire_action()) == s.cleared().timers(),
        s.restart_action().cancel <==> s.timers() == 1,
        s.timers_after(0, s.restart_action()) == s.cleared().timers(),
        s.cleared().timers() == 0,
{
}

} // verus!
