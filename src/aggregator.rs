use std::collections::HashSet;
use std::hash::Hash;
use vstd::prelude::*;
use vstd::std_specs::hash::obeys_key_model;
use crate::model::{ActionView, AggState};

verus! {

/// Debounce-and-batch state machine over items of type `T`.
///
/// Times and durations are milliseconds of a monotonic clock supplied by the host.
pub struct Aggregator<T: Eq + Hash> {
    buf: HashSet<T>,
    debounce: u64,
    max_delay: u64,
    anchor: Option<u64>,
}

/// What the host must do after an event, in this order: cancel the armed timer,
/// hand the batch to the consumer, arm a new timer.
pub struct Action<T> {
    pub cancel: bool,
    pub arm: Option<u64>,
    pub batch: Option<HashSet<T>>,
}

/// A message to the aggregator: new items, or the firing of its timer.
pub enum AggregatorCmd<T> {
    NewData(Vec<T>),
    Flush,
}

impl<T: Eq + Hash> View for Aggregator<T> {
    type V = AggState<T>;

    closed spec fn view(&self) -> AggState<T> {
        AggState {
            buf: self.buf@,
            anchor: match self.anchor {
                Some(a) => Some(a as int),
                None => None,
            },
            debounce: self.debounce as int,
            max_delay: self.max_delay as int,
        }
    }
}

impl<T> View for Action<T> {
    type V = ActionView<T>;

    open spec fn view(&self) -> ActionView<T> {
        ActionView {
            cancel: self.cancel,
            arm: match self.arm {
                Some(d) => Some(d as int),
                None => None,
            },
            batch: match self.batch {
                Some(b) => Some(b@),
                None => None,
            },
        }
    }
}

/// Merges every item of `payload` into `buf`.
fn insert_all<T: Eq + Hash>(buf: &mut HashSet<T>, payload: Vec<T>)
    requires
        obeys_key_model::<T>(),
    ensures
        final(buf)@ == old(buf)@.union(payload@.to_set()),
{
    let ghost target = old(buf)@.union(payload@.to_set());
    let mut rest = payload;
    while rest.len() > 0
        invariant
            buf@.union(rest@.to_set()) == target,
            obeys_key_model::<T>(),
        decreases rest.len(),
    {
        let ghost before = rest@;
        let x = rest.pop().unwrap();
        proof {
            assert(before == rest@.push(x));
            assert forall|y: T| before.contains(y) <==> (rest@.contains(y) || y == x) by {
                if before.contains(y) {
                    let i = choose|i: int| 0 <= i < before.len() && before[i] == y;
                    if i < rest@.len() {
                        assert(rest@[i] == y);
                    }
                }
                if rest@.contains(y) {
                    let i = choose|i: int| 0 <= i < rest@.len() && rest@[i] == y;
                    assert(before[i] == y);
                }
                if y == x {
                    assert(before[before.len() - 1] == y);
                }
            }
        }
        buf.insert(x);
        proof {
            assert(buf@.union(rest@.to_set()) =~= target);
        }
    }
    proof {
        assert(buf@ =~= target);
    }
}

impl<T: Eq + Hash> Aggregator<T> {
    /// An idle aggregator with the given debounce and maximum delay.
    pub fn new(debounce: u64, max_delay: u64) -> (r: Aggregator<T>)
        ensures
            r@ == AggState::<T>::idle(debounce as int, max_delay as int),
            r@.wf(),
    {
        Aggregator { buf: HashSet::new(), debounce, max_delay, anchor: None }
    }

    /// Merges `payload` into the pending batch, then makes the scheduling
    /// decision at time `now` (see [`Aggregator::flush_later`]).
    pub fn extend(&mut self, payload: Vec<T>, now: u64) -> (r: Action<T>)
        requires
            obeys_key_model::<T>(),
        ensures
            final(self)@ == old(self)@.submitted(payload@.to_set(), now as int),
            r@ == old(self)@.submit_action(payload@.to_set(), now as int),
            final(self)@.wf(),
    {
        insert_all(&mut self.buf, payload);
        self.flush_later(now)
    }

    /// The scheduling decision at time `now`. If the batch began accumulating at
    /// least `max_delay` ago, the armed timer is cancelled and the batch is
    /// flushed at once. Otherwise the armed timer (if any) is cancelled and a
    /// new one is armed for `debounce`; the anchor is set to `now` only if none
    /// was set.
    pub fn flush_later(&mut self, now: u64) -> (r: Action<T>)
        ensures
            final(self)@ == old(self)@.scheduled(now as int),
            r@ == old(self)@.schedule_action(now as int),
            final(self)@.wf(),
    {
        match self.anchor {
            Some(start) => {
                let waited: u64 = if now >= start {
                    now - start
                } else {
                    0
                };
                if waited >= self.max_delay {
                    let batch = self.flush();
                    Action { cancel: true, arm: None, batch }
                } else {
                    Action { cancel: true, arm: Some(self.debounce), batch: None }
                }
            },
            None => {
                self.anchor = Some(now);
                Action { cancel: false, arm: Some(self.debounce), batch: None }
            },
        }
    }

    /// Clears the timer bookkeeping and takes the pending batch: `None` when the
    /// buffer is empty, so the consumer never sees an empty batch.
    pub fn flush(&mut self) -> (r: Option<HashSet<T>>)
        ensures
            final(self)@ == old(self)@.cleared(),
            old(self)@.buf.is_empty() ==> r is None,
            !old(self)@.buf.is_empty() ==> (r matches Some(b) && b@ == old(self)@.buf),
            final(self)@.wf(),
    {
        self.anchor = None;
        if self.buf.is_empty() {
            None
        } else {
            let mut out: HashSet<T> = HashSet::new();
            std::mem::swap(&mut self.buf, &mut out);
            Some(out)
        }
    }

    /// Handles one message at time `now`: new items are submitted, a timer
    /// firing flushes unconditionally (the spent timer needs no cancelling).
    pub fn handle(&mut self, msg: AggregatorCmd<T>, now: u64) -> (r: Action<T>)
        requires
            obeys_key_model::<T>(),
        ensures
            msg matches AggregatorCmd::NewData(p) ==> {
                &&& final(self)@ == old(self)@.submitted(p@.to_set(), now as int)
                &&& r@ == old(self)@.submit_action(p@.to_set(), now as int)
            },
            msg is Flush ==> {
                &&& final(self)@ == old(self)@.cleared()
                &&& r@ == old(self)@.fire_action()
            },
            final(self)@.wf(),
    {
        match msg {
            AggregatorCmd::NewData(payload) => self.extend(payload, now),
            AggregatorCmd::Flush => {
                let batch = self.flush();
                Action { cancel: false, arm: None, batch }
            },
        }
    }

    /// Resets the aggregator to idle after the host restarted it: pending items
    /// are dropped and the armed timer, if any, is cancelled.
    pub fn restarting(&mut self) -> (r: Action<T>)
        ensures
            final(self)@ == old(self)@.cleared(),
            r@ == old(self)@.restart_action(),
            final(self)@.wf(),
    {
        let cancel = self.anchor.is_some();
        self.anchor = None;
        self.buf.clear();
        Action { cancel, arm: None, batch: None }
    }
}

} // verus!
