use vstd::prelude::*;

verus! {

/// The abstract state of an aggregator.
///
/// `anchor` is the time (in milliseconds of a monotonic clock) at which the
/// current batch began accumulating; it is `Some` exactly while a timer is armed.
#[verifier::reject_recursive_types(T)]
pub struct AggState<T> {
    pub buf: Set<T>,
    pub anchor: Option<int>,
    pub debounce: int,
    pub max_delay: int,
}

/// The abstract form of what the host must do after an event.
#[verifier::reject_recursive_types(T)]
pub struct ActionView<T> {
    /// Cancel the timer that is currently armed.
    pub cancel: bool,
    /// Arm a new timer that fires after this many milliseconds.
    pub arm: Option<int>,
    /// Hand this batch to the consumer.
    pub batch: Option<Set<T>>,
}

/// Time elapsed from `anchor` to `now`, never negative.
pub open spec fn elapsed(anchor: int, now: int) -> int {
    if now >= anchor {
        now - anchor
    } else {
        0
    }
}

/// What a flush hands over: nothing for an empty buffer, the buffer otherwise.
pub open spec fn delivered<T>(buf: Set<T>) -> Option<Set<T>> {
    if buf.is_empty() {
        None
    } else {
        Some(buf)
    }
}

impl<T> AggState<T> {
    /// The state right after construction: empty buffer, no timer.
    pub open spec fn idle(debounce: int, max_delay: int) -> AggState<T> {
        AggState { buf: Set::empty(), anchor: None, debounce, max_delay }
    }

    /// Idle states hold no items.
    pub open spec fn wf(self) -> bool {
        self.anchor is None ==> self.buf.is_empty()
    }

    /// Number of timers outstanding in this state.
    pub open spec fn timers(self) -> int {
        if self.anchor is Some {
            1
        } else {
            0
        }
    }

    /// The pending batch has waited at least `max_delay` by time `now`.
    pub open spec fn expired(self, now: int) -> bool {
        self.anchor matches Some(a) && elapsed(a, now) >= self.max_delay
    }

    /// The buffer with `items` merged in (set union).
    pub open spec fn add(self, items: Set<T>) -> AggState<T> {
        AggState { buf: self.buf.union(items), ..self }
    }

    /// The state after the buffer has been flushed.
    pub open spec fn cleared(self) -> AggState<T> {
        AggState { buf: Set::empty(), anchor: None, ..self }
    }

    /// The state after the scheduling decision at time `now`: flush if the batch
    /// has expired, otherwise keep (or set) the anchor and re-arm.
    pub open spec fn scheduled(self, now: int) -> AggState<T> {
        if self.expired(now) {
            self.cleared()
        } else {
            AggState {
                anchor: if self.anchor is Some {
                    self.anchor
                } else {
                    Some(now)
                },
                ..self
            }
        }
    }

    /// The action of the scheduling decision at time `now`.
    pub open spec fn schedule_action(self, now: int) -> ActionView<T> {
        if self.expired(now) {
            ActionView { cancel: true, arm: None, batch: delivered(self.buf) }
        } else {
            ActionView { cancel: self.anchor is Some, arm: Some(self.debounce), batch: None }
        }
    }

    /// The state after `items` are submitted at time `now`.
    pub open spec fn submitted(self, items: Set<T>, now: int) -> AggState<T> {
        self.add(items).scheduled(now)
    }

    /// The action of a submission of `items` at time `now`.
    pub open spec fn submit_action(self, items: Set<T>, now: int) -> ActionView<T> {
        self.add(items).schedule_action(now)
    }

    /// The action when the armed timer fires: the timer is spent, the buffer
    /// (if any) is delivered.
    pub open spec fn fire_action(self) -> ActionView<T> {
        ActionView { cancel: false, arm: None, batch: delivered(self.buf) }
    }

    /// The action of a restart: the armed timer is cancelled, nothing is delivered.
    pub open spec fn restart_action(self) -> ActionView<T> {
        ActionView { cancel: self.anchor is Some, arm: None, batch: None }
    }

    /// Timers outstanding once the host has carried out `a` in this state,
    /// where `spent` timers fired to cause the event.
    pub open spec fn timers_after(self, spent: int, a: ActionView<T>) -> int {
        self.timers() - spent - (if a.cancel {
            1int
        } else {
            0int
        }) + (if a.arm is Some {
            1int
        } else {
            0int
        })
    }
}

} // verus!
