use aggregator::{Action, Aggregator, AggregatorCmd};
use std::collections::HashSet;

/// A host that carries out the actions of an aggregator on a simulated clock.
struct Host {
    agg: Aggregator<&'static str>,
    deadline: Option<u64>,
    delivered: Vec<(u64, HashSet<&'static str>)>,
}

impl Host {
    fn new(debounce: u64, max_delay: u64) -> Host {
        Host { agg: Aggregator::new(debounce, max_delay), deadline: None, delivered: Vec::new() }
    }

    fn apply(&mut self, action: Action<&'static str>, now: u64) {
        if action.cancel {
            assert!(self.deadline.is_some(), "cancelled a timer that was not armed");
            self.deadline = None;
        }
        if let Some(batch) = action.batch {
            assert!(!batch.is_empty());
            self.delivered.push((now, batch));
        }
        if let Some(delay) = action.arm {
            assert!(self.deadline.is_none(), "armed a second timer");
            self.deadline = Some(now + delay);
        }
    }

    /// Fires the armed timer if it is due by `now`.
    fn advance(&mut self, now: u64) {
        if let Some(at) = self.deadline {
            if at <= now {
                self.deadline = None;
                let action = self.agg.handle(AggregatorCmd::Flush, at);
                self.apply(action, at);
            }
        }
    }

    fn submit(&mut self, now: u64, items: Vec<&'static str>) {
        self.advance(now);
        let action = self.agg.handle(AggregatorCmd::NewData(items), now);
        self.apply(action, now);
    }

    fn settle(&mut self) {
        self.advance(u64::MAX);
    }
}

fn set_of(items: &[&'static str]) -> HashSet<&'static str> {
    items.iter().copied().collect()
}

#[test]
fn it_works() {
    assert_eq!(2 + 2, 4);
}

#[test]
fn single_submit_flushes_after_debounce() {
    let mut host = Host::new(100, 500);
    host.submit(0, vec!["a"]);
    assert_eq!(host.deadline, Some(100));
    host.settle();
    assert_eq!(host.delivered, vec![(100, set_of(&["a"]))]);
}

#[test]
fn burst_flushes_once_after_last_submit() {
    let mut host = Host::new(100, 500);
    host.submit(0, vec!["a"]);
    host.submit(50, vec!["b"]);
    host.submit(90, vec!["c"]);
    host.settle();
    assert_eq!(host.delivered, vec![(190, set_of(&["a", "b", "c"]))]);
}

#[test]
fn continuous_traffic_is_flushed_by_max_delay() {
    const NAMES: [&str; 20] = [
        "i0", "i1", "i2", "i3", "i4", "i5", "i6", "i7", "i8", "i9", "i10", "i11", "i12", "i13",
        "i14", "i15", "i16", "i17", "i18", "i19",
    ];
    let mut host = Host::new(100, 500);
    for (k, name) in NAMES.iter().enumerate() {
        host.submit(40 * k as u64, vec![*name]);
    }
    assert!(!host.delivered.is_empty());
    let (at, batch) = &host.delivered[0];
    assert!(*at >= 500 && *at < 540);
    for k in 0..=12 {
        assert!(batch.contains(NAMES[k]));
    }
    assert_eq!(batch.len(), 14);
    // The cycle restarts from idle: the next item started a fresh batch.
    assert_eq!(host.deadline, Some(40 * 19 + 100));
    host.settle();
    assert_eq!(host.delivered.len(), 2);
    assert_eq!(host.delivered[1].1.len(), 6);
}

#[test]
fn repeated_item_is_delivered_once() {
    let mut host = Host::new(100, 500);
    host.submit(0, vec!["x"]);
    host.submit(0, vec!["x"]);
    host.settle();
    assert_eq!(host.delivered, vec![(100, set_of(&["x"]))]);
}

#[test]
fn duplicates_within_one_submit_collapse() {
    let mut agg: Aggregator<u64> = Aggregator::new(10, 50);
    let first = agg.extend(vec![3, 3, 4, 3], 0);
    assert!(!first.cancel);
    assert_eq!(first.arm, Some(10));
    let batch = agg.flush().unwrap();
    assert_eq!(batch.len(), 2);
    assert!(batch.contains(&3) && batch.contains(&4));
}

#[test]
fn flush_of_empty_buffer_delivers_nothing() {
    let mut agg: Aggregator<u64> = Aggregator::new(10, 50);
    assert!(agg.flush().is_none());
    let fired = agg.handle(AggregatorCmd::Flush, 5);
    assert!(!fired.cancel && fired.arm.is_none() && fired.batch.is_none());
    agg.extend(vec![1], 6);
    assert!(agg.flush().is_some());
    assert!(agg.flush().is_none());
}

#[test]
fn empty_submit_arms_timer_but_delivers_nothing() {
    let mut host = Host::new(100, 500);
    host.submit(0, vec![]);
    assert_eq!(host.deadline, Some(100));
    host.settle();
    assert!(host.delivered.is_empty());
}

#[test]
fn resubmit_cancels_and_rearms_with_fixed_anchor() {
    let mut agg: Aggregator<u64> = Aggregator::new(100, 500);
    agg.extend(vec![1], 1000);
    let second = agg.extend(vec![2], 1300);
    assert!(second.cancel);
    assert_eq!(second.arm, Some(100));
    assert!(second.batch.is_none());
    // 500 after the first item, not after the second.
    let third = agg.extend(vec![3], 1500);
    assert!(third.cancel);
    assert!(third.arm.is_none());
    assert_eq!(third.batch.unwrap(), [1u64, 2, 3].into_iter().collect::<HashSet<u64>>());
    // Idle again: the next submit starts a new batch without cancelling.
    let fourth = agg.extend(vec![4], 1501);
    assert!(!fourth.cancel);
    assert_eq!(fourth.arm, Some(100));
}

#[test]
fn max_delay_just_short_rearms() {
    let mut agg: Aggregator<u64> = Aggregator::new(100, 500);
    agg.extend(vec![1], 0);
    let again = agg.extend(vec![2], 499);
    assert_eq!(again.arm, Some(100));
    assert!(again.batch.is_none());
}

#[test]
fn clock_going_backwards_counts_as_no_time() {
    let mut agg: Aggregator<u64> = Aggregator::new(100, 500);
    agg.extend(vec![1], 1000);
    let again = agg.extend(vec![2], 10);
    assert_eq!(again.arm, Some(100));
    assert!(again.batch.is_none());
}

#[test]
fn zero_max_delay_flushes_on_second_submit() {
    let mut agg: Aggregator<u64> = Aggregator::new(100, 0);
    let first = agg.extend(vec![1], 7);
    assert_eq!(first.arm, Some(100));
    let second = agg.flush_later(7);
    assert!(second.cancel);
    assert_eq!(second.batch.unwrap().len(), 1);
}

#[test]
fn restart_drops_pending_items() {
    let mut agg: Aggregator<u64> = Aggregator::new(100, 500);
    agg.extend(vec![1, 2], 0);
    let reset = agg.restarting();
    assert!(reset.cancel);
    assert!(reset.arm.is_none() && reset.batch.is_none());
    assert!(agg.flush().is_none());
    let idle = agg.restarting();
    assert!(!idle.cancel);
}

#[test]
fn never_more_than_one_timer() {
    let mut host = Host::new(30, 100);
    let times = [0u64, 10, 20, 45, 80, 81, 150, 240, 245, 400, 401, 402];
    let names = ["a", "b", "a", "c", "d", "a", "e", "f", "f", "g", "h", "g"];
    for (t, n) in times.iter().zip(names.iter()) {
        host.submit(*t, vec![*n]);
    }
    host.settle();
    let total: usize = host.delivered.iter().map(|(_, b)| b.len()).sum();
    assert!(total >= 8);
    assert!(host.deadline.is_none());
}
