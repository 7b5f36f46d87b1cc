use std::collections::VecDeque;
use tokio::sync::oneshot;
use whitepool::pool::{Event, OnRefusal, Pending, Pool, Statistics, Step};
use whitepool::WorkerState;

fn pool(items: &[u32], max_overflow: usize) -> Pool<u32> {
    let resources: VecDeque<u32> = items.iter().copied().collect();
    Pool::new(items.len(), max_overflow, resources)
}

/// Performs the replies a step asks for, as the pool's task does.
fn drive(p: &mut Pool<u32>, step: Step<u32>) -> Step<u32> {
    let mut step = step;
    loop {
        step = match step {
            Step::Reply { reply, value, on_refusal } => p.deliver(reply, value, on_refusal),
            other => return other,
        };
    }
}

fn request(p: &mut Pool<u32>, event: Event<u32>) -> Step<u32> {
    let step = p.handle_recv(Some(event));
    drive(p, step)
}

fn created(p: &mut Pool<u32>, pending: Pending<u32>, fresh: u32) -> Step<u32> {
    let step = p.handle_created(pending, fresh);
    drive(p, step)
}

fn is_continue(step: &Step<u32>) -> bool {
    matches!(step, Step::Finish(WorkerState::Continue))
}

fn is_disconnected(step: &Step<u32>) -> bool {
    matches!(step, Step::Finish(WorkerState::Disconnected))
}

fn stats(p: &Pool<u32>) -> (usize, usize, usize, usize) {
    let s: Statistics = p.statistics();
    (s.size, s.max_overflow, s.overflow_worker, s.resources)
}

/// A checkout with an open receiver; returns what it was sent, if anything yet.
fn checkout(p: &mut Pool<u32>, blocking: bool) -> (Step<u32>, oneshot::Receiver<Option<u32>>) {
    let (tx, rx) = oneshot::channel();
    let event = if blocking { Event::BlockCheckout(tx) } else { Event::NonBlockCheckout(tx) };
    (request(p, event), rx)
}

fn checkin(p: &mut Pool<u32>, resource: u32) -> Step<u32> {
    request(p, Event::Checkin { resource, recycled: false })
}

#[test]
fn new_pool_reports_its_counters() {
    let p = pool(&[1, 2, 3], 4);
    assert_eq!(stats(&p), (3, 4, 0, 3));
}

#[test]
fn checkout_is_sent_the_front_resource() {
    let mut p = pool(&[10, 20], 0);
    let (step, mut rx) = checkout(&mut p, true);
    assert!(is_continue(&step));
    assert_eq!(rx.try_recv().unwrap(), Some(10));
    let (step, mut rx) = checkout(&mut p, false);
    assert!(is_continue(&step));
    assert_eq!(rx.try_recv().unwrap(), Some(20));
    assert_eq!(stats(&p), (2, 0, 0, 0));
}

#[test]
fn checkout_step_names_the_reply_and_resource() {
    let mut p = pool(&[10], 0);
    let (tx, _rx) = oneshot::channel();
    match p.handle_recv(Some(Event::BlockCheckout(tx))) {
        Step::Reply { value, on_refusal, .. } => {
            assert_eq!(value, Some(10));
            assert_eq!(on_refusal, OnRefusal::HandOver { recycled: false, stop_on_shutdown: false });
        }
        _ => panic!("expected a reply"),
    }
}

#[test]
fn checkin_joins_the_back() {
    let mut p = pool(&[1], 0);
    assert!(is_continue(&checkin(&mut p, 5)));
    assert_eq!(checkout(&mut p, false).1.try_recv().unwrap(), Some(1));
    assert_eq!(checkout(&mut p, false).1.try_recv().unwrap(), Some(5));
}

#[test]
fn checkin_then_checkout_round_trip() {
    let mut p = pool(&[], 0);
    assert!(is_continue(&checkin(&mut p, 4)));
    assert_eq!(checkout(&mut p, true).1.try_recv().unwrap(), Some(4));
    assert_eq!(stats(&p), (0, 0, 0, 0));
}

#[test]
fn checkout_with_free_overflow_slot_is_sent_the_created_resource() {
    let mut p = pool(&[], 1);
    let (step, mut rx) = checkout(&mut p, false);
    let pending = match step {
        Step::Create(pending) => pending,
        _ => panic!("expected a creation"),
    };
    assert_eq!(stats(&p), (0, 1, 1, 0));
    assert!(is_continue(&created(&mut p, pending, 42)));
    assert_eq!(rx.try_recv().unwrap(), Some(42));
    // the overflow resource is retired on its return
    match checkin(&mut p, 42) {
        Step::Retire(r) => assert_eq!(r, 42),
        _ => panic!("expected a retirement"),
    }
    assert_eq!(stats(&p), (0, 1, 0, 0));
}

#[test]
fn third_nonblocking_checkout_on_one_plus_one_is_refused() {
    let mut p = pool(&[7], 1);
    let (step, mut a) = checkout(&mut p, false);
    assert!(is_continue(&step));
    assert_eq!(a.try_recv().unwrap(), Some(7));
    let (step, mut b) = checkout(&mut p, false);
    let pending = match step {
        Step::Create(pending) => pending,
        _ => panic!("expected a creation"),
    };
    assert!(is_continue(&created(&mut p, pending, 7)));
    assert_eq!(b.try_recv().unwrap(), Some(7));
    let (step, mut c) = checkout(&mut p, false);
    assert!(is_continue(&step));
    assert_eq!(c.try_recv().unwrap(), None);
    assert_eq!(stats(&p), (1, 1, 1, 0));
}

#[test]
fn checkin_of_recycled_resource_drops_it() {
    let mut p = pool(&[1], 1);
    assert!(is_continue(&request(&mut p, Event::Checkin { resource: 9, recycled: true })));
    assert_eq!(stats(&p), (1, 1, 0, 1));
}

#[test]
fn block_checkout_to_gone_requester_keeps_the_resource() {
    let mut p = pool(&[11, 12], 0);
    let (tx, rx) = oneshot::channel();
    drop(rx);
    assert!(is_continue(&request(&mut p, Event::BlockCheckout(tx))));
    assert_eq!(stats(&p), (2, 0, 0, 2));
    assert_eq!(checkout(&mut p, false).1.try_recv().unwrap(), Some(12));
    assert_eq!(checkout(&mut p, false).1.try_recv().unwrap(), Some(11));
}

#[test]
fn block_checkout_waits_then_checkin_delivers() {
    let mut p = pool(&[], 0);
    let (step, mut rx) = checkout(&mut p, true);
    assert!(is_continue(&step));
    assert!(rx.try_recv().is_err());
    assert!(is_continue(&checkin(&mut p, 5)));
    assert_eq!(rx.try_recv().unwrap(), Some(5));
    assert_eq!(stats(&p), (0, 0, 0, 0));
}

#[test]
fn returned_resource_skips_gone_waiters() {
    let mut p = pool(&[], 0);
    let (_, rx1) = checkout(&mut p, true);
    let (_, mut rx2) = checkout(&mut p, true);
    let (_, mut rx3) = checkout(&mut p, true);
    drop(rx1);
    assert!(is_continue(&checkin(&mut p, 8)));
    assert_eq!(rx2.try_recv().unwrap(), Some(8));
    assert!(rx3.try_recv().is_err());
    assert!(is_continue(&checkin(&mut p, 9)));
    assert_eq!(rx3.try_recv().unwrap(), Some(9));
    assert!(is_continue(&checkin(&mut p, 10)));
    assert_eq!(stats(&p), (0, 0, 0, 1));
}

#[test]
fn returned_resource_is_offered_to_the_oldest_waiter_first() {
    let mut p = pool(&[], 0);
    let (_, _rx1) = checkout(&mut p, true);
    match p.handle_recv(Some(Event::Checkin { resource: 3, recycled: false })) {
        Step::Reply { value, on_refusal, .. } => {
            assert_eq!(value, Some(3));
            assert_eq!(on_refusal, OnRefusal::HandOver { recycled: false, stop_on_shutdown: true });
        }
        _ => panic!("expected an offer"),
    }
}

#[test]
fn all_waiters_gone_resource_is_checked_in() {
    let mut p = pool(&[], 0);
    let (_, rx1) = checkout(&mut p, true);
    drop(rx1);
    assert!(is_continue(&checkin(&mut p, 6)));
    assert_eq!(stats(&p), (0, 0, 0, 1));
}

#[test]
fn after_reply_hands_a_returned_resource_on() {
    let mut p = pool(&[], 0);
    let (_, mut rx) = checkout(&mut p, true);
    let on_refusal = OnRefusal::HandOver { recycled: false, stop_on_shutdown: false };
    let step = p.after_reply(on_refusal, Err(Some(4)));
    assert!(is_continue(&drive(&mut p, step)));
    assert_eq!(rx.try_recv().unwrap(), Some(4));
    assert!(is_continue(&p.after_reply(on_refusal, Ok(()))));
    assert!(is_continue(&p.after_reply(OnRefusal::Ignore, Err(None))));
}

#[test]
fn nonblock_checkout_exhausted_is_refused() {
    let mut p = pool(&[], 0);
    let (step, mut rx) = checkout(&mut p, false);
    assert!(is_continue(&step));
    assert_eq!(rx.try_recv().unwrap(), None);
    // nobody waits: the checkin joins the idle queue
    assert!(is_continue(&checkin(&mut p, 2)));
    assert_eq!(stats(&p), (0, 0, 0, 1));
}

#[test]
fn recycle_without_overflow_replaces_the_resource() {
    let mut p = pool(&[1], 0);
    let pending = match request(&mut p, Event::Recycle) {
        Step::Create(pending) => pending,
        _ => panic!("expected a creation"),
    };
    assert!(matches!(pending, Pending::Replace));
    assert!(is_continue(&created(&mut p, pending, 2)));
    assert_eq!(stats(&p), (1, 0, 0, 2));
    assert_eq!(checkout(&mut p, false).1.try_recv().unwrap(), Some(2));
    assert_eq!(checkout(&mut p, false).1.try_recv().unwrap(), Some(1));
}

#[test]
fn recycle_replacement_goes_to_a_waiter() {
    let mut p = pool(&[], 0);
    let (_, mut rx) = checkout(&mut p, true);
    let pending = match request(&mut p, Event::Recycle) {
        Step::Create(pending) => pending,
        _ => panic!("expected a creation"),
    };
    assert!(is_continue(&created(&mut p, pending, 77)));
    assert_eq!(rx.try_recv().unwrap(), Some(77));
    assert_eq!(stats(&p), (0, 0, 0, 0));
}

#[test]
fn recycle_of_overflow_frees_the_slot() {
    let mut p = pool(&[], 1);
    let (step, _rx) = checkout(&mut p, false);
    assert!(matches!(step, Step::Create(Pending::Serve(_))));
    // the slot is freed and taken again for a resource that is then created
    let pending = match request(&mut p, Event::Recycle) {
        Step::Create(pending) => pending,
        _ => panic!("expected a creation"),
    };
    assert!(matches!(pending, Pending::Recycle));
    assert_eq!(stats(&p), (0, 1, 1, 0));
    // nobody waits: the new overflow resource is retired at once
    match created(&mut p, pending, 5) {
        Step::Retire(r) => assert_eq!(r, 5),
        _ => panic!("expected a retirement"),
    }
    assert_eq!(stats(&p), (0, 1, 0, 0));
}

#[test]
fn shutdown_refuses_checkouts() {
    let mut p = pool(&[1], 1);
    assert!(is_continue(&request(&mut p, Event::ShutdownSafe)));
    let (step, mut rx) = checkout(&mut p, true);
    assert!(is_continue(&step));
    assert_eq!(rx.try_recv().unwrap(), None);
    let (step, mut rx) = checkout(&mut p, false);
    assert!(is_continue(&step));
    assert_eq!(rx.try_recv().unwrap(), None);
    assert_eq!(stats(&p), (1, 1, 0, 1));
}

#[test]
fn shutdown_serves_waiters_then_stops() {
    let mut p = pool(&[], 0);
    let (_, mut rx) = checkout(&mut p, true);
    assert!(is_continue(&request(&mut p, Event::ShutdownSafe)));
    assert!(is_continue(&checkin(&mut p, 1)));
    assert_eq!(rx.try_recv().unwrap(), Some(1));
    assert!(is_disconnected(&checkin(&mut p, 1)));
}

#[test]
fn closed_channel_disconnects() {
    let mut p = pool(&[1], 0);
    assert!(is_disconnected(&p.handle_recv(None)));
}

#[test]
fn print_statistics_reports_counters() {
    let mut p = pool(&[1, 2], 3);
    match p.handle_recv(Some(Event::PrintStatistics)) {
        Step::Report(s) => assert_eq!(
            s,
            Statistics { size: 2, max_overflow: 3, overflow_worker: 0, resources: 2 }
        ),
        _ => panic!("expected a report"),
    }
}

#[test]
fn checkout_then_checkin_keeps_the_idle_resources() {
    let mut p = pool(&[1, 2], 0);
    let (step, mut rx) = checkout(&mut p, false);
    assert!(is_continue(&step));
    let r = rx.try_recv().unwrap().unwrap();
    assert_eq!(r, 1);
    assert!(is_continue(&checkin(&mut p, r)));
    assert_eq!(stats(&p), (2, 0, 0, 2));
    assert_eq!(checkout(&mut p, false).1.try_recv().unwrap(), Some(2));
    assert_eq!(checkout(&mut p, false).1.try_recv().unwrap(), Some(1));
}

#[test]
fn checkouts_succeed_until_all_are_held_then_wait() {
    let mut p = pool(&[1], 1);
    let (_, mut a) = checkout(&mut p, true);
    assert_eq!(a.try_recv().unwrap(), Some(1));
    let (step, mut b) = checkout(&mut p, true);
    let pending = match step {
        Step::Create(pending) => pending,
        _ => panic!("expected a creation"),
    };
    assert!(is_continue(&created(&mut p, pending, 2)));
    assert_eq!(b.try_recv().unwrap(), Some(2));
    // size + max_overflow resources are held: the next checkout waits
    let (step, mut c) = checkout(&mut p, true);
    assert!(is_continue(&step));
    assert!(c.try_recv().is_err());
    // the next return serves it
    assert!(is_continue(&checkin(&mut p, 1)));
    assert_eq!(c.try_recv().unwrap(), Some(1));
}
