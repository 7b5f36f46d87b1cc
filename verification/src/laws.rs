use vstd::prelude::*;
use crate::WorkerState;
use crate::pool::{
    after_reply_spec, checkin_spec, checkout_spec, created_spec, recv_spec, refusal, reply_step,
    Checkout, Event, OnRefusal, Pending, PoolView, Reply, Statistics, Step,
};

verus! {

/// With no overflow worker alive, a resource that is checked in joins the
/// back of the idle queue: the next checkout hands it straight back when the
/// queue was empty, and otherwise hands out the resource that was at the
/// front, exactly as if the two had happened in the other order.
pub proof fn checkin_then_checkout<R>(s: PoolView<R>, resource: R)
    requires
        s.overflow_worker == 0,
    ensures
        s.resources.len() == 0 ==> checkout_spec(checkin_spec(s, resource, false).0) == (
        s,
        Checkout::Idle(resource)),
        s.resources.len() > 0 ==> ({
            let (after_out, taken) = checkout_spec(s);
            checkout_spec(checkin_spec(s, resource, false).0) == (checkin_spec(
                after_out,
                resource,
                false,
            ).0, taken)
        }),
{
    let pushed = s.resources.push(resource);
    if s.resources.len() > 0 {
        assert(pushed.drop_first() =~= s.resources.drop_first().push(resource));
    } else {
        assert(pushed.drop_first() =~= s.resources);
    }
}

/// A checkout that finds the pool empty opens an overflow slot; the next
/// checkin of a resource that was not recycled closes that slot again and
/// hands the resource back to be retired, which leaves the pool as it was.
pub proof fn overflow_round_trip<R>(s: PoolView<R>, resource: R)
    requires
        s.wf(),
        s.resources.len() == 0,
        s.overflow_worker < s.max_overflow,
    ensures
        checkout_spec(s).1 is Overflow,
        checkin_spec(checkout_spec(s).0, resource, false) == (s, Some(resource)),
{
}

/// A resource for which a recycle signal was already sent is never taken
/// back into the pool, and checking it in changes nothing.
pub proof fn recycled_is_dropped<R>(s: PoolView<R>, resource: R)
    ensures
        checkin_spec(s, resource, true) == (s, None::<R>),
{
}

/// Every request, every resource created for a pending request and every
/// outcome of a reply keep the overflow count within its bound, keep
/// overflow resources only while no resource is idle, and let a checkout
/// wait only while no idle resource and no overflow slot is left.
pub proof fn requests_keep_wf<R>(
    pre: PoolView<R>,
    req: Option<Event<R>>,
    pending: Pending<R>,
    fresh: R,
    on_refusal: OnRefusal,
    sent: Result<(), Option<R>>,
)
    requires
        pre.wf(),
    ensures
        recv_spec(pre, req).0.wf(),
        created_spec(pre, pending, fresh).0.wf(),
        after_reply_spec(pre, on_refusal, sent).0.wf(),
{
}

/// Once the pool shuts down it stays so: no request, created resource or
/// reply outcome clears the flag; the size and the overflow bound never change.
pub proof fn shutdown_is_permanent<R>(
    pre: PoolView<R>,
    req: Option<Event<R>>,
    pending: Pending<R>,
    fresh: R,
    on_refusal: OnRefusal,
    sent: Result<(), Option<R>>,
)
    ensures
        ({
            let post = recv_spec(pre, req).0;
            &&& post.shutdown == (pre.shutdown || req == Some(Event::<R>::ShutdownSafe))
            &&& post.size == pre.size
            &&& post.max_overflow == pre.max_overflow
        }),
        ({
            let post = created_spec(pre, pending, fresh).0;
            &&& post.shutdown == pre.shutdown
            &&& post.size == pre.size
            &&& post.max_overflow == pre.max_overflow
        }),
        ({
            let post = after_reply_spec(pre, on_refusal, sent).0;
            &&& post.shutdown == pre.shutdown
            &&& post.size == pre.size
            &&& post.max_overflow == pre.max_overflow
        }),
{
}

/// A pool that shuts down takes no new checkout: it answers it `None` and
/// changes nothing.
pub proof fn shutdown_refuses_checkouts<R>(pre: PoolView<R>, reply: Reply<R>)
    requires
        pre.shutdown,
    ensures
        recv_spec(pre, Some(Event::BlockCheckout(reply))) == (pre, refusal(reply)),
        recv_spec(pre, Some(Event::NonBlockCheckout(reply))) == (pre, refusal(reply)),
{
}

/// The manager stops only when its channel is closed, or when it shuts down
/// and no checkout waits any more.
pub proof fn stops_only_when_drained<R>(
    pre: PoolView<R>,
    req: Option<Event<R>>,
    pending: Pending<R>,
    fresh: R,
    on_refusal: OnRefusal,
    sent: Result<(), Option<R>>,
)
    ensures
        recv_spec(pre, req).1 == Step::<R>::Finish(WorkerState::Disconnected) ==> req is None || (
        pre.shutdown && pre.waiting.len() == 0),
        created_spec(pre, pending, fresh).1 == Step::<R>::Finish(WorkerState::Disconnected) ==> (
        pre.shutdown && pre.waiting.len() == 0),
        after_reply_spec(pre, on_refusal, sent).1 == Step::<R>::Finish(WorkerState::Disconnected)
            ==> (pre.shutdown && pre.waiting.len() == 0),
{
}

/// A resource that comes back goes to the oldest waiter first; if that
/// waiter is gone the resource comes back from the send and goes to the next
/// one, and so on, until one takes it or none is left.
pub proof fn returned_resource_goes_to_oldest_waiter<R>(
    pre: PoolView<R>,
    resource: R,
    recycled: bool,
    stop_on_shutdown: bool,
)
    requires
        pre.waiting.len() > 0,
    ensures
        recv_spec(pre, Some(Event::Checkin { resource, recycled })) == (
        pre.with_waiting(pre.waiting.drop_first()),
        reply_step(
            pre.waiting[0],
            Some(resource),
            OnRefusal::HandOver { recycled, stop_on_shutdown: true },
        )),
        after_reply_spec(
            pre,
            OnRefusal::HandOver { recycled, stop_on_shutdown },
            Err(Some(resource)),
        ) == (pre.with_waiting(pre.waiting.drop_first()), reply_step(
            pre.waiting[0],
            Some(resource),
            OnRefusal::HandOver { recycled, stop_on_shutdown },
        )),
        after_reply_spec(pre, OnRefusal::HandOver { recycled, stop_on_shutdown }, Ok(())) == (
        pre,
        Step::<R>::Finish(WorkerState::Continue)),
{
}

/// While the pool runs, a checkout is sent the front idle resource when one
/// is idle; otherwise, with an overflow slot free, it takes the slot and is
/// sent the resource created for it; otherwise a blocking checkout joins the
/// back of the waiters and a non-blocking one is answered `None`.
pub proof fn checkout_gets_what_can_be_had<R>(pre: PoolView<R>, reply: Reply<R>, fresh: R)
    requires
        !pre.shutdown,
    ensures
        pre.resources.len() > 0 ==> {
            let served = (
                pre.with_resources(pre.resources.drop_first()),
                reply_step(
                    reply,
                    Some(pre.resources[0]),
                    OnRefusal::HandOver { recycled: false, stop_on_shutdown: false },
                ),
            );
            &&& recv_spec(pre, Some(Event::BlockCheckout(reply))) == served
            &&& recv_spec(pre, Some(Event::NonBlockCheckout(reply))) == served
        },
        pre.resources.len() == 0 && pre.overflow_worker < pre.max_overflow ==> {
            let opened = pre.with_overflow_worker((pre.overflow_worker + 1) as usize);
            &&& recv_spec(pre, Some(Event::BlockCheckout(reply))) == (opened, Step::Create(
                Pending::Serve(reply),
            ))
            &&& recv_spec(pre, Some(Event::NonBlockCheckout(reply))) == (opened, Step::Create(
                Pending::Serve(reply),
            ))
            &&& created_spec(opened, Pending::Serve(reply), fresh) == (opened, reply_step(
                reply,
                Some(fresh),
                OnRefusal::HandOver { recycled: false, stop_on_shutdown: false },
            ))
        },
        pre.resources.len() == 0 && pre.overflow_worker >= pre.max_overflow ==> {
            &&& recv_spec(pre, Some(Event::BlockCheckout(reply))) == (pre.with_waiting(
                pre.waiting.push(reply),
            ), Step::<R>::Finish(WorkerState::Continue))
            &&& recv_spec(pre, Some(Event::NonBlockCheckout(reply))) == (pre, refusal(reply))
        },
{
}

/// Only a refused checkout is answered `None`: a blocking checkout never is
/// while the pool runs, and everything sent on behalf of a returned, recycled
/// or created resource, or after a refused offer, is a resource.
pub proof fn none_only_refuses_checkouts<R>(
    pre: PoolView<R>,
    reply: Reply<R>,
    resource: R,
    recycled: bool,
    pending: Pending<R>,
    fresh: R,
    on_refusal: OnRefusal,
    sent: Result<(), Option<R>>,
)
    ensures
        !pre.shutdown ==> !(recv_spec(pre, Some(Event::BlockCheckout(reply))).1 matches Step::Reply {
            value: None,
            ..
        }),
        !(recv_spec(pre, Some(Event::Checkin { resource, recycled })).1 matches Step::Reply {
            value: None,
            ..
        }),
        !(recv_spec(pre, Some(Event::Recycle)).1 matches Step::Reply { value: None, .. }),
        !(created_spec(pre, pending, fresh).1 matches Step::Reply { value: None, .. }),
        !(after_reply_spec(pre, on_refusal, sent).1 matches Step::Reply { value: None, .. }),
{
}

} // verus!

verus! {

/// Idle resources less overflow resources: what the manager holds against
/// the `size` resources it started with.
pub open spec fn idle_less_overflow<R>(s: PoolView<R>) -> int {
    s.resources.len() - s.overflow_worker
}

/// Resources that a step sends out of the manager: a resource in a reply, or
/// one to be created and handed in.
pub open spec fn carried<R>(step: Step<R>) -> int {
    match step {
        Step::Reply { value: Some(_), .. } => 1,
        Step::Create(_) => 1,
        _ => 0,
    }
}

/// Live resources that a request takes back from outside the manager: a
/// resource checked in, or one destroyed (its recycle signal). A recycled
/// checkin brings none: its signal counted it already.
pub open spec fn brought<R>(req: Option<Event<R>>) -> int {
    match req {
        Some(Event::Checkin { recycled: false, .. }) => 1,
        Some(Event::Recycle) => 1,
        _ => 0,
    }
}

/// A resource that a reply's receiver handed back.
pub open spec fn handed_back<R>(sent: Result<(), Option<R>>) -> int {
    match sent {
        Err(Some(_)) => 1,
        _ => 0,
    }
}

/// Every step balances the manager's books: what the manager holds, idle
/// resources less overflow resources, plus what the step sends out equals
/// what it held before plus what came in. A recycled resource checked in
/// while checkouts wait is the exception: it is handed to a waiter although
/// its recycle signal already counted it as gone. A step that stops the
/// manager ends the books.
pub proof fn steps_balance<R>(
    pre: PoolView<R>,
    req: Option<Event<R>>,
    pending: Pending<R>,
    fresh: R,
    on_refusal: OnRefusal,
    sent: Result<(), Option<R>>,
)
    ensures
        ({
            let (post, step) = recv_spec(pre, req);
            step != Step::<R>::Finish(WorkerState::Disconnected) && !(req matches Some(
                Event::Checkin { recycled: true, .. },
            ) && pre.waiting.len() > 0) ==> idle_less_overflow(post) + carried(step)
                == idle_less_overflow(pre) + brought(req)
        }),
        ({
            let (post, step) = created_spec(pre, pending, fresh);
            step != Step::<R>::Finish(WorkerState::Disconnected) ==> idle_less_overflow(post)
                + carried(step) == idle_less_overflow(pre) + 1
        }),
        ({
            let (post, step) = after_reply_spec(pre, on_refusal, sent);
            step != Step::<R>::Finish(WorkerState::Disconnected) && on_refusal
                != OnRefusal::HandOver { recycled: true, stop_on_shutdown: false } && on_refusal
                != OnRefusal::HandOver { recycled: true, stop_on_shutdown: true } && (on_refusal
                == OnRefusal::Ignore ==> handed_back(sent) == 0) ==> idle_less_overflow(post)
                + carried(step) == idle_less_overflow(pre) + handed_back(sent)
        }),
{
}

/// Counting `held` as the live resources outside the manager (held by
/// users, in replies, queued for checkin, or being created), the books say
/// `idle + held == size + overflow`. Then at most `size + max_overflow`
/// resources live, at most `size` are idle, and a checkout gets a resource
/// (now, or created for it) exactly while fewer than `size + max_overflow`
/// are held; once all are held it waits (or, non-blocking, is refused).
/// A new pool holds `size` idle resources and none outside (`Pool::new`),
/// and `steps_balance` keeps the books for every step after that.
pub proof fn books_bound_resources<R>(s: PoolView<R>, held: int, reply: Reply<R>)
    requires
        s.wf(),
        held >= 0,
        s.resources.len() + held == s.size + s.overflow_worker,
    ensures
        held + s.resources.len() <= s.size + s.max_overflow,
        s.resources.len() <= s.size,
        !s.shutdown && held < s.size + s.max_overflow ==> {
            &&& carried(recv_spec(s, Some(Event::BlockCheckout(reply))).1) == 1
            &&& carried(recv_spec(s, Some(Event::NonBlockCheckout(reply))).1) == 1
        },
        !s.shutdown && held == s.size + s.max_overflow ==> {
            &&& recv_spec(s, Some(Event::BlockCheckout(reply))) == (s.with_waiting(
                s.waiting.push(reply),
            ), Step::<R>::Finish(WorkerState::Continue))
            &&& recv_spec(s, Some(Event::NonBlockCheckout(reply))) == (s, refusal(reply))
        },
{
}

/// Checking out a resource and checking it back in, with nothing in
/// between and nobody waiting, leaves the pool with the same idle resources
/// (the returned one now at the back) and the same overflow count; a
/// resource created for the checkout in an overflow slot is retired on its
/// return instead.
pub proof fn checkout_checkin_round_trip<R>(pre: PoolView<R>, reply: Reply<R>, fresh: R)
    requires
        pre.wf(),
        !pre.shutdown,
        pre.waiting.len() == 0,
    ensures
        pre.resources.len() > 0 ==> {
            let (out, step) = recv_spec(pre, Some(Event::NonBlockCheckout(reply)));
            let r = pre.resources[0];
            let (taken, done) = after_reply_spec(
                out,
                OnRefusal::HandOver { recycled: false, stop_on_shutdown: false },
                Ok(()),
            );
            let (back, end) = recv_spec(taken, Some(Event::Checkin { resource: r, recycled: false }));
            &&& step == reply_step(
                reply,
                Some(r),
                OnRefusal::HandOver { recycled: false, stop_on_shutdown: false },
            )
            &&& done == Step::<R>::Finish(WorkerState::Continue)
            &&& end == Step::<R>::Finish(WorkerState::Continue)
            &&& back.resources.to_multiset() == pre.resources.to_multiset()
            &&& back.overflow_worker == pre.overflow_worker
            &&& back.waiting == pre.waiting
        },
        pre.resources.len() == 0 && pre.overflow_worker < pre.max_overflow ==> {
            let (out, step) = recv_spec(pre, Some(Event::NonBlockCheckout(reply)));
            let (made, sent) = created_spec(out, Pending::Serve(reply), fresh);
            let (taken, done) = after_reply_spec(
                made,
                OnRefusal::HandOver { recycled: false, stop_on_shutdown: false },
                Ok(()),
            );
            let (back, end) = recv_spec(taken, Some(Event::Checkin { resource: fresh, recycled: false }));
            &&& step == Step::Create(Pending::Serve(reply))
            &&& sent == reply_step(
                reply,
                Some(fresh),
                OnRefusal::HandOver { recycled: false, stop_on_shutdown: false },
            )
            &&& done == Step::<R>::Finish(WorkerState::Continue)
            &&& end == Step::Retire(fresh)
            &&& back == pre
        },
{
    broadcast use vstd::seq_lib::group_to_multiset_ensures, vstd::multiset::group_multiset_axioms;

    if pre.resources.len() > 0 {
        let q = pre.resources;
        assert(q.drop_first() =~= q.remove(0));
        assert(q.to_multiset().count(q[0]) > 0) by {
            assert(q.contains(q[0]));
        }
        assert(q.drop_first().push(q[0]).to_multiset() =~= q.to_multiset());
    }
}

/// A resource created for a recycle signal while checkouts wait goes to the
/// oldest waiter, who leaves the queue; the idle queue and the overflow count
/// stay as they are, and should that waiter be gone the resource goes on to
/// the next one.
pub proof fn recycled_replacement_goes_to_oldest_waiter<R>(
    s: PoolView<R>,
    pending: Pending<R>,
    fresh: R,
)
    requires
        s.wf(),
        s.waiting.len() > 0,
        pending is Recycle || pending is Replace,
    ensures
        created_spec(s, pending, fresh) == (s.with_waiting(s.waiting.drop_first()), reply_step(
            s.waiting[0],
            Some(fresh),
            OnRefusal::HandOver { recycled: false, stop_on_shutdown: true },
        )),
{
    let t = s.with_resources(s.resources.push(fresh));
    assert(t.resources.drop_first() =~= s.resources);
}

/// After a safe shutdown, once no checkout waits, the manager stops at the
/// next resource that comes its way: a checkin (whatever the overflow count
/// and the resource's flag), a resource created for a recycle signal, or a
/// resource that a gone receiver handed back.
pub proof fn shutdown_stops_once_drained<R>(
    s: PoolView<R>,
    resource: R,
    recycled: bool,
    fresh: R,
)
    requires
        s.shutdown,
        s.waiting.len() == 0,
    ensures
        recv_spec(s, Some(Event::Checkin { resource, recycled })).1 == Step::<R>::Finish(
            WorkerState::Disconnected,
        ),
        created_spec(s, Pending::Recycle, fresh).1 == Step::<R>::Finish(WorkerState::Disconnected),
        created_spec(s, Pending::Replace, fresh).1 == Step::<R>::Finish(WorkerState::Disconnected),
        after_reply_spec(
            s,
            OnRefusal::HandOver { recycled, stop_on_shutdown: true },
            Err(Some(resource)),
        ).1 == Step::<R>::Finish(WorkerState::Disconnected),
{
}

/// While the pool runs and nobody waits, a destroyed resource is made good:
/// a destroyed overflow resource frees its slot (its stand-in is retired at
/// once), and any other is replaced, the idle queue gaining the new resource
/// and nothing else.
pub proof fn destroyed_resources_are_made_good<R>(s: PoolView<R>, fresh: R)
    requires
        s.wf(),
        !s.shutdown,
        s.waiting.len() == 0,
    ensures
        s.overflow_worker > 0 ==> {
            &&& recv_spec(s, Some(Event::Recycle)) == (s, Step::<R>::Create(Pending::Recycle))
            &&& created_spec(s, Pending::Recycle, fresh) == (s.with_overflow_worker(
                (s.overflow_worker - 1) as usize,
            ), Step::Retire(fresh))
        },
        s.overflow_worker == 0 ==> {
            let (post, step) = created_spec(s, Pending::Replace, fresh);
            &&& recv_spec(s, Some(Event::Recycle)) == (s, Step::<R>::Create(Pending::Replace))
            &&& step == Step::<R>::Finish(WorkerState::Continue)
            &&& post.resources.to_multiset() == s.resources.to_multiset().insert(fresh)
            &&& post.resources.len() == s.resources.len() + 1
            &&& post.overflow_worker == 0
            &&& post.waiting == s.waiting
            &&& post.shutdown == s.shutdown
        },
{
    broadcast use vstd::seq_lib::group_to_multiset_ensures, vstd::multiset::group_multiset_axioms;

    if s.overflow_worker == 0 {
        let q = s.resources;
        if q.len() > 0 {
            assert(q.push(fresh).drop_first() =~= q.drop_first().push(fresh));
            assert(q.drop_first() =~= q.remove(0));
            assert(q.to_multiset().count(q[0]) > 0) by {
                assert(q.contains(q[0]));
            }
            assert(q.drop_first().push(fresh).push(q[0]).to_multiset() =~= q.to_multiset().insert(
                fresh,
            ));
        } else {
            assert(q.push(fresh).drop_first() =~= q);
            assert(q.push(fresh) =~= seq![fresh]);
            assert(q =~= Seq::<R>::empty());
            assert(q.push(fresh).to_multiset() =~= q.to_multiset().insert(fresh));
        }
    }
}

/// While the pool runs and nobody waits, a returned resource (checked in, or
/// handed back by a gone receiver) is dropped if it was recycled; otherwise
/// it frees an overflow slot and is retired while an overflow resource lives,
/// and joins the back of the idle queue when none does.
pub proof fn return_with_nobody_waiting<R>(
    s: PoolView<R>,
    resource: R,
    stop_on_shutdown: bool,
)
    requires
        !s.shutdown,
        s.waiting.len() == 0,
    ensures
        recv_spec(s, Some(Event::Checkin { resource, recycled: true })) == (s, Step::<R>::Finish(
            WorkerState::Continue,
        )),
        ({
            let kept = if s.overflow_worker > 0 {
                (s.with_overflow_worker((s.overflow_worker - 1) as usize), Step::Retire(resource))
            } else {
                (s.with_resources(s.resources.push(resource)), Step::<R>::Finish(WorkerState::Continue))
            };
            &&& recv_spec(s, Some(Event::Checkin { resource, recycled: false })) == kept
            &&& after_reply_spec(
                s,
                OnRefusal::HandOver { recycled: false, stop_on_shutdown },
                Err(Some(resource)),
            ) == kept
        }),
{
}

/// The requests that move no resource: a closed channel stops the manager, a
/// statistics request reports the counters, a safe shutdown sets the flag;
/// none of them changes anything else. A resource created for a checkout is
/// sent to that checkout, and a reply that was taken, refused with `None`, or
/// came back empty ends the request with nothing changed.
pub proof fn requests_that_move_nothing<R>(
    s: PoolView<R>,
    reply: Reply<R>,
    fresh: R,
    on_refusal: OnRefusal,
    sent: Result<(), Option<R>>,
)
    ensures
        recv_spec(s, None) == (s, Step::<R>::Finish(WorkerState::Disconnected)),
        recv_spec(s, Some(Event::PrintStatistics)) == (s, Step::<R>::Report(Statistics {
            size: s.size,
            max_overflow: s.max_overflow,
            overflow_worker: s.overflow_worker,
            resources: s.resources.len() as usize,
        })),
        recv_spec(s, Some(Event::ShutdownSafe)) == (PoolView { shutdown: true, ..s }, Step::<
            R,
        >::Finish(WorkerState::Continue)),
        created_spec(s, Pending::Serve(reply), fresh) == (s, reply_step(
            reply,
            Some(fresh),
            OnRefusal::HandOver { recycled: false, stop_on_shutdown: false },
        )),
        after_reply_spec(s, on_refusal, Ok(())) == (s, Step::<R>::Finish(WorkerState::Continue)),
        after_reply_spec(s, OnRefusal::Ignore, sent) == (s, Step::<R>::Finish(WorkerState::Continue)),
        after_reply_spec(s, on_refusal, Err(None)) == (s, Step::<R>::Finish(WorkerState::Continue)),
{
}

} // verus!
