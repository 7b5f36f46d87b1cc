use vstd::prelude::*;
use std::collections::VecDeque;
use crate::WorkerState;

verus! {

/// tokio's `oneshot::Sender`, carried through as an opaque value.
#[verifier::external_type_specification]
#[verifier::external_body]
#[verifier::reject_recursive_types(T)]
pub struct ExOneshotSender<T>(tokio::sync::oneshot::Sender<T>);

/// The reply channel of a checkout request.
pub type Reply<R> = tokio::sync::oneshot::Sender<Option<R>>;

/// Sends `value` over `reply` with tokio's `oneshot::Sender::send`, which
/// consumes the sender. tokio hands the value back, unchanged, in `Err` when
/// the receiving side is gone; `Ok` says nothing more than that the value left.
#[verifier::external_body]
fn send_reply<R>(reply: Reply<R>, value: Option<R>) -> (res: Result<(), Option<R>>)
    ensures
        res matches Err(back) ==> back == value,
{
    reply.send(value)
}

/// Counters reported on a statistics request.
#[derive(Debug, Clone, Copy, PartialEq, Eq, Structural)]
pub struct Statistics {
    pub size: usize,
    pub max_overflow: usize,
    pub overflow_worker: usize,
    pub resources: usize,
}

/// A request to the manager, as the manager's loop receives it.
#[verifier::reject_recursive_types(R)]
pub enum Event<R> {
    /// A resource comes back; `recycled` is its flag saying that a recycle
    /// signal was already sent for it.
    Checkin { resource: R, recycled: bool },
    /// Wait for a resource if none can be had now.
    BlockCheckout(Reply<R>),
    /// Answer `None` if no resource can be had now.
    NonBlockCheckout(Reply<R>),
    /// A resource was destroyed.
    Recycle,
    PrintStatistics,
    /// Stop taking checkouts; stop the manager once nobody waits any more.
    ShutdownSafe,
}

/// What a request still needs once a new resource has been created.
#[verifier::reject_recursive_types(R)]
pub enum Pending<R> {
    /// A checkout opened an overflow slot: the new resource answers `reply`.
    Serve(Reply<R>),
    /// A recycle signal opened an overflow slot for the new resource.
    Recycle,
    /// A recycle signal replaces a destroyed resource with the new one.
    Replace,
}

/// What follows when the receiver of a reply is gone and the value comes back.
#[derive(Debug, Clone, Copy, PartialEq, Eq, Structural)]
pub enum OnRefusal {
    /// Nothing: the reply was a refusal, `None`.
    Ignore,
    /// The resource is offered to the next waiter, or checked in when none is
    /// left (the manager stops there instead when `stop_on_shutdown` holds
    /// and the pool shuts down). `recycled` is the resource's flag.
    HandOver { recycled: bool, stop_on_shutdown: bool },
}

/// What the caller of the manager does next.
#[verifier::reject_recursive_types(R)]
pub enum Step<R> {
    /// The request is done; the loop goes on or stops.
    Finish(WorkerState),
    /// Create a resource, then hand it to `handle_created` with this pending request.
    Create(Pending<R>),
    /// Send `value` over `reply`, through `deliver`.
    Reply { reply: Reply<R>, value: Option<R>, on_refusal: OnRefusal },
    /// Mark this overflow resource as recycled and drop it; then go on.
    Retire(R),
    /// Print these counters; then go on.
    Report(Statistics),
}

/// What `checkout` found.
pub enum Checkout<R> {
    /// The idle resource at the front of the queue.
    Idle(R),
    /// No idle resource; an overflow slot was taken, and a new resource must be created for it.
    Overflow,
    /// No idle resource and no free overflow slot.
    Exhausted,
}

/// The manager's state as the contracts see it.
#[verifier::ext_equal]
#[verifier::reject_recursive_types(R)]
pub struct PoolView<R> {
    /// Idle resources, the next to hand out first.
    pub resources: Seq<R>,
    /// Blocked checkouts, the oldest first.
    pub waiting: Seq<Reply<R>>,
    pub size: usize,
    pub max_overflow: usize,
    /// Overflow resources alive now.
    pub overflow_worker: usize,
    pub shutdown: bool,
}

impl<R> PoolView<R> {
    /// The overflow count stays within its bound, an overflow resource lives
    /// only while no resource is idle, and a checkout waits only while no idle
    /// resource and no overflow slot is left.
    pub open spec fn wf(self) -> bool {
        &&& self.overflow_worker <= self.max_overflow
        &&& self.resources.len() > 0 ==> self.overflow_worker == 0
        &&& self.waiting.len() > 0 ==> self.resources.len() == 0 && self.overflow_worker
            == self.max_overflow
    }

    pub open spec fn with_resources(self, resources: Seq<R>) -> Self {
        PoolView { resources, ..self }
    }

    pub open spec fn with_waiting(self, waiting: Seq<Reply<R>>) -> Self {
        PoolView { waiting, ..self }
    }

    pub open spec fn with_overflow_worker(self, overflow_worker: usize) -> Self {
        PoolView { overflow_worker, ..self }
    }

    pub open spec fn with_shutdown(self, shutdown: bool) -> Self {
        PoolView { shutdown, ..self }
    }

    pub open spec fn statistics(self) -> Statistics {
        Statistics {
            size: self.size,
            max_overflow: self.max_overflow,
            overflow_worker: self.overflow_worker,
            resources: self.resources.len() as usize,
        }
    }
}

/// A resource comes back: one already recycled is dropped, one that stands
/// for an overflow slot frees the slot and is handed back to be retired, any
/// other joins the back of the idle queue.
pub open spec fn checkin_spec<R>(s: PoolView<R>, resource: R, recycled: bool) -> (PoolView<R>, Option<R>) {
    if recycled {
        (s, None)
    } else if s.overflow_worker > 0 {
        (s.with_overflow_worker((s.overflow_worker - 1) as usize), Some(resource))
    } else {
        (s.with_resources(s.resources.push(resource)), None)
    }
}

/// Take an overflow slot while one is free.
pub open spec fn factory_overflow_spec<R>(s: PoolView<R>) -> (PoolView<R>, Checkout<R>) {
    if s.overflow_worker < s.max_overflow {
        (s.with_overflow_worker((s.overflow_worker + 1) as usize), Checkout::Overflow)
    } else {
        (s, Checkout::Exhausted)
    }
}

/// Take the front idle resource, else an overflow slot while one is free.
pub open spec fn checkout_spec<R>(s: PoolView<R>) -> (PoolView<R>, Checkout<R>) {
    if s.resources.len() > 0 {
        (s.with_resources(s.resources.drop_first()), Checkout::Idle(s.resources[0]))
    } else {
        factory_overflow_spec(s)
    }
}

pub open spec fn retire_or_continue<R>(back: Option<R>) -> Step<R> {
    match back {
        Some(r) => Step::Retire(r),
        None => Step::Finish(WorkerState::Continue),
    }
}

/// The step that answers `reply` with `value`.
pub open spec fn reply_step<R>(reply: Reply<R>, value: Option<R>, on_refusal: OnRefusal) -> Step<R> {
    Step::Reply { reply, value, on_refusal }
}

/// A resource is offered to the oldest waiter, who leaves the queue; should
/// that waiter be gone, the resource comes back and the same happens again.
/// With no waiter left the resource is checked in, unless `stop_on_shutdown`
/// holds and the pool shuts down: then the manager stops and drops it.
pub open spec fn hand_over_spec<R>(s: PoolView<R>, resource: R, recycled: bool, stop_on_shutdown: bool) -> (PoolView<R>, Step<R>) {
    if s.waiting.len() > 0 {
        (
            s.with_waiting(s.waiting.drop_first()),
            reply_step(s.waiting[0], Some(resource), OnRefusal::HandOver { recycled, stop_on_shutdown }),
        )
    } else if stop_on_shutdown && s.shutdown {
        (s, Step::Finish(WorkerState::Disconnected))
    } else {
        let (t, back) = checkin_spec(s, resource, recycled);
        (t, retire_or_continue(back))
    }
}

/// The resource is sent to the requester; should the requester be gone, it
/// is handed over to the waiters and then checked in.
pub open spec fn serve_spec<R>(s: PoolView<R>, reply: Reply<R>, resource: R) -> (PoolView<R>, Step<R>) {
    (s, reply_step(reply, Some(resource), OnRefusal::HandOver { recycled: false, stop_on_shutdown: false }))
}

/// A checkout is answered `None`; the answer needs nothing after it.
pub open spec fn refusal<R>(reply: Reply<R>) -> Step<R> {
    reply_step(reply, None, OnRefusal::Ignore)
}

/// A checkout: refused while shutting down; otherwise sent the front idle
/// resource, or given an overflow slot and a resource created for it; when
/// nothing can be had, left waiting (`blocking`) or refused.
pub open spec fn checkout_for_spec<R>(s: PoolView<R>, reply: Reply<R>, blocking: bool) -> (PoolView<R>, Step<R>) {
    if s.shutdown {
        (s, refusal(reply))
    } else {
        let (t, taken) = checkout_spec(s);
        match taken {
            Checkout::Idle(r) => serve_spec(t, reply, r),
            Checkout::Overflow => (t, Step::Create(Pending::Serve(reply))),
            Checkout::Exhausted => if blocking {
                (t.with_waiting(t.waiting.push(reply)), Step::Finish(WorkerState::Continue))
            } else {
                (t, refusal(reply))
            },
        }
    }
}

/// A recycle signal: a destroyed overflow resource frees its slot, which a
/// new resource takes at once (no resource is idle while an overflow one
/// lives); any other destroyed resource is replaced by a new one.
pub open spec fn recycle_spec<R>(s: PoolView<R>) -> (PoolView<R>, Step<R>) {
    if s.overflow_worker > 0 {
        (s, Step::Create(Pending::Recycle))
    } else {
        (s, Step::Create(Pending::Replace))
    }
}

/// What handling one request does; `None` stands for a closed channel.
pub open spec fn recv_spec<R>(s: PoolView<R>, req: Option<Event<R>>) -> (PoolView<R>, Step<R>) {
    match req {
        None => (s, Step::Finish(WorkerState::Disconnected)),
        Some(Event::Checkin { resource, recycled }) => hand_over_spec(s, resource, recycled, true),
        Some(Event::BlockCheckout(reply)) => checkout_for_spec(s, reply, true),
        Some(Event::NonBlockCheckout(reply)) => checkout_for_spec(s, reply, false),
        Some(Event::Recycle) => recycle_spec(s),
        Some(Event::PrintStatistics) => (s, Step::Report(s.statistics())),
        Some(Event::ShutdownSafe) => (s.with_shutdown(true), Step::Finish(WorkerState::Continue)),
    }
}

/// What handing a newly created resource to its pending request does.
pub open spec fn created_spec<R>(s: PoolView<R>, pending: Pending<R>, fresh: R) -> (PoolView<R>, Step<R>) {
    match pending {
        Pending::Serve(reply) => serve_spec(s, reply, fresh),
        Pending::Recycle => hand_over_spec(s, fresh, false, true),
        Pending::Replace => {
            let t = s.with_resources(s.resources.push(fresh));
            hand_over_spec(t.with_resources(t.resources.drop_first()), t.resources[0], false, true)
        },
    }
}

/// What follows a reply, from how tokio's send ended: `Ok`, or `Err` with the
/// value handed back.
pub open spec fn after_reply_spec<R>(s: PoolView<R>, on_refusal: OnRefusal, sent: Result<(), Option<R>>) -> (PoolView<R>, Step<R>) {
    match sent {
        Ok(()) => (s, Step::Finish(WorkerState::Continue)),
        Err(back) => match (on_refusal, back) {
            (OnRefusal::HandOver { recycled, stop_on_shutdown }, Some(r)) => hand_over_spec(s, r, recycled, stop_on_shutdown),
            _ => (s, Step::Finish(WorkerState::Continue)),
        },
    }
}

/// The manager of a pool: idle resources, blocked checkouts and the overflow count.
#[verifier::reject_recursive_types(R)]
pub struct Pool<R> {
    resources: VecDeque<R>,
    waiting: VecDeque<Reply<R>>,
    size: usize,
    max_overflow: usize,
    overflow_worker: usize,
    shutdown: bool,
}

impl<R> View for Pool<R> {
    type V = PoolView<R>;

    closed spec fn view(&self) -> PoolView<R> {
        PoolView {
            resources: self.resources@,
            waiting: self.waiting@,
            size: self.size,
            max_overflow: self.max_overflow,
            overflow_worker: self.overflow_worker,
            shutdown: self.shutdown,
        }
    }
}

impl<R> Pool<R> {
    /// Every pool is well formed (see `PoolView::wf`).
    #[verifier::type_invariant]
    spec fn well_formed(self) -> bool {
        self@.wf()
    }

    /// A manager for a pool of `pool_size` resources, already created and
    /// given in `resources`, that may open up to `max_overflow` extra ones.
    pub fn new(pool_size: usize, max_overflow: usize, resources: VecDeque<R>) -> (pool: Self)
        requires
            resources@.len() == pool_size,
        ensures
            pool@ == (PoolView {
                resources: resources@,
                waiting: Seq::empty(),
                size: pool_size,
                max_overflow,
                overflow_worker: 0,
                shutdown: false,
            }),
            pool@.wf(),
    {
        Pool {
            resources,
            waiting: VecDeque::new(),
            size: pool_size,
            max_overflow,
            overflow_worker: 0,
            shutdown: false,
        }
    }

    /// The counters that a statistics request reports.
    pub fn statistics(&self) -> (stats: Statistics)
        ensures
            stats == self@.statistics(),
            self@.wf(),
    {
        proof {
            use_type_invariant(self);
        }
        Statistics {
            size: self.size,
            max_overflow: self.max_overflow,
            overflow_worker: self.overflow_worker,
            resources: self.resources.len(),
        }
    }

    /// Takes the front idle resource out of the queue.
    fn pop_idle(&mut self) -> (front: Option<R>)
        ensures
            old(self)@.resources.len() > 0 ==> front == Some(old(self)@.resources[0])
                && final(self)@ == old(self)@.with_resources(old(self)@.resources.drop_first()),
            old(self)@.resources.len() == 0 ==> front is None && final(self)@ == old(self)@,
    {
        proof {
            use_type_invariant(&*self);
        }
        let mut resources = VecDeque::new();
        std::mem::swap(&mut resources, &mut self.resources);
        let front = resources.pop_front();
        std::mem::swap(&mut resources, &mut self.resources);
        front
    }

    /// Puts a resource at the back of the idle queue, which is allowed while
    /// no overflow resource lives and nobody waits.
    fn push_idle(&mut self, resource: R)
        requires
            old(self)@.overflow_worker == 0,
            old(self)@.waiting.len() == 0,
        ensures
            final(self)@ == old(self)@.with_resources(old(self)@.resources.push(resource)),
    {
        proof {
            use_type_invariant(&*self);
        }
        let mut resources = VecDeque::new();
        std::mem::swap(&mut resources, &mut self.resources);
        resources.push_back(resource);
        std::mem::swap(&mut resources, &mut self.resources);
    }

    /// Takes the oldest waiter out of the queue.
    fn pop_waiter(&mut self) -> (front: Option<Reply<R>>)
        ensures
            old(self)@.waiting.len() > 0 ==> front == Some(old(self)@.waiting[0]) && final(self)@
                == old(self)@.with_waiting(old(self)@.waiting.drop_first()),
            old(self)@.waiting.len() == 0 ==> front is None && final(self)@ == old(self)@,
    {
        proof {
            use_type_invariant(&*self);
        }
        let mut waiting = VecDeque::new();
        std::mem::swap(&mut waiting, &mut self.waiting);
        let front = waiting.pop_front();
        std::mem::swap(&mut waiting, &mut self.waiting);
        front
    }

    /// Puts a checkout at the back of the waiters, which is allowed once no
    /// resource is idle and no overflow slot is free.
    fn push_waiter(&mut self, reply: Reply<R>)
        requires
            old(self)@.resources.len() == 0,
            old(self)@.overflow_worker == old(self)@.max_overflow,
        ensures
            final(self)@ == old(self)@.with_waiting(old(self)@.waiting.push(reply)),
    {
        proof {
            use_type_invariant(&*self);
        }
        let mut waiting = VecDeque::new();
        std::mem::swap(&mut waiting, &mut self.waiting);
        waiting.push_back(reply);
        std::mem::swap(&mut waiting, &mut self.waiting);
    }

    /// Takes a resource back; it is called once nobody waits.
    fn checkin(&mut self, resource: R, recycled: bool) -> (retire: Option<R>)
        requires
            old(self)@.waiting.len() == 0,
        ensures
            (final(self)@, retire) == checkin_spec(old(self)@, resource, recycled),
    {
        proof {
            use_type_invariant(&*self);
        }
        // a recycled resource was reported destroyed already
        if recycled {
            return None;
        }
        // an overflow resource is not kept: the slot is freed
        if self.overflow_worker > 0 {
            self.overflow_worker = self.overflow_worker - 1;
            return Some(resource);
        }
        self.push_idle(resource);
        None
    }

    /// Takes an idle resource, or an overflow slot when none is idle.
    fn checkout(&mut self) -> (taken: Checkout<R>)
        ensures
            (final(self)@, taken) == checkout_spec(old(self)@),
    {
        if self.resources.len() == 0 {
            return self.factory_overflow();
        }
        match self.pop_idle() {
            Some(resource) => Checkout::Idle(resource),
            None => Checkout::Exhausted,
        }
    }

    /// Takes an overflow slot if one is free; it is called when no resource
    /// is idle, as an overflow resource lives only then.
    fn factory_overflow(&mut self) -> (taken: Checkout<R>)
        requires
            old(self)@.resources.len() == 0,
        ensures
            (final(self)@, taken) == factory_overflow_spec(old(self)@),
    {
        proof {
            use_type_invariant(&*self);
        }
        if self.overflow_worker < self.max_overflow {
            self.overflow_worker = self.overflow_worker + 1;
            return Checkout::Overflow;
        }
        Checkout::Exhausted
    }

    /// Offers `resource` to the oldest waiter; with none left, checks it in or
    /// stops (see `hand_over_spec`).
    fn hand_over(&mut self, resource: R, recycled: bool, stop_on_shutdown: bool) -> (step: Step<R>)
        ensures
            (final(self)@, step) == hand_over_spec(old(self)@, resource, recycled, stop_on_shutdown),
    {
        match self.pop_waiter() {
            Some(reply) => Step::Reply {
                reply,
                value: Some(resource),
                on_refusal: OnRefusal::HandOver { recycled, stop_on_shutdown },
            },
            None => {
                if stop_on_shutdown && self.shutdown {
                    return Step::Finish(WorkerState::Disconnected);
                }
                match self.checkin(resource, recycled) {
                    Some(overflow) => Step::Retire(overflow),
                    None => Step::Finish(WorkerState::Continue),
                }
            },
        }
    }

    /// Sends `resource` to the requester.
    fn serve(&self, reply: Reply<R>, resource: R) -> (step: Step<R>)
        ensures
            step == serve_spec(self@, reply, resource).1,
    {
        Step::Reply {
            reply,
            value: Some(resource),
            on_refusal: OnRefusal::HandOver { recycled: false, stop_on_shutdown: false },
        }
    }

    /// Handles one request; `None` stands for a closed channel.
    pub fn handle_recv(&mut self, req: Option<Event<R>>) -> (step: Step<R>)
        ensures
            final(self)@.wf(),
            (final(self)@, step) == recv_spec(old(self)@, req),
    {
        proof {
            use_type_invariant(&*self);
        }
        let step = match req {
            None => Step::Finish(WorkerState::Disconnected),
            Some(event) => match event {
                Event::Checkin { resource, recycled } => self.hand_over(resource, recycled, true),
                Event::BlockCheckout(reply) => self.checkout_for(reply, true),
                Event::NonBlockCheckout(reply) => self.checkout_for(reply, false),
                Event::Recycle => self.recycle(),
                Event::PrintStatistics => Step::Report(self.statistics()),
                Event::ShutdownSafe => {
                    self.shutdown = true;
                    Step::Finish(WorkerState::Continue)
                },
            },
        };
        proof {
            use_type_invariant(&*self);
        }
        step
    }

    /// A checkout request (see `checkout_for_spec`).
    fn checkout_for(&mut self, reply: Reply<R>, blocking: bool) -> (step: Step<R>)
        ensures
            (final(self)@, step) == checkout_for_spec(old(self)@, reply, blocking),
    {
        proof {
            use_type_invariant(&*self);
        }
        if self.shutdown {
            return Step::Reply { reply, value: None, on_refusal: OnRefusal::Ignore };
        }
        match self.checkout() {
            Checkout::Idle(resource) => self.serve(reply, resource),
            Checkout::Overflow => Step::Create(Pending::Serve(reply)),
            Checkout::Exhausted => {
                if blocking {
                    self.push_waiter(reply);
                    Step::Finish(WorkerState::Continue)
                } else {
                    Step::Reply { reply, value: None, on_refusal: OnRefusal::Ignore }
                }
            },
        }
    }

    /// A recycle signal (see `recycle_spec`).
    fn recycle(&mut self) -> (step: Step<R>)
        ensures
            (final(self)@, step) == recycle_spec(old(self)@),
    {
        proof {
            use_type_invariant(&*self);
        }
        if self.overflow_worker > 0 {
            // The destroyed overflow resource frees its slot. An overflow
            // resource lives only while no resource is idle, so the pool has
            // none to hand over, and the freed slot is taken at once for a
            // new resource: the count stays as it is.
            Step::Create(Pending::Recycle)
        } else {
            Step::Create(Pending::Replace)
        }
    }

    /// Hands a newly created resource to the request that asked for it.
    pub fn handle_created(&mut self, pending: Pending<R>, fresh: R) -> (step: Step<R>)
        ensures
            final(self)@.wf(),
            (final(self)@, step) == created_spec(old(self)@, pending, fresh),
    {
        proof {
            use_type_invariant(&*self);
        }
        let step = match pending {
            Pending::Serve(reply) => self.serve(reply, fresh),
            Pending::Recycle => self.hand_over(fresh, false, true),
            Pending::Replace => {
                if self.resources.len() == 0 {
                    // the new resource is the front of the queue at once
                    self.hand_over(fresh, false, true)
                } else {
                    // it joins the back; the front one is handed over
                    self.push_idle(fresh);
                    match self.pop_idle() {
                        Some(resource) => self.hand_over(resource, false, true),
                        None => Step::Finish(WorkerState::Continue),
                    }
                }
            },
        };
        proof {
            use_type_invariant(&*self);
        }
        step
    }

    /// Sends `value` over `reply` and goes on from how the send ended. The
    /// receiver decides between the two outcomes: it took the value, or it was
    /// gone and tokio handed the value back.
    pub fn deliver(&mut self, reply: Reply<R>, value: Option<R>, on_refusal: OnRefusal) -> (step: Step<R>)
        ensures
            final(self)@.wf(),
            (final(self)@, step) == after_reply_spec(old(self)@, on_refusal, Ok(()))
                || (final(self)@, step) == after_reply_spec(old(self)@, on_refusal, Err(value)),
    {
        let sent = send_reply(reply, value);
        self.after_reply(on_refusal, sent)
    }

    /// What follows a reply, for each way tokio's send can end.
    pub fn after_reply(&mut self, on_refusal: OnRefusal, sent: Result<(), Option<R>>) -> (step: Step<R>)
        ensures
            final(self)@.wf(),
            (final(self)@, step) == after_reply_spec(old(self)@, on_refusal, sent),
    {
        let step = match sent {
            Ok(()) => Step::Finish(WorkerState::Continue),
            Err(back) => match (on_refusal, back) {
                (OnRefusal::HandOver { recycled, stop_on_shutdown }, Some(resource)) => self.hand_over(
                    resource,
                    recycled,
                    stop_on_shutdown,
                ),
                _ => Step::Finish(WorkerState::Continue),
            },
        };
        proof {
            use_type_invariant(&*self);
        }
        step
    }
}

} // verus!
