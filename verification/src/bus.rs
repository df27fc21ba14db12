//! The event bus: subscription and handler tables keyed by message tag, and
//! synchronous in-order dispatch.
//!
//! Handler instances live in an arena owned by the bus; an erased handler is
//! the pair of a message tag and the index of its owning instance, so one
//! instance may serve several message kinds and several registrations. Every
//! `send` walks the tables in strict insertion order: it first hands each
//! matching subscription endpoint a completion signal, then runs each
//! matching handler to completion, and appends one record per handler
//! invocation to a dispatch log, making delivery order observable.

use vstd::prelude::*;

use crate::message::Message;
use crate::message::MessageContext;
use crate::message::MessageHandler;

verus! {

/// The declaration of `futures`' unbounded channel sender, so that bus
/// subscription entries can hold one.
#[verifier::external_type_specification]
#[verifier::external_body]
#[verifier::reject_recursive_types(T)]
pub struct ExUnboundedSender<T>(futures::channel::mpsc::UnboundedSender<T>);

/// The declaration of `futures`' unbounded channel receiver, so that a
/// subscription receiver can hold one.
#[verifier::external_type_specification]
#[verifier::external_body]
#[verifier::reject_recursive_types(T)]
pub struct ExUnboundedReceiver<T>(futures::channel::mpsc::UnboundedReceiver<T>);

/// The identity of the channel a sender endpoint feeds: two senders bear the
/// same value exactly when they queue onto the same channel.
pub uninterp spec fn sender_chan(tx: futures::channel::mpsc::UnboundedSender<()>) -> int;

/// The identity of the channel a receiver endpoint drains. Only a receiver
/// that has reported itself closed and drained lets go of its channel, so
/// only that outcome of a poll may change this value.
pub uninterp spec fn receiver_chan(rx: futures::channel::mpsc::UnboundedReceiver<()>) -> int;

/// Relies on futures::channel::mpsc::unbounded: creates a connected
/// sender/receiver pair for an unbounded in-process queue — the two
/// endpoints of one and the same fresh channel.
#[verifier::external_body]
fn signal_channel() -> (r: (
    futures::channel::mpsc::UnboundedSender<()>,
    futures::channel::mpsc::UnboundedReceiver<()>,
))
    ensures
        sender_chan(r.0) == receiver_chan(r.1),
{
    futures::channel::mpsc::unbounded()
}

/// Relies on UnboundedSender::unbounded_send: queues one signal without
/// blocking; it fails exactly when the receiving half is gone, and delivery
/// means "queued", not "processed".
#[verifier::external_body]
fn signal_send(tx: &futures::channel::mpsc::UnboundedSender<()>) -> bool {
    tx.unbounded_send(()).is_ok()
}

/// Relies on UnboundedReceiver::try_recv: without blocking, pops one queued
/// signal if any, and otherwise tells an empty-but-open channel apart from
/// one whose sending half is gone and drained. The receiver drops its inner
/// channel handle only on that closed-and-drained outcome, so on any other
/// outcome it still drains the same channel.
#[verifier::external_body]
fn signal_try_recv(rx: &mut futures::channel::mpsc::UnboundedReceiver<()>) -> (r: RecvPoll)
    ensures
        r != RecvPoll::Closed ==> receiver_chan(*final(rx)) == receiver_chan(*old(rx)),
{
    match rx.try_recv() {
        Ok(_) => RecvPoll::Signal,
        Err(futures::channel::mpsc::TryRecvError::Empty) => RecvPoll::Pending,
        Err(futures::channel::mpsc::TryRecvError::Closed) => RecvPoll::Closed,
    }
}

/// What one poll of a subscription receiver found.
#[derive(Clone, Copy, Debug, PartialEq, Eq, Structural)]
pub enum RecvPoll {
    /// One completion signal was queued and has now been consumed.
    Signal,
    /// Nothing is queued, but the producer side is still alive.
    Pending,
    /// The producer side is gone and every queued signal has been consumed.
    Closed,
}

/// Yields one completion signal per message delivered under the tag it was
/// subscribed with (not the payload).
pub struct EventBusReceiver {
    rx: futures::channel::mpsc::UnboundedReceiver<()>,
}

impl EventBusReceiver {
    /// The identity of the channel this receiver drains.
    pub closed spec fn chan(&self) -> int {
        receiver_chan(self.rx)
    }

    /// Poll for the next completion signal. `Closed` rather than blocking
    /// forever reports that every producer for the subscription is gone.
    /// Which of the three comes back is decided by the channel alone; on any
    /// outcome but `Closed` the receiver still drains the channel it drained
    /// before, so its tie to the subscription endpoint survives the poll.
    pub fn recv(&mut self) -> (r: RecvPoll)
        ensures
            r != RecvPoll::Closed ==> final(self).chan() == old(self).chan(),
    {
        signal_try_recv(&mut self.rx)
    }
}

/// One subscription endpoint: messages whose tag matches get one signal
/// queued on `tx`.
struct SubEntry {
    message_tag: u64,
    tx: futures::channel::mpsc::UnboundedSender<()>,
}

/// The specification-level picture of one subscription endpoint: the tag it
/// listens for and the identity of the channel its signals are queued on.
pub struct SubEndpoint {
    /// The message kind this endpoint listens for.
    pub message_tag: u64,
    /// The identity of the channel behind the endpoint.
    pub chan: int,
}

/// A handler instance shared into the bus's arena, together with the stable
/// tag of the element type it was promoted from.
pub struct BusInstance<H> {
    /// The stable tag of the element type of this instance.
    pub element_type_id: u64,
    /// The handler state itself.
    pub state: H,
}

/// An erased handler: the index of the owning instance in the bus's arena,
/// and the tag of the message kind it was registered for.
#[derive(Clone, Copy, Debug, PartialEq, Eq, Structural)]
pub struct HandlerSlot {
    /// The message kind this registration listens for.
    pub message_tag: u64,
    /// The arena index of the owning instance.
    pub instance: usize,
}

/// One handler invocation performed by a `send`, as recorded in the bus's
/// dispatch log.
#[derive(Clone, Copy, Debug, PartialEq, Eq, Structural)]
pub struct DispatchRecord {
    /// The tag of the message that was delivered.
    pub message_tag: u64,
    /// The position, in the handler table, of the registration that fired.
    pub slot: usize,
    /// The arena index of the instance that was invoked.
    pub instance: usize,
}

/// The invocation records that one `send` of a message tagged `tag` appends:
/// one record per handler slot whose tag matches, in table order.
pub open spec fn records_for(slots: Seq<HandlerSlot>, tag: u64) -> Seq<DispatchRecord>
    decreases slots.len(),
{
    if slots.len() == 0 {
        Seq::empty()
    } else {
        let i = slots.len() - 1;
        let prefix = records_for(slots.drop_last(), tag);
        if slots[i].message_tag == tag {
            prefix.push(
                DispatchRecord { message_tag: tag, slot: i as usize, instance: slots[i].instance },
            )
        } else {
            prefix
        }
    }
}

/// One completion signal handed to a subscription endpoint by a `send`.
pub struct SignalRecord {
    /// The tag of the message that was delivered.
    pub message_tag: u64,
    /// The position, in the subscription table, of the endpoint signaled.
    pub sub: int,
    /// The identity of the channel the signal was queued on.
    pub chan: int,
}

/// One delivery action of the bus, in the order the bus performed it.
pub enum BusEvent {
    /// One completion signal queued on a subscription endpoint.
    Signal(SignalRecord),
    /// One handler invocation run to completion.
    Invoke(DispatchRecord),
}

/// The signals that one `send` of a message tagged `tag` hands out: one per
/// subscription endpoint whose tag matches, in subscription order, and none
/// to any other endpoint.
pub open spec fn signals_for(subs: Seq<SubEndpoint>, tag: u64) -> Seq<SignalRecord>
    decreases subs.len(),
{
    if subs.len() == 0 {
        Seq::empty()
    } else {
        let i = subs.len() - 1;
        let prefix = signals_for(subs.drop_last(), tag);
        if subs[i].message_tag == tag {
            prefix.push(SignalRecord { message_tag: tag, sub: i, chan: subs[i].chan })
        } else {
            prefix
        }
    }
}

/// The subscriber phase of one `send`, as bus events.
pub open spec fn signal_events(subs: Seq<SubEndpoint>, tag: u64) -> Seq<BusEvent> {
    signals_for(subs, tag).map_values(|s: SignalRecord| BusEvent::Signal(s))
}

/// The handler phase of one `send`, as bus events.
pub open spec fn invoke_events(slots: Seq<HandlerSlot>, tag: u64) -> Seq<BusEvent> {
    records_for(slots, tag).map_values(|r: DispatchRecord| BusEvent::Invoke(r))
}

/// One handler invocation, as a relation on the instance arena: the invoked
/// instance moves as its `handle_rel` allows, and every other instance is
/// untouched.
pub open spec fn step_rel<M: Message, H: MessageHandler<M>>(
    pre: Seq<BusInstance<H>>,
    r: DispatchRecord,
    m: M,
    post: Seq<BusInstance<H>>,
) -> bool {
    &&& post.len() == pre.len()
    &&& 0 <= r.instance < pre.len()
    &&& post[r.instance as int].element_type_id == pre[r.instance as int].element_type_id
    &&& H::handle_rel(pre[r.instance as int].state, m, post[r.instance as int].state)
    &&& forall|j: int| 0 <= j < pre.len() && j != r.instance ==> post[j] == pre[j]
}

/// The effect of one `send` on the instance arena: the composition of one
/// `step_rel` per invocation record, in record order.
pub open spec fn dispatch_rel<M: Message, H: MessageHandler<M>>(
    pre: Seq<BusInstance<H>>,
    records: Seq<DispatchRecord>,
    m: M,
    post: Seq<BusInstance<H>>,
) -> bool
    decreases records.len(),
{
    if records.len() == 0 {
        post == pre
    } else {
        exists|mid: Seq<BusInstance<H>>|
            dispatch_rel(pre, records.drop_last(), m, mid) && step_rel(mid, records.last(), m, post)
    }
}

/// A send invokes only handlers registered for the message's tag, each at
/// most once, and in registration order: the invocation records of one send
/// are strictly ordered by table position, and each record points at a slot
/// whose tag matches and carries that slot's instance.
pub proof fn lemma_records_sound(slots: Seq<HandlerSlot>, tag: u64)
    requires
        slots.len() <= usize::MAX,
    ensures
        forall|a: int, b: int|
            0 <= a < b < records_for(slots, tag).len() ==> (#[trigger] records_for(slots, tag)[a]).slot
                < (#[trigger] records_for(slots, tag)[b]).slot,
        forall|k: int|
            0 <= k < records_for(slots, tag).len() ==> {
                let r = #[trigger] records_for(slots, tag)[k];
                &&& 0 <= r.slot < slots.len()
                &&& slots[r.slot as int].message_tag == tag
                &&& r.instance == slots[r.slot as int].instance
                &&& r.message_tag == tag
            },
    decreases slots.len(),
{
    let recs = records_for(slots, tag);
    if slots.len() > 0 {
        let sub = slots.drop_last();
        lemma_records_sound(sub, tag);
        let prefix = records_for(sub, tag);
        let i = slots.len() - 1;
        assert forall|k: int|
            0 <= k < recs.len() implies {
            let r = #[trigger] recs[k];
            &&& 0 <= r.slot < slots.len()
            &&& slots[r.slot as int].message_tag == tag
            &&& r.instance == slots[r.slot as int].instance
            &&& r.message_tag == tag
        } by {
            if k < prefix.len() {
                assert(recs[k] == prefix[k]);
                let r = prefix[k];
                assert(0 <= r.slot < sub.len());
                assert(sub[r.slot as int] == slots[r.slot as int]);
            } else {
                assert(recs[k].slot == i as usize);
            }
        }
        assert forall|a: int, b: int| 0 <= a < b < recs.len() implies (#[trigger] recs[a]).slot < (
        #[trigger] recs[b]).slot by {
            if b < prefix.len() {
                assert(recs[a] == prefix[a]);
                assert(recs[b] == prefix[b]);
            } else {
                assert(recs[a] == prefix[a]);
                assert(0 <= prefix[a].slot < sub.len());
                assert(recs[b].slot == i as usize);
            }
        }
    }
}

/// A send invokes every handler registered for the message's tag at least
/// once: each matching slot has an invocation record pointing at it.
pub proof fn lemma_records_complete(slots: Seq<HandlerSlot>, tag: u64, i: int)
    requires
        slots.len() <= usize::MAX,
        0 <= i < slots.len(),
        slots[i].message_tag == tag,
    ensures
        exists|k: int|
            0 <= k < records_for(slots, tag).len() && (#[trigger] records_for(slots, tag)[k]).slot
                == i,
    decreases slots.len(),
{
    let recs = records_for(slots, tag);
    if i == slots.len() - 1 {
        assert(recs[recs.len() - 1].slot == i);
    } else {
        lemma_records_complete(slots.drop_last(), tag, i);
        let prefix = records_for(slots.drop_last(), tag);
        let k = choose|k: int| 0 <= k < prefix.len() && (#[trigger] prefix[k]).slot == i;
        assert(recs[k].slot == i);
    }
}

/// Registering the same (instance, message tag) pair twice yields two
/// invocations per subsequent send of that tag: after the two registrations,
/// one send appends the two corresponding records, one per registration, in
/// order.
pub proof fn lemma_duplicate_registration(slots: Seq<HandlerSlot>, s: HandlerSlot, tag: u64)
    requires
        s.message_tag == tag,
        slots.len() + 2 <= usize::MAX,
    ensures
        records_for(slots.push(s).push(s), tag) == records_for(slots, tag).push(
            DispatchRecord { message_tag: tag, slot: slots.len() as usize, instance: s.instance },
        ).push(
            DispatchRecord {
                message_tag: tag,
                slot: (slots.len() + 1) as usize,
                instance: s.instance,
            },
        ),
{
    let once = records_for(slots.push(s), tag);
    assert(slots.push(s).drop_last() =~= slots);
    assert(once == records_for(slots, tag).push(
        DispatchRecord { message_tag: tag, slot: slots.len() as usize, instance: s.instance },
    ));
    assert(slots.push(s).push(s).drop_last() =~= slots.push(s));
    assert(records_for(slots.push(s).push(s), tag) == once.push(
        DispatchRecord {
            message_tag: tag,
            slot: (slots.len() + 1) as usize,
            instance: s.instance,
        },
    ));
}

/// Composing one more step onto a dispatch chain extends the chain by one
/// record.
proof fn lemma_dispatch_rel_push<M: Message, H: MessageHandler<M>>(
    pre: Seq<BusInstance<H>>,
    records: Seq<DispatchRecord>,
    m: M,
    mid: Seq<BusInstance<H>>,
    r: DispatchRecord,
    post: Seq<BusInstance<H>>,
)
    requires
        dispatch_rel(pre, records, m, mid),
        step_rel(mid, r, m, post),
    ensures
        dispatch_rel(pre, records.push(r), m, post),
{
    let extended = records.push(r);
    assert(extended.drop_last() =~= records);
    assert(extended.last() == r);
    assert(dispatch_rel(pre, extended.drop_last(), m, mid) && step_rel(
        mid,
        extended.last(),
        m,
        post,
    ));
}

/// The event bus. It owns the subscription table, the handler table, the
/// arena of shared handler instances, and the dispatch log. Mutation goes
/// through `&mut`, so overlapping table walks are excluded by the borrow
/// checker rather than by a runtime check.
pub struct EventBus<H> {
    subs: Vec<SubEntry>,
    instances: Vec<BusInstance<H>>,
    handlers: Vec<HandlerSlot>,
    log: Vec<DispatchRecord>,
    events: Ghost<Seq<BusEvent>>,
}

impl<H> EventBus<H> {
    /// The subscription endpoints, in subscription order: for each, its tag
    /// and the identity of the channel it feeds.
    pub closed spec fn subs_view(&self) -> Seq<SubEndpoint> {
        self.subs@.map_values(
            |s: SubEntry| SubEndpoint { message_tag: s.message_tag, chan: sender_chan(s.tx) },
        )
    }

    /// The tags of the subscription endpoints, in subscription order.
    pub open spec fn sub_tags(&self) -> Seq<u64> {
        self.subs_view().map_values(|e: SubEndpoint| e.message_tag)
    }

    /// Every delivery action the bus has performed, oldest first: each
    /// subscriber signal and each handler invocation, in the order the bus
    /// did them.
    pub closed spec fn events_view(&self) -> Seq<BusEvent> {
        self.events@
    }

    /// The arena of shared handler instances, in promotion order.
    pub closed spec fn instances_view(&self) -> Seq<BusInstance<H>> {
        self.instances@
    }

    /// The handler table, in registration order.
    pub closed spec fn handlers_view(&self) -> Seq<HandlerSlot> {
        self.handlers@
    }

    /// Every handler invocation performed so far, oldest first.
    pub closed spec fn log_view(&self) -> Seq<DispatchRecord> {
        self.log@
    }

    /// Every registration in the handler table points into the arena.
    pub open spec fn wf(&self) -> bool {
        forall|i: int|
            0 <= i < self.handlers_view().len() ==> (#[trigger] self.handlers_view()[i]).instance
                < self.instances_view().len()
    }

    /// A fresh bus with empty tables.
    pub fn new() -> (bus: EventBus<H>)
        ensures
            bus.wf(),
            bus.subs_view().len() == 0,
            bus.instances_view().len() == 0,
            bus.handlers_view().len() == 0,
            bus.log_view().len() == 0,
            bus.events_view().len() == 0,
    {
        EventBus {
            subs: Vec::new(),
            instances: Vec::new(),
            handlers: Vec::new(),
            log: Vec::new(),
            events: Ghost(Seq::empty()),
        }
    }

    /// Promote an element into a shared, mutably-borrowable instance owned by
    /// the bus's arena, and hand back its stable index.
    pub fn share_instance(&mut self, element_type_id: u64, state: H) -> (id: usize)
        requires
            old(self).wf(),
        ensures
            final(self).wf(),
            id == old(self).instances_view().len(),
            final(self).instances_view() == old(self).instances_view().push(
                BusInstance { element_type_id, state },
            ),
            final(self).handlers_view() == old(self).handlers_view(),
            final(self).subs_view() == old(self).subs_view(),
            final(self).log_view() == old(self).log_view(),
            final(self).events_view() == old(self).events_view(),
    {
        let id = self.instances.len();
        self.instances.push(BusInstance { element_type_id, state });
        proof {
            assert forall|i: int| 0 <= i < self.handlers_view().len() implies (
            #[trigger] self.handlers_view()[i]).instance < self.instances_view().len() by {
                assert(self.handlers_view()[i] == old(self).handlers_view()[i]);
            }
        }
        id
    }

    /// Append a handler registration for messages tagged `message_tag`,
    /// owned by the instance at `instance`. Nothing is deduplicated:
    /// registering the same pair twice yields two entries, hence two
    /// invocations per later `send`.
    pub fn register_handler(&mut self, message_tag: u64, instance: usize)
        requires
            old(self).wf(),
            instance < old(self).instances_view().len(),
        ensures
            final(self).wf(),
            final(self).handlers_view() == old(self).handlers_view().push(
                HandlerSlot { message_tag, instance },
            ),
            final(self).instances_view() == old(self).instances_view(),
            final(self).subs_view() == old(self).subs_view(),
            final(self).log_view() == old(self).log_view(),
            final(self).events_view() == old(self).events_view(),
    {
        self.handlers.push(HandlerSlot { message_tag, instance });
        proof {
            assert forall|i: int| 0 <= i < self.handlers_view().len() implies (
            #[trigger] self.handlers_view()[i]).instance < self.instances_view().len() by {
                if i < old(self).handlers_view().len() {
                    assert(self.handlers_view()[i] == old(self).handlers_view()[i]);
                }
            }
        }
    }

    /// Create and register a new subscription endpoint for messages tagged
    /// `message_tag`, and return its receiver: the receiver of the very
    /// channel the appended endpoint queues onto, so every later send of
    /// that tag reaches it.
    pub fn subscribe(&mut self, message_tag: u64) -> (receiver: EventBusReceiver)
        requires
            old(self).wf(),
        ensures
            final(self).wf(),
            final(self).subs_view() == old(self).subs_view().push(
                SubEndpoint { message_tag, chan: receiver.chan() },
            ),
            final(self).instances_view() == old(self).instances_view(),
            final(self).handlers_view() == old(self).handlers_view(),
            final(self).log_view() == old(self).log_view(),
            final(self).events_view() == old(self).events_view(),
    {
        let (tx, rx) = signal_channel();
        let receiver = EventBusReceiver { rx };
        self.subs.push(SubEntry { message_tag, tx });
        proof {
            assert(self.subs_view() =~= old(self).subs_view().push(
                SubEndpoint { message_tag, chan: receiver.chan() },
            ));
            assert forall|i: int| 0 <= i < self.handlers_view().len() implies (
            #[trigger] self.handlers_view()[i]).instance < self.instances_view().len() by {
                assert(self.handlers_view()[i] == old(self).handlers_view()[i]);
            }
        }
        receiver
    }

    /// Deliver `m` to every matching subscription endpoint and handler, and
    /// return only when every matching handler has run to completion.
    ///
    /// The event view says it all in one line: the bus performs first one
    /// signal per endpoint whose tag matches, in subscription order, and
    /// only then one invocation per handler slot whose tag matches, in
    /// registration order — nothing else, and every subscriber signal
    /// strictly before the first handler runs. A signal is "queued", not
    /// "processed". The dispatch log grows by the invocations alone, and
    /// the arena moves by exactly that chain of handler steps. The tables
    /// themselves are untouched.
    pub fn send<M: Message>(&mut self, m: &M) where H: MessageHandler<M>
        requires
            old(self).wf(),
        ensures
            final(self).wf(),
            final(self).subs_view() == old(self).subs_view(),
            final(self).handlers_view() == old(self).handlers_view(),
            final(self).instances_view().len() == old(self).instances_view().len(),
            final(self).events_view() == old(self).events_view() + signal_events(
                old(self).subs_view(),
                m.spec_tag(),
            ) + invoke_events(old(self).handlers_view(), m.spec_tag()),
            final(self).log_view() == old(self).log_view() + records_for(
                old(self).handlers_view(),
                m.spec_tag(),
            ),
            dispatch_rel(
                old(self).instances_view(),
                records_for(old(self).handlers_view(), m.spec_tag()),
                *m,
                final(self).instances_view(),
            ),
    {
        let tag = m.tag();

        // First hand each matching subscription endpoint one completion
        // signal. An endpoint whose receiver is gone is skipped silently,
        // as delivery to it is owed to nobody any more.
        let mut i: usize = 0;
        while i < self.subs.len()
            invariant
                i <= self.subs@.len(),
                tag == m.spec_tag(),
                self.subs@ == old(self).subs@,
                self.instances@ == old(self).instances@,
                self.handlers@ == old(self).handlers@,
                self.log@ == old(self).log@,
                self.events@ == old(self).events@ + signal_events(
                    self.subs_view().take(i as int),
                    tag,
                ),
            decreases self.subs@.len() - i,
        {
            proof {
                assert(self.subs_view().take(i + 1).drop_last() =~= self.subs_view().take(
                    i as int,
                ));
                assert(self.subs_view().take(i + 1).last() == self.subs_view()[i as int]);
            }
            if self.subs[i].message_tag == tag {
                let _delivered = signal_send(&self.subs[i].tx);
                proof {
                    let rec = SignalRecord {
                        message_tag: tag,
                        sub: i as int,
                        chan: self.subs_view()[i as int].chan,
                    };
                    self.events@ = self.events@.push(BusEvent::Signal(rec));
                    assert(signals_for(self.subs_view().take(i + 1), tag) == signals_for(
                        self.subs_view().take(i as int),
                        tag,
                    ).push(rec));
                    assert(self.events@ =~= old(self).events@ + signal_events(
                        self.subs_view().take(i + 1),
                        tag,
                    ));
                }
            } else {
                proof {
                    assert(self.events@ =~= old(self).events@ + signal_events(
                        self.subs_view().take(i + 1),
                        tag,
                    ));
                }
            }
            i += 1;
        }
        proof {
            assert(self.subs_view().take(self.subs@.len() as int) =~= self.subs_view());
            assert(invoke_events(self.handlers@.take(0), tag) =~= Seq::<BusEvent>::empty());
            assert(self.events@ =~= old(self).events@ + signal_events(old(self).subs_view(), tag)
                + invoke_events(self.handlers@.take(0), tag));
        }

        // Then run every matching handler to completion, in registration
        // order, logging one record per invocation.
        let n = self.handlers.len();
        let mut k: usize = 0;
        while k < n
            invariant
                k <= n,
                n == self.handlers@.len(),
                old(self).wf(),
                tag == m.spec_tag(),
                self.subs@ == old(self).subs@,
                self.handlers@ == old(self).handlers@,
                self.instances@.len() == old(self).instances@.len(),
                self.log@ == old(self).log@ + records_for(
                    self.handlers@.take(k as int),
                    m.spec_tag(),
                ),
                self.events@ == old(self).events@ + signal_events(old(self).subs_view(), tag)
                    + invoke_events(self.handlers@.take(k as int), tag),
                dispatch_rel(
                    old(self).instances@,
                    records_for(self.handlers@.take(k as int), m.spec_tag()),
                    *m,
                    self.instances@,
                ),
            decreases n - k,
        {
            proof {
                assert(self.handlers@.take(k + 1).drop_last() =~= self.handlers@.take(k as int));
                assert(self.handlers@.take(k + 1).last() == self.handlers@[k as int]);
            }
            let slot = self.handlers[k];
            if slot.message_tag == tag {
                let idx = slot.instance;
                proof {
                    assert(old(self).handlers_view()[k as int] == self.handlers@[k as int]);
                    assert((old(self).handlers_view()[k as int]).instance < old(
                        self,
                    ).instances_view().len());
                }
                let ghost mid0 = self.instances@;
                let ghost recs0 = records_for(self.handlers@.take(k as int), m.spec_tag());
                let record = DispatchRecord { message_tag: tag, slot: k, instance: idx };
                let mut ctx = MessageContext {  };
                let inst = &mut self.instances[idx];
                inst.state.handle(m, &mut ctx);
                self.log.push(record);
                proof {
                    assert(step_rel(mid0, record, *m, self.instances@));
                    lemma_dispatch_rel_push(
                        old(self).instances@,
                        recs0,
                        *m,
                        mid0,
                        record,
                        self.instances@,
                    );
                    assert(records_for(self.handlers@.take(k + 1), m.spec_tag()) == recs0.push(
                        record,
                    ));
                    self.events@ = self.events@.push(BusEvent::Invoke(record));
                    assert(self.events@ =~= old(self).events@ + signal_events(
                        old(self).subs_view(),
                        tag,
                    ) + invoke_events(self.handlers@.take(k + 1), tag));
                }
            } else {
                proof {
                    assert(self.events@ =~= old(self).events@ + signal_events(
                        old(self).subs_view(),
                        tag,
                    ) + invoke_events(self.handlers@.take(k + 1), tag));
                }
            }
            k += 1;
        }
        proof {
            assert(self.handlers@.take(n as int) =~= self.handlers@);
            assert forall|j: int| 0 <= j < self.handlers_view().len() implies (
            #[trigger] self.handlers_view()[j]).instance < self.instances_view().len() by {
                assert(self.handlers_view()[j] == old(self).handlers_view()[j]);
            }
        }
    }

    /// Decide well-formedness at runtime, so that unverified embedders can
    /// check it before lending the bus out.
    pub fn is_wf(&self) -> (r: bool)
        ensures
            r == self.wf(),
    {
        let total = self.instances.len();
        let n = self.handlers.len();
        let mut i: usize = 0;
        while i < n
            invariant
                i <= n,
                n == self.handlers@.len(),
                total == self.instances@.len(),
                forall|j: int|
                    0 <= j < i ==> (#[trigger] self.handlers_view()[j]).instance
                        < self.instances_view().len(),
            decreases n - i,
        {
            if self.handlers[i].instance >= total {
                proof {
                    assert(self.handlers_view()[i as int].instance
                        >= self.instances_view().len());
                }
                return false;
            }
            i += 1;
        }
        true
    }

    /// The number of instances the arena holds.
    pub fn instance_count(&self) -> (n: usize)
        ensures
            n == self.instances_view().len(),
    {
        self.instances.len()
    }

    /// The number of registrations in the handler table.
    pub fn handler_count(&self) -> (n: usize)
        ensures
            n == self.handlers_view().len(),
    {
        self.handlers.len()
    }

    /// The number of subscription endpoints.
    pub fn subscription_count(&self) -> (n: usize)
        ensures
            n == self.sub_tags().len(),
    {
        self.subs.len()
    }

    /// The number of handler invocations performed so far.
    pub fn log_len(&self) -> (n: usize)
        ensures
            n == self.log_view().len(),
    {
        self.log.len()
    }

    /// The record of the `i`th handler invocation ever performed.
    pub fn log_at(&self, i: usize) -> (r: DispatchRecord)
        requires
            i < self.log_view().len(),
        ensures
            r == self.log_view()[i as int],
    {
        self.log[i]
    }

    /// Read access to the instance at `id` in the arena.
    pub fn instance_at(&self, id: usize) -> (r: &BusInstance<H>)
        requires
            id < self.instances_view().len(),
        ensures
            *r == self.instances_view()[id as int],
    {
        &self.instances[id]
    }
}

/// A stateless handle granting access to an event bus owned elsewhere. The
/// embedder keeps the one process-confined bus instance and lends it to each
/// call; the handle itself carries nothing.
#[derive(Clone, Copy, Debug, PartialEq, Eq, Structural)]
pub struct EventBusHandle;

impl EventBusHandle {
    /// Deliver a message through the borrowed bus; see `EventBus::send`.
    pub fn send<M: Message, H: MessageHandler<M>>(&self, bus: &mut EventBus<H>, m: &M)
        requires
            old(bus).wf(),
        ensures
            final(bus).wf(),
            final(bus).subs_view() == old(bus).subs_view(),
            final(bus).handlers_view() == old(bus).handlers_view(),
            final(bus).instances_view().len() == old(bus).instances_view().len(),
            final(bus).events_view() == old(bus).events_view() + signal_events(
                old(bus).subs_view(),
                m.spec_tag(),
            ) + invoke_events(old(bus).handlers_view(), m.spec_tag()),
            final(bus).log_view() == old(bus).log_view() + records_for(
                old(bus).handlers_view(),
                m.spec_tag(),
            ),
            dispatch_rel(
                old(bus).instances_view(),
                records_for(old(bus).handlers_view(), m.spec_tag()),
                *m,
                final(bus).instances_view(),
            ),
    {
        bus.send(m)
    }

    /// Subscribe through the borrowed bus; see `EventBus::subscribe`.
    pub fn subscribe<H>(&self, bus: &mut EventBus<H>, message_tag: u64) -> (receiver:
        EventBusReceiver)
        requires
            old(bus).wf(),
        ensures
            final(bus).wf(),
            final(bus).subs_view() == old(bus).subs_view().push(
                SubEndpoint { message_tag, chan: receiver.chan() },
            ),
            final(bus).instances_view() == old(bus).instances_view(),
            final(bus).handlers_view() == old(bus).handlers_view(),
            final(bus).log_view() == old(bus).log_view(),
            final(bus).events_view() == old(bus).events_view(),
    {
        bus.subscribe(message_tag)
    }

    /// Register a handler through the borrowed bus; see
    /// `EventBus::register_handler`.
    pub fn register_handler<H>(&self, bus: &mut EventBus<H>, message_tag: u64, instance: usize)
        requires
            old(bus).wf(),
            instance < old(bus).instances_view().len(),
        ensures
            final(bus).wf(),
            final(bus).handlers_view() == old(bus).handlers_view().push(
                HandlerSlot { message_tag, instance },
            ),
            final(bus).instances_view() == old(bus).instances_view(),
            final(bus).subs_view() == old(bus).subs_view(),
            final(bus).log_view() == old(bus).log_view(),
            final(bus).events_view() == old(bus).events_view(),
    {
        bus.register_handler(message_tag, instance)
    }
}

/// The stateless accessor to the embedder's bus.
pub fn event_bus() -> (h: EventBusHandle)
    ensures
        h == EventBusHandle,
{
    EventBusHandle
}

} // verus!
