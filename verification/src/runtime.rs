//! The event loop's state and its transition protocol.
//!
//! The runtime owns the canonical model, the shared world, the command queue
//! and the dirty-region set. A driver (an async task, or a test pumping by
//! hand) runs the cycle the spec functions here describe: receive one
//! action, apply it, drain the command queue front to back, then flush the
//! dirty regions onto the refresh channel.

use crate::base::Model;
use crate::channel::{
    mpsc_channel, mpsc_downgrade, mpsc_try_recv, mpsc_try_send, mpsc_upgrade, oneshot_send,
    RecvAttempt,
};
use crate::command::CommandQueue;
use crate::dispatcher::{Action, Dispatcher, IdentityLens, Updater};
use crate::interceptor::Interceptor;
use crate::region::DirtyRegions;
use crate::world::World;
use vstd::prelude::*;

verus! {

/// What an update step may touch besides the model: the command queue it
/// appends to and the dirty-region set it marks.
pub struct UpdateContext<C> {
    queue: CommandQueue<C>,
    regions: DirtyRegions,
}

impl<C> UpdateContext<C> {
    /// The commands queued so far, oldest first.
    pub closed spec fn queued(self) -> Seq<C> {
        self.queue@
    }

    /// The regions marked dirty so far.
    pub closed spec fn dirty(self) -> Set<u64> {
        self.regions@
    }

    /// An empty context: nothing queued, nothing dirty.
    pub fn new() -> (r: Self)
        ensures
            r.queued() == Seq::<C>::empty(),
            r.dirty() == Set::<u64>::empty(),
    {
        UpdateContext { queue: CommandQueue::new(), regions: DirtyRegions::new() }
    }

    /// Defers one side effect: appended at the back of the queue.
    pub fn emit_command(&mut self, command: C)
        ensures
            final(self).queued() == old(self).queued().push(command),
            final(self).dirty() == old(self).dirty(),
    {
        self.queue.emit(command);
    }

    /// Marks one region dirty; marking twice within a cycle is the same as
    /// marking once.
    pub fn mark_dirty(&mut self, region: u64)
        ensures
            final(self).dirty() == old(self).dirty().insert(region),
            final(self).queued() == old(self).queued(),
    {
        self.regions.mark_with(region);
    }

    /// Removes and returns the oldest queued command, if any.
    fn pop_command(&mut self) -> (r: Option<C>)
        ensures
            old(self).queued().len() == 0 ==> r is None && final(self).queued() == old(
                self,
            ).queued() && final(self).dirty() == old(self).dirty(),
            old(self).queued().len() > 0 ==> r == Some(old(self).queued()[0])
                && final(self).queued() == old(self).queued().drop_first()
                && final(self).dirty() == old(self).dirty(),
    {
        self.queue.pop()
    }

    /// Empties the dirty set, returning each marked region exactly once.
    fn drain_regions(&mut self) -> (r: Vec<u64>)
        ensures
            r@.no_duplicates(),
            r@.to_set() == old(self).dirty(),
            final(self).dirty() == Set::<u64>::empty(),
            final(self).queued() == old(self).queued(),
    {
        self.regions.drain()
    }
}

/// The default capacity of the root channel and of the refresh channel.
pub const DEFAULT_CHANNEL_BUFFER_SIZE: usize = 64;

/// The outcome of one non-suspending poll of the runtime.
#[derive(Clone, Copy, Debug, PartialEq, Eq, Structural)]
pub enum StepOutcome {
    /// A message was applied; commands may now be queued and regions dirty.
    Applied,
    /// A query was answered on its reply channel; nothing changed.
    Answered,
    /// Nothing was waiting; senders are still alive.
    Idle,
    /// Every client handle is gone and the buffer is drained: the driver
    /// must stop its loop. This is the normal, graceful shutdown.
    Stopped,
}

/// The receiving end of the region-refresh stream.
pub struct ShouldRefreshSubscriber {
    rx: tokio::sync::mpsc::Receiver<u64>,
}

impl ShouldRefreshSubscriber {
    /// Collects the next refreshed region, if one has been flushed.
    pub fn try_recv(&mut self) -> (r: RecvAttempt<u64>) {
        mpsc_try_recv(&mut self.rx)
    }
}

/// The event loop's state: the canonical model, the shared world, the
/// pending commands and dirty regions of the cycle in flight, the registered
/// interceptors, and the channel ends the clients talk through.
pub struct MvuRuntime<M: Model, I, S> {
    model: M,
    world: World<S>,
    ctx: UpdateContext<M::Command>,
    interceptors: Vec<I>,
    rx: tokio::sync::mpsc::Receiver<Action<M::Message, M::Query, M::QueryData>>,
    weak_tx: tokio::sync::mpsc::WeakSender<Action<M::Message, M::Query, M::QueryData>>,
    refresh_tx: tokio::sync::mpsc::Sender<u64>,
    executed: Ghost<Seq<M::Command>>,
}

impl<M: Model, I, S> MvuRuntime<M, I, S> {
    /// The canonical model as it stands.
    pub closed spec fn model(self) -> M {
        self.model
    }

    /// The commands awaiting execution, oldest first.
    pub closed spec fn queued(self) -> Seq<M::Command> {
        self.ctx.queued()
    }

    /// The regions marked dirty and not yet flushed.
    pub closed spec fn dirty(self) -> Set<u64> {
        self.ctx.dirty()
    }

    /// The shared world.
    pub closed spec fn world_state(self) -> World<S> {
        self.world
    }

    /// The commands handed out since the last applied message, in the order
    /// they left the queue.
    pub closed spec fn executed(self) -> Seq<M::Command> {
        self.executed@
    }

    /// Well-formed: the world's key index is intact.
    pub open spec fn wf(self) -> bool {
        self.world_state().wf()
    }

    /// Neither the model, the queue, the dirty set, the world nor the
    /// handed-out history differs between the two states.
    pub open spec fn same_core(pre: Self, post: Self) -> bool {
        &&& post.model() == pre.model()
        &&& post.queued() == pre.queued()
        &&& post.dirty() == pre.dirty()
        &&& post.world_state() == pre.world_state()
        &&& post.executed() == pre.executed()
    }

    /// What applying the message `m` does to the runtime, relating the state
    /// before to the state after.
    pub open spec fn applied(pre: Self, post: Self, m: M::Message) -> bool {
        &&& post.model() == pre.model().updated(m)
        &&& post.queued() == pre.queued() + pre.model().emitted(m)
        &&& post.dirty() == pre.dirty().union(pre.model().marked(m))
        &&& post.world_state() == pre.world_state()
        &&& post.executed() == Seq::<M::Command>::empty()
    }

    /// The interceptors, in registration order.
    pub closed spec fn registered(self) -> Seq<I> {
        self.interceptors@
    }

    /// Reads the registered interceptors, in registration order.
    pub fn interceptors(&self) -> (r: &Vec<I>)
        ensures
            r@ == self.registered(),
    {
        &self.interceptors
    }

    /// Reads the settled model; commands and interceptors get no more than
    /// this view, so they can never mutate state directly.
    pub fn read_model(&self) -> (r: &M)
        ensures
            *r == self.model(),
    {
        &self.model
    }

    /// Reads the shared world.
    pub fn world(&self) -> (r: &World<S>)
        ensures
            *r == self.world_state(),
    {
        &self.world
    }

    /// Exclusive access to the shared world, for the executing command.
    pub fn world_mut(&mut self) -> (r: &mut World<S>)
        ensures
            *r == old(self).world_state(),
            final(self).world_state() == *final(r),
            final(self).model() == old(self).model(),
            final(self).queued() == old(self).queued(),
            final(self).dirty() == old(self).dirty(),
            final(self).executed() == old(self).executed(),
    {
        &mut self.world
    }
}

impl<M: Model, I: Interceptor<M>, S> MvuRuntime<M, I, S> {
    /// Polls the root channel without suspending.
    pub fn try_receive(&mut self) -> (r: RecvAttempt<Action<M::Message, M::Query, M::QueryData>>)
        ensures
            Self::same_core(*old(self), *final(self)),
    {
        mpsc_try_recv(&mut self.rx)
    }

    /// Applies one received action. A mutation request runs the interceptors
    /// in registration order against the settled model, then the update step
    /// under exclusive access, and resets the handed-out history for the new
    /// cycle. A read request is answered from the settled model on its reply
    /// channel and changes nothing; a dropped reply handle means the caller
    /// abandoned the round trip and is not an error.
    pub fn apply_action(&mut self, action: Action<M::Message, M::Query, M::QueryData>)
        requires
            old(self).wf(),
        ensures
            final(self).wf(),
            action matches Action::Update(m) ==> Self::applied(*old(self), *final(self), m),
            action matches Action::Query(q, tx) ==> Self::same_core(*old(self), *final(self)),
    {
        match action {
            Action::Update(m) => {
                let n = self.interceptors.len();
                let mut i: usize = 0;
                while i < n
                    invariant
                        n == self.interceptors@.len(),
                        0 <= i <= n,
                        self.model == old(self).model,
                        self.ctx.queued() == old(self).ctx.queued(),
                        self.ctx.dirty() == old(self).ctx.dirty(),
                        self.world == old(self).world,
                        self.executed == old(self).executed,
                    decreases n - i,
                {
                    let it = &mut self.interceptors[i];
                    it.intercept(&self.model, &m);
                    i = i + 1;
                }
                self.model.update(m, &mut self.ctx);
                self.executed = Ghost(Seq::empty());
            },
            Action::Query(q, reply_tx) => {
                let data = self.model.getter(q);
                // a dropped reply handle is the caller's own cancellation
                let _ = oneshot_send(reply_tx, data);
            },
        }
    }

    /// One non-suspending turn of the loop: receive at most one action and
    /// handle it. `Stopped` reports that every client handle is gone, upon
    /// which a driver must leave its loop: shutdown takes effect within one
    /// iteration of noticing the closed channel.
    pub fn try_step(&mut self) -> (r: StepOutcome)
        requires
            old(self).wf(),
        ensures
            final(self).wf(),
            r is Applied ==> exists|m: M::Message|
                #[trigger] Self::applied(*old(self), *final(self), m),
            r is Answered ==> Self::same_core(*old(self), *final(self)),
            r is Idle ==> Self::same_core(*old(self), *final(self)),
            r is Stopped ==> Self::same_core(*old(self), *final(self)),
    {
        match self.try_receive() {
            RecvAttempt::Got(action) => {
                let is_update = action matches Action::Update(_);
                let ghost pre = *self;
                let ghost a = action;
                self.apply_action(action);
                proof {
                    match a {
                        Action::Update(m) => {
                            assert(Self::applied(pre, *self, m));
                            assert(Self::applied(*old(self), *self, m));
                        },
                        Action::Query(q, tx) => {},
                    }
                }
                if is_update {
                    StepOutcome::Applied
                } else {
                    StepOutcome::Answered
                }
            },
            RecvAttempt::Empty => StepOutcome::Idle,
            RecvAttempt::Closed => StepOutcome::Stopped,
        }
    }

    /// Hands out the oldest queued command of the current cycle, if any.
    /// The model is untouched: a command only ever reads it, so nothing a
    /// command sends can take effect within the same draining phase.
    pub fn next_command(&mut self) -> (r: Option<M::Command>)
        requires
            old(self).wf(),
        ensures
            final(self).wf(),
            final(self).model() == old(self).model(),
            final(self).dirty() == old(self).dirty(),
            final(self).world_state() == old(self).world_state(),
            old(self).queued().len() == 0 ==> r is None && final(self).queued() == old(
                self,
            ).queued() && final(self).executed() == old(self).executed(),
            old(self).queued().len() > 0 ==> r == Some(old(self).queued()[0])
                && final(self).queued() == old(self).queued().drop_first()
                && final(self).executed() == old(self).executed().push(old(self).queued()[0]),
    {
        let r = self.ctx.pop_command();
        if r.is_some() {
            proof {
                self.executed@ = self.executed@.push(old(self).queued()[0]);
            }
        }
        r
    }

    /// A fresh write-only root handle for the executing command to inject
    /// further messages; those re-enter the channel and are processed on a
    /// later cycle, never synchronously. `None` once every client handle is
    /// gone: the runtime's own weak handle does not keep the channel open,
    /// so shutdown is still driven by the clients alone.
    pub fn updater(&self) -> (r: Option<Updater<IdentityLens<M::Message, M::Query, M::QueryData>>>)
        ensures
            r matches Some(u) ==> u.sent() == Seq::<M::Message>::empty(),
    {
        match mpsc_upgrade(&self.weak_tx) {
            Some(tx) => Some(Updater::new_root(tx)),
            None => None,
        }
    }

    /// A fresh full root handle, while at least one client is still alive.
    pub fn dispatcher(&self) -> (r: Option<
        Dispatcher<IdentityLens<M::Message, M::Query, M::QueryData>>,
    >)
        ensures
            r matches Some(d) ==> d.sent() == Seq::<M::Message>::empty(),
    {
        match mpsc_upgrade(&self.weak_tx) {
            Some(tx) => Some(Dispatcher::new_root(tx)),
            None => None,
        }
    }

    /// Flushes the cycle: empties the dirty set and offers each marked
    /// region exactly once on the refresh stream. The refresh send never
    /// suspends; a full or closed stream drops that notification, which is
    /// routine backpressure, not an error.
    pub fn flush_regions(&mut self) -> (r: Vec<u64>)
        requires
            old(self).wf(),
        ensures
            final(self).wf(),
            r@.no_duplicates(),
            r@.to_set() == old(self).dirty(),
            final(self).dirty() == Set::<u64>::empty(),
            final(self).model() == old(self).model(),
            final(self).queued() == old(self).queued(),
            final(self).world_state() == old(self).world_state(),
            final(self).executed() == old(self).executed(),
    {
        let regions = self.ctx.drain_regions();
        let mut i: usize = 0;
        while i < regions.len()
            invariant
                0 <= i <= regions@.len(),
            decreases regions@.len() - i,
        {
            let _ = mpsc_try_send(&self.refresh_tx, regions[i]);
            i = i + 1;
        }
        regions
    }
}

/// Accumulates everything a runtime starts from: the initial model, the
/// world's services, the interceptors, and the channel capacity.
pub struct MvuRuntimeBuilder<M: Model, I, S> {
    model: Option<M>,
    world: World<S>,
    interceptors: Vec<I>,
    buffer_size: usize,
}

impl<M: Model, I, S> MvuRuntimeBuilder<M, I, S> {
    /// The initial model, once chosen.
    pub closed spec fn chosen_model(self) -> Option<M> {
        self.model
    }

    /// The world as accumulated so far.
    pub closed spec fn world_state(self) -> World<S> {
        self.world
    }

    /// The interceptors registered so far, in registration order.
    pub closed spec fn registered(self) -> Seq<I> {
        self.interceptors@
    }

    /// The chosen channel capacity.
    pub closed spec fn buffer(self) -> usize {
        self.buffer_size
    }

    /// Well-formed: the accumulated world's key index is intact and the
    /// capacity is one the channel accepts.
    pub open spec fn wf(self) -> bool {
        &&& self.world_state().wf()
        &&& 1 <= self.buffer() <= usize::MAX / 8
    }

    /// A builder with no model yet, an empty world, no interceptors, and the
    /// default channel capacity.
    pub fn new() -> (r: Self)
        ensures
            r.wf(),
            r.chosen_model() is None,
            r.world_state()@ == Map::<u64, S>::empty(),
            r.registered() == Seq::<I>::empty(),
            r.buffer() == DEFAULT_CHANNEL_BUFFER_SIZE,
    {
        MvuRuntimeBuilder {
            model: None,
            world: World::new(),
            interceptors: Vec::new(),
            buffer_size: DEFAULT_CHANNEL_BUFFER_SIZE,
        }
    }

    /// Chooses the initial model.
    pub fn model(self, value: M) -> (r: Self)
        ensures
            r.chosen_model() == Some(value),
            r.world_state() == self.world_state(),
            r.registered() == self.registered(),
            r.buffer() == self.buffer(),
    {
        MvuRuntimeBuilder { model: Some(value), ..self }
    }

    /// Stores a service in the world under the given key.
    pub fn state_with(self, key: u64, service: S) -> (r: Self)
        requires
            self.wf(),
        ensures
            r.wf(),
            r.chosen_model() == self.chosen_model(),
            r.world_state()@ == self.world_state()@.insert(key, service),
            r.registered() == self.registered(),
            r.buffer() == self.buffer(),
    {
        MvuRuntimeBuilder { world: self.world.add_with(key, service), ..self }
    }

    /// Registers an interceptor; interceptors run in registration order.
    pub fn interceptor(self, value: I) -> (r: Self)
        ensures
            r.chosen_model() == self.chosen_model(),
            r.world_state() == self.world_state(),
            r.registered() == self.registered().push(value),
            r.buffer() == self.buffer(),
    {
        let MvuRuntimeBuilder { model, world, mut interceptors, buffer_size } = self;
        interceptors.push(value);
        MvuRuntimeBuilder { model, world, interceptors, buffer_size }
    }

    /// Chooses the channel capacity: how many actions may wait before
    /// senders meet backpressure.
    pub fn buffer_size(self, value: usize) -> (r: Self)
        requires
            1 <= value <= usize::MAX / 8,
        ensures
            r.chosen_model() == self.chosen_model(),
            r.world_state() == self.world_state(),
            r.registered() == self.registered(),
            r.buffer() == value,
    {
        MvuRuntimeBuilder { buffer_size: value, ..self }
    }

    /// Opens the channels and assembles the runtime: the runtime itself, the
    /// first client handle, and the refresh stream's receiving end. The
    /// runtime keeps only a weak sender, so dropping every client handle
    /// closes the channel and stops the loop.
    pub fn build(self) -> (r: (
        MvuRuntime<M, I, S>,
        Dispatcher<IdentityLens<M::Message, M::Query, M::QueryData>>,
        ShouldRefreshSubscriber,
    ))
        requires
            self.wf(),
            self.chosen_model() is Some,
        ensures
            r.0.wf(),
            r.0.model() == self.chosen_model().unwrap(),
            r.0.queued() == Seq::<M::Command>::empty(),
            r.0.dirty() == Set::<u64>::empty(),
            r.0.world_state() == self.world_state(),
            r.0.executed() == Seq::<M::Command>::empty(),
            r.0.registered() == self.registered(),
            r.1.sent() == Seq::<M::Message>::empty(),
    {
        let MvuRuntimeBuilder { model, world, interceptors, buffer_size } = self;
        let initial = match model {
            Some(m) => m,
            None => unreached(),
        };
        let (tx, rx) = mpsc_channel(buffer_size);
        let (refresh_tx, refresh_rx) = mpsc_channel(buffer_size);
        let weak_tx = mpsc_downgrade(&tx);
        let dispatcher = Dispatcher::new_root(tx);
        let runtime = MvuRuntime {
            model: initial,
            world,
            ctx: UpdateContext::new(),
            interceptors,
            rx,
            weak_tx,
            refresh_tx,
            executed: Ghost(Seq::empty()),
        };
        (runtime, dispatcher, ShouldRefreshSubscriber { rx: refresh_rx })
    }
}

impl<M: Model, I, S> MvuRuntime<M, I, S> {
    /// A builder for a runtime over this model type.
    pub fn builder() -> (r: MvuRuntimeBuilder<M, I, S>)
        ensures
            r.wf(),
            r.chosen_model() is None,
            r.world_state()@ == Map::<u64, S>::empty(),
            r.registered() == Seq::<I>::empty(),
            r.buffer() == DEFAULT_CHANNEL_BUFFER_SIZE,
    {
        MvuRuntimeBuilder::new()
    }

    /// A runtime over the given initial model with an empty world, no
    /// interceptors and the default channel capacity.
    pub fn new(model: M) -> (r: (
        MvuRuntime<M, I, S>,
        Dispatcher<IdentityLens<M::Message, M::Query, M::QueryData>>,
        ShouldRefreshSubscriber,
    ))
        ensures
            r.0.wf(),
            r.0.model() == model,
            r.0.queued() == Seq::<M::Command>::empty(),
            r.0.dirty() == Set::<u64>::empty(),
            r.0.executed() == Seq::<M::Command>::empty(),
            r.1.sent() == Seq::<M::Message>::empty(),
    {
        MvuRuntimeBuilder::new().model(model).build()
    }
}

/// Total order: a model that reflects the messages `s` in send order, after
/// one more cycle, reflects `s` with the new message at the end — so across
/// any run of the loop the model is exactly the fold of the update step over
/// the messages in the order the channel delivered them.
pub proof fn lemma_cycle_extends_order<M: Model, I, S>(
    pre: MvuRuntime<M, I, S>,
    post: MvuRuntime<M, I, S>,
    m0: M,
    s: Seq<M::Message>,
    m: M::Message,
)
    requires
        pre.model() == apply_all(m0, s),
        MvuRuntime::applied(pre, post, m),
    ensures
        post.model() == apply_all(m0, s.push(m)),
{
    lemma_apply_all_push(m0, s, m);
}

/// Commands of one cycle run first-in-first-out, each handed out only after
/// the previous one was dealt with: starting from an applied message with an
/// empty prior queue, every run of `next_command` keeps the handed-out
/// history plus the remaining queue equal to what the update emitted, so
/// once the queue is empty the handed-out history is exactly the emitted
/// sequence, in enqueue order.
pub proof fn lemma_cycle_commands_fifo<M: Model, I, S>(
    pre: MvuRuntime<M, I, S>,
    mid: MvuRuntime<M, I, S>,
    done: MvuRuntime<M, I, S>,
    m: M::Message,
)
    requires
        pre.queued().len() == 0,
        MvuRuntime::applied(pre, mid, m),
        done.executed() + done.queued() == mid.executed() + mid.queued(),
        done.queued().len() == 0,
    ensures
        done.executed() == pre.model().emitted(m),
{
    assert(mid.queued() =~= pre.model().emitted(m));
    assert(mid.executed() + mid.queued() =~= pre.model().emitted(m));
    assert(done.executed() =~= done.executed() + done.queued());
}

/// The model that results from consuming a sequence of messages, oldest
/// first: the left fold of the update step over the sequence.
pub open spec fn apply_all<M: Model>(m: M, msgs: Seq<M::Message>) -> M
    decreases msgs.len(),
{
    if msgs.len() == 0 {
        m
    } else {
        apply_all(m.updated(msgs[0]), msgs.drop_first())
    }
}

/// Total order, one step: consuming one more message is one more update
/// applied after all the earlier ones. Together with `apply_action`'s
/// contract this says the model always reflects the received messages in
/// exactly the order the shared channel delivered them.
pub proof fn lemma_apply_all_push<M: Model>(m: M, msgs: Seq<M::Message>, x: M::Message)
    ensures
        apply_all(m, msgs.push(x)) == apply_all(m, msgs).updated(x),
    decreases msgs.len(),
{
    if msgs.len() == 0 {
        assert(msgs.push(x)[0] == x);
        assert(msgs.push(x).drop_first() =~= Seq::<M::Message>::empty());
        assert(apply_all(m, msgs.push(x)) == apply_all(
            m.updated(x),
            Seq::<M::Message>::empty(),
        ));
        assert(apply_all(m.updated(x), Seq::<M::Message>::empty()) == m.updated(x));
        assert(apply_all(m, msgs) == m);
    } else {
        assert(msgs.push(x)[0] == msgs[0]);
        assert(msgs.push(x).drop_first() =~= msgs.drop_first().push(x));
        assert(apply_all(m, msgs.push(x)) == apply_all(
            m.updated(msgs[0]),
            msgs.drop_first().push(x),
        ));
        lemma_apply_all_push(m.updated(msgs[0]), msgs.drop_first(), x);
        assert(apply_all(m, msgs) == apply_all(m.updated(msgs[0]), msgs.drop_first()));
    }
}

/// Total order, composition: a batch of messages followed by another batch
/// is the same as the concatenated batch — message processing has no other
/// state than the model, so send order alone decides the outcome.
pub proof fn lemma_apply_all_append<M: Model>(m: M, s1: Seq<M::Message>, s2: Seq<M::Message>)
    ensures
        apply_all(m, s1 + s2) == apply_all(apply_all(m, s1), s2),
    decreases s1.len(),
{
    if s1.len() == 0 {
        assert(s1 + s2 =~= s2);
    } else {
        assert((s1 + s2).drop_first() =~= s1.drop_first() + s2);
        assert((s1 + s2)[0] == s1[0]);
        lemma_apply_all_append(m.updated(s1[0]), s1.drop_first(), s2);
    }
}

} // verus!
