//! The queue of deferred side effects produced by one update step.
//!
//! Commands are applied strictly in enqueue order, once per enqueue, after the
//! triggering update returns and before the next inbound message is processed.

use vstd::prelude::*;

verus! {

/// An ordered, append-only buffer of deferred commands. The runtime drains it
/// front to back, so commands leave in exactly the order they were emitted.
pub struct CommandQueue<C> {
    items: Vec<C>,
}

impl<C> View for CommandQueue<C> {
    type V = Seq<C>;

    closed spec fn view(&self) -> Seq<C> {
        self.items@
    }
}

impl<C> CommandQueue<C> {
    /// An empty queue.
    pub fn new() -> (r: Self)
        ensures
            r@ == Seq::<C>::empty(),
    {
        CommandQueue { items: Vec::new() }
    }

    /// Appends one command at the back of the queue.
    pub fn emit(&mut self, command: C)
        ensures
            final(self)@ == old(self)@.push(command),
    {
        self.items.push(command);
    }

    /// Removes and returns the oldest queued command, if any.
    pub fn pop(&mut self) -> (r: Option<C>)
        ensures
            old(self)@.len() == 0 ==> r is None && final(self)@ == old(self)@,
            old(self)@.len() > 0 ==> r == Some(old(self)@[0]) && final(self)@ == old(self)@.drop_first(),
    {
        if self.items.len() == 0 {
            None
        } else {
            Some(self.items.remove(0))
        }
    }

    /// How many commands are waiting.
    pub fn len(&self) -> (r: usize)
        ensures
            r == self@.len(),
    {
        self.items.len()
    }

    /// Whether no command is waiting.
    pub fn is_empty(&self) -> (r: bool)
        ensures
            r == (self@.len() == 0),
    {
        self.items.len() == 0
    }
}

impl<C> Default for CommandQueue<C> {
    fn default() -> (r: Self)
        ensures
            r@ == Seq::<C>::empty(),
    {
        CommandQueue::new()
    }
}

/// One drain step keeps the enqueue order: moving the queue's front onto the
/// end of the handed-out sequence leaves their concatenation unchanged. This
/// is the inductive step behind FIFO command execution: the runtime's
/// `next_command` pops the front and appends it to the handed-out history.
pub proof fn lemma_drain_step_preserves_order<C>(handed: Seq<C>, queue: Seq<C>)
    requires
        queue.len() > 0,
    ensures
        handed.push(queue[0]) + queue.drop_first() == handed + queue,
{
    assert(handed.push(queue[0]) + queue.drop_first() =~= handed + queue);
}

/// Commands enqueued during one update leave the queue in FIFO order: once
/// the queue is drained, the handed-out sequence is exactly the enqueued one.
pub proof fn lemma_drained_in_enqueue_order<C>(handed: Seq<C>, queue: Seq<C>, enqueued: Seq<C>)
    requires
        handed + queue == enqueued,
        queue.len() == 0,
    ensures
        handed == enqueued,
{
    assert(handed =~= handed + queue);
}

/// A command expressed as a plain function value: the runtime's driver calls
/// the stored function with a command context when the command's turn comes.
pub struct CommandFn<F, ForApp>(F, core::marker::PhantomData<ForApp>);

impl<F, ForApp> CommandFn<F, ForApp> {
    /// The stored function value.
    pub closed spec fn inner(self) -> F {
        self.0
    }

    /// Wraps a function value as a command.
    pub fn new(f: F) -> (r: Self)
        ensures
            r.inner() == f,
    {
        CommandFn(f, core::marker::PhantomData)
    }

    /// Hands the stored function value back to the driver that runs it.
    pub fn into_inner(self) -> (r: F)
        ensures
            r == self.inner(),
    {
        self.0
    }
}

/// Wraps a function value as a command.
pub fn command<F, ForApp>(f: F) -> (r: CommandFn<F, ForApp>)
    ensures
        r.inner() == f,
{
    CommandFn::new(f)
}

} // verus!
