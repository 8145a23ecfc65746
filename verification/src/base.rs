//! The application-facing contract: what a model is and what its update and
//! getter steps mean.

use crate::runtime::UpdateContext;
use vstd::prelude::*;

verus! {

/// Marks a value as a message consumed by a model's update step.
pub trait ModelMessage {}

/// A query paired with the type of data it asks for.
pub trait ModelGetterMessage {
    type Data;
}

/// One node of the application's state tree, together with the mathematical
/// meaning of its transitions.
///
/// The four spec functions pin down, for every inbound message, the next
/// model value, the commands emitted (in order), and the regions marked
/// dirty — and, for every query, the answer. The executable `update` and
/// `getter` must implement exactly those functions, so every property proved
/// against the specs holds of the running code.
pub trait Model: Sized {
    /// The messages this model consumes, one mutation request each.
    type Message;

    /// The deferred side effects an update step may emit.
    type Command;

    /// The read requests this model answers.
    type Query;

    /// What a query evaluates to.
    type QueryData;

    /// The model after consuming one message.
    spec fn updated(self, message: Self::Message) -> Self;

    /// The commands one update step emits, in enqueue order.
    spec fn emitted(self, message: Self::Message) -> Seq<Self::Command>;

    /// The regions one update step marks dirty.
    spec fn marked(self, message: Self::Message) -> Set<u64>;

    /// The answer to a query against the current model.
    spec fn queried(self, query: Self::Query) -> Self::QueryData;

    /// Consumes one message under exclusive access: the model steps to
    /// `updated`, the emitted commands are appended to the queue in order,
    /// and the marked regions join the dirty set. The step is synchronous
    /// and must not suspend.
    fn update(&mut self, message: Self::Message, ctx: &mut UpdateContext<Self::Command>)
        ensures
            *final(self) == old(self).updated(message),
            final(ctx).queued() == old(ctx).queued() + old(self).emitted(message),
            final(ctx).dirty() == old(ctx).dirty().union(old(self).marked(message)),
    ;

    /// Answers one query against a settled model, without mutating anything.
    fn getter(&self, query: Self::Query) -> (r: Self::QueryData)
        ensures
            r == self.queried(query),
    ;
}

/// One application: a root model plus whatever the deployment wires around
/// it. Commands name the application they serve through this trait.
pub trait Application {
    /// The model at the root of the application's state tree.
    type RootModel: Model;
}

/// An application that is nothing but its root model, for callers that do
/// not care to declare an application type of their own.
pub struct AdHocApp<M> {
    _marker: core::marker::PhantomData<M>,
}

impl<M: Model> Application for AdHocApp<M> {
    type RootModel = M;
}

/// A model with a dirty region of its own: marking it invalidates whatever
/// this model renders into.
pub trait ModelWithRegion: Model {
    /// The model's region identifier.
    spec fn region_spec() -> u64;

    /// The model's region identifier.
    fn region() -> (r: u64)
        ensures
            r == Self::region_spec(),
    ;
}

} // verus!
