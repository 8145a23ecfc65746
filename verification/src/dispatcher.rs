//! Client handles: dispatchers, updaters and getters, and the lenses that
//! zoom them onto sub-models.
//!
//! Every handle derived from one root shares the root's channel, so the
//! total order of mutations is a property of that single channel however
//! deep the composition goes. A lens is pure: it lifts a child message or
//! query to the parent's type and projects a parent answer back down, and
//! its meaning is a spec function, so composition laws are provable.

use crate::channel::{
    mpsc_clone_sender, mpsc_try_send, oneshot_channel, oneshot_try_recv, RecvAttempt, SendAttempt,
};
use vstd::prelude::*;

verus! {

/// A pure projection between a child scope and its parent scope.
///
/// `lift_msg` and `lift_query` raise child requests to the parent's types on
/// the way into the shared channel; `project_data` lowers a parent answer to
/// the child's type on the way back. The three spec functions are the lens's
/// meaning; the executable methods implement them exactly.
pub trait ZoomLens: Sized {
    /// Messages of the child scope.
    type ChildMsg;

    /// Messages of the parent scope.
    type ParentMsg;

    /// Queries of the child scope.
    type ChildQuery;

    /// Queries of the parent scope.
    type ParentQuery;

    /// Answers of the child scope.
    type ChildData;

    /// Answers of the parent scope.
    type ParentData;

    /// What lifting a child message means.
    spec fn lift_msg_spec(self, m: Self::ChildMsg) -> Self::ParentMsg;

    /// What lifting a child query means.
    spec fn lift_query_spec(self, q: Self::ChildQuery) -> Self::ParentQuery;

    /// What projecting a parent answer means.
    spec fn project_data_spec(self, d: Self::ParentData) -> Self::ChildData;

    /// Lifts a child message to the parent's message type.
    fn lift_msg(&self, m: Self::ChildMsg) -> (r: Self::ParentMsg)
        ensures
            r == self.lift_msg_spec(m),
    ;

    /// Lifts a child query to the parent's query type.
    fn lift_query(&self, q: Self::ChildQuery) -> (r: Self::ParentQuery)
        ensures
            r == self.lift_query_spec(q),
    ;

    /// Projects a parent answer down to the child's data type.
    fn project_data(&self, d: Self::ParentData) -> (r: Self::ChildData)
        ensures
            r == self.project_data_spec(d),
    ;

    /// An identical copy of the lens; lenses are pure values.
    fn duplicate(&self) -> (r: Self)
        ensures
            r == *self,
    ;
}

/// The lens from a scope onto itself: the root dispatcher's lens.
pub struct IdentityLens<Msg, Q, D> {
    _marker: core::marker::PhantomData<(Msg, Q, D)>,
}

impl<Msg, Q, D> IdentityLens<Msg, Q, D> {
    /// The identity lens.
    pub fn new() -> (r: Self) {
        IdentityLens { _marker: core::marker::PhantomData }
    }
}

impl<Msg, Q, D> ZoomLens for IdentityLens<Msg, Q, D> {
    type ChildMsg = Msg;

    type ParentMsg = Msg;

    type ChildQuery = Q;

    type ParentQuery = Q;

    type ChildData = D;

    type ParentData = D;

    open spec fn lift_msg_spec(self, m: Msg) -> Msg {
        m
    }

    open spec fn lift_query_spec(self, q: Q) -> Q {
        q
    }

    open spec fn project_data_spec(self, d: D) -> D {
        d
    }

    fn lift_msg(&self, m: Msg) -> (r: Msg) {
        m
    }

    fn lift_query(&self, q: Q) -> (r: Q) {
        q
    }

    fn project_data(&self, d: D) -> (r: D) {
        d
    }

    fn duplicate(&self) -> (r: Self) {
        IdentityLens { _marker: core::marker::PhantomData }
    }
}

/// Two lenses glued together: `inner` goes from the child up to the middle
/// scope, `outer` from the middle scope up to the parent.
pub struct ComposedLens<Outer, Inner> {
    pub outer: Outer,
    pub inner: Inner,
}

impl<Outer, Inner> ZoomLens for ComposedLens<Outer, Inner> where
    Outer: ZoomLens,
    Inner: ZoomLens<
        ParentMsg = <Outer as ZoomLens>::ChildMsg,
        ParentQuery = <Outer as ZoomLens>::ChildQuery,
        ParentData = <Outer as ZoomLens>::ChildData,
    >,
 {
    type ChildMsg = Inner::ChildMsg;

    type ParentMsg = Outer::ParentMsg;

    type ChildQuery = Inner::ChildQuery;

    type ParentQuery = Outer::ParentQuery;

    type ChildData = Inner::ChildData;

    type ParentData = Outer::ParentData;

    open spec fn lift_msg_spec(self, m: Inner::ChildMsg) -> Outer::ParentMsg {
        self.outer.lift_msg_spec(self.inner.lift_msg_spec(m))
    }

    open spec fn lift_query_spec(self, q: Inner::ChildQuery) -> Outer::ParentQuery {
        self.outer.lift_query_spec(self.inner.lift_query_spec(q))
    }

    open spec fn project_data_spec(self, d: Outer::ParentData) -> Inner::ChildData {
        self.inner.project_data_spec(self.outer.project_data_spec(d))
    }

    fn lift_msg(&self, m: Inner::ChildMsg) -> (r: Outer::ParentMsg) {
        self.outer.lift_msg(self.inner.lift_msg(m))
    }

    fn lift_query(&self, q: Inner::ChildQuery) -> (r: Outer::ParentQuery) {
        self.outer.lift_query(self.inner.lift_query(q))
    }

    fn project_data(&self, d: Outer::ParentData) -> (r: Inner::ChildData) {
        self.inner.project_data(self.outer.project_data(d))
    }

    fn duplicate(&self) -> (r: Self) {
        ComposedLens { outer: self.outer.duplicate(), inner: self.inner.duplicate() }
    }
}

/// Composing lenses is associative: gluing `(l1 . l2) . l3` means the same
/// as gluing `l1 . (l2 . l3)`, for messages, for queries and for answers.
/// Sending through a dispatcher zoomed twice is therefore observably the
/// same as sending through one zoomed by the composed lens.
pub proof fn lemma_zoom_associative<A, B, C>(
    l1: A,
    l2: B,
    l3: C,
    m: C::ChildMsg,
    q: C::ChildQuery,
    d: A::ParentData,
) where
    A: ZoomLens,
    B: ZoomLens<
        ParentMsg = <A as ZoomLens>::ChildMsg,
        ParentQuery = <A as ZoomLens>::ChildQuery,
        ParentData = <A as ZoomLens>::ChildData,
    >,
    C: ZoomLens<
        ParentMsg = <B as ZoomLens>::ChildMsg,
        ParentQuery = <B as ZoomLens>::ChildQuery,
        ParentData = <B as ZoomLens>::ChildData,
    >,

    ensures
        (ComposedLens { outer: (ComposedLens { outer: l1, inner: l2 }), inner: l3 }).lift_msg_spec(
            m,
        ) == (ComposedLens {
            outer: l1,
            inner: (ComposedLens { outer: l2, inner: l3 }),
        }).lift_msg_spec(m),
        (ComposedLens {
            outer: (ComposedLens { outer: l1, inner: l2 }),
            inner: l3,
        }).lift_query_spec(q) == (ComposedLens {
            outer: l1,
            inner: (ComposedLens { outer: l2, inner: l3 }),
        }).lift_query_spec(q),
        (ComposedLens {
            outer: (ComposedLens { outer: l1, inner: l2 }),
            inner: l3,
        }).project_data_spec(d) == (ComposedLens {
            outer: l1,
            inner: (ComposedLens { outer: l2, inner: l3 }),
        }).project_data_spec(d),
{
}

/// The identity lens is neutral for composition: zooming by the identity
/// and then by `l` lifts and projects exactly as `l` alone does. Together
/// with associativity this makes `zoom(l1).zoom(l2)` on a root dispatcher
/// observably identical to `zoom` by the composed lens.
pub proof fn lemma_identity_lens_neutral<L>(
    id: IdentityLens<L::ParentMsg, L::ParentQuery, L::ParentData>,
    l: L,
    m: L::ChildMsg,
    q: L::ChildQuery,
    d: L::ParentData,
) where L: ZoomLens
    ensures
        (ComposedLens { outer: id, inner: l }).lift_msg_spec(m) == l.lift_msg_spec(m),
        (ComposedLens { outer: id, inner: l }).lift_query_spec(q) == l.lift_query_spec(q),
        (ComposedLens { outer: id, inner: l }).project_data_spec(d) == l.project_data_spec(d),
{
}

/// What travels on the root channel: a mutation request, or a read request
/// paired with its one-shot reply channel.
#[verifier::reject_recursive_types(D)]
pub enum Action<Msg, Q, D> {
    Update(Msg),
    Query(Q, tokio::sync::oneshot::Sender<D>),
}

/// Why a non-suspending send was turned away: the channel is at capacity
/// (backpressure; try again after the runtime drains), or the runtime side
/// is gone for good.
#[derive(Clone, Copy, Debug, PartialEq, Eq, Structural)]
pub enum SendRejection {
    Full,
    Closed,
}

/// The state of a getter round trip.
pub enum ReplyStatus<D> {
    /// The runtime answered; the data is projected to the caller's scope.
    Ready(D),
    /// No answer yet; the request is still queued or being processed.
    Pending,
    /// The reply channel was torn down; no answer will ever come.
    Closed,
}

/// A full client handle bound to the shared root channel through a lens:
/// it can both mutate (send messages) and read (send queries).
///
/// The ghost `sent` log records every root-level message this handle has
/// placed on the channel, in order; the channel delivers them in exactly
/// that order to the runtime.
pub struct Dispatcher<L: ZoomLens> {
    tx: tokio::sync::mpsc::Sender<Action<L::ParentMsg, L::ParentQuery, L::ParentData>>,
    lens: L,
    sent: Ghost<Seq<L::ParentMsg>>,
}

impl<L: ZoomLens> Dispatcher<L> {
    /// The lens this handle lifts through.
    pub closed spec fn lens(self) -> L {
        self.lens
    }

    /// Every root message this handle has placed on the channel, in order.
    pub closed spec fn sent(self) -> Seq<L::ParentMsg> {
        self.sent@
    }

    /// Lifts the message through the lens and places it on the shared
    /// channel without suspending; backpressure and closure come back as
    /// typed rejections and the channel is left untouched.
    pub fn try_send(&mut self, message: L::ChildMsg) -> (r: Result<(), SendRejection>)
        ensures
            final(self).lens() == old(self).lens(),
            r is Ok ==> final(self).sent() == old(self).sent().push(
                old(self).lens().lift_msg_spec(message),
            ),
            r is Err ==> final(self).sent() == old(self).sent(),
    {
        let root = self.lens.lift_msg(message);
        match mpsc_try_send(&self.tx, Action::Update(root)) {
            SendAttempt::Sent => {
                proof {
                    self.sent@ = self.sent@.push(self.lens.lift_msg_spec(message));
                }
                Ok(())
            },
            SendAttempt::Full(_) => Err(SendRejection::Full),
            SendAttempt::Closed(_) => Err(SendRejection::Closed),
        }
    }

    /// Lifts the query through the lens, opens a one-shot reply channel and
    /// places the request on the shared channel; the returned handle yields
    /// the answer, projected back to this handle's scope, once the runtime
    /// has processed the request in its turn.
    pub fn try_request(&mut self, query: L::ChildQuery) -> (r: Result<
        ReplyHandle<L>,
        SendRejection,
    >)
        ensures
            final(self).lens() == old(self).lens(),
            final(self).sent() == old(self).sent(),
            r matches Ok(h) ==> h.lens() == old(self).lens(),
    {
        let root_query = self.lens.lift_query(query);
        let (reply_tx, reply_rx) = oneshot_channel();
        match mpsc_try_send(&self.tx, Action::Query(root_query, reply_tx)) {
            SendAttempt::Sent => Ok(ReplyHandle { rx: reply_rx, lens: self.lens.duplicate() }),
            SendAttempt::Full(_) => Err(SendRejection::Full),
            SendAttempt::Closed(_) => Err(SendRejection::Closed),
        }
    }

    /// Zooms this handle onto a sub-scope: the same channel, with the new
    /// lens glued under the current one. No new channel is opened, so the
    /// total order of mutations is untouched.
    pub fn zoom<L2>(self, lens: L2) -> (r: Dispatcher<ComposedLens<L, L2>>) where
        L2: ZoomLens<
            ParentMsg = <L as ZoomLens>::ChildMsg,
            ParentQuery = <L as ZoomLens>::ChildQuery,
            ParentData = <L as ZoomLens>::ChildData,
        >,

        ensures
            r.lens() == (ComposedLens { outer: self.lens(), inner: lens }),
            r.sent() == self.sent(),
    {
        Dispatcher {
            tx: self.tx,
            lens: ComposedLens { outer: self.lens, inner: lens },
            sent: Ghost(self.sent@),
        }
    }

    /// Partitions the handle into a write-only and a read-only capability,
    /// both on the same channel and lens.
    pub fn split(self) -> (r: (Updater<L>, Getter<L>))
        ensures
            r.0.lens() == self.lens(),
            r.0.sent() == self.sent(),
            r.1.lens() == self.lens(),
    {
        let updater = Updater {
            tx: mpsc_clone_sender(&self.tx),
            lens: self.lens.duplicate(),
            sent: Ghost(self.sent@),
        };
        let getter = Getter { tx: self.tx, lens: self.lens };
        (updater, getter)
    }

    /// An independent handle on the same channel and lens; its send log
    /// starts where this one stands.
    pub fn fork(&self) -> (r: Self)
        ensures
            r.lens() == self.lens(),
            r.sent() == self.sent(),
    {
        Dispatcher {
            tx: mpsc_clone_sender(&self.tx),
            lens: self.lens.duplicate(),
            sent: Ghost(self.sent@),
        }
    }
}

impl<Msg, Q, D> Dispatcher<IdentityLens<Msg, Q, D>> {
    /// The root handle on a freshly opened channel, zoomed nowhere yet.
    pub(crate) fn new_root(tx: tokio::sync::mpsc::Sender<Action<Msg, Q, D>>) -> (r: Self)
        ensures
            r.sent() == Seq::<Msg>::empty(),
    {
        Dispatcher { tx, lens: IdentityLens::new(), sent: Ghost(Seq::empty()) }
    }
}

impl<Msg, Q, D> Updater<IdentityLens<Msg, Q, D>> {
    /// A root write-only handle; the runtime mints these for commands that
    /// want to inject further messages.
    pub(crate) fn new_root(tx: tokio::sync::mpsc::Sender<Action<Msg, Q, D>>) -> (r: Self)
        ensures
            r.sent() == Seq::<Msg>::empty(),
    {
        Updater { tx, lens: IdentityLens::new(), sent: Ghost(Seq::empty()) }
    }
}

/// The write-only capability: it can send messages and zoom, nothing else.
pub struct Updater<L: ZoomLens> {
    tx: tokio::sync::mpsc::Sender<Action<L::ParentMsg, L::ParentQuery, L::ParentData>>,
    lens: L,
    sent: Ghost<Seq<L::ParentMsg>>,
}

impl<L: ZoomLens> Updater<L> {
    /// The lens this handle lifts through.
    pub closed spec fn lens(self) -> L {
        self.lens
    }

    /// Every root message this handle has placed on the channel, in order.
    pub closed spec fn sent(self) -> Seq<L::ParentMsg> {
        self.sent@
    }

    /// Lifts the message through the lens and places it on the shared
    /// channel without suspending.
    pub fn try_send(&mut self, message: L::ChildMsg) -> (r: Result<(), SendRejection>)
        ensures
            final(self).lens() == old(self).lens(),
            r is Ok ==> final(self).sent() == old(self).sent().push(
                old(self).lens().lift_msg_spec(message),
            ),
            r is Err ==> final(self).sent() == old(self).sent(),
    {
        let root = self.lens.lift_msg(message);
        match mpsc_try_send(&self.tx, Action::Update(root)) {
            SendAttempt::Sent => {
                proof {
                    self.sent@ = self.sent@.push(self.lens.lift_msg_spec(message));
                }
                Ok(())
            },
            SendAttempt::Full(_) => Err(SendRejection::Full),
            SendAttempt::Closed(_) => Err(SendRejection::Closed),
        }
    }

    /// Zooms the write capability onto a sub-scope.
    pub fn zoom<L2>(self, lens: L2) -> (r: Updater<ComposedLens<L, L2>>) where
        L2: ZoomLens<
            ParentMsg = <L as ZoomLens>::ChildMsg,
            ParentQuery = <L as ZoomLens>::ChildQuery,
            ParentData = <L as ZoomLens>::ChildData,
        >,

        ensures
            r.lens() == (ComposedLens { outer: self.lens(), inner: lens }),
            r.sent() == self.sent(),
    {
        Updater {
            tx: self.tx,
            lens: ComposedLens { outer: self.lens, inner: lens },
            sent: Ghost(self.sent@),
        }
    }

    /// An independent write-only handle on the same channel and lens.
    pub fn fork(&self) -> (r: Self)
        ensures
            r.lens() == self.lens(),
            r.sent() == self.sent(),
    {
        Updater {
            tx: mpsc_clone_sender(&self.tx),
            lens: self.lens.duplicate(),
            sent: Ghost(self.sent@),
        }
    }
}

/// The read-only capability: it can send queries and zoom, nothing else.
pub struct Getter<L: ZoomLens> {
    tx: tokio::sync::mpsc::Sender<Action<L::ParentMsg, L::ParentQuery, L::ParentData>>,
    lens: L,
}

impl<L: ZoomLens> Getter<L> {
    /// The lens this handle lifts through.
    pub closed spec fn lens(self) -> L {
        self.lens
    }

    /// Lifts the query through the lens and places the read request on the
    /// shared channel; reads observe a settled state because the runtime
    /// answers them in its turn, never mid-transition.
    pub fn try_request(&mut self, query: L::ChildQuery) -> (r: Result<
        ReplyHandle<L>,
        SendRejection,
    >)
        ensures
            final(self).lens() == old(self).lens(),
            r matches Ok(h) ==> h.lens() == old(self).lens(),
    {
        let root_query = self.lens.lift_query(query);
        let (reply_tx, reply_rx) = oneshot_channel();
        match mpsc_try_send(&self.tx, Action::Query(root_query, reply_tx)) {
            SendAttempt::Sent => Ok(ReplyHandle { rx: reply_rx, lens: self.lens.duplicate() }),
            SendAttempt::Full(_) => Err(SendRejection::Full),
            SendAttempt::Closed(_) => Err(SendRejection::Closed),
        }
    }

    /// Zooms the read capability onto a sub-scope.
    pub fn zoom<L2>(self, lens: L2) -> (r: Getter<ComposedLens<L, L2>>) where
        L2: ZoomLens<
            ParentMsg = <L as ZoomLens>::ChildMsg,
            ParentQuery = <L as ZoomLens>::ChildQuery,
            ParentData = <L as ZoomLens>::ChildData,
        >,

        ensures
            r.lens() == (ComposedLens { outer: self.lens(), inner: lens }),
    {
        Getter { tx: self.tx, lens: ComposedLens { outer: self.lens, inner: lens } }
    }

    /// An independent read-only handle on the same channel and lens.
    pub fn fork(&self) -> (r: Self)
        ensures
            r.lens() == self.lens(),
    {
        Getter { tx: mpsc_clone_sender(&self.tx), lens: self.lens.duplicate() }
    }
}

/// The receiving end of one getter round trip, remembering the lens so the
/// root-level answer can be projected back to the asking scope.
pub struct ReplyHandle<L: ZoomLens> {
    rx: tokio::sync::oneshot::Receiver<L::ParentData>,
    lens: L,
}

impl<L: ZoomLens> ReplyHandle<L> {
    /// The lens the answer is projected through.
    pub closed spec fn lens(self) -> L {
        self.lens
    }

    /// Collects the answer if it has arrived, projected down to the asking
    /// scope; `Pending` while the runtime has not reached the request yet.
    pub fn try_take(&mut self) -> (r: ReplyStatus<L::ChildData>)
        ensures
            final(self).lens() == old(self).lens(),
            r matches ReplyStatus::Ready(d) ==> exists|root: L::ParentData|
                d == old(self).lens().project_data_spec(root),
    {
        match oneshot_try_recv(&mut self.rx) {
            RecvAttempt::Got(root) => {
                let d = self.lens.project_data(root);
                proof {
                    assert(d == self.lens.project_data_spec(root));
                }
                ReplyStatus::Ready(d)
            },
            RecvAttempt::Empty => ReplyStatus::Pending,
            RecvAttempt::Closed => ReplyStatus::Closed,
        }
    }
}

} // verus!
