//! Ready-made applications built on the runtime: a counter, a two-counter
//! pair nested under a root (for zooming), and a saver whose update defers a
//! persistence command and invalidates a region.

use crate::base::{Model, ModelGetterMessage, ModelMessage, ModelWithRegion};
use crate::dispatcher::ZoomLens;
use crate::runtime::UpdateContext;
use vstd::prelude::*;

verus! {

/// The region the saver invalidates when a save is requested.
pub const REGION_SAVED: u64 = 1;

/// A counter holding one signed value.
#[derive(Clone, Copy, Debug, PartialEq, Eq, Structural)]
pub struct CounterModel {
    pub count: i64,
}

/// The counter's mutation requests. The counter saturates at the ends of
/// its range instead of wrapping.
#[derive(Clone, Copy, Debug, PartialEq, Eq, Structural)]
pub enum CounterMsg {
    Increment,
    Decrement,
}

/// The counter's read requests.
#[derive(Clone, Copy, Debug, PartialEq, Eq, Structural)]
pub enum CounterQuery {
    Value,
}

impl ModelMessage for CounterMsg {

}

impl ModelGetterMessage for CounterQuery {
    type Data = i64;
}

impl Model for CounterModel {
    type Message = CounterMsg;

    type Command = ();

    type Query = CounterQuery;

    type QueryData = i64;

    open spec fn updated(self, message: CounterMsg) -> Self {
        match message {
            CounterMsg::Increment => CounterModel {
                count: if self.count < i64::MAX {
                    (self.count + 1) as i64
                } else {
                    self.count
                },
            },
            CounterMsg::Decrement => CounterModel {
                count: if self.count > i64::MIN {
                    (self.count - 1) as i64
                } else {
                    self.count
                },
            },
        }
    }

    open spec fn emitted(self, message: CounterMsg) -> Seq<()> {
        Seq::empty()
    }

    open spec fn marked(self, message: CounterMsg) -> Set<u64> {
        Set::empty()
    }

    open spec fn queried(self, query: CounterQuery) -> i64 {
        self.count
    }

    fn update(&mut self, message: CounterMsg, ctx: &mut UpdateContext<()>) {
        match message {
            CounterMsg::Increment => {
                if self.count < i64::MAX {
                    self.count = self.count + 1;
                }
            },
            CounterMsg::Decrement => {
                if self.count > i64::MIN {
                    self.count = self.count - 1;
                }
            },
        }
        proof {
            assert(ctx.queued() + Seq::<()>::empty() =~= ctx.queued());
            assert(ctx.dirty().union(Set::<u64>::empty()) =~= ctx.dirty());
        }
    }

    fn getter(&self, query: CounterQuery) -> (r: i64) {
        self.count
    }
}

/// Two independent counters side by side: the middle tier of the nesting.
#[derive(Clone, Copy, Debug, PartialEq, Eq, Structural)]
pub struct PairModel {
    pub left: CounterModel,
    pub right: CounterModel,
}

/// A pair message addresses one of the two children.
#[derive(Clone, Copy, Debug, PartialEq, Eq, Structural)]
pub enum PairMsg {
    ToLeft(CounterMsg),
    ToRight(CounterMsg),
}

/// A pair query addresses one of the two children.
#[derive(Clone, Copy, Debug, PartialEq, Eq, Structural)]
pub enum PairQuery {
    AtLeft(CounterQuery),
    AtRight(CounterQuery),
}

impl ModelMessage for PairMsg {

}

impl ModelGetterMessage for PairQuery {
    type Data = i64;
}

impl Model for PairModel {
    type Message = PairMsg;

    type Command = ();

    type Query = PairQuery;

    type QueryData = i64;

    open spec fn updated(self, message: PairMsg) -> Self {
        match message {
            PairMsg::ToLeft(m) => PairModel { left: self.left.updated(m), right: self.right },
            PairMsg::ToRight(m) => PairModel { left: self.left, right: self.right.updated(m) },
        }
    }

    open spec fn emitted(self, message: PairMsg) -> Seq<()> {
        Seq::empty()
    }

    open spec fn marked(self, message: PairMsg) -> Set<u64> {
        Set::empty()
    }

    open spec fn queried(self, query: PairQuery) -> i64 {
        match query {
            PairQuery::AtLeft(q) => self.left.queried(q),
            PairQuery::AtRight(q) => self.right.queried(q),
        }
    }

    fn update(&mut self, message: PairMsg, ctx: &mut UpdateContext<()>) {
        match message {
            PairMsg::ToLeft(m) => self.left.update(m, ctx),
            PairMsg::ToRight(m) => self.right.update(m, ctx),
        }
        proof {
            assert(ctx.queued() + Seq::<()>::empty() =~= ctx.queued());
            assert(ctx.dirty().union(Set::<u64>::empty()) =~= ctx.dirty());
        }
    }

    fn getter(&self, query: PairQuery) -> (r: i64) {
        match query {
            PairQuery::AtLeft(q) => self.left.getter(q),
            PairQuery::AtRight(q) => self.right.getter(q),
        }
    }
}

/// The root of the nested application: one pair of counters.
#[derive(Clone, Copy, Debug, PartialEq, Eq, Structural)]
pub struct RootModel {
    pub pair: PairModel,
}

/// A root message forwards into the pair.
#[derive(Clone, Copy, Debug, PartialEq, Eq, Structural)]
pub enum RootMsg {
    ToPair(PairMsg),
}

/// A root query forwards into the pair.
#[derive(Clone, Copy, Debug, PartialEq, Eq, Structural)]
pub enum RootQuery {
    AtPair(PairQuery),
}

impl ModelMessage for RootMsg {

}

impl ModelGetterMessage for RootQuery {
    type Data = i64;
}

impl Model for RootModel {
    type Message = RootMsg;

    type Command = ();

    type Query = RootQuery;

    type QueryData = i64;

    open spec fn updated(self, message: RootMsg) -> Self {
        match message {
            RootMsg::ToPair(m) => RootModel { pair: self.pair.updated(m) },
        }
    }

    open spec fn emitted(self, message: RootMsg) -> Seq<()> {
        Seq::empty()
    }

    open spec fn marked(self, message: RootMsg) -> Set<u64> {
        Set::empty()
    }

    open spec fn queried(self, query: RootQuery) -> i64 {
        match query {
            RootQuery::AtPair(q) => self.pair.queried(q),
        }
    }

    fn update(&mut self, message: RootMsg, ctx: &mut UpdateContext<()>) {
        match message {
            RootMsg::ToPair(m) => self.pair.update(m, ctx),
        }
        proof {
            assert(ctx.queued() + Seq::<()>::empty() =~= ctx.queued());
            assert(ctx.dirty().union(Set::<u64>::empty()) =~= ctx.dirty());
        }
    }

    fn getter(&self, query: RootQuery) -> (r: i64) {
        match query {
            RootQuery::AtPair(q) => self.pair.getter(q),
        }
    }
}

/// The lens from the pair down to its left counter.
pub struct LeftCounterLens;

impl ZoomLens for LeftCounterLens {
    type ChildMsg = CounterMsg;

    type ParentMsg = PairMsg;

    type ChildQuery = CounterQuery;

    type ParentQuery = PairQuery;

    type ChildData = i64;

    type ParentData = i64;

    open spec fn lift_msg_spec(self, m: CounterMsg) -> PairMsg {
        PairMsg::ToLeft(m)
    }

    open spec fn lift_query_spec(self, q: CounterQuery) -> PairQuery {
        PairQuery::AtLeft(q)
    }

    open spec fn project_data_spec(self, d: i64) -> i64 {
        d
    }

    fn lift_msg(&self, m: CounterMsg) -> (r: PairMsg) {
        PairMsg::ToLeft(m)
    }

    fn lift_query(&self, q: CounterQuery) -> (r: PairQuery) {
        PairQuery::AtLeft(q)
    }

    fn project_data(&self, d: i64) -> (r: i64) {
        d
    }

    fn duplicate(&self) -> (r: Self) {
        LeftCounterLens
    }
}

/// The lens from the root down to the pair.
pub struct PairLens;

impl ZoomLens for PairLens {
    type ChildMsg = PairMsg;

    type ParentMsg = RootMsg;

    type ChildQuery = PairQuery;

    type ParentQuery = RootQuery;

    type ChildData = i64;

    type ParentData = i64;

    open spec fn lift_msg_spec(self, m: PairMsg) -> RootMsg {
        RootMsg::ToPair(m)
    }

    open spec fn lift_query_spec(self, q: PairQuery) -> RootQuery {
        RootQuery::AtPair(q)
    }

    open spec fn project_data_spec(self, d: i64) -> i64 {
        d
    }

    fn lift_msg(&self, m: PairMsg) -> (r: RootMsg) {
        RootMsg::ToPair(m)
    }

    fn lift_query(&self, q: PairQuery) -> (r: RootQuery) {
        RootQuery::AtPair(q)
    }

    fn project_data(&self, d: i64) -> (r: i64) {
        d
    }

    fn duplicate(&self) -> (r: Self) {
        PairLens
    }
}

/// A document that can be asked to save itself; saving is deferred to a
/// `Persist` command and invalidates the saved-state region.
#[derive(Clone, Copy, Debug, PartialEq, Eq, Structural)]
pub struct SaverModel {
    /// How many saves have been requested.
    pub requested: u64,
}

/// The saver's mutation requests.
#[derive(Clone, Copy, Debug, PartialEq, Eq, Structural)]
pub enum SaverMsg {
    Save,
}

/// The saver's deferred side effects.
#[derive(Clone, Copy, Debug, PartialEq, Eq, Structural)]
pub enum SaverCmd {
    Persist,
}

/// The saver's read requests.
#[derive(Clone, Copy, Debug, PartialEq, Eq, Structural)]
pub enum SaverQuery {
    Requested,
}

impl ModelMessage for SaverMsg {

}

impl ModelGetterMessage for SaverQuery {
    type Data = u64;
}

impl Model for SaverModel {
    type Message = SaverMsg;

    type Command = SaverCmd;

    type Query = SaverQuery;

    type QueryData = u64;

    open spec fn updated(self, message: SaverMsg) -> Self {
        SaverModel {
            requested: if self.requested < u64::MAX {
                (self.requested + 1) as u64
            } else {
                self.requested
            },
        }
    }

    open spec fn emitted(self, message: SaverMsg) -> Seq<SaverCmd> {
        seq![SaverCmd::Persist]
    }

    open spec fn marked(self, message: SaverMsg) -> Set<u64> {
        Set::empty().insert(REGION_SAVED)
    }

    open spec fn queried(self, query: SaverQuery) -> u64 {
        self.requested
    }

    fn update(&mut self, message: SaverMsg, ctx: &mut UpdateContext<SaverCmd>) {
        if self.requested < u64::MAX {
            self.requested = self.requested + 1;
        }
        ctx.emit_command(SaverCmd::Persist);
        ctx.mark_dirty(REGION_SAVED);
        proof {
            assert(ctx.queued() =~= old(ctx).queued() + seq![SaverCmd::Persist]);
        }
    }

    fn getter(&self, query: SaverQuery) -> (r: u64) {
        self.requested
    }
}

impl ModelWithRegion for SaverModel {
    open spec fn region_spec() -> u64 {
        REGION_SAVED
    }

    fn region() -> (r: u64) {
        REGION_SAVED
    }
}

} // verus!
