//! Fine-grained reactivity: a value cell with a dirty flag and coalescing
//! change notification.
//!
//! Writes mark the cell dirty; a flush delivers at most one `Changed` event
//! to each live subscriber, however many writes happened since the previous
//! flush. Each subscriber owns a capacity-one notification slot: an event
//! arriving while the slot is still full is dropped, which is the intended
//! coalescing backpressure, not a loss.

use vstd::prelude::*;

verus! {

/// What a subscriber is told: the value changed, or the signal is gone and
/// polling it again is pointless.
#[derive(Clone, Copy, Debug, PartialEq, Eq, Structural)]
pub enum SignalStatus {
    Changed,
    Destroyed,
}

/// One subscriber's bounded (capacity one) notification slot.
#[derive(Clone, Copy, Debug, PartialEq, Eq, Structural)]
pub struct SubscriberSlot {
    /// The not-yet-collected event, if any.
    pub pending: Option<SignalStatus>,
    /// Whether the subscriber has gone away.
    pub closed: bool,
}

/// The mathematical content of a signal: its value, its dirty flag, and its
/// subscribers' slots in subscription order.
pub struct SignalView<T> {
    pub value: T,
    pub dirty: bool,
    pub subs: Seq<SubscriberSlot>,
}

/// A slot that can still receive an event: live and currently empty.
pub open spec fn notifiable(s: SubscriberSlot) -> bool {
    !s.closed && s.pending is None
}

/// What one write does: the value is replaced and the cell marked dirty;
/// subscribers see nothing until the next flush.
pub open spec fn write_spec<T>(s: SignalView<T>, v: T) -> SignalView<T> {
    SignalView { value: v, dirty: true, subs: s.subs }
}

/// What a flush does to one slot: a live, empty slot receives `Changed`;
/// a full or closed slot is left alone.
pub open spec fn flushed_slot(s: SubscriberSlot) -> SubscriberSlot {
    if notifiable(s) {
        SubscriberSlot { pending: Some(SignalStatus::Changed), closed: false }
    } else {
        s
    }
}

/// What a flush does: nothing when the cell is clean; otherwise the dirty
/// flag is cleared and every slot is offered one `Changed` event.
pub open spec fn flush_spec<T>(s: SignalView<T>) -> SignalView<T> {
    if s.dirty {
        SignalView {
            value: s.value,
            dirty: false,
            subs: s.subs.map_values(|x: SubscriberSlot| flushed_slot(x)),
        }
    } else {
        s
    }
}

/// What subscribing does: one more live, empty slot at the end.
pub open spec fn subscribe_spec<T>(s: SignalView<T>) -> SignalView<T> {
    SignalView {
        value: s.value,
        dirty: s.dirty,
        subs: s.subs.push(SubscriberSlot { pending: None, closed: false }),
    }
}

/// What destruction does to one slot: a live, empty slot receives the
/// terminal `Destroyed` event; a full or closed slot is left alone.
pub open spec fn destroyed_slot(s: SubscriberSlot) -> SubscriberSlot {
    if notifiable(s) {
        SubscriberSlot { pending: Some(SignalStatus::Destroyed), closed: false }
    } else {
        s
    }
}

/// A shared, observable value cell with coalesced change notification.
pub struct Signal<T> {
    value: T,
    dirty: bool,
    subs: Vec<SubscriberSlot>,
}

impl<T> View for Signal<T> {
    type V = SignalView<T>;

    closed spec fn view(&self) -> SignalView<T> {
        SignalView { value: self.value, dirty: self.dirty, subs: self.subs@ }
    }
}

impl<T> Signal<T> {
    /// A clean signal holding `value`, with no subscribers yet.
    pub fn new(value: T) -> (r: Self)
        ensures
            r@.value == value,
            !r@.dirty,
            r@.subs == Seq::<SubscriberSlot>::empty(),
    {
        Signal { value, dirty: false, subs: Vec::new() }
    }

    /// Reads the current value.
    pub fn read(&self) -> (r: &T)
        ensures
            *r == self@.value,
    {
        &self.value
    }

    /// Replaces the value and unconditionally marks the cell dirty.
    pub fn set(&mut self, value: T)
        ensures
            final(self)@ == write_spec(old(self)@, value),
    {
        self.value = value;
        self.dirty = true;
    }

    /// Exclusive access to the value, unconditionally marking the cell
    /// dirty: however the caller changes the value through the returned
    /// borrow, subscribers learn of it at the next flush.
    pub fn write(&mut self) -> (r: &mut T)
        ensures
            *r == old(self)@.value,
            final(self)@ == (SignalView {
                value: *final(r),
                dirty: true,
                subs: old(self)@.subs,
            }),
    {
        self.dirty = true;
        &mut self.value
    }

    /// Registers a new subscriber and returns its identifier; the subscriber
    /// starts with an empty slot and sees only flushes after this point.
    pub fn subscribe(&mut self) -> (id: usize)
        ensures
            final(self)@ == subscribe_spec(old(self)@),
            id == old(self)@.subs.len(),
    {
        let id = self.subs.len();
        self.subs.push(SubscriberSlot { pending: None, closed: false });
        id
    }

    /// Collects and clears the subscriber's pending event, if any.
    pub fn take_status(&mut self, id: usize) -> (r: Option<SignalStatus>)
        requires
            id < old(self)@.subs.len(),
        ensures
            r == old(self)@.subs[id as int].pending,
            final(self)@.subs == old(self)@.subs.update(
                id as int,
                SubscriberSlot { pending: None, closed: old(self)@.subs[id as int].closed },
            ),
            final(self)@.value == old(self)@.value,
            final(self)@.dirty == old(self)@.dirty,
    {
        let slot = &mut self.subs[id];
        let r = slot.pending;
        slot.pending = None;
        r
    }

    /// Withdraws a subscriber: its slot is closed and stops receiving events.
    pub fn unsubscribe(&mut self, id: usize)
        requires
            id < old(self)@.subs.len(),
        ensures
            final(self)@.subs == old(self)@.subs.update(
                id as int,
                SubscriberSlot { pending: None, closed: true },
            ),
            final(self)@.value == old(self)@.value,
            final(self)@.dirty == old(self)@.dirty,
    {
        let slot = &mut self.subs[id];
        slot.pending = None;
        slot.closed = true;
    }

    /// Delivers the coalesced batch: if the cell is dirty, clears the flag
    /// and offers exactly one `Changed` event to every live subscriber.
    pub fn flush(&mut self)
        ensures
            final(self)@ == flush_spec(old(self)@),
    {
        if !self.dirty {
            return ;
        }
        self.dirty = false;
        let ghost s0 = self.subs@;
        let ghost v0 = self.value;
        let mut i: usize = 0;
        while i < self.subs.len()
            invariant
                0 <= i <= self.subs@.len(),
                self.subs@.len() == s0.len(),
                self.value == v0,
                !self.dirty,
                forall|j: int| 0 <= j < i ==> self.subs@[j] == flushed_slot(s0[j]),
                forall|j: int| i <= j < s0.len() ==> self.subs@[j] == s0[j],
            decreases self.subs@.len() - i,
        {
            let slot = &mut self.subs[i];
            if !slot.closed && slot.pending.is_none() {
                slot.pending = Some(SignalStatus::Changed);
            }
            i = i + 1;
        }
        proof {
            assert(self.subs@ =~= s0.map_values(|x: SubscriberSlot| flushed_slot(x)));
        }
    }

    /// Announces that the signal is going away: every live subscriber with
    /// room in its slot receives the terminal `Destroyed` event.
    pub fn destroy(&mut self)
        ensures
            final(self)@.value == old(self)@.value,
            final(self)@.dirty == old(self)@.dirty,
            final(self)@.subs == old(self)@.subs.map_values(
                |x: SubscriberSlot| destroyed_slot(x),
            ),
    {
        let ghost s0 = self.subs@;
        let ghost v0 = self.value;
        let ghost d0 = self.dirty;
        let mut i: usize = 0;
        while i < self.subs.len()
            invariant
                0 <= i <= self.subs@.len(),
                self.subs@.len() == s0.len(),
                self.value == v0,
                self.dirty == d0,
                forall|j: int| 0 <= j < i ==> self.subs@[j] == destroyed_slot(s0[j]),
                forall|j: int| i <= j < s0.len() ==> self.subs@[j] == s0[j],
            decreases self.subs@.len() - i,
        {
            let slot = &mut self.subs[i];
            if !slot.closed && slot.pending.is_none() {
                slot.pending = Some(SignalStatus::Destroyed);
            }
            i = i + 1;
        }
        proof {
            assert(self.subs@ =~= s0.map_values(|x: SubscriberSlot| destroyed_slot(x)));
        }
    }
}

/// Writing a whole batch of values, one after the other, without a flush in
/// between.
pub open spec fn write_all<T>(s: SignalView<T>, vs: Seq<T>) -> SignalView<T>
    decreases vs.len(),
{
    if vs.len() == 0 {
        s
    } else {
        write_all(write_spec(s, vs[0]), vs.drop_first())
    }
}

/// Writes never touch the subscribers, and at least one write leaves the
/// cell dirty.
proof fn lemma_write_all_shape<T>(s: SignalView<T>, vs: Seq<T>)
    ensures
        write_all(s, vs).subs == s.subs,
        vs.len() >= 1 ==> write_all(s, vs).dirty,
        vs.len() == 0 ==> write_all(s, vs) == s,
    decreases vs.len(),
{
    if vs.len() > 0 {
        lemma_write_all_shape(write_spec(s, vs[0]), vs.drop_first());
    }
}

/// Coalescing: a signal written any positive number of times between two
/// flush points notifies each live subscriber at most once. After the batch,
/// one flush hands every subscriber that can take an event exactly one
/// `Changed`, leaves full or closed slots alone, and a second flush with no
/// intervening write notifies nobody.
pub proof fn lemma_flush_coalesces<T>(s: SignalView<T>, vs: Seq<T>, i: int)
    requires
        vs.len() >= 1,
        0 <= i < s.subs.len(),
    ensures
        ({
            let f = flush_spec(write_all(s, vs));
            &&& f.subs.len() == s.subs.len()
            &&& (notifiable(s.subs[i]) ==> f.subs[i].pending == Some(SignalStatus::Changed))
            &&& (!notifiable(s.subs[i]) ==> f.subs[i] == s.subs[i])
            &&& flush_spec(f) == f
        }),
{
    lemma_write_all_shape(s, vs);
}

/// A subscriber added after all the writes of a batch, but before the flush,
/// still receives exactly one notification from that flush.
pub proof fn lemma_late_subscriber_notified<T>(s: SignalView<T>, vs: Seq<T>)
    requires
        vs.len() >= 1,
    ensures
        ({
            let t = subscribe_spec(write_all(s, vs));
            let f = flush_spec(t);
            &&& f.subs.len() == t.subs.len()
            &&& f.subs[t.subs.len() - 1].pending == Some(SignalStatus::Changed)
        }),
{
    lemma_write_all_shape(s, vs);
}

} // verus!
