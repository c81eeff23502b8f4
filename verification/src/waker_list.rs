//! A slot list of wakers whose slots are reused and whose tokens expire on a mass wake-up.

use vstd::prelude::*;
use std::task::Waker;

verus! {

/// The mathematical content of a [`WakerList`].
pub struct WakerListView {
    /// One entry per slot, in index order. `None` marks a vacant slot.
    pub slots: Seq<Option<Waker>>,
    /// The indices of the vacant slots, the most recently vacated last.
    pub free: Seq<nat>,
    /// How many times the list has been emptied by a mass wake-up.
    pub epoch: nat,
}

/// The mathematical content of a [`WakerToken`].
pub struct WakerTokenView {
    /// The epoch of the list at the time of registration.
    pub epoch: nat,
    /// The slot that the registration filled.
    pub index: nat,
}

/// One operation on a waker list, with what it is given.
pub enum ListEvent {
    /// A call of [`WakerList::register`].
    Register { waker: Waker },
    /// A call of [`WakerList::deregister`].
    Deregister { token: WakerTokenView },
    /// A call of [`WakerList::wake_all`].
    WakeAll,
}

impl WakerListView {
    /// The list that [`WakerList::new`] builds: no slots, epoch zero.
    pub open spec fn empty() -> Self {
        WakerListView { slots: Seq::empty(), free: Seq::empty(), epoch: 0 }
    }

    /// The free list names exactly the vacant slots, each of them once.
    pub open spec fn wf(self) -> bool {
        &&& forall|j: int|
            0 <= j < self.free.len() ==> (#[trigger] self.free[j]) < self.slots.len()
                && self.slots[self.free[j] as int] is None
        &&& forall|j: int, k: int|
            0 <= j < k < self.free.len() ==> #[trigger] self.free[j] != #[trigger] self.free[k]
        &&& forall|i: int|
            0 <= i < self.slots.len() && (#[trigger] self.slots[i]) is None
                ==> self.free.contains(i as nat)
    }

    /// Number of slots that hold a waker.
    pub open spec fn occupied(self) -> int {
        self.slots.len() - self.free.len()
    }

    /// A token is acceptable if it is stale, or else names a slot that exists.
    ///
    /// Every token that this list issued is acceptable for as long as the list lives: within
    /// one epoch the number of slots never shrinks.
    pub open spec fn accepts(self, token: WakerTokenView) -> bool {
        token.epoch == self.epoch ==> token.index < self.slots.len()
    }

    /// The token that the next registration returns.
    pub open spec fn next_token(self) -> WakerTokenView {
        WakerTokenView {
            epoch: self.epoch,
            index: if self.free.len() > 0 {
                self.free.last()
            } else {
                self.slots.len()
            },
        }
    }

    /// The list after registering `waker`: the most recently vacated slot is filled, and only
    /// if there is none a new slot is appended.
    pub open spec fn register(self, waker: Waker) -> Self {
        if self.free.len() > 0 {
            WakerListView {
                slots: self.slots.update(self.free.last() as int, Some(waker)),
                free: self.free.drop_last(),
                ..self
            }
        } else {
            WakerListView { slots: self.slots.push(Some(waker)), ..self }
        }
    }

    /// The token is of the current epoch and its slot holds a waker.
    pub open spec fn holds(self, token: WakerTokenView) -> bool {
        &&& token.epoch == self.epoch
        &&& token.index < self.slots.len()
        &&& self.slots[token.index as int] is Some
    }

    /// The list after deregistering `token`: its slot is vacated if the token is current and
    /// the slot is filled, and nothing changes otherwise.
    pub open spec fn deregister(self, token: WakerTokenView) -> Self {
        if self.holds(token) {
            WakerListView {
                slots: self.slots.update(token.index as int, None),
                free: self.free.push(token.index),
                ..self
            }
        } else {
            self
        }
    }

    /// The waker that deregistering `token` hands back.
    pub open spec fn released(self, token: WakerTokenView) -> Option<Waker> {
        if self.holds(token) {
            self.slots[token.index as int]
        } else {
            None
        }
    }

    /// An observer may hold `stored` against this list: it holds nothing, or a token that
    /// the list accepts.
    pub open spec fn accepts_stored(self, stored: Option<WakerTokenView>) -> bool {
        stored is Some ==> self.accepts(stored->0)
    }

    /// The list after an observer that holds `stored` has withdrawn its registration.
    pub open spec fn withdraw(self, stored: Option<WakerTokenView>) -> Self {
        match stored {
            Some(token) => self.deregister(token),
            None => self,
        }
    }

    /// The list after a mass wake-up: no slots, and the next epoch.
    pub open spec fn wake_all(self) -> Self {
        WakerListView { slots: Seq::empty(), free: Seq::empty(), epoch: self.epoch + 1 }
    }

    /// The list after the operation.
    pub open spec fn step(self, event: ListEvent) -> Self {
        match event {
            ListEvent::Register { waker } => self.register(waker),
            ListEvent::Deregister { token } => self.deregister(token),
            ListEvent::WakeAll => self.wake_all(),
        }
    }

    /// The list after all the operations, in order.
    pub open spec fn run(self, events: Seq<ListEvent>) -> Self
        decreases events.len(),
    {
        if events.len() == 0 {
            self
        } else {
            self.step(events.first()).run(events.drop_first())
        }
    }

    /// The largest number of wakers that the list holds at once, from now to the end of the
    /// operations.
    pub open spec fn peak(self, events: Seq<ListEvent>) -> int
        decreases events.len(),
    {
        if events.len() == 0 {
            self.occupied()
        } else {
            let later = self.step(events.first()).peak(events.drop_first());
            if self.occupied() >= later {
                self.occupied()
            } else {
                later
            }
        }
    }

    /// The list after one waiter has come and gone: it registers `waker`, and then it is
    /// either woken together with all the others (`woken`), or it withdraws.
    pub open spec fn cycle(self, waker: Waker, woken: bool) -> Self {
        let registered = self.register(waker);
        if woken {
            registered.wake_all()
        } else {
            registered.deregister(self.next_token())
        }
    }

    /// The list after the waiters have come and gone one after the other.
    pub open spec fn cycles(self, waiters: Seq<(Waker, bool)>) -> Self
        decreases waiters.len(),
    {
        if waiters.len() == 0 {
            self
        } else {
            self.cycle(waiters.first().0, waiters.first().1).cycles(waiters.drop_first())
        }
    }

    /// All of the waiters withdrew: none was woken.
    pub open spec fn none_woken(waiters: Seq<(Waker, bool)>) -> bool {
        forall|i: int| 0 <= i < waiters.len() ==> !(#[trigger] waiters[i]).1
    }

    /// Registration keeps the list well formed.
    pub proof fn lemma_register_wf(self, waker: Waker)
        requires
            self.wf(),
        ensures
            self.register(waker).wf(),
            self.register(waker).holds(self.next_token()),
            self.register(waker).occupied() == self.occupied() + 1,
    {
        let after = self.register(waker);
        if self.free.len() > 0 {
            assert forall|i: int|
                0 <= i < after.slots.len() && (#[trigger] after.slots[i]) is None
                implies after.free.contains(i as nat) by {
                let j = choose|j: int| 0 <= j < self.free.len() && self.free[j] == i;
                assert(after.free[j] == i);
            }
        }
    }

    /// Deregistration keeps the list well formed.
    pub proof fn lemma_deregister_wf(self, token: WakerTokenView)
        requires
            self.wf(),
        ensures
            self.deregister(token).wf(),
            self.deregister(token).epoch == self.epoch,
            self.deregister(token).slots.len() == self.slots.len(),
            !self.deregister(token).holds(token),
    {
        let after = self.deregister(token);
        if self.holds(token) {
            let index = token.index;
            assert forall|i: int|
                0 <= i < after.slots.len() && (#[trigger] after.slots[i]) is None
                implies after.free.contains(i as nat) by {
                if i == index {
                    assert(after.free[self.free.len() as int] == index);
                } else {
                    let j = choose|j: int| 0 <= j < self.free.len() && self.free[j] == i;
                    assert(after.free[j] == i);
                }
            }
        }
    }

    /// A mass wake-up leaves a well-formed list that holds none of the tokens issued before.
    pub proof fn lemma_wake_all_wf(self, token: WakerTokenView)
        ensures
            self.wake_all().wf(),
            self.wake_all().occupied() == 0,
            token.epoch <= self.epoch ==> !self.wake_all().holds(token),
            token.epoch <= self.epoch ==> self.wake_all().accepts(token),
    {
    }

    /// The list grows only while more wakers are registered at once than ever before.
    ///
    /// Whatever is done to a well-formed list, it stays well formed, and it never has more
    /// slots than it had at the start or than wakers were registered at once since. So the
    /// number of slots does not depend on how many registrations there are in all.
    pub proof fn lemma_slots_bounded_by_peak(self, events: Seq<ListEvent>)
        requires
            self.wf(),
        ensures
            self.run(events).wf(),
            self.run(events).slots.len() <= self.slots.len() || self.run(events).slots.len()
                <= self.peak(events),
        decreases events.len(),
    {
        if events.len() > 0 {
            let next = self.step(events.first());
            match events.first() {
                ListEvent::Register { waker } => {
                    self.lemma_register_wf(waker);
                },
                ListEvent::Deregister { token } => {
                    self.lemma_deregister_wf(token);
                },
                ListEvent::WakeAll => {
                    self.lemma_wake_all_wf(self.next_token());
                },
            }
            next.lemma_peak_covers_start(events.drop_first());
            next.lemma_slots_bounded_by_peak(events.drop_first());
        }
    }

    /// The peak of a run is at least what the list holds at its start.
    pub proof fn lemma_peak_covers_start(self, events: Seq<ListEvent>)
        ensures
            self.peak(events) >= self.occupied(),
    {
    }

    /// Waiters that come and go one after the other never need a second slot.
    ///
    /// Start from a list of at most one slot, and that one vacant. Then however many waiters
    /// register and withdraw or are woken, each before the next one comes, the list never
    /// has more than one slot, and no slot is left filled. If none of them was woken, and
    /// there was at least one, the list ends with exactly one slot, which is vacant.
    pub proof fn lemma_cycles_bounded(self, waiters: Seq<(Waker, bool)>)
        requires
            self.wf(),
            self.slots.len() <= 1,
            self.occupied() == 0,
        ensures
            self.cycles(waiters).wf(),
            self.cycles(waiters).slots.len() <= 1,
            self.cycles(waiters).occupied() == 0,
            waiters.len() >= 1 && Self::none_woken(waiters) ==> {
                &&& self.cycles(waiters).slots.len() == 1
                &&& self.cycles(waiters).free.len() == 1
            },
        decreases waiters.len(),
    {
        if waiters.len() > 0 {
            let waker = waiters.first().0;
            let woken = waiters.first().1;
            let rest = waiters.drop_first();
            let registered = self.register(waker);
            let next = self.cycle(waker, woken);
            self.lemma_register_wf(waker);
            registered.lemma_deregister_wf(self.next_token());
            registered.lemma_wake_all_wf(self.next_token());
            next.lemma_cycles_bounded(rest);
        }
    }
}

/// A list of wakers.
///
/// Slots vacated by [`WakerList::deregister`] are reused by later registrations, so the list
/// grows only while more wakers are registered at once than ever before.
pub struct WakerList {
    /// The wakers, with possibly vacant slots.
    wakers: Vec<Option<Waker>>,
    /// The vacant slots of the list.
    empty_slots: Vec<usize>,
    /// The current epoch, increased whenever `wake_all` is called.
    epoch: usize,
}

/// The receipt of a registration, by which the waker can be taken back.
pub struct WakerToken {
    epoch: usize,
    index: usize,
}

impl View for WakerToken {
    type V = WakerTokenView;

    closed spec fn view(&self) -> WakerTokenView {
        WakerTokenView { epoch: self.epoch as nat, index: self.index as nat }
    }
}

impl WakerToken {
    /// The epoch in which the token was issued.
    pub fn epoch(&self) -> (epoch: usize)
        ensures
            epoch == self@.epoch,
    {
        self.epoch
    }

    /// The slot that the token names.
    pub fn index(&self) -> (index: usize)
        ensures
            index == self@.index,
    {
        self.index
    }
}

impl View for WakerList {
    type V = WakerListView;

    closed spec fn view(&self) -> WakerListView {
        WakerListView {
            slots: self.wakers@,
            free: self.empty_slots@.map_values(|index: usize| index as nat),
            epoch: self.epoch as nat,
        }
    }
}

impl WakerList {
    /// Create a new empty list of wakers.
    pub fn new() -> (list: Self)
        ensures
            list@ == WakerListView::empty(),
            list@.wf(),
    {
        let list = WakerList { wakers: Vec::new(), empty_slots: Vec::new(), epoch: 0 };
        assert(list@.free =~= Seq::<nat>::empty());
        list
    }

    /// Register a waker to be woken up when `wake_all` is called.
    ///
    /// Returns a token that can be used to deregister the waker again.
    pub fn register(&mut self, waker: Waker) -> (token: WakerToken)
        requires
            old(self)@.wf(),
        ensures
            final(self)@ == old(self)@.register(waker),
            token@ == old(self)@.next_token(),
            final(self)@.wf(),
    {
        proof {
            self@.lemma_register_wf(waker);
        }
        if let Some(index) = self.empty_slots.pop() {
            self.wakers[index] = Some(waker);
            assert(self@.free =~= old(self)@.free.drop_last());
            self.token(index)
        } else {
            self.wakers.push(Some(waker));
            self.token(self.wakers.len() - 1)
        }
    }

    /// Deregister a waker so it will not be woken up by `wake_all` any more.
    ///
    /// This is to be called when an observer that registered the waker is discarded, so that
    /// the list does not keep wakers of observers that no longer exist. A token of an earlier
    /// epoch is ignored.
    pub fn deregister(&mut self, token: WakerToken) -> (waker: Option<Waker>)
        requires
            old(self)@.wf(),
            old(self)@.accepts(token@),
        ensures
            final(self)@ == old(self)@.deregister(token@),
            waker == old(self)@.released(token@),
            final(self)@.wf(),
    {
        proof {
            self@.lemma_deregister_wf(token@);
        }
        if self.epoch != token.epoch {
            None
        } else if let Some(waker) = self.wakers[token.index].take() {
            self.empty_slots.push(token.index);
            assert(self@.free =~= old(self)@.free.push(token@.index));
            Some(waker)
        } else {
            assert(self.wakers@ =~= old(self).wakers@);
            None
        }
    }

    /// Wake all wakers, clear the list and increase the epoch.
    pub fn wake_all(&mut self)
        requires
            old(self)@.epoch < usize::MAX,
        ensures
            final(self)@ == old(self)@.wake_all(),
    {
        let mut i: usize = 0;
        while i < self.wakers.len()
            invariant
                self.epoch == old(self).epoch,
            decreases self.wakers.len() - i,
        {
            if let Some(waker) = self.wakers[i].take() {
                waker.wake()
            }
            i += 1;
        }
        self.wakers.clear();
        self.empty_slots.clear();
        self.epoch += 1;
        assert(self@.free =~= Seq::<nat>::empty());
    }

    /// Create a token for the current epoch with the given index.
    fn token(&self, index: usize) -> (token: WakerToken)
        ensures
            token@ == (WakerTokenView { epoch: self@.epoch, index: index as nat }),
    {
        WakerToken { epoch: self.epoch, index }
    }

    /// Get the total number of waker slots.
    ///
    /// This includes vacant slots.
    pub fn total_slots(&self) -> (n: usize)
        ensures
            n == self@.slots.len(),
    {
        self.wakers.len()
    }

    /// Get the number of vacant waker slots.
    pub fn empty_slots(&self) -> (n: usize)
        ensures
            n == self@.free.len(),
    {
        self.empty_slots.len()
    }

    /// Get the current epoch.
    pub fn epoch(&self) -> (epoch: usize)
        ensures
            epoch == self@.epoch,
    {
        self.epoch
    }

    /// Check whether `deregister` may be called with this token.
    pub fn accepts(&self, token: &WakerToken) -> (ok: bool)
        ensures
            ok == self@.accepts(token@),
    {
        token.epoch != self.epoch || token.index < self.wakers.len()
    }
}

} // verus!
