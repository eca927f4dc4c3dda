//! The place where a store offers itself to the sync manager.
//!
//! A store that wants to be synced registers itself. The registration is a
//! weak reference in a single slot, replaced wholesale by the next one: it
//! never keeps the store alive, and it ends by itself when the last strong
//! reference to the store is given back. The sync manager, which must not be
//! known to the store, later asks the slot for the store.

use crate::arena::{
    slot_live, slots_acquired, slots_downgraded, slots_inserted, slots_released,
    slots_weak_released, slots_wf, slots_with_value, Arena, Slots, StrongRef, WeakRef,
};
use vstd::prelude::*;

verus! {

/// Process-wide state for stores of type `S`: the stores that live, and the
/// one that is registered.
pub struct SyncManagerRegistry<S> {
    stores: Arena<S>,
    slot: Option<WeakRef>,
}

/// A [`SyncManagerRegistry`] as a mathematical value.
pub struct SyncManagerView<S> {
    /// The slots of all stores ever made.
    pub stores: Slots<S>,
    /// The slot of the store registered last, if any was.
    pub slot: Option<int>,
}

impl<S> SyncManagerView<S> {
    /// The store that a resolution attempt finds: the registered one, if it
    /// still lives.
    pub open spec fn resolved(self) -> Option<int> {
        match self.slot {
            Some(i) => if slot_live(self.stores, i) {
                Some(i)
            } else {
                None
            },
            None => None,
        }
    }

    /// The registry after `store` was put into it.
    pub open spec fn inserted(self, store: S) -> Self {
        SyncManagerView { stores: slots_inserted(self.stores, store), ..self }
    }

    /// The registry after one more strong reference to slot `i` was made.
    pub open spec fn acquired(self, i: int) -> Self {
        SyncManagerView { stores: slots_acquired(self.stores, i), ..self }
    }

    /// The registry after a strong reference to slot `i` was given back.
    pub open spec fn released(self, i: int) -> Self {
        SyncManagerView { stores: slots_released(self.stores, i), ..self }
    }

    /// The registry after the store in slot `i` was registered: the weak
    /// reference of the former registration is given back, and one to slot
    /// `i` takes its place. A slot that is not live leaves the registration
    /// empty.
    pub open spec fn registered(self, i: int) -> Self {
        let dropped = match self.slot {
            Some(j) => slots_weak_released(self.stores, j),
            None => self.stores,
        };
        SyncManagerView {
            stores: slots_downgraded(dropped, i),
            slot: if slot_live(self.stores, i) {
                Some(i)
            } else {
                None
            },
        }
    }

    /// The registry after the store in slot `i` became `store`.
    pub open spec fn with_store(self, i: int, store: S) -> Self {
        SyncManagerView { stores: slots_with_value(self.stores, i, store), ..self }
    }
}

impl<S> View for SyncManagerRegistry<S> {
    type V = SyncManagerView<S>;

    closed spec fn view(&self) -> SyncManagerView<S> {
        SyncManagerView {
            stores: self.stores@,
            slot: match self.slot {
                Some(w) => Some(w.id()),
                None => None,
            },
        }
    }
}

impl<S> SyncManagerRegistry<S> {
    /// The invariant of the registry: a store is held exactly in the slots
    /// that have a strong reference.
    pub closed spec fn wf(&self) -> bool {
        self.stores.wf()
    }

    /// What the invariant says of the view.
    pub proof fn lemma_wf(&self)
        requires
            self.wf(),
        ensures
            slots_wf(self@.stores),
    {
        self.stores.lemma_wf();
    }

    /// A registry without stores and without a registration.
    pub fn new() -> (r: Self)
        ensures
            r.wf(),
            r@.stores == Slots::<S>::empty(),
            r@.slot is None,
    {
        SyncManagerRegistry { stores: Arena::new(), slot: None }
    }

    /// Puts `store` under shared ownership and returns the first strong
    /// reference to it.
    pub fn insert(&mut self, store: S) -> (r: StrongRef)
        requires
            old(self).wf(),
        ensures
            final(self).wf(),
            r.id() == old(self)@.stores.len(),
            final(self)@ == old(self)@.inserted(store),
    {
        self.stores.insert(store)
    }

    /// One more strong reference to the store of `r`, while it lives.
    pub fn acquire(&mut self, r: &StrongRef) -> (s: Option<StrongRef>)
        requires
            old(self).wf(),
        ensures
            final(self).wf(),
            s.is_some() <==> slot_live(old(self)@.stores, r.id()),
            s matches Some(n) ==> n.id() == r.id(),
            final(self)@ == old(self)@.acquired(r.id()),
    {
        self.stores.acquire(r)
    }

    /// Gives a strong reference back. With the last one the store leaves the
    /// registry and is returned; a registration of it is empty from then on.
    pub fn release(&mut self, r: StrongRef) -> (s: Option<S>)
        requires
            old(self).wf(),
        ensures
            final(self).wf(),
            final(self)@ == old(self)@.released(r.id()),
            s == (if slot_live(old(self)@.stores, r.id()) && old(self)@.stores[r.id()].strong == 1 {
                old(self)@.stores[r.id()].value
            } else {
                None
            }),
    {
        self.stores.release(r)
    }

    /// The strong references outstanding for the store of `r`.
    pub fn strong_count(&self, r: &StrongRef) -> (n: usize)
        ensures
            n == (if 0 <= r.id() < self@.stores.len() {
                self@.stores[r.id()].strong
            } else {
                0
            }),
    {
        self.stores.strong_count(r)
    }

    /// The weak references outstanding for the store of `r`.
    pub fn weak_count(&self, r: &StrongRef) -> (n: usize)
        ensures
            n == (if 0 <= r.id() < self@.stores.len() {
                self@.stores[r.id()].weak
            } else {
                0
            }),
    {
        self.stores.weak_count(r)
    }

    /// The store that `r` refers to.
    pub fn get(&self, r: &StrongRef) -> (s: Option<&S>)
        ensures
            s matches Some(x) ==> 0 <= r.id() < self@.stores.len() && self@.stores[r.id()].value
                == Some(*x),
            s is None ==> !(0 <= r.id() < self@.stores.len()) || self@.stores[r.id()].value is None,
    {
        self.stores.get(r)
    }

    /// The store that `r` refers to, for changing it in place.
    pub fn get_mut(&mut self, r: &StrongRef) -> (s: Option<&mut S>)
        requires
            old(self).wf(),
        ensures
            s matches Some(x) ==> 0 <= r.id() < old(self)@.stores.len() && old(
                self,
            )@.stores[r.id()].value == Some(*x) && final(self)@ == old(self)@.with_store(
                r.id(),
                *final(x),
            ),
            s is None ==> (!(0 <= r.id() < old(self)@.stores.len()) || old(
                self,
            )@.stores[r.id()].value is None) && final(self)@ == old(self)@,
            final(self).wf(),
    {
        self.stores.get_mut(r)
    }

    /// Makes the store of `r` available to the sync manager, in place of
    /// whatever was registered before.
    pub fn register(&mut self, r: &StrongRef)
        requires
            old(self).wf(),
        ensures
            final(self).wf(),
            final(self)@ == old(self)@.registered(r.id()),
    {
        match self.slot.take() {
            Some(former) => {
                self.stores.release_weak(former);
            },
            None => {},
        }
        self.slot = self.stores.downgrade(r);
    }

    /// Whether a store is registered and still lives.
    pub fn resolves(&self) -> (r: bool)
        ensures
            r == self@.resolved().is_some(),
    {
        match &self.slot {
            Some(w) => self.stores.is_live(w.index()),
            None => false,
        }
    }

    /// A strong reference to the registered store, if one is registered and
    /// still lives.
    pub fn upgrade(&mut self) -> (s: Option<StrongRef>)
        requires
            old(self).wf(),
        ensures
            final(self).wf(),
            s.is_some() <==> old(self)@.resolved().is_some(),
            s matches Some(n) ==> Some(n.id()) == old(self)@.resolved() && final(self)@ == old(
                self,
            )@.acquired(n.id()),
            s is None ==> final(self)@ == old(self)@,
    {
        match &self.slot {
            Some(w) => self.stores.upgrade(w),
            None => None,
        }
    }
}

/// A registration lasts exactly as long as the store: it does not keep the
/// store alive, and no call unregisters it. Once the last strong reference
/// to the registered store is given back, a resolution attempt finds
/// nothing; until then it finds the store.
pub proof fn lemma_registration_ends_with_store<S>(reg: SyncManagerView<S>, i: int)
    requires
        slots_wf(reg.stores),
        slot_live(reg.stores, i),
    ensures
        reg.registered(i).stores[i].strong == reg.stores[i].strong,
        reg.registered(i).resolved() == Some(i),
        reg.registered(i).released(i).resolved().is_some() <==> reg.stores[i].strong != 1,
        reg.stores[i].strong == 1 ==> reg.registered(i).released(i).resolved() is None,
{
}

/// Registration is idempotent, and the last writer wins.
pub proof fn lemma_last_registration_wins<S>(reg: SyncManagerView<S>, i: int, j: int)
    requires
        slots_wf(reg.stores),
        slot_live(reg.stores, i),
        slot_live(reg.stores, j),
    ensures
        reg.registered(i).registered(j).resolved() == Some(j),
        reg.registered(i).registered(i).slot == reg.registered(i).slot,
        reg.stores[i].weak + 1 < usize::MAX ==> reg.registered(i).registered(i) == reg.registered(i),
{
    let once = reg.registered(i);
    let twice = once.registered(i);
    if reg.stores[i].weak + 1 < usize::MAX {
        assert(twice.stores =~= once.stores);
    }
}

} // verus!
