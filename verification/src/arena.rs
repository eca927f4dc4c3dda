//! An ownership arena with counted strong and weak references.
//!
//! The arena stands where a shared heap with reference counting would: a value
//! put into it lives for as long as at least one strong reference to it is
//! outstanding, and a weak reference can be turned into a strong one only
//! while the value lives. Slots are never reused, so the index of a slot is an
//! identity that stays unique for the lifetime of the arena.
//!
//! Counts saturate: one that has reached `usize::MAX` stays there, and the
//! slot lives on for good. So a reference to a live value can always be made.

use vstd::prelude::*;

verus! {

/// What one slot of an arena holds, as a mathematical value.
pub struct SlotView<T> {
    /// Strong references outstanding.
    pub strong: nat,
    /// Weak references outstanding.
    pub weak: nat,
    /// The value, present exactly while `strong > 0` in a well-formed arena.
    pub value: Option<T>,
}

/// The slots of an arena as a mathematical value, oldest first.
pub type Slots<T> = Seq<SlotView<T>>;

/// A value is held exactly in the slots that have a strong reference.
pub open spec fn slots_wf<T>(a: Slots<T>) -> bool {
    forall|i: int| 0 <= i < a.len() ==> ((#[trigger] a[i]).value.is_some() <==> a[i].strong > 0)
}

/// Whether slot `i` exists and still holds its value.
pub open spec fn slot_live<T>(a: Slots<T>, i: int) -> bool {
    0 <= i < a.len() && a[i].strong > 0
}

/// The slots after a value was put into a fresh slot.
pub open spec fn slots_inserted<T>(a: Slots<T>, value: T) -> Slots<T> {
    a.push(SlotView { strong: 1, weak: 0, value: Some(value) })
}

/// A count after one more reference was made: it stops at the top.
pub open spec fn count_up(n: nat) -> nat {
    if n >= usize::MAX {
        n
    } else {
        n + 1
    }
}

/// A count after one reference was given back: it stays at the top once
/// there, and at zero.
pub open spec fn count_down(n: nat) -> nat {
    if n >= usize::MAX || n == 0 {
        n
    } else {
        (n - 1) as nat
    }
}

/// The slots after one more strong reference to slot `i` was made.
pub open spec fn slots_acquired<T>(a: Slots<T>, i: int) -> Slots<T> {
    if slot_live(a, i) {
        a.update(i, SlotView { strong: count_up(a[i].strong), ..a[i] })
    } else {
        a
    }
}

/// The slots after a strong reference to slot `i` was given back: the value
/// leaves with the last one.
pub open spec fn slots_released<T>(a: Slots<T>, i: int) -> Slots<T> {
    if slot_live(a, i) {
        a.update(
            i,
            SlotView {
                strong: count_down(a[i].strong),
                weak: a[i].weak,
                value: if a[i].strong == 1 {
                    None
                } else {
                    a[i].value
                },
            },
        )
    } else {
        a
    }
}

/// The slots after one more weak reference to slot `i` was made.
pub open spec fn slots_downgraded<T>(a: Slots<T>, i: int) -> Slots<T> {
    if slot_live(a, i) {
        a.update(i, SlotView { weak: count_up(a[i].weak), ..a[i] })
    } else {
        a
    }
}

/// The slots after a weak reference to slot `i` was given back.
pub open spec fn slots_weak_released<T>(a: Slots<T>, i: int) -> Slots<T> {
    if 0 <= i < a.len() {
        a.update(i, SlotView { weak: count_down(a[i].weak), ..a[i] })
    } else {
        a
    }
}

/// The slots after the value of slot `i` was replaced by `value`.
pub open spec fn slots_with_value<T>(a: Slots<T>, i: int, value: T) -> Slots<T> {
    a.update(i, SlotView { value: Some(value), ..a[i] })
}

struct Slot<T> {
    strong: usize,
    weak: usize,
    value: Option<T>,
}

impl<T> Slot<T> {
    spec fn view(&self) -> SlotView<T> {
        SlotView { strong: self.strong as nat, weak: self.weak as nat, value: self.value }
    }
}

/// Owns values of type `T` on behalf of the holders of strong references.
pub struct Arena<T> {
    slots: Vec<Slot<T>>,
}

/// An owning reference to a slot. It cannot be copied: a second one is made
/// by [`Arena::acquire`] or [`Arena::upgrade`], and each is given back with
/// [`Arena::release`]. A reference names its slot by number, so it means
/// something only to the arena that made it.
#[derive(Debug)]
pub struct StrongRef {
    index: usize,
}

/// A non-owning reference to a slot, given back with [`Arena::release_weak`].
#[derive(Debug)]
pub struct WeakRef {
    index: usize,
}

impl StrongRef {
    /// The slot this reference names.
    pub closed spec fn id(&self) -> int {
        self.index as int
    }

    /// The identity of the referenced slot.
    pub fn index(&self) -> (r: usize)
        ensures
            r == self.id(),
    {
        self.index
    }

    /// Whether two references name the same slot.
    pub fn ptr_eq(&self, other: &StrongRef) -> (r: bool)
        ensures
            r == (self.id() == other.id()),
    {
        self.index == other.index
    }
}

impl WeakRef {
    /// The slot this reference names.
    pub closed spec fn id(&self) -> int {
        self.index as int
    }

    /// The identity of the referenced slot.
    pub fn index(&self) -> (r: usize)
        ensures
            r == self.id(),
    {
        self.index
    }
}

impl<T> Arena<T> {
    /// The slots of the arena, oldest first.
    pub closed spec fn view(&self) -> Slots<T> {
        Seq::new(self.slots@.len(), |i: int| self.slots@[i]@)
    }

    /// A value is held exactly in the slots that have a strong reference.
    pub closed spec fn wf(&self) -> bool {
        forall|i: int|
            0 <= i < self.slots@.len() ==> ((#[trigger] self.slots@[i]).value.is_some()
                <==> self.slots@[i].strong > 0)
    }

    /// What well-formedness says of the view.
    pub proof fn lemma_wf(&self)
        requires
            self.wf(),
        ensures
            slots_wf(self@),
    {
        assert forall|i: int| 0 <= i < self@.len() implies ((#[trigger] self@[i]).value.is_some()
            <==> self@[i].strong > 0) by {
        }
    }

    /// Whether slot `i` exists and still holds its value.
    pub open spec fn live(&self, i: int) -> bool {
        slot_live(self@, i)
    }

    /// The value in slot `i`, if the slot is live.
    pub open spec fn value(&self, i: int) -> Option<T> {
        if 0 <= i < self@.len() {
            self@[i].value
        } else {
            None
        }
    }

    /// The strong references outstanding for slot `i`.
    pub open spec fn strong(&self, i: int) -> nat {
        if 0 <= i < self@.len() {
            self@[i].strong
        } else {
            0
        }
    }

    /// The weak references outstanding for slot `i`.
    pub open spec fn weak(&self, i: int) -> nat {
        if 0 <= i < self@.len() {
            self@[i].weak
        } else {
            0
        }
    }

    /// An arena without slots.
    pub fn new() -> (r: Self)
        ensures
            r.wf(),
            r@ == Slots::<T>::empty(),
    {
        Arena { slots: Vec::new() }
    }

    /// The number of slots ever made.
    pub fn len(&self) -> (r: usize)
        ensures
            r == self@.len(),
    {
        self.slots.len()
    }

    /// Puts `value` into a fresh slot and returns the first strong reference
    /// to it.
    pub fn insert(&mut self, value: T) -> (r: StrongRef)
        requires
            old(self).wf(),
        ensures
            final(self).wf(),
            r.id() == old(self)@.len(),
            final(self)@ == slots_inserted(old(self)@, value),
            final(self)@.len() <= usize::MAX,
    {
        let index = self.slots.len();
        self.slots.push(Slot { strong: 1, weak: 0, value: Some(value) });
        let ghost filled = self.slots.len();
        StrongRef { index }
    }

    /// The strong references outstanding for the slot that `r` names.
    pub fn strong_count(&self, r: &StrongRef) -> (n: usize)
        ensures
            n == self.strong(r.id()),
    {
        if r.index < self.slots.len() {
            self.slots[r.index].strong
        } else {
            0
        }
    }

    /// The weak references outstanding for the slot that `r` names.
    pub fn weak_count(&self, r: &StrongRef) -> (n: usize)
        ensures
            n == self.weak(r.id()),
    {
        if r.index < self.slots.len() {
            self.slots[r.index].weak
        } else {
            0
        }
    }

    /// Whether the slot with identity `index` still holds its value.
    pub fn is_live(&self, index: usize) -> (r: bool)
        ensures
            r == self.live(index as int),
    {
        index < self.slots.len() && self.slots[index].strong > 0
    }

    /// Makes one more strong reference to the slot of `r`. Fails, changing
    /// nothing, if the slot is not live.
    pub fn acquire(&mut self, r: &StrongRef) -> (s: Option<StrongRef>)
        requires
            old(self).wf(),
        ensures
            final(self).wf(),
            s.is_some() <==> old(self).live(r.id()),
            s matches Some(n) ==> n.id() == r.id(),
            final(self)@ == slots_acquired(old(self)@, r.id()),
    {
        self.grow_strong(r.index)
    }

    /// Turns a weak reference into a strong one while the value lives. Fails,
    /// changing nothing, once the value has left.
    pub fn upgrade(&mut self, w: &WeakRef) -> (s: Option<StrongRef>)
        requires
            old(self).wf(),
        ensures
            final(self).wf(),
            s.is_some() <==> old(self).live(w.id()),
            s matches Some(n) ==> n.id() == w.id(),
            final(self)@ == slots_acquired(old(self)@, w.id()),
    {
        self.grow_strong(w.index)
    }

    fn grow_strong(&mut self, index: usize) -> (s: Option<StrongRef>)
        requires
            old(self).wf(),
        ensures
            final(self).wf(),
            s.is_some() <==> old(self).live(index as int),
            s matches Some(n) ==> n.id() == index,
            final(self)@ == slots_acquired(old(self)@, index as int),
    {
        if index < self.slots.len() && self.slots[index].strong > 0 {
            if self.slots[index].strong < usize::MAX {
                self.slots[index].strong = self.slots[index].strong + 1;
            }
            Some(StrongRef { index })
        } else {
            None
        }
    }

    /// Gives a strong reference back. The value leaves the arena, and is
    /// returned, when this was the last one.
    pub fn release(&mut self, r: StrongRef) -> (v: Option<T>)
        requires
            old(self).wf(),
        ensures
            final(self).wf(),
            v == (if old(self).strong(r.id()) == 1 {
                old(self).value(r.id())
            } else {
                None
            }),
            final(self)@ == slots_released(old(self)@, r.id()),
    {
        let index = r.index;
        if index < self.slots.len() && self.slots[index].strong > 0 {
            if self.slots[index].strong < usize::MAX {
                self.slots[index].strong = self.slots[index].strong - 1;
            }
            if self.slots[index].strong == 0 {
                self.slots[index].value.take()
            } else {
                None
            }
        } else {
            None
        }
    }

    /// Makes a weak reference to the slot of `r`. Fails, changing nothing, if
    /// the slot is not live.
    pub fn downgrade(&mut self, r: &StrongRef) -> (w: Option<WeakRef>)
        requires
            old(self).wf(),
        ensures
            final(self).wf(),
            w.is_some() <==> old(self).live(r.id()),
            w matches Some(n) ==> n.id() == r.id(),
            final(self)@ == slots_downgraded(old(self)@, r.id()),
    {
        let index = r.index;
        if index < self.slots.len() && self.slots[index].strong > 0 {
            if self.slots[index].weak < usize::MAX {
                self.slots[index].weak = self.slots[index].weak + 1;
            }
            Some(WeakRef { index })
        } else {
            None
        }
    }

    /// Gives a weak reference back. The value and the strong count of its
    /// slot are not touched.
    pub fn release_weak(&mut self, w: WeakRef)
        requires
            old(self).wf(),
        ensures
            final(self).wf(),
            final(self)@ == slots_weak_released(old(self)@, w.id()),
    {
        let index = w.index;
        if index < self.slots.len() {
            if 0 < self.slots[index].weak && self.slots[index].weak < usize::MAX {
                self.slots[index].weak = self.slots[index].weak - 1;
            }
        }
    }

    /// The value that `r` refers to, while it lives.
    pub fn get(&self, r: &StrongRef) -> (v: Option<&T>)
        ensures
            v.is_some() == self.value(r.id()).is_some(),
            v matches Some(x) ==> self.value(r.id()) == Some(*x),
    {
        if r.index < self.slots.len() {
            self.slots[r.index].value.as_ref()
        } else {
            None
        }
    }

    /// The value that `r` refers to, for changing it in place. Counts and
    /// other slots stay as they are.
    pub fn get_mut(&mut self, r: &StrongRef) -> (v: Option<&mut T>)
        requires
            old(self).wf(),
        ensures
            v.is_some() == old(self).value(r.id()).is_some(),
            v matches Some(m) ==> old(self).value(r.id()) == Some(*m) && final(self)@
                == slots_with_value(old(self)@, r.id(), *final(m)),
            v is None ==> final(self)@ == old(self)@,
            final(self).wf(),
    {
        if r.index < self.slots.len() {
            self.slots[r.index].value.as_mut()
        } else {
            None
        }
    }
}

} // verus!
