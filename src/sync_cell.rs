use vstd::prelude::*;

use crate::cache::{Cache, CacheView};
use crate::key::Key;
use crate::traffic::Op;

verus! {

/// A cell bound to one storage slot, reading the slot lazily and writing it
/// back only on flush.
///
/// The cell itself does no storage access: it says when a load is needed
/// (`needs_load`), takes the loaded value (`load`), and on `flush` hands out
/// the one write that the slot is owed. Reading requires the cell to be
/// loaded; setting and clearing do not.
pub struct SyncCell<T> {
    /// The address of the slot.
    key: Key,
    /// The cache for the slot's value.
    cache: Cache<T>,
}

impl<T> View for SyncCell<T> {
    type V = CacheView<T>;

    closed spec fn view(&self) -> CacheView<T> {
        self.cache@
    }
}

impl<T> SyncCell<T> {
    /// The slot that the cell is bound to.
    pub closed spec fn slot(&self) -> Key {
        self.key
    }

    /// A cell bound to the slot at `key`, with nothing loaded.
    pub fn from_key(key: Key) -> (r: Self)
        ensures
            r.slot() == key,
            r@ == CacheView::<T>::desync(),
    {
        SyncCell { key, cache: Cache::default() }
    }

    /// The address of the slot.
    pub fn key(&self) -> (r: Key)
        ensures
            r == self.slot(),
    {
        self.key
    }

    /// The persisted form of the cell: its slot's address alone, never the
    /// cached value.
    pub fn encode(&self) -> (r: Vec<u8>)
        ensures
            r@ == self.slot()@,
    {
        self.key.encode()
    }

    /// Rebuilds a cell from the front of `input`, with nothing loaded;
    /// `None` when `input` is shorter than an address.
    pub fn decode(input: &[u8]) -> (r: Option<Self>)
        ensures
            r is Some <==> input@.len() >= 32,
            r matches Some(cell) ==> cell.slot()@ == input@.subrange(0, 32)
                && cell@ == CacheView::<T>::desync(),
    {
        match Key::decode(input) {
            Some(key) => Some(Self::from_key(key)),
            None => None,
        }
    }

    /// Returns `true` if the slot must be read before the value can be.
    pub fn needs_load(&self) -> (r: bool)
        ensures
            r == !self@.synced,
            forall|stored: Option<T>| #[trigger] Op::Get(stored).reads(self@) == (if r { 1nat } else { 0nat }),
    {
        !self.cache.is_synced()
    }

    /// Hands the cell what was read from its slot. A cell that already holds
    /// a value ignores it: the cache is ahead of, or equal to, the slot.
    pub fn load(&mut self, loaded: Option<T>)
        ensures
            final(self).slot() == old(self).slot(),
            final(self)@ == old(self)@.loaded(loaded),
            final(self)@ == Op::Get(loaded).apply(old(self)@),
    {
        if !self.cache.is_synced() {
            self.cache.update(loaded);
        }
    }

    /// Returns a reference to the value of the cell, if there is one.
    pub fn get(&self) -> (r: Option<&T>)
        requires
            self@.synced,
        ensures
            r matches Some(v) ==> self@.value == Some(*v),
            r is None <==> self@.value is None,
    {
        self.cache.get()
    }

    /// Sets the value of the cell; the slot is written on the next flush.
    pub fn set(&mut self, val: T)
        ensures
            final(self).slot() == old(self).slot(),
            final(self)@ == CacheView::written(Some(val)),
            final(self)@ == Op::Put(val).apply(old(self)@),
    {
        self.cache.update(Some(val));
        self.cache.mark_dirty();
    }

    /// Removes the value from the cell; the slot is erased on the next flush.
    pub fn clear(&mut self)
        ensures
            final(self).slot() == old(self).slot(),
            final(self)@ == CacheView::<T>::written(None),
            final(self)@ == Op::<T>::Clear.apply(old(self)@),
    {
        self.cache.update(None);
        self.cache.mark_dirty();
    }

    /// Returns a mutable reference to the value of the cell, if there is
    /// one. The cell becomes dirty even when there is no value, or the
    /// reference is not used.
    pub fn get_mut(&mut self) -> (r: Option<&mut T>)
        requires
            old(self)@.synced,
        ensures
            final(self).slot() == old(self).slot(),
            r is None <==> old(self)@.value is None,
            r is None ==> final(self)@ == old(self)@.touched(),
            r matches Some(v) ==> old(self)@.value == Some(*v)
                && final(self)@ == (CacheView { value: Some(*final(v)), ..old(self)@.touched() }),
    {
        self.cache.mark_dirty();
        self.cache.get_mut()
    }

    /// Applies `f` to the value of the cell and returns the result; `None`,
    /// without calling `f`, when the cell holds no value. The cell becomes
    /// dirty either way.
    pub fn mutate_with<F>(&mut self, f: F) -> (r: Option<&T>)
        where
            F: FnOnce(&mut T),
        requires
            old(self)@.synced,
            forall|m: &mut T| old(self)@.value == Some(*m) ==> #[trigger] f.requires((m,)),
        ensures
            final(self).slot() == old(self).slot(),
            r is None <==> old(self)@.value is None,
            r is None ==> final(self)@ == old(self)@.touched(),
            r matches Some(v) ==> final(self)@ == (CacheView { value: Some(*v), ..old(self)@.touched() }),
            r matches Some(v) ==> exists|m: &mut T|
                old(self)@.value == Some(*m) && *final(m) == *v && #[trigger] f.ensures((m,), ()),
    {
        match self.get_mut() {
            Some(value) => {
                f(value);
                Some(&*value)
            },
            None => None,
        }
    }

    /// Brings the slot up to date: returns the write the slot is owed, if
    /// any, and marks the cell clean. `Some(Some(v))` stores `v`,
    /// `Some(None)` erases the slot, `None` leaves it untouched.
    pub fn flush(&mut self) -> (r: Option<Option<&T>>)
        ensures
            final(self).slot() == old(self).slot(),
            final(self)@ == old(self)@.flushed(),
            r is Some <==> old(self)@.dirty,
            final(self)@ == Op::<T>::Flush.apply(old(self)@),
            r is Some <==> Op::<T>::Flush.writes(old(self)@) == 1,
            r matches Some(w) ==> (w is None <==> old(self)@.value is None),
            r matches Some(Some(v)) ==> old(self)@.value == Some(*v),
    {
        if self.cache.is_dirty() {
            proof {
                self.cache.lemma_wf();
            }
            self.cache.mark_clean();
            Some(self.cache.get())
        } else {
            None
        }
    }
}

} // verus!
