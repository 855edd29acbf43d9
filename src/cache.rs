use vstd::prelude::*;

verus! {

/// What a cache holds, as a mathematical value.
///
/// A cache that never loaded its slot is not `synced`, carries no value and
/// is never dirty.
pub struct CacheView<T> {
    pub synced: bool,
    pub dirty: bool,
    pub value: Option<T>,
}

impl<T> CacheView<T> {
    /// The state of a cache that has not touched its slot yet.
    pub open spec fn desync() -> Self {
        CacheView { synced: false, dirty: false, value: None }
    }

    /// A cache that holds `value` exactly as the slot does.
    pub open spec fn clean(value: Option<T>) -> Self {
        CacheView { synced: true, dirty: false, value }
    }

    /// The cache after the result of a load was handed to it: a cache that
    /// already holds a value keeps it.
    pub open spec fn loaded(self, value: Option<T>) -> Self {
        if self.synced {
            self
        } else {
            Self::clean(value)
        }
    }

    /// The cache after a logical write of `value`, owed to the slot.
    pub open spec fn written(value: Option<T>) -> Self {
        CacheView { synced: true, dirty: true, value }
    }

    /// The cache after a write back was marked as owed.
    pub open spec fn touched(self) -> Self {
        if self.synced {
            CacheView { dirty: true, ..self }
        } else {
            self
        }
    }

    /// The cache after the slot was brought up to date with it.
    pub open spec fn flushed(self) -> Self {
        CacheView { dirty: false, ..self }
    }

    /// A desynchronized cache carries no value and is never dirty.
    pub open spec fn wf(self) -> bool {
        !self.synced ==> (!self.dirty && self.value is None)
    }
}

/// A synchronized cache entry: the cached value and whether it must be
/// written back.
pub struct SyncCacheEntry<T> {
    /// Whether the value differs from what the slot holds.
    dirty: bool,
    /// The cached value, kept on the heap so that it does not move while the
    /// entry is moved.
    cell_val: Box<Option<T>>,
}

impl<T> View for SyncCacheEntry<T> {
    type V = CacheView<T>;

    closed spec fn view(&self) -> CacheView<T> {
        CacheView { synced: true, dirty: self.dirty, value: *self.cell_val }
    }
}

impl<T> SyncCacheEntry<T> {
    /// Creates an entry that holds `val` and is not dirty.
    pub fn new(val: Option<T>) -> (r: Self)
        ensures
            r@ == CacheView::clean(val),
    {
        SyncCacheEntry { dirty: false, cell_val: Box::new(val) }
    }

    /// Replaces the cached value; whether the entry is dirty does not change.
    pub fn update(&mut self, new_val: Option<T>)
        ensures
            final(self)@ == (CacheView { value: new_val, ..old(self)@ }),
    {
        *self.cell_val = new_val;
    }

    /// Returns `true` if the entry must be written back.
    pub fn is_dirty(&self) -> (r: bool)
        ensures
            r == self@.dirty,
    {
        self.dirty
    }

    /// Marks the entry as owed to the slot.
    pub fn mark_dirty(&mut self)
        ensures
            final(self)@ == old(self)@.touched(),
    {
        self.dirty = true;
    }

    /// Marks the entry as agreeing with the slot.
    pub fn mark_clean(&mut self)
        ensures
            final(self)@ == old(self)@.flushed(),
    {
        self.dirty = false;
    }

    /// Returns a reference to the cached value, if there is one.
    pub fn get(&self) -> (r: Option<&T>)
        ensures
            r matches Some(v) ==> self@.value == Some(*v),
            r is None <==> self@.value is None,
    {
        match &*self.cell_val {
            Some(v) => Some(v),
            None => None,
        }
    }

    /// Returns a mutable reference to the cached value, if there is one.
    ///
    /// The entry is marked dirty whether or not the reference is used.
    pub fn get_mut(&mut self) -> (r: Option<&mut T>)
        ensures
            r is None <==> old(self)@.value is None,
            r is None ==> final(self)@ == old(self)@.touched(),
            r matches Some(v) ==> old(self)@.value == Some(*v)
                && final(self)@ == (CacheView { value: Some(*final(v)), ..old(self)@.touched() }),
    {
        self.dirty = true;
        if self.cell_val.is_none() {
            return None;
        }
        match &mut *self.cell_val {
            Some(v) => Some(v),
            None => None,
        }
    }
}

/// A cache entry: either nothing was loaded yet, or the entry holds the
/// synchronized value.
pub enum CacheEntry<T> {
    /// The slot was not loaded yet.
    Desync,
    /// The cache holds a value for the slot.
    Sync(SyncCacheEntry<T>),
}

impl<T> View for CacheEntry<T> {
    type V = CacheView<T>;

    open spec fn view(&self) -> CacheView<T> {
        match self {
            CacheEntry::Desync => CacheView::desync(),
            CacheEntry::Sync(entry) => entry@,
        }
    }
}

impl<T> Default for CacheEntry<T> {
    /// An entry in the desynchronized state.
    fn default() -> (r: Self)
        ensures
            r@ == CacheView::<T>::desync(),
    {
        CacheEntry::Desync
    }
}

impl<T> CacheEntry<T> {
    /// Replaces the cached value; the entry is then in sync and not dirty.
    pub fn update(&mut self, new_val: Option<T>)
        ensures
            final(self)@ == CacheView::clean(new_val),
    {
        match self {
            CacheEntry::Desync => {
                *self = CacheEntry::Sync(SyncCacheEntry::new(new_val));
            },
            CacheEntry::Sync(sync_entry) => {
                sync_entry.update(new_val);
                sync_entry.mark_clean();
            },
        }
    }

    /// Returns `true` if the entry holds a value for the slot.
    pub fn is_synced(&self) -> (r: bool)
        ensures
            r == self@.synced,
    {
        match self {
            CacheEntry::Sync(_) => true,
            CacheEntry::Desync => false,
        }
    }

    /// Returns `true` if the entry must be written back.
    pub fn is_dirty(&self) -> (r: bool)
        ensures
            r == self@.dirty,
    {
        match self {
            CacheEntry::Desync => false,
            CacheEntry::Sync(sync_entry) => sync_entry.is_dirty(),
        }
    }

    /// Marks a synchronized entry as dirty; a desynchronized one is left as
    /// it is.
    pub fn mark_dirty(&mut self)
        ensures
            final(self)@ == old(self)@.touched(),
    {
        match self {
            CacheEntry::Sync(sync_entry) => sync_entry.mark_dirty(),
            CacheEntry::Desync => {},
        }
    }

    /// Marks the entry as agreeing with the slot.
    pub fn mark_clean(&mut self)
        ensures
            final(self)@ == old(self)@.flushed(),
    {
        match self {
            CacheEntry::Sync(sync_entry) => sync_entry.mark_clean(),
            CacheEntry::Desync => {},
        }
    }

    /// Returns a reference to the cached value, if there is one.
    pub fn get(&self) -> (r: Option<&T>)
        requires
            self@.synced,
        ensures
            r matches Some(v) ==> self@.value == Some(*v),
            r is None <==> self@.value is None,
    {
        match self {
            CacheEntry::Sync(sync_entry) => sync_entry.get(),
            CacheEntry::Desync => None,
        }
    }

    /// Returns a mutable reference to the cached value, if there is one, and
    /// marks the entry dirty.
    pub fn get_mut(&mut self) -> (r: Option<&mut T>)
        requires
            old(self)@.synced,
        ensures
            r is None <==> old(self)@.value is None,
            r is None ==> final(self)@ == old(self)@.touched(),
            r matches Some(v) ==> old(self)@.value == Some(*v)
                && final(self)@ == (CacheView { value: Some(*final(v)), ..old(self)@.touched() }),
    {
        match self {
            CacheEntry::Sync(sync_entry) => sync_entry.get_mut(),
            CacheEntry::Desync => None,
        }
    }
}

/// A cache for the value of one storage slot.
pub struct Cache<T> {
    entry: CacheEntry<T>,
}

impl<T> Default for Cache<T> {
    /// A cache that has not loaded its slot.
    fn default() -> (r: Self)
        ensures
            r@ == CacheView::<T>::desync(),
    {
        Cache { entry: CacheEntry::default() }
    }
}

impl<T> View for Cache<T> {
    type V = CacheView<T>;

    closed spec fn view(&self) -> CacheView<T> {
        self.entry@
    }
}

impl<T> Cache<T> {
    /// Every cache is well formed: one that never loaded its slot holds no
    /// value and owes no write.
    pub proof fn lemma_wf(&self)
        ensures
            self@.wf(),
    {
    }

    /// Replaces the cached value; the cache is then in sync and not dirty.
    pub fn update(&mut self, new_val: Option<T>)
        ensures
            final(self)@ == CacheView::clean(new_val),
    {
        self.entry.update(new_val);
    }

    /// Returns `true` if the cache holds a value for the slot.
    pub fn is_synced(&self) -> (r: bool)
        ensures
            r == self@.synced,
    {
        self.entry.is_synced()
    }

    /// Returns `true` if the cache must be written back.
    pub fn is_dirty(&self) -> (r: bool)
        ensures
            r == self@.dirty,
    {
        self.entry.is_dirty()
    }

    /// Marks the cache dirty, if it is in sync.
    pub fn mark_dirty(&mut self)
        ensures
            final(self)@ == old(self)@.touched(),
    {
        self.entry.mark_dirty();
    }

    /// Marks the cache as agreeing with the slot.
    pub fn mark_clean(&mut self)
        ensures
            final(self)@ == old(self)@.flushed(),
    {
        self.entry.mark_clean();
    }

    /// Returns a reference to the cached value, if there is one.
    pub fn get(&self) -> (r: Option<&T>)
        requires
            self@.synced,
        ensures
            r matches Some(v) ==> self@.value == Some(*v),
            r is None <==> self@.value is None,
    {
        self.entry.get()
    }

    /// Returns a mutable reference to the cached value, if there is one, and
    /// marks the cache dirty.
    pub fn get_mut(&mut self) -> (r: Option<&mut T>)
        requires
            old(self)@.synced,
        ensures
            r is None <==> old(self)@.value is None,
            r is None ==> final(self)@ == old(self)@.touched(),
            r matches Some(v) ==> old(self)@.value == Some(*v)
                && final(self)@ == (CacheView { value: Some(*final(v)), ..old(self)@.touched() }),
    {
        self.entry.get_mut()
    }
}

} // verus!
