use sync_cell::cache::{Cache, CacheEntry, SyncCacheEntry};
use sync_cell::key::Key;
use sync_cell::sync_cell::SyncCell;

/// An in-memory storage slot that counts the reads and writes made to it.
struct Slot {
    value: Option<i32>,
    reads: u32,
    writes: u32,
}

impl Slot {
    fn new() -> Self {
        Slot { value: None, reads: 0, writes: 0 }
    }

    fn sync(&mut self, cell: &mut SyncCell<i32>) {
        if cell.needs_load() {
            self.reads += 1;
            cell.load(self.value);
        }
    }

    fn get<'a>(&mut self, cell: &'a mut SyncCell<i32>) -> Option<&'a i32> {
        self.sync(cell);
        cell.get()
    }

    fn get_mut<'a>(&mut self, cell: &'a mut SyncCell<i32>) -> Option<&'a mut i32> {
        self.sync(cell);
        cell.get_mut()
    }

    fn mutate_with<'a, F: FnOnce(&mut i32)>(
        &mut self,
        cell: &'a mut SyncCell<i32>,
        f: F,
    ) -> Option<&'a i32> {
        self.sync(cell);
        cell.mutate_with(f)
    }

    fn flush(&mut self, cell: &mut SyncCell<i32>) {
        match cell.flush() {
            Some(Some(v)) => {
                self.value = Some(*v);
                self.writes += 1;
            }
            Some(None) => {
                self.value = None;
                self.writes += 1;
            }
            None => {}
        }
    }
}

fn dummy_cell() -> SyncCell<i32> {
    SyncCell::from_key(Key([0x0; 32]))
}

#[test]
fn simple() {
    let mut slot = Slot::new();
    let mut cell = dummy_cell();
    assert_eq!(slot.get(&mut cell), None);
    cell.set(5);
    assert_eq!(slot.get(&mut cell), Some(&5));
    assert_eq!(slot.mutate_with(&mut cell, |val| *val += 10), Some(&15));
    assert_eq!(slot.get(&mut cell), Some(&15));
    cell.clear();
    assert_eq!(slot.get(&mut cell), None);
}

#[test]
fn count_rw_get() {
    const N: u32 = 5;
    let mut slot = Slot::new();
    let mut cell = dummy_cell();
    assert_eq!(slot.reads, 0);
    assert_eq!(slot.writes, 0);
    for _i in 0..N {
        slot.get(&mut cell);
        assert_eq!(slot.reads, 1);
        assert_eq!(slot.writes, 0);
    }
    slot.flush(&mut cell);
    assert_eq!(slot.reads, 1);
    assert_eq!(slot.writes, 0);
}

#[test]
fn count_rw_get_mut() {
    const N: u32 = 5;
    let mut slot = Slot::new();
    let mut cell = dummy_cell();
    assert_eq!(slot.reads, 0);
    assert_eq!(slot.writes, 0);
    for _i in 0..N {
        slot.get_mut(&mut cell);
        assert_eq!(slot.reads, 1);
        assert_eq!(slot.writes, 0);
    }
    slot.flush(&mut cell);
    assert_eq!(slot.reads, 1);
    assert_eq!(slot.writes, 1);
}

#[test]
fn count_rw_set() {
    const N: u32 = 5;
    let mut slot = Slot::new();
    let mut cell = dummy_cell();
    assert_eq!(slot.reads, 0);
    assert_eq!(slot.writes, 0);
    for _i in 0..N {
        cell.set(42);
        assert_eq!(slot.reads, 0);
        assert_eq!(slot.writes, 0);
    }
    slot.flush(&mut cell);
    assert_eq!(slot.reads, 0);
    assert_eq!(slot.writes, 1);
}

#[test]
fn count_rw_clear() {
    const N: u32 = 5;
    let mut slot = Slot::new();
    let mut cell = dummy_cell();
    assert_eq!(slot.reads, 0);
    assert_eq!(slot.writes, 0);
    for _i in 0..N {
        cell.clear();
        assert_eq!(slot.reads, 0);
        assert_eq!(slot.writes, 0);
    }
    slot.flush(&mut cell);
    assert_eq!(slot.reads, 0);
    assert_eq!(slot.writes, 1);
}

#[test]
fn set_then_get_reads_nothing() {
    let mut slot = Slot::new();
    slot.value = Some(7);
    let mut cell = dummy_cell();
    cell.set(3);
    assert_eq!(slot.get(&mut cell), Some(&3));
    assert_eq!(slot.reads, 0);
}

#[test]
fn load_returns_stored_value() {
    let mut slot = Slot::new();
    slot.value = Some(9);
    let mut cell = dummy_cell();
    assert!(cell.needs_load());
    assert_eq!(slot.get(&mut cell), Some(&9));
    assert!(!cell.needs_load());
    slot.value = Some(10);
    assert_eq!(slot.get(&mut cell), Some(&9));
    assert_eq!(slot.reads, 1);
}

#[test]
fn load_on_synced_cell_is_ignored() {
    let mut cell = dummy_cell();
    cell.set(1);
    cell.load(Some(2));
    assert_eq!(cell.get(), Some(&1));
}

#[test]
fn flush_twice_writes_once() {
    let mut slot = Slot::new();
    let mut cell = dummy_cell();
    cell.set(4);
    slot.flush(&mut cell);
    assert_eq!(slot.writes, 1);
    assert_eq!(slot.value, Some(4));
    slot.flush(&mut cell);
    assert_eq!(slot.writes, 1);
    assert!(cell.flush().is_none());
}

#[test]
fn flush_hands_out_store_and_erase() {
    let mut cell = dummy_cell();
    cell.set(8);
    assert_eq!(cell.flush(), Some(Some(&8)));
    cell.clear();
    assert_eq!(cell.flush(), Some(None));
    assert_eq!(cell.flush(), None);
}

#[test]
fn mutate_absent_value_still_dirties() {
    let mut slot = Slot::new();
    let mut cell = dummy_cell();
    let mut called = false;
    let r = slot.mutate_with(&mut cell, |v| {
        called = true;
        *v += 1;
    });
    assert_eq!(r, None);
    assert!(!called);
    slot.flush(&mut cell);
    assert_eq!(slot.reads, 1);
    assert_eq!(slot.writes, 1);
    assert_eq!(slot.value, None);
}

#[test]
fn get_mut_writes_back_mutation() {
    let mut slot = Slot::new();
    slot.value = Some(20);
    let mut cell = dummy_cell();
    if let Some(v) = slot.get_mut(&mut cell) {
        *v *= 2;
    }
    slot.flush(&mut cell);
    assert_eq!(slot.value, Some(40));
    assert_eq!(slot.reads, 1);
    assert_eq!(slot.writes, 1);
}

#[test]
fn encode_writes_only_the_key() {
    let mut bytes = [0u8; 32];
    for (i, b) in bytes.iter_mut().enumerate() {
        *b = i as u8;
    }
    let mut cell: SyncCell<i32> = SyncCell::from_key(Key(bytes));
    cell.set(99);
    let encoded = cell.encode();
    assert_eq!(encoded, bytes.to_vec());
}

#[test]
fn decode_gives_unloaded_cell() {
    let mut input: Vec<u8> = (0u8..40).collect();
    input[0] = 0xff;
    let cell: SyncCell<i32> = SyncCell::decode(&input).unwrap();
    assert!(cell.needs_load());
    assert_eq!(cell.key().0[0], 0xff);
    assert_eq!(cell.key().0[31], 31);
    assert_eq!(cell.encode(), input[..32].to_vec());
}

#[test]
fn decode_short_input_fails() {
    let input = [1u8; 31];
    assert!(SyncCell::<i32>::decode(&input).is_none());
    assert!(Key::decode(&[]).is_none());
}

#[test]
fn cache_entry_transitions() {
    let mut entry: CacheEntry<i32> = CacheEntry::default();
    assert!(!entry.is_synced());
    assert!(!entry.is_dirty());
    entry.mark_dirty();
    assert!(!entry.is_dirty());
    entry.update(Some(3));
    assert!(entry.is_synced());
    assert!(!entry.is_dirty());
    assert_eq!(entry.get(), Some(&3));
    if let Some(v) = entry.get_mut() {
        *v = 4;
    }
    assert!(entry.is_dirty());
    assert_eq!(entry.get(), Some(&4));
    entry.update(None);
    assert!(!entry.is_dirty());
    assert_eq!(entry.get(), None);
    entry.mark_dirty();
    entry.mark_clean();
    assert!(!entry.is_dirty());
}

#[test]
fn sync_entry_update_keeps_dirty() {
    let mut entry = SyncCacheEntry::new(Some(1));
    assert!(!entry.is_dirty());
    entry.mark_dirty();
    entry.update(Some(2));
    assert!(entry.is_dirty());
    assert_eq!(entry.get(), Some(&2));
    entry.mark_clean();
    assert!(!entry.is_dirty());
    assert_eq!(entry.get_mut(), Some(&mut 2));
    assert!(entry.is_dirty());
}

#[test]
fn cache_transitions() {
    let mut cache: Cache<i32> = Cache::default();
    assert!(!cache.is_synced());
    cache.update(None);
    assert!(cache.is_synced());
    assert_eq!(cache.get(), None);
    assert_eq!(cache.get_mut(), None);
    assert!(cache.is_dirty());
    cache.mark_clean();
    assert!(!cache.is_dirty());
    cache.update(Some(6));
    cache.mark_dirty();
    assert!(cache.is_dirty());
    assert_eq!(cache.get(), Some(&6));
}
