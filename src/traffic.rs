use vstd::prelude::*;

use crate::cache::CacheView;

verus! {

/// An operation on a cell, as far as the storage traffic it causes goes.
///
/// `Get` and `GetMut` carry what the slot holds: what a load would yield if
/// one is needed. A `GetMut` is taken as `needs_load`, `load` when needed,
/// then `get_mut` (or `mutate_with`), and a `Get` the same with `get`.
pub enum Op<T> {
    Get(Option<T>),
    GetMut(Option<T>),
    Put(T),
    Clear,
    Flush,
}

impl<T> Op<T> {
    /// The number of reads of the slot that the operation causes on a cell in
    /// state `s`: one for a reading operation on a cell that is not loaded.
    pub open spec fn reads(self, s: CacheView<T>) -> nat {
        match self {
            Op::Get(_) | Op::GetMut(_) => if s.synced { 0 } else { 1 },
            _ => 0,
        }
    }

    /// The number of writes to the slot that the operation causes on a cell
    /// in state `s`: one for a flush of a dirty cell.
    pub open spec fn writes(self, s: CacheView<T>) -> nat {
        match self {
            Op::Flush => if s.dirty { 1 } else { 0 },
            _ => 0,
        }
    }

    /// The state of the cell after the operation; after a `GetMut`, as it
    /// stands when the handed-out reference is not written through.
    pub open spec fn apply(self, s: CacheView<T>) -> CacheView<T> {
        match self {
            Op::Get(stored) => s.loaded(stored),
            Op::GetMut(stored) => s.loaded(stored).touched(),
            Op::Put(v) => CacheView::written(Some(v)),
            Op::Clear => CacheView::written(None),
            Op::Flush => s.flushed(),
        }
    }
}

/// The number of reads of the slot that `ops`, run in order on a cell in
/// state `s`, cause.
pub open spec fn reads_of<T>(s: CacheView<T>, ops: Seq<Op<T>>) -> nat
    decreases ops.len(),
{
    if ops.len() == 0 {
        0
    } else {
        ops[0].reads(s) + reads_of(ops[0].apply(s), ops.drop_first())
    }
}

/// The number of writes to the slot that `ops`, run in order on a cell in
/// state `s`, cause.
pub open spec fn writes_of<T>(s: CacheView<T>, ops: Seq<Op<T>>) -> nat
    decreases ops.len(),
{
    if ops.len() == 0 {
        0
    } else {
        ops[0].writes(s) + writes_of(ops[0].apply(s), ops.drop_first())
    }
}

/// Reading operations only.
pub open spec fn all_reading<T>(ops: Seq<Op<T>>) -> bool {
    forall|i: int| 0 <= i < ops.len() ==> (#[trigger] ops[i] is Get || ops[i] is GetMut)
}

/// Operations that write the cell, never the slot, and end with a flush.
pub open spec fn changes_then_flush<T>(ops: Seq<Op<T>>) -> bool {
    &&& ops.len() >= 1
    &&& ops.last() is Flush
    &&& forall|i: int|
        0 <= i < ops.len() - 1 ==> (#[trigger] ops[i] is GetMut || ops[i] is Put || ops[i] is Clear)
}

/// On a loaded cell, reading operations touch the slot not at all.
proof fn lemma_reading_when_loaded<T>(s: CacheView<T>, ops: Seq<Op<T>>)
    requires
        s.synced,
        all_reading(ops),
    ensures
        reads_of(s, ops) == 0,
        writes_of(s, ops) == 0,
    decreases ops.len(),
{
    if ops.len() > 0 {
        assert(ops[0] is Get || ops[0] is GetMut);
        assert(all_reading(ops.drop_first())) by {
            assert forall|i: int| 0 <= i < ops.drop_first().len() implies
                (#[trigger] ops.drop_first()[i] is Get || ops.drop_first()[i] is GetMut) by {
                assert(ops.drop_first()[i] == ops[i + 1]);
            }
        }
        lemma_reading_when_loaded(ops[0].apply(s), ops.drop_first());
    }
}

/// On a loaded, dirty cell, changes followed by a flush read nothing and
/// write once.
proof fn lemma_dirty_then_flush<T>(s: CacheView<T>, ops: Seq<Op<T>>)
    requires
        s.synced,
        s.dirty,
        changes_then_flush(ops),
    ensures
        reads_of(s, ops) == 0,
        writes_of(s, ops) == 1,
    decreases ops.len(),
{
    if ops.len() == 1 {
        assert(ops[0] == ops.last());
        let rest = ops.drop_first();
        assert(rest.len() == 0);
        assert(reads_of(ops[0].apply(s), rest) == 0);
        assert(writes_of(ops[0].apply(s), rest) == 0);
    } else {
        assert(ops[0] is GetMut || ops[0] is Put || ops[0] is Clear);
        let rest = ops.drop_first();
        assert(rest.last() == ops.last());
        assert(changes_then_flush(rest)) by {
            assert forall|i: int| 0 <= i < rest.len() - 1 implies
                (#[trigger] rest[i] is GetMut || rest[i] is Put || rest[i] is Clear) by {
                assert(rest[i] == ops[i + 1]);
            }
        }
        lemma_dirty_then_flush(ops[0].apply(s), rest);
    }
}

/// A cell that was never loaded is read once, whatever number of reading
/// operations follow, and never written by them.
pub proof fn lemma_load_once<T>(ops: Seq<Op<T>>)
    requires
        ops.len() >= 1,
        all_reading(ops),
    ensures
        reads_of(CacheView::desync(), ops) == 1,
        writes_of(CacheView::desync(), ops) == 0,
{
    let s = CacheView::<T>::desync();
    assert(ops[0] is Get || ops[0] is GetMut);
    assert(all_reading(ops.drop_first())) by {
        assert forall|i: int| 0 <= i < ops.drop_first().len() implies
            (#[trigger] ops.drop_first()[i] is Get || ops.drop_first()[i] is GetMut) by {
            assert(ops.drop_first()[i] == ops[i + 1]);
        }
    }
    lemma_reading_when_loaded(ops[0].apply(s), ops.drop_first());
}

/// Setting a value any number of times and then flushing, from any state,
/// reads the slot not at all and writes it once.
pub proof fn lemma_sets_write_once<T>(ops: Seq<Op<T>>, s: CacheView<T>)
    requires
        ops.len() >= 2,
        ops.last() is Flush,
        forall|i: int| 0 <= i < ops.len() - 1 ==> #[trigger] ops[i] is Put,
    ensures
        reads_of(s, ops) == 0,
        writes_of(s, ops) == 1,
{
    assert(ops[0] is Put);
    lemma_changes_write_once(ops, s);
}

/// Clearing the cell any number of times and then flushing, from any state,
/// reads the slot not at all and writes (erases) it once.
pub proof fn lemma_clears_write_once<T>(ops: Seq<Op<T>>, s: CacheView<T>)
    requires
        ops.len() >= 2,
        ops.last() is Flush,
        forall|i: int| 0 <= i < ops.len() - 1 ==> #[trigger] ops[i] is Clear,
    ensures
        reads_of(s, ops) == 0,
        writes_of(s, ops) == 1,
{
    assert(ops[0] is Clear);
    lemma_changes_write_once(ops, s);
}

/// Writes of the cell, starting with a `Put` or `Clear` and ending with one
/// flush, read nothing and write the slot once.
proof fn lemma_changes_write_once<T>(ops: Seq<Op<T>>, s: CacheView<T>)
    requires
        ops.len() >= 2,
        ops[0] is Put || ops[0] is Clear,
        changes_then_flush(ops),
    ensures
        reads_of(s, ops) == 0,
        writes_of(s, ops) == 1,
{
    let rest = ops.drop_first();
    assert(rest.last() == ops.last());
    assert(changes_then_flush(rest)) by {
        assert forall|i: int| 0 <= i < rest.len() - 1 implies
            (#[trigger] rest[i] is GetMut || rest[i] is Put || rest[i] is Clear) by {
            assert(rest[i] == ops[i + 1]);
        }
    }
    lemma_dirty_then_flush(ops[0].apply(s), rest);
}

/// Any number of mutable reads of a cell that was never loaded, then one
/// flush, read the slot once and write it once.
pub proof fn lemma_get_mut_read_once_write_once<T>(ops: Seq<Op<T>>)
    requires
        ops.len() >= 2,
        ops.last() is Flush,
        forall|i: int| 0 <= i < ops.len() - 1 ==> #[trigger] ops[i] is GetMut,
    ensures
        reads_of(CacheView::desync(), ops) == 1,
        writes_of(CacheView::desync(), ops) == 1,
{
    let s = CacheView::<T>::desync();
    assert(ops[0] is GetMut);
    let rest = ops.drop_first();
    assert(rest.last() == ops.last());
    assert(changes_then_flush(rest)) by {
        assert forall|i: int| 0 <= i < rest.len() - 1 implies
            (#[trigger] rest[i] is GetMut || rest[i] is Put || rest[i] is Clear) by {
            assert(rest[i] == ops[i + 1]);
        }
    }
    lemma_dirty_then_flush(ops[0].apply(s), rest);
}

/// A second flush right after a first one writes nothing.
pub proof fn lemma_flush_idempotent<T>(s: CacheView<T>)
    ensures
        Op::<T>::Flush.writes(Op::<T>::Flush.apply(s)) == 0,
        Op::<T>::Flush.apply(Op::<T>::Flush.apply(s)) == Op::<T>::Flush.apply(s),
        writes_of(s, seq![Op::Flush, Op::Flush]) == writes_of(s, seq![Op::Flush]),
{
    let two = seq![Op::<T>::Flush, Op::Flush];
    let one = seq![Op::<T>::Flush];
    assert(two.drop_first() =~= one);
    assert(one.drop_first() =~= Seq::<Op<T>>::empty());
    let s1 = Op::<T>::Flush.apply(s);
    assert(writes_of(s1, one) == 0) by {
        assert(writes_of(Op::<T>::Flush.apply(s1), Seq::<Op<T>>::empty()) == 0);
    }
}

/// After `set(v)` the cell reads back `v` without a load, whatever the slot
/// holds.
pub proof fn lemma_set_then_get<T>(s: CacheView<T>, v: T, stored: Option<T>)
    ensures
        Op::Put(v).apply(s).synced,
        Op::Get(stored).reads(Op::Put(v).apply(s)) == 0,
        Op::Get(stored).apply(Op::Put(v).apply(s)).value == Some(v),
{
}

/// A mutable read of a loaded cell that holds no value still leaves it dirty,
/// so that the next flush writes (erases) the slot once.
pub proof fn lemma_absent_mutation_dirties<T>(s: CacheView<T>, stored: Option<T>)
    requires
        s.synced,
        s.value is None,
    ensures
        Op::GetMut(stored).apply(s).dirty,
        Op::GetMut(stored).apply(s).value is None,
        Op::<T>::Flush.writes(Op::GetMut(stored).apply(s)) == 1,
{
}

} // verus!
