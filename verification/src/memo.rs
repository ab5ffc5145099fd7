//! The forwarding table of one deep clone operation.
//!
//! Every source object is identified by the pair of its pointee's `TypeId` and its address.
//! The table maps that identity to a record of the copy: `InProgress` while the copy's
//! allocation is reserved but its pointee is still being built (the record holds the weak
//! shell a back-edge may point at), and `Done` once the copy exists (the record holds a strong
//! handle that keeps it alive for the rest of the operation).
//!
//! The handles themselves are type-erased by the caller, so the table is generic over the
//! handle type `H` and never looks inside one.

use std::any::TypeId;
use rustc_hash::{FxBuildHasher, FxHashMap};
use std::collections::HashMap;
use vstd::prelude::*;

verus! {

/// std's `TypeId`, carried opaquely: nothing is claimed of it beyond being a value that keys
/// compare by.
#[verifier::external_type_specification]
#[verifier::external_body]
pub struct ExTypeId(TypeId);

/// rustc-hash's `FxBuildHasher`, the hasher of `FxHashMap`, carried opaquely.
#[verifier::external_type_specification]
#[verifier::external_body]
pub struct ExFxBuildHasher(FxBuildHasher);

/// The identity of a source object: its pointee's `TypeId` and its address.
pub type SourceKey = (TypeId, usize);

/// Source identity to the position of its record.
pub type SourceIndex = FxHashMap<SourceKey, usize>;

/// What the table knows about the copy of one source object.
pub enum Record<H> {
    /// The copy's allocation is reserved and its pointee is being built; `H` is a weak handle
    /// to that allocation, all a back-edge needs.
    InProgress(H),
    /// The copy is finished; `H` holds it strongly.
    Done(H),
}

impl<H> Record<H> {
    /// The handle a record holds, whichever its phase.
    pub open spec fn handle(self) -> H {
        match self {
            Record::InProgress(h) => h,
            Record::Done(h) => h,
        }
    }
}

/// What reaching a source through a strong pointer must do.
pub enum StrongStep<T> {
    /// The source was copied already: hand out another strong pointer to that copy.
    Reuse(T),
    /// The source's copy is still being built, so it is reachable from itself through strong
    /// edges only: a cycle, which cannot be copied.
    Cycle,
    /// The source has not been reached yet: build its copy.
    Build,
}

/// What reaching a source through a weak pointer must do.
pub enum WeakStep<T> {
    /// The copy is finished: downgrade the strong handle the table holds.
    Downgrade(T),
    /// The copy is under construction: clone the weak shell the table holds.
    Shell(T),
    /// The source has not been reached yet: copy it as a strong pointer would, then downgrade.
    ThroughStrong,
}

/// The strong step the table prescribes for `key`.
pub open spec fn strong_step_of<H>(memo: Map<SourceKey, Record<H>>, key: SourceKey) -> StrongStep<H> {
    if !memo.contains_key(key) {
        StrongStep::Build
    } else {
        match memo[key] {
            Record::Done(copy) => StrongStep::Reuse(copy),
            Record::InProgress(_) => StrongStep::Cycle,
        }
    }
}

/// The weak step the table prescribes for `key`.
pub open spec fn weak_step_of<H>(memo: Map<SourceKey, Record<H>>, key: SourceKey) -> WeakStep<H> {
    if !memo.contains_key(key) {
        WeakStep::ThroughStrong
    } else {
        match memo[key] {
            Record::Done(copy) => WeakStep::Downgrade(copy),
            Record::InProgress(shell) => WeakStep::Shell(shell),
        }
    }
}

/// A strong step that borrows its handle, read as the step on the handle itself.
pub open spec fn strong_step_deref<'a, H>(step: StrongStep<&'a H>) -> StrongStep<H> {
    match step {
        StrongStep::Reuse(h) => StrongStep::Reuse(*h),
        StrongStep::Cycle => StrongStep::Cycle,
        StrongStep::Build => StrongStep::Build,
    }
}

/// A weak step that borrows its handle, read as the step on the handle itself.
pub open spec fn weak_step_deref<'a, H>(step: WeakStep<&'a H>) -> WeakStep<H> {
    match step {
        WeakStep::Downgrade(h) => WeakStep::Downgrade(*h),
        WeakStep::Shell(h) => WeakStep::Shell(*h),
        WeakStep::ThroughStrong => WeakStep::ThroughStrong,
    }
}

/// The keys of an `FxHashMap` from source identities to record positions, and the position
/// each one maps to.
pub uninterp spec fn index_entries(m: SourceIndex) -> Map<SourceKey, usize>;

/// `FxHashMap::default()` (std's `HashMap::default` with rustc-hash's `FxBuildHasher`): a map
/// with no entries.
#[verifier::external_body]
fn index_new() -> (m: SourceIndex)
    ensures
        index_entries(m).dom() == Set::<SourceKey>::empty(),
{
    FxHashMap::default()
}

/// `HashMap::get` on an `FxHashMap`: the value stored under `key`, if any.
#[verifier::external_body]
fn index_get(m: &SourceIndex, key: &SourceKey) -> (r: Option<usize>)
    ensures
        r == (if index_entries(*m).contains_key(*key) {
            Some(index_entries(*m)[*key])
        } else {
            None::<usize>
        }),
{
    m.get(key).copied()
}

/// `HashMap::insert` on an `FxHashMap`: afterwards `key` maps to `value`, and every other key
/// to what it mapped to before. The returned old value is dropped.
#[verifier::external_body]
fn index_insert(m: &mut SourceIndex, key: SourceKey, value: usize)
    ensures
        index_entries(*final(m)) == index_entries(*old(m)).insert(key, value),
{
    let _ = m.insert(key, value);
}

/// The storage behind a `Cloner`: an index from source identity to record position, and the
/// records.
struct Table<H> {
    /// Source identity to the position of its record in `records`.
    index: SourceIndex,
    /// The records, in the order their sources were first reached.
    records: Vec<Record<H>>,
}

impl<H> View for Table<H> {
    type V = Map<SourceKey, Record<H>>;

    closed spec fn view(&self) -> Map<SourceKey, Record<H>> {
        Map::new(
            |key: SourceKey| index_entries(self.index).contains_key(key),
            |key: SourceKey| self.records@[index_entries(self.index)[key] as int],
        )
    }
}

impl<H> Table<H> {
    /// The table's internal consistency: every key points at its own record, and there is
    /// exactly one record per key.
    closed spec fn wf(&self) -> bool {
        let idx = index_entries(self.index);
        &&& idx.dom().finite()
        &&& idx.dom().len() == self.records@.len()
        &&& forall|key: SourceKey| #[trigger] idx.contains_key(key) ==> idx[key] < self.records@.len()
        &&& forall|k1: SourceKey, k2: SourceKey|
            #[trigger] idx.contains_key(k1) && #[trigger] idx.contains_key(k2) && k1 != k2
                ==> idx[k1] != idx[k2]
    }

    /// An empty table, for a new clone operation.
    fn new() -> (cloner: Self)
        ensures
            cloner.wf(),
            cloner@.dom() == Set::<SourceKey>::empty(),
    {
        let cloner = Table { index: index_new(), records: Vec::new() };
        assert(cloner@.dom() =~= Set::<SourceKey>::empty());
        cloner
    }

    /// The record of `key`'s copy, if its source has been reached.
    fn lookup(&self, key: &SourceKey) -> (r: Option<&Record<H>>)
        requires
            self.wf(),
        ensures
            match r {
                Some(record) => self@.contains_key(*key) && self@[*key] == *record,
                None => !self@.contains_key(*key),
            },
    {
        match index_get(&self.index, key) {
            Some(slot) => Some(&self.records[slot]),
            None => None,
        }
    }

    /// Record `record` for `key`, replacing whatever was recorded for it before.
    fn insert(&mut self, key: SourceKey, record: Record<H>)
        requires
            old(self).wf(),
        ensures
            final(self).wf(),
            final(self)@ == old(self)@.insert(key, record),
    {
        let ghost old_idx = index_entries(self.index);
        let ghost old_records = self.records@;
        match index_get(&self.index, &key) {
            Some(slot) => {
                self.records.set(slot, record);
                proof {
                    assert(index_entries(self.index) == old_idx);
                    assert forall|k: SourceKey| #[trigger] old_idx.contains_key(k) && k != key
                        implies self.records@[old_idx[k] as int] == old_records[old_idx[k] as int] by {
                        assert(old_idx[k] != old_idx[key]);
                    }
                }
            },
            None => {
                let slot = self.records.len();
                self.records.push(record);
                index_insert(&mut self.index, key, slot);
                proof {
                    let idx = index_entries(self.index);
                    assert(idx == old_idx.insert(key, slot));
                    assert(idx.dom() == old_idx.dom().insert(key));
                    assert forall|k: SourceKey| #[trigger] idx.contains_key(k) implies idx[k] < self.records@.len() by {
                        if k != key {
                            assert(old_idx.contains_key(k));
                        }
                    }
                    assert forall|k1: SourceKey, k2: SourceKey|
                        #[trigger] idx.contains_key(k1) && #[trigger] idx.contains_key(k2) && k1 != k2
                        implies idx[k1] != idx[k2] by {
                        if k1 != key && k2 != key {
                            assert(old_idx.contains_key(k1) && old_idx.contains_key(k2));
                        } else if k1 == key {
                            assert(old_idx.contains_key(k2));
                        } else {
                            assert(old_idx.contains_key(k1));
                        }
                    }
                    assert forall|k: SourceKey| #[trigger] old_idx.contains_key(k)
                        implies self.records@[old_idx[k] as int] == old_records[old_idx[k] as int] by {
                    }
                }
            },
        }
        assert(self@ =~= old(self)@.insert(key, record));
    }

    /// How many source objects have been reached, which is how many copies exist or are
    /// under construction.
    fn copies(&self) -> (n: usize)
        requires
            self.wf(),
        ensures
            n == self@.len(),
    {
        assert(self@.dom() =~= index_entries(self.index).dom());
        self.records.len()
    }

}

/// The forwarding table for one deep clone operation, mapping each source object's identity
/// to the record of its copy.
///
/// One `Cloner` is one clone operation. Reusing one for an unrelated clone makes the two
/// copies share objects.
pub struct Cloner<H> {
    table: Table<H>,
}

impl<H> View for Cloner<H> {
    type V = Map<SourceKey, Record<H>>;

    closed spec fn view(&self) -> Map<SourceKey, Record<H>> {
        self.table@
    }
}

impl<H> Cloner<H> {
    /// Every key points at its own record, and there is exactly one record per key.
    #[verifier::type_invariant]
    closed spec fn consistent(self) -> bool {
        self.table.wf()
    }

    /// An empty table, for a new clone operation.
    pub fn new() -> (cloner: Self)
        ensures
            cloner@.dom() == Set::<SourceKey>::empty(),
    {
        Cloner { table: Table::new() }
    }

    /// The record of `key`'s copy, if its source has been reached.
    pub fn lookup(&self, key: &SourceKey) -> (r: Option<&Record<H>>)
        ensures
            match r {
                Some(record) => self@.contains_key(*key) && self@[*key] == *record,
                None => !self@.contains_key(*key),
            },
    {
        proof { use_type_invariant(self); }
        self.table.lookup(key)
    }

    /// Record `record` for `key`, replacing whatever was recorded for it before.
    pub fn insert(&mut self, key: SourceKey, record: Record<H>)
        ensures
            final(self)@ == old(self)@.insert(key, record),
    {
        proof { use_type_invariant(&*self); }
        let mut table = Table::new();
        std::mem::swap(&mut table, &mut self.table);
        table.insert(key, record);
        self.table = table;
    }

    /// How many source objects have been reached, which is how many copies exist or are
    /// under construction.
    pub fn copies(&self) -> (n: usize)
        ensures
            n == self@.len(),
    {
        proof { use_type_invariant(self); }
        self.table.copies()
    }

    /// What reaching `key`'s source through a strong pointer must do.
    pub fn strong_step(&self, key: &SourceKey) -> (step: StrongStep<&H>)
        ensures
            strong_step_deref(step) == strong_step_of(self@, *key),
    {
        match self.lookup(key) {
            Some(record) => match record {
                Record::Done(_) => StrongStep::Reuse(stored(record)),
                Record::InProgress(_) => StrongStep::Cycle,
            },
            None => StrongStep::Build,
        }
    }

    /// What reaching `key`'s source through a weak pointer must do.
    pub fn weak_step(&self, key: &SourceKey) -> (step: WeakStep<&H>)
        ensures
            weak_step_deref(step) == weak_step_of(self@, *key),
    {
        match self.lookup(key) {
            Some(record) => match record {
                Record::Done(_) => WeakStep::Downgrade(stored(record)),
                Record::InProgress(_) => WeakStep::Shell(stored(record)),
            },
            None => WeakStep::ThroughStrong,
        }
    }
}

impl<H> Default for Cloner<H> {
    fn default() -> (cloner: Self)
        ensures
            cloner@.dom() == Set::<SourceKey>::empty(),
    {
        Cloner::new()
    }
}

/// Read the handle back out of a record, whichever its phase.
pub fn stored<H>(record: &Record<H>) -> (handle: &H)
    ensures
        *handle == record.handle(),
{
    match record {
        Record::InProgress(h) => h,
        Record::Done(h) => h,
    }
}

/// A source reached a second time is not copied again: once its copy is recorded, every later
/// strong edge to it reuses that copy, and every later weak edge downgrades that same copy.
pub proof fn reached_twice_copied_once<H>(memo: Map<SourceKey, Record<H>>, key: SourceKey, copy: H)
    ensures
        strong_step_of(memo.insert(key, Record::Done(copy)), key) == StrongStep::Reuse(copy),
        weak_step_of(memo.insert(key, Record::Done(copy)), key) == WeakStep::Downgrade(copy),
{
}

/// While a source's copy is under construction, a strong edge back to it is a cycle of strong
/// edges, and a weak edge back to it resolves to the very allocation being built.
pub proof fn back_edges_during_construction<H>(memo: Map<SourceKey, Record<H>>, key: SourceKey, shell: H)
    ensures
        strong_step_of(memo.insert(key, Record::InProgress(shell)), key) == StrongStep::<H>::Cycle,
        weak_step_of(memo.insert(key, Record::InProgress(shell)), key) == WeakStep::Shell(shell),
{
}

/// A fresh table has reached nothing, so the first edge to any source builds a new copy: one
/// clone operation never hands out a copy made by another.
pub proof fn fresh_table_builds<H>(memo: Map<SourceKey, Record<H>>, key: SourceKey)
    requires
        memo.dom() == Set::<SourceKey>::empty(),
    ensures
        strong_step_of(memo, key) == StrongStep::<H>::Build,
        weak_step_of(memo, key) == WeakStep::<H>::ThroughStrong,
{
    assert(!memo.dom().contains(key));
}

/// Recording the copy of one source leaves what every other source's edges do unchanged.
pub proof fn other_sources_untouched<H>(memo: Map<SourceKey, Record<H>>, key: SourceKey, record: Record<H>, other: SourceKey)
    requires
        other != key,
    ensures
        strong_step_of(memo.insert(key, record), other) == strong_step_of(memo, other),
        weak_step_of(memo.insert(key, record), other) == weak_step_of(memo, other),
{
}

/// A weak edge reaching a source first copies it exactly when a strong edge would build it,
/// so the order in which a source's strong and weak edges are reached does not change which
/// copy they end up at.
pub proof fn weak_first_builds_like_strong<H>(memo: Map<SourceKey, Record<H>>, key: SourceKey)
    ensures
        (weak_step_of(memo, key) == WeakStep::<H>::ThroughStrong) <==> (strong_step_of(memo, key) == StrongStep::<H>::Build),
{
}

/// Each source object gets one copy: building the copy of a source not reached before adds
/// exactly one record, and recording a source again (its copy finished) adds none.
pub proof fn one_record_per_source<H>(memo: Map<SourceKey, Record<H>>, key: SourceKey, shell: H, copy: H)
    requires
        memo.dom().finite(),
    ensures
        !memo.contains_key(key) ==> memo.insert(key, Record::InProgress(shell)).insert(key, Record::Done(copy)).len() == memo.len() + 1,
        memo.contains_key(key) ==> memo.insert(key, Record::Done(copy)).len() == memo.len(),
{
    if !memo.contains_key(key) {
        assert(memo.insert(key, Record::InProgress(shell)).insert(key, Record::Done(copy)).dom() =~= memo.dom().insert(key));
    } else {
        assert(memo.insert(key, Record::Done(copy)).dom() =~= memo.dom());
    }
}

/// The table after recording each of `records` in turn, as `Cloner::insert` does.
pub open spec fn record_all<H>(memo: Map<SourceKey, Record<H>>, records: Seq<(SourceKey, Record<H>)>) -> Map<SourceKey, Record<H>>
    decreases records.len(),
{
    if records.len() == 0 {
        memo
    } else {
        record_all(memo.insert(records[0].0, records[0].1), records.drop_first())
    }
}

/// Recording entries for other sources leaves `key`'s entry as it was.
proof fn record_all_keeps_other<H>(memo: Map<SourceKey, Record<H>>, records: Seq<(SourceKey, Record<H>)>, key: SourceKey)
    requires
        forall|i: int| 0 <= i < records.len() ==> (#[trigger] records[i]).0 != key,
    ensures
        record_all(memo, records).contains_key(key) == memo.contains_key(key),
        memo.contains_key(key) ==> record_all(memo, records)[key] == memo[key],
    decreases records.len(),
{
    if records.len() > 0 {
        let rest = records.drop_first();
        assert forall|i: int| 0 <= i < rest.len() implies (#[trigger] rest[i]).0 != key by {
            assert(rest[i] == records[i + 1]);
        }
        assert(records[0].0 != key);
        record_all_keeps_other(memo.insert(records[0].0, records[0].1), rest, key);
    }
}

/// Building one copy: its source is marked in progress with the shell, the pointee is copied
/// (recording any number of other sources on the way), and the finished copy is recorded.
/// Every edge back to the source reached while its pointee is copied sees the shell (weak) or a
/// strong cycle, and every edge reached afterwards sees the finished copy.
pub proof fn building_a_copy<H>(
    memo: Map<SourceKey, Record<H>>,
    key: SourceKey,
    shell: H,
    inner: Seq<(SourceKey, Record<H>)>,
    copy: H,
)
    requires
        forall|i: int| 0 <= i < inner.len() ==> (#[trigger] inner[i]).0 != key,
    ensures
        forall|n: int| 0 <= n <= inner.len() ==> {
            &&& strong_step_of(#[trigger] record_all(memo.insert(key, Record::InProgress(shell)), inner.take(n)), key) == StrongStep::<H>::Cycle
            &&& weak_step_of(record_all(memo.insert(key, Record::InProgress(shell)), inner.take(n)), key) == WeakStep::Shell(shell)
        },
        strong_step_of(record_all(memo.insert(key, Record::InProgress(shell)), inner).insert(key, Record::Done(copy)), key) == StrongStep::Reuse(copy),
        weak_step_of(record_all(memo.insert(key, Record::InProgress(shell)), inner).insert(key, Record::Done(copy)), key) == WeakStep::Downgrade(copy),
{
    let started = memo.insert(key, Record::InProgress(shell));
    assert forall|n: int| 0 <= n <= inner.len() implies {
        &&& strong_step_of(#[trigger] record_all(started, inner.take(n)), key) == StrongStep::<H>::Cycle
        &&& weak_step_of(record_all(started, inner.take(n)), key) == WeakStep::Shell(shell)
    } by {
        let prefix = inner.take(n);
        assert forall|i: int| 0 <= i < prefix.len() implies (#[trigger] prefix[i]).0 != key by {
            assert(prefix[i] == inner[i]);
        }
        record_all_keeps_other(started, prefix, key);
    }
    reached_twice_copied_once(record_all(started, inner), key, copy);
}

} // verus!
