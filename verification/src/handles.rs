//! Generational handle table.
//!
//! A [`HandleTable`] maps opaque 64-bit wire [`Handle`]s to server-side
//! resources of type `T`. Each storage slot tracks a *generation* counter that
//! is bumped every time the slot is freed. A handle carries the generation that
//! was current when it was issued, so a stale handle pointing at a slot that
//! has since been reused no longer matches and is rejected: this is the
//! use-after-free defense.
//!
//! When a slot's generation would exceed [`Handle::GENERATION_MAX`] it is
//! *retired*: its value is cleared but the slot is never added back to the
//! free-list, so the generation can never wrap around to a value that an old,
//! still-circulating handle holds.
use vstd::prelude::*;

use crate::protocol::bytes;
use crate::protocol::Handle;
use crate::text;

verus! {

broadcast use crate::protocol::handle::group_handle_raw;

/// Errors that can arise when operating on a [`HandleTable`].
///
/// The primary `get`/`get_mut`/`remove` accessors use an `Option` API, but this
/// enum is provided for callers that want to distinguish *why* a handle failed
/// to resolve.
#[derive(Debug, Clone, Copy, PartialEq, Eq, Structural)]
pub enum HandleError {
    /// The slot index encoded in the handle is outside the table.
    SlotOutOfRange(u32),
    /// The slot is empty (the value was removed).
    EmptySlot(u32),
    /// The handle's generation does not match the slot's current generation,
    /// indicating a stale handle (use-after-free).
    GenerationMismatch {
        /// The slot index.
        slot: u32,
        /// The generation carried by the (stale) handle.
        handle: u32,
        /// The generation currently held by the slot.
        current: u32,
    },
}

impl HandleError {
    /// The error in words.
    pub open spec fn text(&self) -> Seq<char> {
        match *self {
            HandleError::SlotOutOfRange(slot) => "handle slot index "@ + text::dec(slot as nat)
                + " is out of range"@,
            HandleError::EmptySlot(slot) => "handle slot "@ + text::dec(slot as nat) + " is empty"@,
            HandleError::GenerationMismatch { slot, handle, current } => "handle slot "@
                + text::dec(slot as nat) + " generation mismatch: handle="@ + text::dec(
                handle as nat,
            ) + ", slot="@ + text::dec(current as nat),
        }
    }

    /// Say the error in words.
    pub fn message(&self) -> (out: String)
        ensures
            out@ == self.text(),
    {
        let mut out = String::new();
        match self {
            HandleError::SlotOutOfRange(slot) => {
                out.append("handle slot index ");
                text::push_dec(&mut out, *slot as u64);
                out.append(" is out of range");
            },
            HandleError::EmptySlot(slot) => {
                out.append("handle slot ");
                text::push_dec(&mut out, *slot as u64);
                out.append(" is empty");
            },
            HandleError::GenerationMismatch { slot, handle, current } => {
                out.append("handle slot ");
                text::push_dec(&mut out, *slot as u64);
                out.append(" generation mismatch: handle=");
                text::push_dec(&mut out, *handle as u64);
                out.append(", slot=");
                text::push_dec(&mut out, *current as u64);
            },
        }
        assert(out@ =~= self.text());
        out
    }
}

/// A single storage slot in the table.
struct Slot<T> {
    /// The generation currently associated with this slot. A handle resolves
    /// only if it carries this exact value.
    generation: u32,
    /// The stored value, or `None` if the slot is free or retired.
    value: Option<T>,
    /// Once `true`, the slot's generation has been exhausted and it is never
    /// reused (kept out of the free-list).
    retired: bool,
}

/// What a slot holds.
pub ghost struct SlotState<T> {
    /// The generation that a handle must carry to resolve to the slot.
    pub generation: u32,
    /// The stored value, or `None` if the slot is free or retired.
    pub value: Option<T>,
    /// Whether the slot's generation has been exhausted.
    pub retired: bool,
}

/// What a table holds: its slots, and the indices of those that are to be
/// reused, the next one last.
#[verifier::ext_equal]
pub ghost struct TableState<T> {
    /// The slots, by index.
    pub slots: Seq<SlotState<T>>,
    /// The indices of the free slots.
    pub free: Seq<u32>,
}

/// How many of `slots` are occupied.
pub open spec fn count_live<T>(slots: Seq<SlotState<T>>) -> nat
    decreases slots.len(),
{
    if slots.len() == 0 {
        0
    } else {
        count_live(slots.drop_last()) + if slots.last().value is Some {
            1nat
        } else {
            0nat
        }
    }
}

impl<T> TableState<T> {
    /// The table without slots.
    pub open spec fn empty() -> Self {
        TableState { slots: seq![], free: seq![] }
    }

    /// Whether index `i` is on the free-list.
    pub open spec fn is_free(self, i: int) -> bool {
        exists|k: int| 0 <= k < self.free.len() && #[trigger] self.free[k] == i
    }

    /// What every table keeps: the free-list names empty, unretired slots, each
    /// once; generations fit their field; a retired slot is empty and has used
    /// up its generations; an empty slot below 2^32 is retired or free.
    pub open spec fn inv(self) -> bool {
        &&& forall|k: int|
            0 <= k < self.free.len() ==> {
                &&& (#[trigger] self.free[k]) < self.slots.len()
                &&& self.slots[self.free[k] as int].value is None
                &&& !self.slots[self.free[k] as int].retired
            }
        &&& forall|j: int, k: int|
            0 <= j < k < self.free.len() ==> #[trigger] self.free[j] != #[trigger] self.free[k]
        &&& forall|i: int|
            0 <= i < self.slots.len() ==> {
                &&& (#[trigger] self.slots[i]).generation <= Handle::GENERATION_MAX
                &&& self.slots[i].retired ==> self.slots[i].value is None
                    && self.slots[i].generation == Handle::GENERATION_MAX
                &&& self.slots[i].value is None && !self.slots[i].retired ==> self.is_free(i)
            }
    }

    /// The number of occupied slots.
    pub open spec fn live(self) -> nat {
        count_live(self.slots)
    }

    /// The value that `h` resolves to: that of the slot it names, if the slot
    /// is occupied and still at the generation that the handle carries.
    pub open spec fn lookup(self, h: Handle) -> Option<T> {
        if h.spec_slot() < self.slots.len() && self.slots[h.spec_slot() as int].generation
            == h.spec_generation() {
            self.slots[h.spec_slot() as int].value
        } else {
            None
        }
    }

    /// The handle that the next insert under `kind` issues: the slot freed last
    /// at its current generation, or else a new slot at generation zero.
    pub open spec fn next_handle(self, kind: u8) -> Handle {
        if self.free.len() > 0 {
            Handle::pack(kind, self.slots[self.free.last() as int].generation, self.free.last())
        } else {
            Handle::pack(kind, 0, bytes::low_u32(self.slots.len()))
        }
    }

    /// The table after inserting `value`.
    pub open spec fn inserted(self, value: T) -> Self {
        if self.free.len() > 0 {
            let i = self.free.last() as int;
            TableState {
                slots: self.slots.update(i, SlotState { value: Some(value), ..self.slots[i] }),
                free: self.free.drop_last(),
            }
        } else {
            TableState {
                slots: self.slots.push(
                    SlotState { generation: 0, value: Some(value), retired: false },
                ),
                free: self.free,
            }
        }
    }

    /// The table after the value that `h` resolves to has become `value`.
    pub open spec fn updated(self, h: Handle, value: T) -> Self {
        let i = h.spec_slot() as int;
        TableState {
            slots: self.slots.update(i, SlotState { value: Some(value), ..self.slots[i] }),
            free: self.free,
        }
    }

    /// The table after removing what `h` resolves to: the slot moves on to its
    /// next generation and is free again, or is retired if there is none.
    pub open spec fn removed(self, h: Handle) -> Self {
        let i = h.spec_slot() as int;
        let generation = self.slots[i].generation;
        if self.lookup(h) is None {
            self
        } else if generation >= Handle::GENERATION_MAX {
            TableState {
                slots: self.slots.update(
                    i,
                    SlotState { generation, value: None, retired: true },
                ),
                free: self.free,
            }
        } else {
            TableState {
                slots: self.slots.update(
                    i,
                    SlotState {
                        generation: (generation + 1) as u32,
                        value: None,
                        retired: self.slots[i].retired,
                    },
                ),
                free: self.free.push(h.spec_slot()),
            }
        }
    }
}

/// A generational table mapping [`Handle`]s to values of type `T`.
///
/// See the [module documentation](crate::handles) for the generational scheme.
pub struct HandleTable<T> {
    slots: Vec<Slot<T>>,
    /// Indices of free, reusable (non-retired) slots.
    free: Vec<u32>,
    /// Number of live (occupied) slots.
    live: usize,
}

impl<T> View for HandleTable<T> {
    type V = TableState<T>;

    closed spec fn view(&self) -> TableState<T> {
        TableState {
            slots: Seq::new(
                self.slots@.len(),
                |i: int|
                    SlotState {
                        generation: self.slots@[i].generation,
                        value: self.slots@[i].value,
                        retired: self.slots@[i].retired,
                    },
            ),
            free: self.free@,
        }
    }
}

impl<T> HandleTable<T> {
    /// The table keeps its invariant, and its count is that of occupied slots.
    pub closed spec fn wf(&self) -> bool {
        &&& self@.inv()
        &&& self.live == self@.live()
    }

    /// Create an empty table.
    #[must_use]
    pub fn new() -> (table: Self)
        ensures
            table.wf(),
            table@ == TableState::<T>::empty(),
    {
        let table = Self { slots: Vec::new(), free: Vec::new(), live: 0 };
        assert(table@ =~= TableState::<T>::empty());
        table
    }

    /// Insert `value` and return a fresh [`Handle`] tagged with `kind`.
    ///
    /// A free, non-retired slot is reused when one is available; otherwise a new
    /// slot is appended. The returned handle is stamped with the slot's current
    /// generation so that it remains valid only until the slot is freed.
    pub fn insert(&mut self, kind: u8, value: T) -> (h: Handle)
        requires
            old(self).wf(),
        ensures
            final(self).wf(),
            h == old(self)@.next_handle(kind),
            final(self)@ == old(self)@.inserted(value),
    {
        let ghost before = self@;
        proof {
            lemma_live_bound(before.slots);
            law_insert_keeps(before, value);
        }
        let slot_count: usize = self.slots.len();
        if let Some(slot_idx) = self.free.pop() {
            // Reuse a free slot. Its generation was already bumped on removal.
            proof {
                assert(before.free.last() == before.free[before.free.len() - 1]);
                lemma_live_update(
                    before.slots,
                    slot_idx as int,
                    SlotState { value: Some(value), ..before.slots[slot_idx as int] },
                );
                lemma_live_empty_slot(before.slots, slot_idx as int);
            }
            let i: usize = slot_idx as usize;
            let generation: u32 = self.slots[i].generation;
            self.slots[i].value = Some(value);
            self.live = self.live + 1;
            assert(self@ =~= before.inserted(value));
            Handle::new(kind, generation, slot_idx)
        } else {
            let slot_idx: u32 = bytes::len_u32(slot_count);
            self.slots.push(Slot { generation: 0, value: Some(value), retired: false });
            // The count is at most the number of slots, which is a `usize`.
            let _slots: usize = self.slots.len();
            assert(self@ =~= before.inserted(value));
            assert(self@.slots.drop_last() =~= before.slots);
            self.live = self.live + 1;
            Handle::new(kind, 0, slot_idx)
        }
    }

    /// Resolve `h` to a shared reference, validating slot range, occupancy, and
    /// generation. Returns `None` for an out-of-range, empty, or stale handle.
    #[must_use]
    pub fn get(&self, h: Handle) -> (r: Option<&T>)
        ensures
            match r {
                Some(value) => self@.lookup(h) == Some(*value),
                None => self@.lookup(h) is None,
            },
    {
        let i: usize = h.slot() as usize;
        if i >= self.slots.len() {
            return None;
        }
        if self.slots[i].generation != h.generation() {
            return None;
        }
        self.slots[i].value.as_ref()
    }

    /// Resolve `h` to a mutable reference. See [`get`](Self::get) for the
    /// validation rules.
    #[must_use]
    pub fn get_mut(&mut self, h: Handle) -> (r: Option<&mut T>)
        requires
            old(self).wf(),
        ensures
            match r {
                Some(value) => {
                    &&& old(self)@.lookup(h) == Some(*value)
                    &&& final(self)@ == old(self)@.updated(h, *final(value))
                },
                None => old(self)@.lookup(h) is None && final(self)@ == old(self)@,
            },
            final(self).wf(),
    {
        let i: usize = h.slot() as usize;
        if i >= self.slots.len() {
            return None;
        }
        if self.slots[i].generation != h.generation() {
            return None;
        }
        proof {
            let before = self@;
            assert forall|value: T| before.lookup(h) is Some implies {
                &&& (#[trigger] before.updated(h, value)).inv()
                &&& before.updated(h, value).live() == before.live()
            } by {
                law_update_keeps(before, h, value);
            }
        }
        self.slots[i].value.as_mut()
    }

    /// Remove and return the value referenced by `h`.
    ///
    /// The handle is validated exactly as in [`get`](Self::get). On success the
    /// slot's generation is bumped; if the new generation would exceed
    /// [`Handle::GENERATION_MAX`] the slot is *retired* and not returned to the
    /// free-list. Otherwise the slot is pushed onto the free-list for reuse.
    pub fn remove(&mut self, h: Handle) -> (r: Option<T>)
        requires
            old(self).wf(),
        ensures
            final(self).wf(),
            r == old(self)@.lookup(h),
            final(self)@ == old(self)@.removed(h),
    {
        let ghost before = self@;
        let slot_idx: u32 = h.slot();
        let i: usize = slot_idx as usize;
        if i >= self.slots.len() {
            return None;
        }
        if self.slots[i].generation != h.generation() {
            return None;
        }
        proof {
            law_remove_keeps(before, h);
            lemma_live_update(before.slots, i as int, before.removed(h).slots[i as int]);
        }
        let value: T = match self.slots[i].value.take() {
            Some(value) => value,
            None => {
                assert(self@ =~= before);
                return None;
            },
        };
        self.live = self.live - 1;
        if self.slots[i].generation >= Handle::GENERATION_MAX {
            // Generation exhausted: retire the slot, never reuse it.
            self.slots[i].retired = true;
        } else {
            self.slots[i].generation = self.slots[i].generation + 1;
            self.free.push(slot_idx);
        }
        assert(self@ =~= before.removed(h));
        Some(value)
    }

    /// The number of live (occupied) entries.
    #[must_use]
    pub fn len(&self) -> (n: usize)
        requires
            self.wf(),
        ensures
            n == self@.live(),
    {
        self.live
    }

    /// The number of slots that wait to be reused.
    #[must_use]
    pub fn free_len(&self) -> (n: usize)
        ensures
            n == self@.free.len(),
    {
        self.free.len()
    }

    /// Whether the slot with index `slot` has been retired.
    #[must_use]
    pub fn is_retired(&self, slot: u32) -> (b: bool)
        ensures
            b <==> slot < self@.slots.len() && self@.slots[slot as int].retired,
    {
        let i: usize = slot as usize;
        i < self.slots.len() && self.slots[i].retired
    }

    /// Whether the table holds no live entries.
    #[must_use]
    pub fn is_empty(&self) -> (b: bool)
        requires
            self.wf(),
        ensures
            b <==> self@.live() == 0,
    {
        self.live == 0
    }
}

impl<T> Default for HandleTable<T> {
    fn default() -> (table: Self)
        ensures
            table.wf(),
            table@ == TableState::<T>::empty(),
    {
        Self::new()
    }
}

/// A well-formed table keeps what every table keeps.
pub proof fn law_wf<T>(t: &HandleTable<T>)
    requires
        t.wf(),
    ensures
        t@.inv(),
{
}

/// There are at most as many occupied slots as slots.
proof fn lemma_live_bound<T>(slots: Seq<SlotState<T>>)
    ensures
        count_live(slots) <= slots.len(),
    decreases slots.len(),
{
    if slots.len() > 0 {
        lemma_live_bound(slots.drop_last());
    }
}

/// An empty slot leaves room for one more occupied one.
proof fn lemma_live_empty_slot<T>(slots: Seq<SlotState<T>>, i: int)
    requires
        0 <= i < slots.len(),
        slots[i].value is None,
    ensures
        count_live(slots) < slots.len(),
    decreases slots.len(),
{
    lemma_live_bound(slots.drop_last());
    if i < slots.len() - 1 {
        lemma_live_empty_slot(slots.drop_last(), i);
    }
}

/// Replacing one slot changes the count by what that slot held and holds.
proof fn lemma_live_update<T>(slots: Seq<SlotState<T>>, i: int, s: SlotState<T>)
    requires
        0 <= i < slots.len(),
    ensures
        count_live(slots.update(i, s)) + (if slots[i].value is Some {
            1int
        } else {
            0int
        }) == count_live(slots) + (if s.value is Some {
            1int
        } else {
            0int
        }),
    decreases slots.len(),
{
    if i < slots.len() - 1 {
        lemma_live_update(slots.drop_last(), i, s);
        assert(slots.update(i, s).drop_last() =~= slots.drop_last().update(i, s));
    } else {
        assert(slots.update(i, s).drop_last() =~= slots.drop_last());
    }
}

/// An insert keeps the table's invariant and occupies one more slot.
pub proof fn law_insert_keeps<T>(t: TableState<T>, value: T)
    requires
        t.inv(),
    ensures
        t.inserted(value).inv(),
        t.inserted(value).live() == t.live() + 1,
{
    let after = t.inserted(value);
    if t.free.len() > 0 {
        let i = t.free.last() as int;
        assert(t.free[t.free.len() - 1] == i);
        lemma_live_update(t.slots, i, after.slots[i]);
        assert forall|j: int|
            0 <= j < after.slots.len() && (#[trigger] after.slots[j]).value is None
                && !after.slots[j].retired implies after.is_free(j) by {
            assert(t.is_free(j));
            let k = choose|k: int| 0 <= k < t.free.len() && #[trigger] t.free[k] == j;
            assert(after.free[k] == j);
        }
    } else {
        assert(after.slots.drop_last() =~= t.slots);
        assert forall|j: int|
            0 <= j < after.slots.len() && (#[trigger] after.slots[j]).value is None
                && !after.slots[j].retired implies after.is_free(j) by {
            assert(t.is_free(j));
        }
    }
}

/// Changing the value behind a handle keeps the table's invariant and the count
/// of occupied slots.
pub proof fn law_update_keeps<T>(t: TableState<T>, h: Handle, value: T)
    requires
        t.inv(),
        t.lookup(h) is Some,
    ensures
        t.updated(h, value).inv(),
        t.updated(h, value).live() == t.live(),
{
    let after = t.updated(h, value);
    let i = h.spec_slot() as int;
    lemma_live_update(t.slots, i, after.slots[i]);
    assert forall|j: int|
        0 <= j < after.slots.len() && (#[trigger] after.slots[j]).value is None
            && !after.slots[j].retired implies after.is_free(j) by {
        assert(t.is_free(j));
        let k = choose|k: int| 0 <= k < t.free.len() && #[trigger] t.free[k] == j;
        assert(after.free[k] == j);
    }
}

/// A removal keeps the table's invariant, and vacates one slot if the handle
/// resolves.
pub proof fn law_remove_keeps<T>(t: TableState<T>, h: Handle)
    requires
        t.inv(),
    ensures
        t.removed(h).inv(),
        t.removed(h).live() + (if t.lookup(h) is Some {
            1int
        } else {
            0int
        }) == t.live(),
{
    if t.lookup(h) is Some {
        let after = t.removed(h);
        let i = h.spec_slot() as int;
        lemma_live_update(t.slots, i, after.slots[i]);
        assert forall|j: int|
            0 <= j < after.slots.len() && (#[trigger] after.slots[j]).value is None
                && !after.slots[j].retired implies after.is_free(j) by {
            if j == i {
                assert(after.free[t.free.len() as int] == i);
            } else {
                assert(t.slots[j].value is None);
                assert(t.is_free(j));
                let k = choose|k: int| 0 <= k < t.free.len() && #[trigger] t.free[k] == j;
                assert(after.free[k] == j);
            }
        }
        assert forall|k: int| 0 <= k < after.free.len() implies {
            &&& (#[trigger] after.free[k]) < after.slots.len()
            &&& after.slots[after.free[k] as int].value is None
            &&& !after.slots[after.free[k] as int].retired
        } by {
            if k < t.free.len() {
                assert(t.free[k] == after.free[k]);
            }
        }
        assert forall|j: int, k: int| 0 <= j < k < after.free.len() implies
            #[trigger] after.free[j] != #[trigger] after.free[k] by {
            assert(t.free[j] == after.free[j]);
            if k < t.free.len() {
                assert(t.free[k] == after.free[k]);
            }
        }
    }
}

/// A freshly inserted value is what its handle resolves to, and the handle did
/// not resolve before. A table that must grow past 2^32 slots has no slot index
/// left to name the new one.
pub proof fn law_insert_resolves<T>(t: TableState<T>, kind: u8, value: T)
    requires
        t.inv(),
        t.free.len() > 0 || t.slots.len() < 0x1_0000_0000,
    ensures
        t.lookup(t.next_handle(kind)) is None,
        t.inserted(value).lookup(t.next_handle(kind)) == Some(value),
        t.next_handle(kind).spec_kind() == kind,
{
    if t.free.len() > 0 {
        let i = t.free.last() as int;
        assert(t.free[t.free.len() - 1] == i);
        crate::protocol::handle::law_pack_fields(kind, t.slots[i].generation, t.free.last());
    } else {
        crate::protocol::handle::law_pack_fields(kind, 0, bytes::low_u32(t.slots.len()));
    }
}

/// An insert takes a slot that no resolving handle names, and leaves what every
/// such handle resolves to as it was.
pub proof fn law_insert_keeps_others<T>(t: TableState<T>, kind: u8, value: T, h: Handle)
    requires
        t.inv(),
        t.lookup(h) is Some,
    ensures
        t.inserted(value).lookup(h) == t.lookup(h),
        t.free.len() > 0 || t.slots.len() < 0x1_0000_0000 ==> t.next_handle(kind).spec_slot()
            != h.spec_slot(),
{
    if t.free.len() > 0 {
        let i = t.free.last() as int;
        assert(t.free[t.free.len() - 1] == i);
        crate::protocol::handle::law_pack_fields(kind, t.slots[i].generation, t.free.last());
    } else {
        crate::protocol::handle::law_pack_fields(kind, 0, bytes::low_u32(t.slots.len()));
    }
}

/// A removal leaves what handles to other slots resolve to as it was.
pub proof fn law_remove_keeps_others<T>(t: TableState<T>, h: Handle, other: Handle)
    requires
        other.spec_slot() != h.spec_slot(),
    ensures
        t.removed(h).lookup(other) == t.lookup(other),
{
}

/// A slot that was freed is the next to be reused, at its next generation.
pub proof fn law_reuse_bumps_generation<T>(t: TableState<T>, h: Handle, kind: u8)
    requires
        t.lookup(h) is Some,
        h.spec_generation() < Handle::GENERATION_MAX,
    ensures
        t.removed(h).next_handle(kind).spec_slot() == h.spec_slot(),
        t.removed(h).next_handle(kind).spec_generation() == h.spec_generation() + 1,
{
    crate::protocol::handle::law_pack_fields(
        kind,
        (h.spec_generation() + 1) as u32,
        h.spec_slot(),
    );
}

/// A slot removed at its last generation is retired, and is not put on the
/// free-list.
pub proof fn law_exhausted_slot_retires<T>(t: TableState<T>, h: Handle)
    requires
        t.inv(),
        t.lookup(h) is Some,
        h.spec_generation() == Handle::GENERATION_MAX,
    ensures
        t.removed(h).slots[h.spec_slot() as int].retired,
        t.removed(h).free == t.free,
        !t.removed(h).is_free(h.spec_slot() as int),
{
    law_remove_keeps(t, h);
}

/// One operation on a table.
pub ghost enum TableOp<T> {
    /// Insert a value.
    Insert(T),
    /// Change the value behind a handle.
    Update(Handle, T),
    /// Remove what a handle resolves to.
    Remove(Handle),
    /// Look something up, or do nothing.
    Read,
}

/// The table after one operation.
pub open spec fn apply<T>(t: TableState<T>, op: TableOp<T>) -> TableState<T> {
    match op {
        TableOp::Insert(value) => t.inserted(value),
        TableOp::Update(h, value) => if t.lookup(h) is Some {
            t.updated(h, value)
        } else {
            t
        },
        TableOp::Remove(h) => t.removed(h),
        TableOp::Read => t,
    }
}

/// The table after a run of operations.
pub open spec fn run<T>(t: TableState<T>, ops: Seq<TableOp<T>>) -> TableState<T>
    decreases ops.len(),
{
    if ops.len() == 0 {
        t
    } else {
        apply(run(t, ops.drop_last()), ops.last())
    }
}

/// A handle that can never resolve again: its slot has moved on to a later
/// generation, or was retired at the handle's own.
pub open spec fn is_stale<T>(t: TableState<T>, h: Handle) -> bool {
    &&& h.spec_slot() < t.slots.len()
    &&& {
        ||| t.slots[h.spec_slot() as int].generation > h.spec_generation()
        ||| t.slots[h.spec_slot() as int].retired
    }
}

/// Every run of operations keeps the table's invariant.
pub proof fn law_run_keeps<T>(t: TableState<T>, ops: Seq<TableOp<T>>)
    requires
        t.inv(),
    ensures
        run(t, ops).inv(),
    decreases ops.len(),
{
    if ops.len() > 0 {
        law_run_keeps(t, ops.drop_last());
        let mid = run(t, ops.drop_last());
        match ops.last() {
            TableOp::Insert(value) => {
                law_insert_keeps(mid, value);
            },
            TableOp::Update(h, value) => {
                if mid.lookup(h) is Some {
                    law_update_keeps(mid, h, value);
                }
            },
            TableOp::Remove(h) => {
                law_remove_keeps(mid, h);
            },
            TableOp::Read => {},
        }
    }
}

/// A stale handle is still stale after an insert, an update or a removal, and
/// resolves to nothing.
pub proof fn law_stale_step<T>(t: TableState<T>, h: Handle)
    requires
        t.inv(),
        is_stale(t, h),
    ensures
        t.lookup(h) is None,
        forall|value: T| is_stale(#[trigger] t.inserted(value), h),
        forall|other: Handle| is_stale(#[trigger] t.removed(other), h),
        forall|other: Handle, value: T|
            t.lookup(other) is Some ==> is_stale(#[trigger] t.updated(other, value), h),
{
    if t.free.len() > 0 {
        assert(t.free[t.free.len() - 1] == t.free.last());
    }
}

/// Inserts, updates and removals keep the table's invariant.
pub proof fn law_table_keeps<T>(t: TableState<T>)
    requires
        t.inv(),
    ensures
        forall|value: T| (#[trigger] t.inserted(value)).inv(),
        forall|h: Handle| (#[trigger] t.removed(h)).inv(),
        forall|h: Handle, value: T|
            t.lookup(h) is Some ==> (#[trigger] t.updated(h, value)).inv(),
{
    assert forall|value: T| (#[trigger] t.inserted(value)).inv() by {
        law_insert_keeps(t, value);
    }
    assert forall|h: Handle| (#[trigger] t.removed(h)).inv() by {
        law_remove_keeps(t, h);
    }
    assert forall|h: Handle, value: T| t.lookup(h) is Some implies (#[trigger] t.updated(
        h,
        value,
    )).inv() by {
        law_update_keeps(t, h, value);
    }
}

/// A stale handle stays stale whatever is done to the table.
pub proof fn law_stale_forever<T>(t: TableState<T>, h: Handle, ops: Seq<TableOp<T>>)
    requires
        t.inv(),
        is_stale(t, h),
    ensures
        is_stale(run(t, ops), h),
        run(t, ops).lookup(h) is None,
    decreases ops.len(),
{
    law_run_keeps(t, ops);
    if ops.len() > 0 {
        law_stale_forever(t, h, ops.drop_last());
        law_run_keeps(t, ops.drop_last());
        law_stale_step(run(t, ops.drop_last()), h);
    }
}

/// Use-after-free defense: once what a handle resolves to has been removed, the
/// handle resolves to nothing, whatever is done to the table afterwards.
pub proof fn law_removed_never_resolves<T>(t: TableState<T>, h: Handle, ops: Seq<TableOp<T>>)
    requires
        t.inv(),
        t.lookup(h) is Some,
    ensures
        t.removed(h).lookup(h) is None,
        run(t.removed(h), ops).lookup(h) is None,
{
    law_remove_keeps(t, h);
    law_stale_forever(t.removed(h), h, ops);
    law_stale_forever(t.removed(h), h, seq![]);
}

/// A retired slot stays retired and empty whatever is done to the table: it is
/// never reused.
pub proof fn law_retired_forever<T>(t: TableState<T>, i: int, ops: Seq<TableOp<T>>)
    requires
        t.inv(),
        0 <= i < t.slots.len(),
        t.slots[i].retired,
    ensures
        i < run(t, ops).slots.len(),
        run(t, ops).slots[i] == t.slots[i],
        t.slots[i].value is None,
    decreases ops.len(),
{
    if ops.len() > 0 {
        law_retired_forever(t, i, ops.drop_last());
        law_run_keeps(t, ops.drop_last());
        let mid = run(t, ops.drop_last());
        if ops.last() is Insert && mid.free.len() > 0 {
            assert(mid.free[mid.free.len() - 1] == mid.free.last());
        }
    }
}

/// Whether two handles name the same object of a table: they agree in slot and
/// generation. The kind plays no part.
pub open spec fn same_object(g: Handle, h: Handle) -> bool {
    g.spec_slot() == h.spec_slot() && g.spec_generation() == h.spec_generation()
}

/// Whether an operation removes the object that `h` names.
pub open spec fn removes<T>(op: TableOp<T>, h: Handle) -> bool {
    op matches TableOp::Remove(g) && same_object(g, h)
}

/// Operation `i` of a run on `t` was an insert that issued a handle to the object
/// that `h` names.
pub open spec fn issued_at<T>(t: TableState<T>, ops: Seq<TableOp<T>>, i: int, h: Handle) -> bool {
    &&& 0 <= i < ops.len()
    &&& ops[i] is Insert
    &&& same_object(run(t, ops.take(i)).next_handle(0), h)
}

/// Some operation after operation `i` removes the object that `h` names.
pub open spec fn removed_after<T>(ops: Seq<TableOp<T>>, i: int, h: Handle) -> bool {
    exists|j: int| i < j < ops.len() && removes(#[trigger] ops[j], h)
}

/// Operation `i` issued the object that `h` names, and it has not been removed
/// since.
pub open spec fn live_from<T>(t: TableState<T>, ops: Seq<TableOp<T>>, i: int, h: Handle) -> bool {
    issued_at(t, ops, i, h) && !removed_after(ops, i, h)
}

/// The value of the object that `h` names, inserted by operation `i`: what the
/// last update since has made it, or else what was inserted.
pub open spec fn value_from<T>(ops: Seq<TableOp<T>>, i: int, h: Handle) -> T
    decreases ops.len(),
{
    if ops.len() <= i + 1 || ops.len() == 0 {
        ops[i]->Insert_0
    } else if ops.last() is Update && same_object(ops.last()->Update_0, h) {
        ops.last()->Update_1
    } else {
        value_from(ops.drop_last(), i, h)
    }
}

/// No operation takes slots away.
proof fn lemma_slots_grow<T>(t: TableState<T>, ops: Seq<TableOp<T>>, n: int)
    requires
        t.inv(),
        0 <= n <= ops.len(),
    ensures
        run(t, ops.take(n)).slots.len() <= run(t, ops).slots.len(),
    decreases ops.len() - n,
{
    if n == ops.len() {
        assert(ops.take(n) =~= ops);
    } else {
        lemma_slots_grow(t, ops, n + 1);
        assert(ops.take(n + 1).drop_last() =~= ops.take(n));
        assert(ops.take(n + 1).last() == ops[n]);
        law_run_keeps(t, ops.take(n));
        let mid = run(t, ops.take(n));
        if mid.free.len() > 0 {
            assert(mid.free[mid.free.len() - 1] == mid.free.last());
        }
    }
}

/// The history of a table tells what a handle resolves to. From a new table, it
/// resolves if and only if some insert issued its slot and generation and no
/// removal has named them since, and it resolves to what the last update since
/// made the value, or else to what was inserted. So out-of-range, emptied and
/// stale handles resolve to nothing. A table of more than 2^32 slots has no slot
/// index for the last ones.
pub proof fn law_lookup_is_history<T>(ops: Seq<TableOp<T>>, h: Handle)
    requires
        run(TableState::<T>::empty(), ops).slots.len() <= 0x1_0000_0000,
    ensures
        run(TableState::<T>::empty(), ops).lookup(h) is Some <==> exists|i: int| #[trigger]
            live_from(TableState::<T>::empty(), ops, i, h),
        forall|i: int| #[trigger]
            live_from(TableState::<T>::empty(), ops, i, h) ==> run(
                TableState::<T>::empty(),
                ops,
            ).lookup(h) == Some(value_from(ops, i, h)),
    decreases ops.len(),
{
    let new = TableState::<T>::empty();
    if ops.len() > 0 {
        let front = ops.drop_last();
        let n = ops.len() - 1;
        let t = run(new, front);
        let after = run(new, ops);
        assert(ops.take(n) =~= front);
        lemma_slots_grow(new, ops, n);
        law_lookup_is_history(front, h);
        law_run_keeps(new, front);
        assert forall|i: int| 0 <= i < n implies issued_at(new, ops, i, h) == #[trigger] issued_at(
            new,
            front,
            i,
            h,
        ) by {
            assert(ops.take(i) =~= front.take(i));
        }
        assert forall|i: int| 0 <= i < n implies removed_after(ops, i, h) == (#[trigger]
        removed_after(front, i, h) || removes(ops.last(), h)) by {
            if removed_after(front, i, h) {
                let j = choose|j: int| i < j < front.len() && removes(#[trigger] front[j], h);
                assert(removes(ops[j], h));
            }
            if removes(ops.last(), h) {
                assert(removes(ops[n], h));
            }
            if removed_after(ops, i, h) {
                let j = choose|j: int| i < j < ops.len() && removes(#[trigger] ops[j], h);
                if j < n {
                    assert(removes(front[j], h));
                }
            }
        }
        match ops.last() {
            TableOp::Insert(value) => {
                law_insert_resolves(t, 0, value);
                lemma_insert_lookup(t, value, h);
                let fresh = same_object(t.next_handle(0), h);
                assert(issued_at(new, ops, n, h) == fresh);
                assert(!removed_after(ops, n, h));
                assert(live_from(new, ops, n, h) == fresh);
                assert forall|i: int| #[trigger] live_from(new, ops, i, h) && i < n implies
                    live_from(new, front, i, h) by {
                    assert(issued_at(new, front, i, h));
                    assert(!removed_after(front, i, h));
                }
                assert forall|i: int| #[trigger] live_from(new, front, i, h) implies live_from(
                    new,
                    ops,
                    i,
                    h,
                ) by {
                    assert(issued_at(new, ops, i, h));
                    assert(!removed_after(front, i, h));
                }
                if fresh {
                    assert(value_from(ops, n, h) == value);
                }
            },
            TableOp::Update(g, value) => {
                assert forall|i: int| #[trigger] live_from(new, ops, i, h) == live_from(
                    new,
                    front,
                    i,
                    h,
                ) by {
                    if 0 <= i < n {
                        assert(issued_at(new, ops, i, h) == issued_at(new, front, i, h));
                        assert(removed_after(ops, i, h) == removed_after(front, i, h));
                    }
                }
            },
            TableOp::Remove(g) => {
                if removes(ops.last(), h) {
                    assert forall|i: int| !(#[trigger] live_from(new, ops, i, h)) by {
                        if 0 <= i < n {
                            assert(removed_after(ops, i, h) == (removed_after(front, i, h)
                                || removes(ops.last(), h)));
                        }
                    }
                    assert(after.lookup(h) is None);
                } else {
                    assert(after.lookup(h) == t.lookup(h));
                    assert forall|i: int| #[trigger] live_from(new, ops, i, h) == live_from(
                        new,
                        front,
                        i,
                        h,
                    ) by {
                        if 0 <= i < n {
                            assert(issued_at(new, ops, i, h) == issued_at(new, front, i, h));
                            assert(removed_after(ops, i, h) == removed_after(front, i, h));
                        }
                    }
                }
            },
            TableOp::Read => {
                assert forall|i: int| #[trigger] live_from(new, ops, i, h) == live_from(
                    new,
                    front,
                    i,
                    h,
                ) by {
                    if 0 <= i < n {
                        assert(issued_at(new, ops, i, h) == issued_at(new, front, i, h));
                        assert(removed_after(ops, i, h) == removed_after(front, i, h));
                    }
                }
            },
        }
        if t.lookup(h) is Some && !removes(ops.last(), h) {
            let i = choose|i: int| #[trigger] live_from(new, front, i, h);
            assert(live_from(new, ops, i, h));
        }
    }
}

/// What a handle resolves to after an insert: the new value if it names the new
/// object, and else what it did before.
pub proof fn lemma_insert_lookup<T>(t: TableState<T>, value: T, h: Handle)
    requires
        t.inv(),
        t.free.len() > 0 || t.slots.len() < 0x1_0000_0000,
    ensures
        t.inserted(value).lookup(h) == if same_object(t.next_handle(0), h) {
            Some(value)
        } else {
            t.lookup(h)
        },
{
    if t.free.len() > 0 {
        let i = t.free.last() as int;
        assert(t.free[t.free.len() - 1] == i);
        crate::protocol::handle::law_pack_fields(0, t.slots[i].generation, t.free.last());
    } else {
        crate::protocol::handle::law_pack_fields(0, 0, bytes::low_u32(t.slots.len()));
    }
}

/// A handle that resolves does so, or is stale, after every run of operations;
/// it resolves if none of them removes its object.
pub proof fn law_used_forever<T>(t: TableState<T>, h: Handle, ops: Seq<TableOp<T>>)
    requires
        t.inv(),
        t.lookup(h) is Some,
    ensures
        run(t, ops).lookup(h) is Some || is_stale(run(t, ops), h),
        (forall|j: int| 0 <= j < ops.len() ==> !removes(#[trigger] ops[j], h)) ==> run(
            t,
            ops,
        ).lookup(h) is Some,
    decreases ops.len(),
{
    if ops.len() > 0 {
        let front = ops.drop_last();
        law_used_forever(t, h, front);
        law_run_keeps(t, front);
        let mid = run(t, front);
        if is_stale(mid, h) {
            law_stale_step(mid, h);
        } else if ops.last() is Insert {
            law_insert_keeps_others(mid, 0, ops.last()->Insert_0, h);
        }
        if forall|j: int| 0 <= j < ops.len() ==> !removes(#[trigger] ops[j], h) {
            assert forall|j: int| 0 <= j < front.len() implies !removes(#[trigger] front[j], h) by {
                assert(front[j] == ops[j]);
            }
            assert(!removes(ops[ops.len() - 1], h));
        }
    }
}

/// No two inserts issue the same slot and generation, and each handle carries
/// the kind it was asked for.
pub proof fn law_issued_once<T>(
    t: TableState<T>,
    ops: Seq<TableOp<T>>,
    i: int,
    j: int,
    kind_i: u8,
    kind_j: u8,
)
    requires
        t.inv(),
        0 <= i < j < ops.len(),
        ops[i] is Insert,
        ops[j] is Insert,
        run(t, ops).slots.len() <= 0x1_0000_0000,
    ensures
        !same_object(
            run(t, ops.take(i)).next_handle(kind_i),
            run(t, ops.take(j)).next_handle(kind_j),
        ),
        run(t, ops.take(i)).next_handle(kind_i).spec_kind() == kind_i,
        run(t, ops.take(j)).next_handle(kind_j).spec_kind() == kind_j,
{
    let before = run(t, ops.take(i));
    let made = run(t, ops.take(i + 1));
    let late = run(t, ops.take(j));
    let g = before.next_handle(kind_i);
    assert(ops.take(i + 1).drop_last() =~= ops.take(i));
    assert(ops.take(i + 1).last() == ops[i]);
    assert(ops.take(j + 1).drop_last() =~= ops.take(j));
    assert(ops.take(j + 1).last() == ops[j]);
    law_run_keeps(t, ops.take(i));
    law_run_keeps(t, ops.take(i + 1));
    law_run_keeps(t, ops.take(j));
    lemma_slots_grow(t, ops, i + 1);
    lemma_slots_grow(t, ops, j + 1);
    law_insert_resolves(before, kind_i, ops[i]->Insert_0);
    law_insert_resolves(late, kind_j, ops[j]->Insert_0);
    let between = ops.subrange(i + 1, j);
    lemma_run_joins(t, ops.take(i + 1), between);
    assert(ops.take(i + 1) + between =~= ops.take(j));
    law_used_forever(made, g, between);
    let fresh = late.next_handle(kind_j);
    if late.free.len() > 0 {
        assert(late.free[late.free.len() - 1] == late.free.last());
        crate::protocol::handle::law_pack_fields(
            kind_j,
            late.slots[late.free.last() as int].generation,
            late.free.last(),
        );
    } else {
        crate::protocol::handle::law_pack_fields(kind_j, 0, bytes::low_u32(late.slots.len()));
    }
}

/// The handle that the next insert issues names the same object under every kind.
pub proof fn law_next_handle_kinds<T>(t: TableState<T>, a: u8, b: u8)
    ensures
        same_object(t.next_handle(a), t.next_handle(b)),
{
    if t.free.len() > 0 {
        let generation = t.slots[t.free.last() as int].generation;
        crate::protocol::handle::law_pack_fields(a, generation, t.free.last());
        crate::protocol::handle::law_pack_fields(b, generation, t.free.last());
    } else {
        crate::protocol::handle::law_pack_fields(a, 0, bytes::low_u32(t.slots.len()));
        crate::protocol::handle::law_pack_fields(b, 0, bytes::low_u32(t.slots.len()));
    }
}

/// Two runs one after the other are one run.
proof fn lemma_run_joins<T>(t: TableState<T>, a: Seq<TableOp<T>>, b: Seq<TableOp<T>>)
    ensures
        run(t, a + b) == run(run(t, a), b),
    decreases b.len(),
{
    if b.len() == 0 {
        assert(a + b =~= a);
    } else {
        lemma_run_joins(t, a, b.drop_last());
        assert((a + b).drop_last() =~= a + b.drop_last());
        assert((a + b).last() == b.last());
    }
}

/// An insert issues a handle of the kind it was asked for. As long as a slot index
/// is left, the handle names an object that was not there before, which holds the
/// value; what every other handle resolves to is as it was.
pub proof fn law_insert_issues<T>(t: TableState<T>, kind: u8, value: T)
    ensures
        t.next_handle(kind).spec_kind() == kind,
        t.inv() && (t.free.len() > 0 || t.slots.len() < 0x1_0000_0000) ==> {
            &&& t.lookup(t.next_handle(kind)) is None
            &&& t.inserted(value).lookup(t.next_handle(kind)) == Some(value)
            &&& forall|g: Handle|
                !same_object(g, t.next_handle(kind)) ==> #[trigger] t.inserted(value).lookup(g)
                    == t.lookup(g)
        },
{
    if t.free.len() > 0 {
        crate::protocol::handle::law_pack_fields(
            kind,
            t.slots[t.free.last() as int].generation,
            t.free.last(),
        );
    } else {
        crate::protocol::handle::law_pack_fields(kind, 0, bytes::low_u32(t.slots.len()));
    }
    if t.inv() && (t.free.len() > 0 || t.slots.len() < 0x1_0000_0000) {
        law_insert_resolves(t, kind, value);
        law_next_handle_kinds(t, 0, kind);
        assert forall|g: Handle| !same_object(g, t.next_handle(kind)) implies #[trigger] t.inserted(
            value,
        ).lookup(g) == t.lookup(g) by {
            lemma_insert_lookup(t, value, g);
        }
    }
}

/// A removal takes away the one object that the handle names, if it is there:
/// every handle to it resolves to nothing afterwards, and what every other handle
/// resolves to is as it was.
pub proof fn law_remove_takes_one<T>(t: TableState<T>, h: Handle)
    ensures
        forall|g: Handle| same_object(g, h) ==> #[trigger] t.removed(h).lookup(g) is None,
        forall|g: Handle|
            !same_object(g, h) ==> #[trigger] t.removed(h).lookup(g) == t.lookup(g),
        t.lookup(h) is None ==> t.removed(h) == t,
{
}

/// Freed slots are reused last freed first: once the slot that a removal has freed
/// is taken again, the table issues what it would have issued before the removal.
pub proof fn law_reuse_is_last_in_first_out<T>(t: TableState<T>, h: Handle, kind: u8, value: T)
    requires
        t.inv(),
        t.lookup(h) is Some,
        h.spec_generation() < Handle::GENERATION_MAX,
    ensures
        t.removed(h).inserted(value).free == t.free,
        t.removed(h).inserted(value).slots.len() == t.slots.len(),
        t.removed(h).inserted(value).next_handle(kind) == t.next_handle(kind),
{
    let i = h.spec_slot() as int;
    let mid = t.removed(h);
    let after = mid.inserted(value);
    assert(mid.free.last() == h.spec_slot());
    assert(after.free =~= t.free);
    if t.free.len() > 0 {
        assert(t.free[t.free.len() - 1] == t.free.last());
        assert(t.free.last() != h.spec_slot());
    }
}

/// Where no slot waits to be reused, an insert takes a new one, numbered by how
/// many there were, at generation zero.
pub proof fn law_new_slots_are_counted<T>(t: TableState<T>, kind: u8, value: T)
    requires
        t.free.len() == 0,
        t.slots.len() < 0x1_0000_0000,
    ensures
        t.next_handle(kind).spec_slot() == t.slots.len(),
        t.next_handle(kind).spec_generation() == 0,
        t.inserted(value).slots.len() == t.slots.len() + 1,
        t.inserted(value).free.len() == 0,
{
    crate::protocol::handle::law_pack_fields(kind, 0, bytes::low_u32(t.slots.len()));
}

/// Changing the value behind a handle changes what handles to that object resolve
/// to, and nothing else.
pub proof fn law_update_changes_one<T>(t: TableState<T>, h: Handle, value: T)
    requires
        t.inv(),
        t.lookup(h) is Some,
    ensures
        forall|g: Handle|
            same_object(g, h) ==> #[trigger] t.updated(h, value).lookup(g) == Some(value),
        forall|g: Handle|
            !same_object(g, h) ==> #[trigger] t.updated(h, value).lookup(g) == t.lookup(g),
        forall|kind: u8| #[trigger]
            t.updated(h, value).next_handle(kind) == t.next_handle(kind),
{
    if t.free.len() > 0 {
        assert(t.free[t.free.len() - 1] == t.free.last());
    }
}

/// An error in words tells which slot it is about and, of a stale handle, which
/// generations do not match: the numbers in the text read back as those that the
/// error carries, in this order.
pub proof fn law_error_text_reads_back(slot: u32, handle: u32, current: u32)
    ensures
        exists|s: Seq<char>|
            HandleError::SlotOutOfRange(slot).text() == "handle slot index "@ + s
                + " is out of range"@ && #[trigger] text::number(s) == Some(slot as nat),
        exists|s: Seq<char>|
            HandleError::EmptySlot(slot).text() == "handle slot "@ + s + " is empty"@
                && #[trigger] text::number(s) == Some(slot as nat),
        exists|s: Seq<char>, h: Seq<char>, c: Seq<char>|
            {
                &&& HandleError::GenerationMismatch { slot, handle, current }.text()
                    == "handle slot "@ + s + " generation mismatch: handle="@ + h + ", slot="@ + c
                &&& #[trigger] text::number(s) == Some(slot as nat)
                &&& #[trigger] text::number(h) == Some(handle as nat)
                &&& #[trigger] text::number(c) == Some(current as nat)
            },
{
    text::law_dec_reads_back(slot as nat);
    text::law_dec_reads_back(handle as nat);
    text::law_dec_reads_back(current as nat);
    let (s, h, c) = (text::dec(slot as nat), text::dec(handle as nat), text::dec(current as nat));
    assert(text::number(s) == Some(slot as nat) && text::number(h) == Some(handle as nat)
        && text::number(c) == Some(current as nat));
}

/// In a new table no handle resolves, nothing is live, and the first handle issued
/// names slot zero at generation zero.
pub proof fn law_new_table<T>(table: HandleTable<T>, h: Handle, kind: u8)
    requires
        call_ensures(HandleTable::<T>::new, (), table),
    ensures
        table@.lookup(h) is None,
        table@.live() == 0,
        table@.free.len() == 0,
        table@.next_handle(kind).spec_slot() == 0,
        table@.next_handle(kind).spec_generation() == 0,
        table@.next_handle(kind).spec_kind() == kind,
{
    crate::protocol::handle::law_pack_fields(kind, 0, 0);
}

/// Packing a handle and reading its fields gives them back, the generation cut to
/// its 24 bits, and the raw value on the wire names the same handle.
pub proof fn law_handle_fields(
    kind: u8,
    generation: u32,
    slot: u32,
    h: Handle,
    k: u8,
    g: u32,
    s: u32,
    raw: u64,
    again: Handle,
)
    requires
        call_ensures(Handle::new, (kind, generation, slot), h),
        call_ensures(Handle::kind, (h,), k),
        call_ensures(Handle::generation, (h,), g),
        call_ensures(Handle::slot, (h,), s),
        call_ensures(Handle::raw, (h,), raw),
        call_ensures(Handle::from_raw, (raw,), again),
    ensures
        k == kind,
        g == generation % 0x100_0000,
        s == slot,
        raw == kind * 0x100_0000_0000_0000 + (generation % 0x100_0000) * 0x1_0000_0000 + slot,
        again == h,
{
    crate::protocol::handle::law_pack_fields(kind, generation, slot);
    crate::protocol::handle::law_raw_layout(h);
}

/// An insert issues a handle of the asked kind that resolved to nothing before and
/// to the value afterwards, and occupies one more slot; a removal hands out what
/// the handle resolved to and vacates its slot, or changes nothing where that was
/// nothing. What handles to other objects resolve to is as it was.
pub proof fn law_insert_and_remove<T>(
    table: &mut HandleTable<T>,
    kind: u8,
    value: T,
    issued: Handle,
    h: Handle,
    taken: Option<T>,
)
    requires
        old(table).wf(),
    ensures
        call_ensures(HandleTable::<T>::insert, (table, kind, value), issued) && (
        old(table)@.free.len() > 0 || old(table)@.slots.len() < 0x1_0000_0000) ==> {
            &&& issued.spec_kind() == kind
            &&& old(table)@.lookup(issued) is None
            &&& final(table)@.lookup(issued) == Some(value)
            &&& final(table)@.live() == old(table)@.live() + 1
            &&& forall|g: Handle|
                !same_object(g, issued) ==> #[trigger] final(table)@.lookup(g)
                    == old(table)@.lookup(g)
        },
        call_ensures(HandleTable::<T>::remove, (table, h), taken) ==> {
            &&& taken == old(table)@.lookup(h)
            &&& taken is Some ==> final(table)@.live() == old(table)@.live() - 1
            &&& taken is None ==> final(table)@ == old(table)@
            &&& forall|g: Handle|
                same_object(g, h) ==> #[trigger] final(table)@.lookup(g) is None
            &&& forall|g: Handle|
                !same_object(g, h) ==> #[trigger] final(table)@.lookup(g) == old(table)@.lookup(g)
        },
{
    let t = table@;
    law_insert_issues(t, kind, value);
    law_insert_keeps(t, value);
    law_remove_takes_one(t, h);
    law_remove_keeps(t, h);
}

/// What a handle resolves to can be read, and changed in place, through it and
/// only through it; the length of a table counts its values, and a table without
/// any is empty.
pub proof fn law_table_reads<T>(
    table: &HandleTable<T>,
    h: Handle,
    got: Option<&T>,
    len: usize,
    empty: bool,
    waiting: usize,
    slot: u32,
    retired: bool,
)
    ensures
        call_ensures(HandleTable::<T>::get, (table, h), got) ==> {
            &&& got is Some <==> table@.lookup(h) is Some
            &&& got matches Some(value) ==> table@.lookup(h) == Some(*value)
        },
        call_ensures(HandleTable::<T>::len, (table,), len) ==> len == count_live(table@.slots),
        call_ensures(HandleTable::<T>::is_empty, (table,), empty) ==> (empty <==> count_live(
            table@.slots,
        ) == 0),
        call_ensures(HandleTable::<T>::free_len, (table,), waiting) ==> waiting
            == table@.free.len(),
        call_ensures(HandleTable::<T>::is_retired, (table, slot), retired) ==> (retired <==> slot
            < table@.slots.len() && table@.slots[slot as int].retired),
{
}

/// Changing a value in place changes what handles to that object resolve to, and
/// nothing else.
pub proof fn law_changed_in_place<T>(
    table: &mut HandleTable<T>,
    h: Handle,
    got: Option<&mut T>,
)
    requires
        old(table).wf(),
        call_ensures(HandleTable::<T>::get_mut, (table, h), got),
    ensures
        got is Some <==> old(table)@.lookup(h) is Some,
        got is None ==> final(table)@ == old(table)@,
        got is Some ==> {
            &&& old(table)@.lookup(h) == Some(*old(got->0))
            &&& final(table)@.lookup(h) == Some(*final(got->0))
            &&& final(table)@.live() == old(table)@.live()
            &&& forall|g: Handle|
                !same_object(g, h) ==> #[trigger] final(table)@.lookup(g) == old(table)@.lookup(g)
        },
{
    if got is Some {
        law_update_keeps(table@, h, *final(got->0));
        law_update_changes_one(table@, h, *final(got->0));
    }
}

} // verus!
