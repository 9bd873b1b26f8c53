//! In-memory FIFO buffer of captured items. Never persisted.
//!
//! Items are kept newest first, bounded by `capacity`. Pushing text equal to the newest item
//! is a duplicate and is dropped. Items are immutable once stored.
use vstd::prelude::*;

use std::collections::VecDeque;

use crate::model::item::{ClipItem, ItemId, ItemView, opt_view};
use crate::model::warning::Warning;
use crate::text::str_eq;
use vstd::std_specs::iter::IteratorSpec;

verus! {

broadcast use vstd::std_specs::vecdeque::group_vec_dequeue_axioms;

/// Outcome of `Buffer::push`.
#[derive(Debug, Clone, Copy, PartialEq, Eq, Structural)]
pub enum PushResult {
    Pushed(ItemId),
    /// Same text as the newest item; nothing was added.
    Duplicate,
}

#[derive(Debug)]
pub struct Buffer {
    /// Newest at the front.
    items: VecDeque<ClipItem>,
    capacity: usize,
    next_id: ItemId,
}

/// Ids strictly decrease from the front (newest) to the back (oldest).
pub open spec fn ids_descending(items: Seq<ClipItem>) -> bool {
    forall|i: int, j: int| 0 <= i < j < items.len() ==> #[trigger] items[i].id > #[trigger] items[j].id
}

/// Every id is below `bound`.
pub open spec fn ids_below(items: Seq<ClipItem>, bound: ItemId) -> bool {
    forall|i: int| 0 <= i < items.len() ==> #[trigger] items[i].id < bound
}

/// The position of the item with id `id` in `items`, if any.
pub open spec fn has_id(items: Seq<ClipItem>, id: ItemId) -> bool {
    exists|i: int| 0 <= i < items.len() && #[trigger] items[i].id == id
}

/// The data of a newly captured item.
pub open spec fn new_item_view(
    id: ItemId,
    text: Seq<char>,
    html: Option<Seq<char>>,
    rtf: Option<Seq<char>>,
    warnings: Seq<Warning>,
) -> ItemView {
    ItemView { id, text, html, rtf, warnings }
}

/// `items` with every item whose id is `id` left out, order kept.
pub open spec fn without_id(items: Seq<ClipItem>, id: ItemId) -> Seq<ClipItem> {
    items.filter(|it: ClipItem| it.id != id)
}

/// The newest item of `items` holds the text `text`.
pub open spec fn newest_text_is(items: Seq<ClipItem>, text: Seq<char>) -> bool {
    items.len() > 0 && items[0].text@ == text
}

/// `new` is `old` after pushing an item with the given data and capture time, and `res` is what
/// the push reported: a duplicate of the newest text changes nothing; otherwise the item is placed
/// first with the next id, the oldest items beyond the capacity are dropped, and the next id
/// grows.
pub open spec fn push_effect(
    old: Buffer,
    new: Buffer,
    text: Seq<char>,
    html: Option<Seq<char>>,
    rtf: Option<Seq<char>>,
    warnings: Seq<Warning>,
    captured_at_ms: u64,
    res: PushResult,
) -> bool {
    &&& new.spec_capacity() == old.spec_capacity()
    &&& newest_text_is(old@, text) ==> {
        &&& res == PushResult::Duplicate
        &&& new@ == old@
        &&& new.next_id() == old.next_id()
    }
    &&& !newest_text_is(old@, text) ==> {
        &&& res == PushResult::Pushed(old.next_id())
        &&& new.next_id() == old.next_id() + 1
        &&& new@.len() == if old@.len() < old.spec_capacity() {
            old@.len() + 1int
        } else {
            old@.len() as int
        }
        &&& new@[0].view_data() == new_item_view(old.next_id(), text, html, rtf, warnings)
        &&& new@[0].captured_at_ms == captured_at_ms
        &&& new@.skip(1) == old@.take(new@.len() - 1)
    }
}

/// What pushing `text` onto `b` reports.
pub open spec fn push_result(b: Buffer, text: Seq<char>) -> PushResult {
    if newest_text_is(b@, text) {
        PushResult::Duplicate
    } else {
        PushResult::Pushed(b.next_id())
    }
}

/// The item of `items` whose id is `id` (meaningful when there is one).
pub open spec fn find_item(items: Seq<ClipItem>, id: ItemId) -> ClipItem {
    items[choose|i: int| 0 <= i < items.len() && #[trigger] items[i].id == id]
}

impl View for Buffer {
    type V = Seq<ClipItem>;

    closed spec fn view(&self) -> Seq<ClipItem> {
        self.items@
    }
}

impl Buffer {
    #[verifier::type_invariant]
    closed spec fn well_formed(self) -> bool {
        &&& self.capacity >= 1
        &&& self.items@.len() <= self.capacity
        &&& ids_descending(self.items@)
        &&& ids_below(self.items@, self.next_id)
        &&& self.next_id >= 1
    }

    /// Maximum number of items kept.
    pub closed spec fn spec_capacity(&self) -> usize {
        self.capacity
    }

    /// The id the next pushed item receives.
    pub closed spec fn next_id(&self) -> ItemId {
        self.next_id
    }

    /// What every buffer satisfies: at most `capacity` items, `capacity` at least one, ids
    /// strictly decreasing from newest to oldest and all below the next id to be given out.
    pub open spec fn inv(&self) -> bool {
        &&& self.spec_capacity() >= 1
        &&& self@.len() <= self.spec_capacity()
        &&& ids_descending(self@)
        &&& ids_below(self@, self.next_id())
        &&& self.next_id() >= 1
    }

    /// Create an empty buffer. A capacity of 0 is treated as 1.
    pub fn new(capacity: usize) -> (res: Self)
        ensures
            res@ == Seq::<ClipItem>::empty(),
            res.spec_capacity() == if capacity == 0 { 1 } else { capacity },
            res.next_id() == 1,
            res.inv(),
    {
        let cap = if capacity == 0 { 1 } else { capacity };
        Buffer { items: VecDeque::new(), capacity: cap, next_id: 1 }
    }

    pub fn capacity(&self) -> (res: usize)
        ensures
            res == self.spec_capacity(),
            self.inv(),
    {
        proof {
            use_type_invariant(self);
        }
        self.capacity
    }

    pub fn len(&self) -> (res: usize)
        ensures
            res == self@.len(),
            self.inv(),
    {
        proof {
            use_type_invariant(self);
        }
        self.items.len()
    }

    /// The id the next pushed item will receive.
    pub fn upcoming_id(&self) -> (res: ItemId)
        ensures
            res == self.next_id(),
            self.inv(),
    {
        proof {
            use_type_invariant(self);
        }
        self.next_id
    }

    pub fn is_empty(&self) -> (res: bool)
        ensures
            res == (self@.len() == 0),
            self.inv(),
    {
        proof {
            use_type_invariant(self);
        }
        self.items.len() == 0
    }

    /// Add an item captured at `captured_at_ms` (milliseconds since the Unix epoch) at the front,
    /// evicting the oldest when over capacity.
    pub fn push(
        &mut self,
        text: String,
        html: Option<String>,
        rtf: Option<String>,
        warnings: Vec<Warning>,
        captured_at_ms: u64,
    ) -> (res: PushResult)
        requires
            old(self).next_id() < u64::MAX,
        ensures
            old(self).inv(),
            final(self).inv(),
            push_effect(
                *old(self),
                *final(self),
                text@,
                opt_view(html),
                opt_view(rtf),
                warnings@,
                captured_at_ms,
                res,
            ),
    {
        proof {
            use_type_invariant(&*self);
        }
        if self.items.len() > 0 && str_eq(self.items[0].text.as_str(), text.as_str()) {
            return PushResult::Duplicate;
        }
        let id = self.next_id;
        let item = ClipItem { id, captured_at_ms, text, html, rtf, warnings };
        let mut items = VecDeque::new();
        std::mem::swap(&mut items, &mut self.items);
        let ghost before = items@;
        if items.len() >= self.capacity {
            items.truncate(self.capacity - 1);
        }
        let ghost kept = items@;
        items.push_front(item);
        assert(items@.skip(1) =~= kept);
        assert(kept =~= before.take(items@.len() - 1));
        assert forall|i: int, j: int| 0 <= i < j < items@.len() implies #[trigger] items@[i].id
            > #[trigger] items@[j].id by {
            if i > 0 {
                assert(items@[i] == before[i - 1]);
            }
            assert(items@[j] == before[j - 1]);
        }
        self.next_id = id + 1;
        self.items = items;
        PushResult::Pushed(id)
    }

    /// The item with id `id`, if it is in the buffer.
    pub fn get(&self, id: ItemId) -> (res: Option<&ClipItem>)
        ensures
            match res {
                Some(item) => has_id(self@, id) && *item == find_item(self@, id),
                None => !has_id(self@, id),
            },
            self.inv(),
    {
        proof {
            use_type_invariant(self);
        }
        let n = self.items.len();
        let mut i: usize = 0;
        while i < n
            invariant
                n == self@.len(),
                self@ == self.items@,
                self.inv(),
                i <= n,
                forall|j: int| 0 <= j < i ==> (#[trigger] self.items@[j]).id != id,
            decreases n - i,
        {
            if self.items[i].id == id {
                assert(self@[i as int] == self.items@[i as int]);
                proof {
                    let k = choose|k: int| 0 <= k < self@.len() && #[trigger] self@[k].id == id;
                    if k != i {
                        assert(self@[k].id != self@[i as int].id);
                    }
                }
                return Some(&self.items[i]);
            }
            i = i + 1;
        }
        None
    }

    /// Remove one item. Returns false when the id is unknown.
    pub fn remove(&mut self, id: ItemId) -> (res: bool)
        ensures
            res == has_id(old(self)@, id),
            old(self).inv(),
            final(self).inv(),
            final(self)@ == without_id(old(self)@, id),
            final(self).spec_capacity() == old(self).spec_capacity(),
            final(self).next_id() == old(self).next_id(),
    {
        proof {
            use_type_invariant(&*self);
        }
        let n = self.items.len();
        let mut i: usize = 0;
        while i < n
            invariant
                n == self.items@.len(),
                i <= n,
                self.items@ == old(self).items@,
                self.capacity == old(self).capacity,
                self.next_id == old(self).next_id,
                old(self).inv(),
                forall|j: int| 0 <= j < i ==> (#[trigger] self.items@[j]).id != id,
            decreases n - i,
        {
            if self.items[i].id == id {
                let ghost before = self.items@;
                let mut items = VecDeque::new();
                std::mem::swap(&mut items, &mut self.items);
                let _ = items.remove(i);
                proof {
                    lemma_remove_unique(before, i as int, id);
                }
                assert forall|a: int, b: int| 0 <= a < b < items@.len() implies #[trigger] items@[a].id
                    > #[trigger] items@[b].id by {
                    let a0 = if a < i { a } else { a + 1 };
                    let b0 = if b < i { b } else { b + 1 };
                    assert(items@[a] == before[a0]);
                    assert(items@[b] == before[b0]);
                }
                assert forall|a: int| 0 <= a < items@.len() implies #[trigger] items@[a].id
                    < self.next_id by {
                    let a0 = if a < i { a } else { a + 1 };
                    assert(items@[a] == before[a0]);
                }
                self.items = items;
                return true;
            }
            i = i + 1;
        }
        proof {
            lemma_filter_keeps_all(self.items@, id);
        }
        false
    }

    /// Remove every item. Ids are not reused afterwards.
    pub fn clear(&mut self)
        ensures
            final(self)@ == Seq::<ClipItem>::empty(),
            old(self).inv(),
            final(self).inv(),
            final(self).spec_capacity() == old(self).spec_capacity(),
            final(self).next_id() == old(self).next_id(),
    {
        proof {
            use_type_invariant(&*self);
        }
        let mut items = VecDeque::new();
        std::mem::swap(&mut items, &mut self.items);
        items.clear();
        self.items = items;
    }

    /// Change the capacity, dropping the oldest items if the buffer is now over it.
    pub fn set_capacity(&mut self, capacity: usize)
        ensures
            final(self).spec_capacity() == if capacity == 0 { 1 } else { capacity },
            old(self).inv(),
            final(self).inv(),
            final(self)@ == old(self)@.take(
                vstd::math::min(old(self)@.len() as int, final(self).spec_capacity() as int),
            ),
            final(self).next_id() == old(self).next_id(),
    {
        proof {
            use_type_invariant(&*self);
        }
        let cap = if capacity == 0 { 1 } else { capacity };
        let mut items = VecDeque::new();
        std::mem::swap(&mut items, &mut self.items);
        let ghost before = items@;
        items.truncate(cap);
        assert(items@ =~= before.take(vstd::math::min(before.len() as int, cap as int)));
        self.capacity = cap;
        self.items = items;
    }

    /// Items newest first.
    pub fn items(&self) -> (res: std::collections::vec_deque::Iter<'_, ClipItem>)
        ensures
            res.remaining() == self@.as_ref(),
            IteratorSpec::decrease(&res) is Some,
            IteratorSpec::initial_value_relation(&res, &res),
            self.inv(),
    {
        proof {
            use_type_invariant(self);
        }
        self.items.iter()
    }
}

proof fn lemma_filter_keeps_all(items: Seq<ClipItem>, id: ItemId)
    requires
        forall|j: int| 0 <= j < items.len() ==> (#[trigger] items[j]).id != id,
    ensures
        without_id(items, id) == items,
        !has_id(items, id),
    decreases items.len(),
{
    reveal_with_fuel(Seq::filter, 1);
    if items.len() > 0 {
        lemma_filter_keeps_all(items.drop_last(), id);
        assert(items.drop_last().push(items.last()) =~= items);
    }
    assert(without_id(items, id) =~= items);
}

proof fn lemma_remove_unique(items: Seq<ClipItem>, i: int, id: ItemId)
    requires
        0 <= i < items.len(),
        items[i].id == id,
        ids_descending(items),
    ensures
        without_id(items, id) == items.remove(i),
        has_id(items, id),
    decreases items.len(),
{
    reveal_with_fuel(Seq::filter, 1);
    let last = items.len() - 1;
    if i == last {
        assert forall|j: int| 0 <= j < items.drop_last().len() implies (#[trigger] items.drop_last()[j]).id
            != id by {
            assert(items[j].id > items[i].id);
        }
        lemma_filter_keeps_all(items.drop_last(), id);
        assert(items.drop_last() =~= items.remove(i));
    } else {
        assert(items[last].id < id);
        lemma_remove_unique(items.drop_last(), i, id);
        assert(items.drop_last().remove(i).push(items.last()) =~= items.remove(i));
    }
}

/// A push that stores an item gives it the buffer's next id, which is larger than the id of
/// every item stored before, and the next id after it is larger still: ids are never reused.
pub proof fn lemma_pushed_id_is_fresh(
    old: Buffer,
    new: Buffer,
    text: Seq<char>,
    html: Option<Seq<char>>,
    rtf: Option<Seq<char>>,
    warnings: Seq<Warning>,
    captured_at_ms: u64,
)
    requires
        old.inv(),
        push_effect(old, new, text, html, rtf, warnings, captured_at_ms, push_result(old, text)),
        !newest_text_is(old@, text),
    ensures
        new@[0].id == old.next_id(),
        forall|i: int| 0 <= i < old@.len() ==> #[trigger] old@[i].id < new@[0].id,
        new@[0].id < new.next_id(),
        !has_id(old@, new@[0].id),
{
    assert(new@.len() >= 1);
    assert(new@[0].view_data().id == new@[0].id);
}

/// After removing an id, no stored item has that id.
pub proof fn lemma_removed_id_is_gone(items: Seq<ClipItem>, id: ItemId)
    ensures
        !has_id(without_id(items, id), id),
{
    let r = without_id(items, id);
    if has_id(r, id) {
        let k = choose|k: int| 0 <= k < r.len() && #[trigger] r[k].id == id;
        items.lemma_filter_pred(|it: ClipItem| it.id != id, k);
        assert(false);
    }
}

/// The newest item is the one found by its id.
pub proof fn lemma_newest_is_found(b: Buffer)
    requires
        b.inv(),
        b@.len() > 0,
    ensures
        has_id(b@, b@[0].id),
        find_item(b@, b@[0].id) == b@[0],
{
    assert(b@[0].id == b@[0].id);
    let k = choose|k: int| 0 <= k < b@.len() && #[trigger] b@[k].id == b@[0].id;
    if k != 0 {
        assert(b@[0].id > b@[k].id);
    }
}

/// The id a push reports, if it stored an item.
pub open spec fn pushed_id(res: PushResult) -> Option<ItemId> {
    match res {
        PushResult::Pushed(id) => Some(id),
        PushResult::Duplicate => None,
    }
}

/// One call of a `Buffer` method took `old` to `new`, handing out the id `given` (`None` when
/// it handed out none), as that method's contract describes: a push (stored or a duplicate),
/// the removal of an id, a clear, or a change of capacity.
pub open spec fn buffer_step(old: Buffer, new: Buffer, given: Option<ItemId>) -> bool {
    ||| exists|
        text: Seq<char>,
        html: Option<Seq<char>>,
        rtf: Option<Seq<char>>,
        warnings: Seq<Warning>,
        captured_at_ms: u64,
        res: PushResult,
    |
        #[trigger] push_effect(old, new, text, html, rtf, warnings, captured_at_ms, res) && given
            == pushed_id(res)
    ||| {
        &&& given is None
        &&& exists|id: ItemId| #[trigger] without_id(old@, id) == new@
        &&& new.spec_capacity() == old.spec_capacity()
        &&& new.next_id() == old.next_id()
    }
    ||| {
        &&& given is None
        &&& new@.len() == 0
        &&& new.spec_capacity() == old.spec_capacity()
        &&& new.next_id() == old.next_id()
    }
    ||| {
        &&& given is None
        &&& new@ == old@.take(vstd::math::min(old@.len() as int, new.spec_capacity() as int))
        &&& new.next_id() == old.next_id()
    }
}

proof fn lemma_step_ids(old: Buffer, new: Buffer, given: Option<ItemId>)
    requires
        buffer_step(old, new, given),
    ensures
        old.next_id() <= new.next_id(),
        given matches Some(id) ==> id == old.next_id() && new.next_id() == old.next_id() + 1,
{
}

proof fn lemma_next_id_grows(trace: Seq<Buffer>, given: Seq<Option<ItemId>>, i: int, j: int)
    requires
        trace.len() == given.len() + 1,
        forall|k: int| 0 <= k < given.len() ==> #[trigger] buffer_step(trace[k], trace[k + 1], given[k]),
        0 <= i <= j < trace.len(),
    ensures
        trace[i].next_id() <= trace[j].next_id(),
    decreases j - i,
{
    if i < j {
        let k = j - 1;
        lemma_next_id_grows(trace, given, i, k);
        lemma_step_ids(trace[k], trace[k + 1], given[k]);
    }
}

/// Ids are never reused: along any run of buffer operations (pushes, removals, clears and
/// capacity changes), the ids handed out by pushes strictly increase, and each one is the id of
/// no item held when it was handed out.
pub proof fn lemma_ids_never_reused(trace: Seq<Buffer>, given: Seq<Option<ItemId>>)
    requires
        trace.len() == given.len() + 1,
        forall|k: int| 0 <= k < trace.len() ==> (#[trigger] trace[k]).inv(),
        forall|k: int| 0 <= k < given.len() ==> #[trigger] buffer_step(trace[k], trace[k + 1], given[k]),
    ensures
        forall|i: int, j: int|
            0 <= i < j < given.len() && #[trigger] given[i] is Some && #[trigger] given[j] is Some
                ==> given[i]->0 < given[j]->0,
        forall|i: int|
            0 <= i < given.len() && #[trigger] given[i] is Some ==> !has_id(trace[i]@, given[i]->0),
{
    assert forall|i: int, j: int|
        0 <= i < j < given.len() && #[trigger] given[i] is Some && #[trigger] given[j] is Some
            implies given[i]->0 < given[j]->0 by {
        lemma_step_ids(trace[i], trace[i + 1], given[i]);
        lemma_step_ids(trace[j], trace[j + 1], given[j]);
        lemma_next_id_grows(trace, given, i + 1, j);
    }
    assert forall|i: int| 0 <= i < given.len() && #[trigger] given[i] is Some implies !has_id(
        trace[i]@,
        given[i]->0,
    ) by {
        lemma_step_ids(trace[i], trace[i + 1], given[i]);
        assert(trace[i].inv());
        if has_id(trace[i]@, given[i]->0) {
            let k = choose|k: int| 0 <= k < trace[i]@.len() && #[trigger] trace[i]@[k].id == given[i]->0;
            assert(trace[i]@[k].id < trace[i].next_id());
        }
    }
}

} // verus!
