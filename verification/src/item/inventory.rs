//! A character's bag: a fixed number of slots, each empty or holding one stack.
use vstd::prelude::*;
use std::collections::HashMap;
use crate::item::{distance_i64, GroundItem};
use crate::models::UserItem;
use crate::types::manhattan;

verus! {

broadcast use vstd::std_specs::hash::group_hash_axioms;

/// Number of slots in a bag.
pub const INVENTORY_SLOTS: usize = 40;

/// One stack in the bag.
#[derive(Debug, Clone, Copy, PartialEq, Eq, Structural)]
pub struct InventorySlot {
    /// Id of the stored record (0 when not stored yet).
    pub uid: i64,
    pub item_id: u16,
    pub count: u32,
    pub durability: i32,
    pub max_durability: i32,
    pub is_equipped: bool,
}

/// A character's bag, held in memory.
pub struct InventoryManager {
    slots: Vec<Option<InventorySlot>>,
    character_id: i64,
}

/// The stack `add_item` puts into an empty slot.
pub open spec fn new_stack(item_id: u16, count: u32) -> InventorySlot {
    InventorySlot {
        uid: 0,
        item_id,
        count,
        durability: 0,
        max_durability: 0,
        is_equipped: false,
    }
}

/// Number of empty slots.
pub open spec fn count_empty(s: Seq<Option<InventorySlot>>) -> nat
    decreases s.len(),
{
    if s.len() == 0 {
        0
    } else {
        count_empty(s.drop_last()) + if s.last() is None { 1nat } else { 0nat }
    }
}

/// The occupied slots, as `(index, stack)` in slot order.
pub open spec fn occupied(s: Seq<Option<InventorySlot>>) -> Seq<(usize, InventorySlot)>
    decreases s.len(),
{
    if s.len() == 0 {
        Seq::empty()
    } else {
        let rest = occupied(s.drop_last());
        match s.last() {
            Some(it) => rest.push(((s.len() - 1) as usize, it)),
            None => rest,
        }
    }
}

/// `i` is the first empty slot.
pub open spec fn first_empty(s: Seq<Option<InventorySlot>>, i: int) -> bool {
    0 <= i < s.len() && is_empty_slot(s[i]) && forall|j: int| 0 <= j < i ==> !is_empty_slot(#[trigger] s[j])
}

/// `i` is the first slot holding item `item_id`.
pub open spec fn first_holding(s: Seq<Option<InventorySlot>>, i: int, item_id: u16) -> bool {
    0 <= i < s.len() && holds_item(s[i], item_id) && forall|j: int|
        0 <= j < i ==> !holds_item(#[trigger] s[j], item_id)
}

/// `bag` after taking `count` from the stack in `slot`: the slot empties
/// when the stack holds no more than `count`.
pub open spec fn bag_after_remove(bag: Seq<Option<InventorySlot>>, slot: int, count: u32) -> Seq<Option<InventorySlot>> {
    let it = bag[slot]->Some_0;
    bag.update(slot, if it.count <= count { None } else { Some(InventorySlot { count: (it.count - count) as u32, ..it }) })
}

/// Putting a stack into the first empty slot and then taking the whole
/// stack out of that slot leaves the bag as it was.
pub proof fn law_add_then_remove(bag: Seq<Option<InventorySlot>>, slot: int, item_id: u16, count: u32)
    requires
        first_empty(bag, slot),
    ensures
        bag_after_remove(bag.update(slot, Some(new_stack(item_id, count))), slot, count) == bag,
{
    assert(bag_after_remove(bag.update(slot, Some(new_stack(item_id, count))), slot, count) =~= bag);
}

/// Every slot is either empty or listed among the occupied ones: the empty
/// and the occupied slots together make up the bag.
pub proof fn law_empty_and_occupied_fill_the_bag(s: Seq<Option<InventorySlot>>)
    ensures
        count_empty(s) + occupied(s).len() == s.len(),
    decreases s.len(),
{
    if s.len() > 0 {
        law_empty_and_occupied_fill_the_bag(s.drop_last());
    }
}

/// The occupied slots are listed in increasing slot order, and `(i, x)` is
/// listed exactly when slot `i` holds `x`.
pub proof fn law_occupied_lists_the_stacks(s: Seq<Option<InventorySlot>>)
    requires
        s.len() <= usize::MAX,
    ensures
        forall|a: int, b: int| 0 <= a < b < occupied(s).len() ==> #[trigger] occupied(s)[a].0 < #[trigger] occupied(s)[b].0,
        forall|i: int| 0 <= i < occupied(s).len() ==> (#[trigger] occupied(s)[i]).0 < s.len(),
        forall|i: usize, x: InventorySlot| #[trigger] occupied(s).contains((i, x)) <==> (i < s.len() && s[i as int] == Some(x)),
    decreases s.len(),
{
    if s.len() > 0 {
        let t = s.drop_last();
        let r = occupied(t);
        law_occupied_lists_the_stacks(t);
        let last = (s.len() - 1) as usize;
        assert(last == s.len() - 1);
        match s.last() {
            Some(it) => {
                assert(occupied(s) == r.push((last, it)));
            },
            None => {
                assert(occupied(s) == r);
            },
        }
        assert forall|a: int, b: int| 0 <= a < b < occupied(s).len() implies #[trigger] occupied(s)[a].0 < #[trigger] occupied(s)[b].0 by {
            if b < r.len() {
                assert(occupied(s)[a] == r[a] && occupied(s)[b] == r[b]);
            } else {
                assert(occupied(s)[a] == r[a]);
                assert(r[a].0 < t.len());
            }
        }
        assert forall|k: int| 0 <= k < occupied(s).len() implies (#[trigger] occupied(s)[k]).0 < s.len() by {
            if k < r.len() {
                assert(occupied(s)[k] == r[k]);
            }
        }
        assert forall|i: usize, x: InventorySlot| #[trigger] occupied(s).contains((i, x)) <==> (i < s.len() && s[i as int] == Some(x)) by {
            if occupied(s).contains((i, x)) {
                let k = choose|k: int| 0 <= k < occupied(s).len() && occupied(s)[k] == (i, x);
                if k < r.len() {
                    assert(r[k] == (i, x));
                    assert(r.contains((i, x)));
                    assert(t[i as int] == s[i as int]);
                }
            }
            if i < s.len() && s[i as int] == Some(x) {
                if i < t.len() {
                    assert(t[i as int] == Some(x));
                    assert(r.contains((i, x)));
                    let k = choose|k: int| 0 <= k < r.len() && r[k] == (i, x);
                    assert(occupied(s)[k] == (i, x));
                } else {
                    assert(occupied(s)[occupied(s).len() - 1] == (i, x));
                }
            }
        }
    }
}

/// A bag has no more empty slots than slots.
pub proof fn lemma_count_empty_bounded(s: Seq<Option<InventorySlot>>)
    ensures
        count_empty(s) <= s.len(),
{
    law_empty_and_occupied_fill_the_bag(s);
}

/// A bag with an empty slot has a first one, and one without has none.
pub proof fn lemma_first_empty_iff_room(s: Seq<Option<InventorySlot>>)
    ensures
        (exists|i: int| #[trigger] first_empty(s, i)) <==> count_empty(s) > 0,
    decreases s.len(),
{
    if s.len() > 0 {
        let t = s.drop_last();
        lemma_first_empty_iff_room(t);
        if exists|i: int| #[trigger] first_empty(t, i) {
            let i = choose|i: int| #[trigger] first_empty(t, i);
            assert forall|j: int| 0 <= j < i implies !is_empty_slot(#[trigger] s[j]) by {
                assert(s[j] == t[j]);
            }
            assert(s[i] == t[i]);
            assert(first_empty(s, i));
        } else if s.last() is None {
            assert forall|j: int| 0 <= j < s.len() - 1 implies !is_empty_slot(#[trigger] s[j]) by {
                assert(s[j] == t[j]);
                if is_empty_slot(t[j]) {
                    lemma_empty_slot_gives_first(t, j);
                }
            }
            assert(first_empty(s, s.len() - 1));
        } else {
            if exists|i: int| #[trigger] first_empty(s, i) {
                let i = choose|i: int| #[trigger] first_empty(s, i);
                assert(i < s.len() - 1);
                assert(first_empty(t, i));
            }
        }
    }
}

/// An empty slot at `k` means there is a first empty slot.
proof fn lemma_empty_slot_gives_first(s: Seq<Option<InventorySlot>>, k: int)
    requires
        0 <= k < s.len(),
        is_empty_slot(s[k]),
    ensures
        exists|i: int| #[trigger] first_empty(s, i),
    decreases k,
{
    if forall|m: int| 0 <= m < k ==> !is_empty_slot(#[trigger] s[m]) {
        assert(first_empty(s, k));
    } else {
        let m = choose|m: int| 0 <= m < k && is_empty_slot(#[trigger] s[m]);
        lemma_empty_slot_gives_first(s, m);
    }
}

/// A bag keeps its owner through any run of calls that each keep it, as
/// `add_item`, `remove_item`, `set_slot` and `load_items` do: every state of
/// a run that starts from `InventoryManager::new(c)` belongs to `c`.
pub proof fn law_owner_kept(run: Seq<InventoryManager>, c: i64)
    requires
        run.len() > 0,
        run[0].owner() == c,
        forall|i: int| 0 <= i < run.len() - 1 ==> #[trigger] run[i + 1].owner() == run[i].owner(),
    ensures
        forall|i: int| 0 <= i < run.len() ==> #[trigger] run[i].owner() == c,
    decreases run.len(),
{
    if run.len() > 1 {
        let t = run.drop_last();
        assert forall|i: int| 0 <= i < t.len() - 1 implies #[trigger] t[i + 1].owner() == t[i].owner() by {
            assert(t[i + 1] == run[i + 1] && t[i] == run[i]);
        }
        law_owner_kept(t, c);
        assert forall|i: int| 0 <= i < run.len() implies #[trigger] run[i].owner() == c by {
            if i < t.len() {
                assert(run[i] == t[i]);
            } else {
                assert(run[i - 1] == t[i - 1]);
                assert(run[(i - 1) + 1].owner() == run[i - 1].owner());
            }
        }
    }
}

/// The slot is empty.
pub open spec fn is_empty_slot(o: Option<InventorySlot>) -> bool {
    o is None
}

/// The slot holds item `item_id`.
pub open spec fn holds_item(o: Option<InventorySlot>, item_id: u16) -> bool {
    o matches Some(it) && it.item_id == item_id
}

impl View for InventoryManager {
    type V = Seq<Option<InventorySlot>>;

    closed spec fn view(&self) -> Seq<Option<InventorySlot>> {
        self.slots@
    }
}

impl InventoryManager {
    /// The character the bag belongs to.
    pub closed spec fn owner(&self) -> i64 {
        self.character_id
    }

    /// A bag always has `INVENTORY_SLOTS` slots.
    #[verifier::type_invariant]
    spec fn keeps_its_size(self) -> bool {
        self.slots@.len() == INVENTORY_SLOTS
    }

    /// An empty bag of `INVENTORY_SLOTS` slots.
    pub fn new(character_id: i64) -> (r: Self)
        ensures
            r@ == Seq::new(INVENTORY_SLOTS as nat, |_i: int| None::<InventorySlot>),
            r@.len() == INVENTORY_SLOTS,
            r.owner() == character_id,
    {
        let mut slots: Vec<Option<InventorySlot>> = Vec::new();
        let mut i: usize = 0;
        while i < INVENTORY_SLOTS
            invariant
                i <= INVENTORY_SLOTS,
                slots@ == Seq::new(i as nat, |_i: int| None::<InventorySlot>),
            decreases INVENTORY_SLOTS - i,
        {
            slots.push(None);
            i = i + 1;
            assert(slots@ =~= Seq::new(i as nat, |_i: int| None::<InventorySlot>));
        }
        InventoryManager { slots, character_id }
    }

    /// The stack in `slot`; `None` when the slot is empty or outside the bag.
    pub fn get_slot(&self, slot: usize) -> (r: Option<&InventorySlot>)
        ensures
            self@.len() == INVENTORY_SLOTS,
            match r {
                Some(it) => slot < self@.len() && self@[slot as int] == Some(*it),
                None => slot >= self@.len() || self@[slot as int] is None,
            },
    {
        proof {
            use_type_invariant(&*self);
        }
        if slot < self.slots.len() {
            match &self.slots[slot] {
                Some(it) => Some(it),
                None => None,
            }
        } else {
            None
        }
    }

    /// Replaces the content of `slot`.
    pub fn set_slot(&mut self, slot: usize, item: Option<InventorySlot>)
        requires
            slot < old(self)@.len(),
        ensures
            old(self)@.len() == INVENTORY_SLOTS,
            final(self)@ == old(self)@.update(slot as int, item),
            final(self).owner() == old(self).owner(),
    {
        proof {
            use_type_invariant(&*self);
        }
        self.slots[slot] = item;
    }

    /// Puts `count` of item `item_id` into the first empty slot and returns
    /// that slot; `None` (bag unchanged) when the bag is full.
    pub fn add_item(&mut self, item_id: u16, count: u32) -> (r: Option<usize>)
        ensures
            old(self)@.len() == INVENTORY_SLOTS && final(self)@.len() == INVENTORY_SLOTS,
            final(self).owner() == old(self).owner(),
            match r {
                Some(i) => first_empty(old(self)@, i as int)
                    && final(self)@ == old(self)@.update(i as int, Some(new_stack(item_id, count))),
                None => final(self)@ == old(self)@ && forall|j: int|
                    0 <= j < old(self)@.len() ==> !is_empty_slot(#[trigger] old(self)@[j]),
            },
    {
        proof {
            use_type_invariant(&*self);
        }
        let mut i: usize = 0;
        while i < self.slots.len()
            invariant
                i <= self.slots@.len(),
                self.slots@.len() == INVENTORY_SLOTS,
                self.slots@ == old(self).slots@,
                self.character_id == old(self).character_id,
                forall|j: int| 0 <= j < i ==> !is_empty_slot(#[trigger] self.slots@[j]),
            decreases self.slots@.len() - i,
        {
            if self.slots[i].is_none() {
                self.slots[i] = Some(InventorySlot {
                            uid: 0,
                            item_id,
                            count,
                            durability: 0,
                            max_durability: 0,
                            is_equipped: false,
                        });
                return Some(i);
            }
            i = i + 1;
        }
        None
    }

    /// Takes `count` from the stack in `slot`: the slot empties when the
    /// stack holds no more than `count`. `false` (bag unchanged) when the slot
    /// is empty or outside the bag.
    pub fn remove_item(&mut self, slot: usize, count: u32) -> (r: bool)
        ensures
            old(self)@.len() == INVENTORY_SLOTS && final(self)@.len() == INVENTORY_SLOTS,
            final(self).owner() == old(self).owner(),
            r == (slot < old(self)@.len() && old(self)@[slot as int] is Some),
            !r ==> final(self)@ == old(self)@,
            r ==> final(self)@ == bag_after_remove(old(self)@, slot as int, count),
    {
        proof {
            use_type_invariant(&*self);
        }
        if slot < self.slots.len() {
            match self.slots[slot] {
                Some(item) => {
                    if item.count <= count {
                        self.slots[slot] = None;
                    } else {
                        let mut it = item;
                        it.count = item.count - count;
                        self.slots[slot] = Some(it);
                    }
                    true
                },
                None => false,
            }
        } else {
            false
        }
    }

    /// Number of empty slots.
    pub fn empty_slots(&self) -> (r: usize)
        ensures
            self@.len() == INVENTORY_SLOTS,
            r == count_empty(self@),
    {
        proof {
            use_type_invariant(&*self);
        }
        let mut n: usize = 0;
        let mut i: usize = 0;
        while i < self.slots.len()
            invariant
                i <= self.slots@.len(),
                n == count_empty(self.slots@.take(i as int)),
                n <= i,
            decreases self.slots@.len() - i,
        {
            proof {
                assert(self.slots@.take(i + 1).drop_last() =~= self.slots@.take(i as int));
            }
            if self.slots[i].is_none() {
                n = n + 1;
            }
            i = i + 1;
        }
        proof {
            assert(self.slots@.take(i as int) =~= self.slots@);
        }
        n
    }

    /// At least `slots_needed` slots are empty.
    pub fn has_space_for(&self, slots_needed: usize) -> (r: bool)
        ensures
            self@.len() == INVENTORY_SLOTS,
            r == (count_empty(self@) >= slots_needed),
            slots_needed == 0 ==> r,
            slots_needed > INVENTORY_SLOTS ==> !r,
    {
        proof {
            use_type_invariant(&*self);
        }
        proof {
            lemma_count_empty_bounded(self@);
        }
        self.empty_slots() >= slots_needed
    }

    /// The occupied slots as `(index, stack)`, in slot order.
    pub fn all_items(&self) -> (r: Vec<(usize, &InventorySlot)>)
        ensures
            self@.len() == INVENTORY_SLOTS,
            r@.len() == occupied(self@).len(),
            forall|i: int|
                0 <= i < r@.len() ==> (#[trigger] r@[i]).0 == occupied(self@)[i].0 && *r@[i].1
                    == occupied(self@)[i].1,
    {
        proof {
            use_type_invariant(&*self);
        }
        let mut r: Vec<(usize, &InventorySlot)> = Vec::new();
        let mut i: usize = 0;
        while i < self.slots.len()
            invariant
                i <= self.slots@.len(),
                r@.len() == occupied(self.slots@.take(i as int)).len(),
                forall|k: int|
                    0 <= k < r@.len() ==> (#[trigger] r@[k]).0 == occupied(self.slots@.take(i as int))[k].0
                        && *r@[k].1 == occupied(self.slots@.take(i as int))[k].1,
            decreases self.slots@.len() - i,
        {
            proof {
                assert(self.slots@.take(i + 1).drop_last() =~= self.slots@.take(i as int));
            }
            match &self.slots[i] {
                Some(it) => {
                    r.push((i, it));
                },
                None => {},
            }
            i = i + 1;
        }
        proof {
            assert(self.slots@.take(i as int) =~= self.slots@);
        }
        r
    }

    /// The character the bag belongs to.
    pub fn character_id(&self) -> (r: i64)
        ensures
            self@.len() == INVENTORY_SLOTS,
            r == self.owner(),
    {
        proof {
            use_type_invariant(&*self);
        }
        self.character_id
    }

    /// The first slot holding item `item_id`, if any.
    pub fn find_slot_by_item_id(&self, item_id: u16) -> (r: Option<usize>)
        ensures
            self@.len() == INVENTORY_SLOTS,
            match r {
                Some(i) => first_holding(self@, i as int, item_id),
                None => forall|j: int| 0 <= j < self@.len() ==> !holds_item(#[trigger] self@[j], item_id),
            },
    {
        proof {
            use_type_invariant(&*self);
        }
        let mut i: usize = 0;
        while i < self.slots.len()
            invariant
                i <= self.slots@.len(),
                self.slots@.len() == INVENTORY_SLOTS,
                forall|j: int| 0 <= j < i ==> !holds_item(#[trigger] self.slots@[j], item_id),
            decreases self.slots@.len() - i,
        {
            match &self.slots[i] {
                Some(it) => {
                    if it.item_id == item_id {
                        return Some(i);
                    }
                },
                None => {},
            }
            i = i + 1;
        }
        None
    }

    /// Puts stored records into their slots, in order (a later record for the
    /// same slot wins); records whose slot lies outside the bag are skipped.
    pub fn load_items(&mut self, items: &[UserItem])
        ensures
            old(self)@.len() == INVENTORY_SLOTS && final(self)@.len() == INVENTORY_SLOTS,
            final(self).owner() == old(self).owner(),
            final(self)@ == loaded(old(self)@, items@),
    {
        proof {
            use_type_invariant(&*self);
        }
        let mut n: usize = 0;
        while n < items.len()
            invariant
                n <= items@.len(),
                self.slots@.len() == INVENTORY_SLOTS,
                old(self)@.len() == INVENTORY_SLOTS,
                self.character_id == old(self).character_id,
                self.slots@ == loaded(old(self)@, items@.take(n as int)),
            decreases items@.len() - n,
        {
            let item = items[n];
            proof {
                assert(items@.take(n + 1).drop_last() =~= items@.take(n as int));
                lemma_loaded_len(old(self)@, items@.take(n as int));
            }
            if item.slot >= 0 && (item.slot as usize) < self.slots.len() {
                let s = item.slot as usize;
                self.slots[s] = Some(stack_of_record(item));
            }
            n = n + 1;
        }
        proof {
            assert(items@.take(n as int) =~= items@);
        }
    }
}

/// The stack a stored record stands for (not equipped).
pub open spec fn spec_stack_of_record(item: UserItem) -> InventorySlot {
    InventorySlot {
        uid: item.id,
        item_id: item.item_id as u16,
        count: item.count as u32,
        durability: item.durability,
        max_durability: item.max_durability,
        is_equipped: false,
    }
}

fn stack_of_record(item: UserItem) -> (r: InventorySlot)
    ensures
        r == spec_stack_of_record(item),
{
    InventorySlot {
        uid: item.id,
        item_id: item.item_id as u16,
        count: item.count as u32,
        durability: item.durability,
        max_durability: item.max_durability,
        is_equipped: false,
    }
}

/// The slots after loading `items` in order.
pub open spec fn loaded(slots: Seq<Option<InventorySlot>>, items: Seq<UserItem>) -> Seq<Option<InventorySlot>>
    decreases items.len(),
{
    if items.len() == 0 {
        slots
    } else {
        let s = loaded(slots, items.drop_last());
        let it = items.last();
        if 0 <= it.slot < s.len() {
            s.update(it.slot as int, Some(spec_stack_of_record(it)))
        } else {
            s
        }
    }
}

proof fn lemma_loaded_len(slots: Seq<Option<InventorySlot>>, items: Seq<UserItem>)
    ensures
        loaded(slots, items).len() == slots.len(),
    decreases items.len(),
{
    if items.len() > 0 {
        lemma_loaded_len(slots, items.drop_last());
    }
}

/// Whether the ground item `ground_item_id` exists and lies within one step
/// (Manhattan distance) of the player.
pub fn can_pick_up(
    ground_item_id: u32,
    player_x: i32,
    player_y: i32,
    ground_items: &HashMap<u32, GroundItem>,
) -> (r: bool)
    ensures
        r == (ground_items@.contains_key(ground_item_id) && manhattan(
            ground_items@[ground_item_id].x as int,
            ground_items@[ground_item_id].y as int,
            player_x as int,
            player_y as int,
        ) <= 1),
{
    match ground_items.get(&ground_item_id) {
        Some(item) => distance_i64(item.x, item.y, player_x, player_y) <= 1,
        None => false,
    }
}

} // verus!
