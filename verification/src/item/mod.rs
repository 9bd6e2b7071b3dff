//! Items: templates, items lying on the ground, and the item manager.
pub mod drops;
pub mod inventory;

use vstd::prelude::*;
use std::collections::HashMap;
use std::time::Instant;
use crate::collections::hash_map_keys;
use crate::enums::ItemType;
use crate::time::{duration_secs, duration_since, instant_now};
use crate::types::manhattan;

verus! {

broadcast use vstd::std_specs::hash::group_hash_axioms;

/// An item template, loaded from the item data file.
#[derive(Debug, Clone)]
pub struct ItemTemplate {
    pub id: u16,
    pub name: String,
    pub item_type: ItemType,
    pub level: u16,
    pub hp_restore: u32,
    pub mp_restore: u32,
    pub weight: u32,
    pub stack_size: u32,
    pub price: u32,
    pub image: u16,
    pub required_class: i32,
    pub required_level: u16,
    pub description: String,
    /// Physical attack (min, max).
    pub dc_min: i32,
    pub dc_max: i32,
    /// Defence.
    pub ac: i32,
    /// Magic defence.
    pub mac: i32,
    pub accuracy: u32,
    pub agility: u32,
    pub durability: i32,
    /// Magic attack (min, max).
    pub mc_min: i32,
    pub mc_max: i32,
    /// Spiritual attack (min, max).
    pub sc_min: i32,
    pub sc_max: i32,
}

/// Manhattan distance computed without overflow.
pub fn distance_i64(ax: i32, ay: i32, bx: i32, by: i32) -> (r: i64)
    ensures
        r == manhattan(ax as int, ay as int, bx as int, by as int),
{
    let dx: i64 = if ax >= bx { ax as i64 - bx as i64 } else { bx as i64 - ax as i64 };
    let dy: i64 = if ay >= by { ay as i64 - by as i64 } else { by as i64 - ay as i64 };
    dx + dy
}

/// An item dropped on the ground.
#[derive(Debug, Clone)]
pub struct GroundItem {
    pub object_id: u32,
    pub item_id: u16,
    pub item_name: String,
    pub map_id: u16,
    pub x: i32,
    pub y: i32,
    pub count: u32,
    pub drop_time: Instant,
}

impl GroundItem {
    /// One item dropped now at `(x, y)` on `map_id`.
    pub fn new(object_id: u32, item_id: u16, item_name: String, map_id: u16, x: i32, y: i32) -> (r: Self)
        ensures
            r.object_id == object_id && r.item_id == item_id && r.item_name == item_name,
            r.map_id == map_id && r.x == x && r.y == y && r.count == 1,
    {
        GroundItem {
            object_id,
            item_id,
            item_name,
            map_id,
            x,
            y,
            count: 1,
            drop_time: instant_now(),
        }
    }

    /// Manhattan distance from the item to `(x, y)`.
    pub fn distance_to(&self, x: i32, y: i32) -> (r: i32)
        requires
            manhattan(self.x as int, self.y as int, x as int, y as int) <= i32::MAX,
        ensures
            r == manhattan(self.x as int, self.y as int, x as int, y as int),
    {
        crate::types::manhattan_i32(self.x, self.y, x, y)
    }
}

/// First object id handed to items on the ground.
pub const FIRST_GROUND_ID: u32 = 20000;

/// Seconds an item stays on the ground.
pub const GROUND_ITEM_LIFETIME_SECS: u64 = 60;

/// Whether an item that has lain on the ground for `age_secs` whole seconds
/// is cleared away: after more than `GROUND_ITEM_LIFETIME_SECS`.
pub fn ground_item_expired(age_secs: u64) -> (r: bool)
    ensures
        r == (age_secs > GROUND_ITEM_LIFETIME_SECS),
{
    age_secs > GROUND_ITEM_LIFETIME_SECS
}

/// Item templates and the items on the ground.
pub struct ItemManager {
    pub templates: HashMap<u16, ItemTemplate>,
    /// Items on the ground, by object id.
    pub ground_items: HashMap<u32, GroundItem>,
    next_ground_id: u32,
}

/// `item` lies on `map_id` within `range` of `(x, y)`.
pub open spec fn ground_item_near(item: GroundItem, map_id: u16, x: i32, y: i32, range: i32) -> bool {
    item.map_id == map_id && manhattan(item.x as int, item.y as int, x as int, y as int) <= range
}

/// Templates by id after storing `ts` in order.
pub open spec fn item_templates_loaded(m: Map<u16, ItemTemplate>, ts: Seq<ItemTemplate>) -> Map<u16, ItemTemplate>
    decreases ts.len(),
{
    if ts.len() == 0 {
        m
    } else {
        item_templates_loaded(m, ts.drop_last()).insert(ts.last().id, ts.last())
    }
}

impl ItemManager {
    /// Templates by id.
    pub closed spec fn templates_map(&self) -> Map<u16, ItemTemplate> {
        self.templates@
    }

    /// Items on the ground by object id.
    pub closed spec fn ground_map(&self) -> Map<u32, GroundItem> {
        self.ground_items@
    }

    /// The object id the next dropped item receives.
    pub closed spec fn next_ground_id(&self) -> u32 {
        self.next_ground_id
    }

    pub fn new() -> (r: Self)
        ensures
            r.templates_map() == Map::<u16, ItemTemplate>::empty(),
            r.ground_map() == Map::<u32, GroundItem>::empty(),
            r.next_ground_id() == FIRST_GROUND_ID,
    {
        ItemManager {
            templates: HashMap::new(),
            ground_items: HashMap::new(),
            next_ground_id: FIRST_GROUND_ID,
        }
    }

    /// Stores `templates` in order, each under its id (a later one with the
    /// same id replaces an earlier one).
    pub fn add_templates(&mut self, templates: Vec<ItemTemplate>)
        ensures
            final(self).templates_map() == item_templates_loaded(old(self).templates_map(), templates@),
            final(self).ground_map() == old(self).ground_map(),
            final(self).next_ground_id() == old(self).next_ground_id(),
    {
        let mut list = templates;
        let ghost all = list@;
        assert(all.len() == list.len());
        let mut i: usize = 0;
        while list.len() > 0
            invariant
                i <= all.len(),
                all.len() <= usize::MAX,
                list@ == all.skip(i as int),
                list@.len() == all.len() - i,
                self.templates@ == item_templates_loaded(old(self).templates@, all.take(i as int)),
                self.ground_items@ == old(self).ground_items@,
                self.next_ground_id == old(self).next_ground_id,
            decreases list@.len(),
        {
            let t = list.remove(0);
            proof {
                assert(t == all[i as int]);
                assert(all.take(i as int + 1).drop_last() =~= all.take(i as int));
                assert(list@ =~= all.skip(i as int + 1));
            }
            let id = t.id;
            self.templates.insert(id, t);
            i = i + 1;
        }
        proof {
            assert(all.take(all.len() as int) =~= all);
        }
    }

    /// The template with id `id`, if loaded.
    pub fn get_template(&self, id: u16) -> (r: Option<&ItemTemplate>)
        ensures
            match r {
                Some(t) => self.templates_map().contains_key(id) && self.templates_map()[id] == *t,
                None => !self.templates_map().contains_key(id),
            },
    {
        self.templates.get(&id)
    }

    /// Drops one item of template `item_id` at `(x, y)` on `map_id` and returns
    /// its new object id; `None` when there is no such template.
    pub fn drop_item_on_ground(&mut self, item_id: u16, map_id: u16, x: i32, y: i32) -> (r: Option<u32>)
        requires
            old(self).templates_map().contains_key(item_id) ==> old(self).next_ground_id() < u32::MAX,
        ensures
            final(self).templates_map() == old(self).templates_map(),
            !old(self).templates_map().contains_key(item_id) ==> r is None && final(self).ground_map()
                == old(self).ground_map() && final(self).next_ground_id() == old(self).next_ground_id(),
            old(self).templates_map().contains_key(item_id) ==> {
                let id = old(self).next_ground_id();
                let g = final(self).ground_map()[id];
                &&& r == Some(id)
                &&& final(self).next_ground_id() == id + 1
                &&& final(self).ground_map().dom() == old(self).ground_map().dom().insert(id)
                &&& forall|k: u32| k != id && #[trigger] old(self).ground_map().contains_key(k)
                    ==> final(self).ground_map()[k] == old(self).ground_map()[k]
                &&& g.object_id == id && g.item_id == item_id && g.map_id == map_id
                &&& g.x == x && g.y == y && g.count == 1
                &&& g.item_name == old(self).templates_map()[item_id].name
            },
    {
        let name = match self.templates.get(&item_id) {
            Some(t) => t.name.clone(),
            None => {
                return None;
            },
        };
        let object_id = self.next_ground_id;
        self.next_ground_id = self.next_ground_id + 1;
        let ground = GroundItem::new(object_id, item_id, name, map_id, x, y);
        self.ground_items.insert(object_id, ground);
        Some(object_id)
    }

    /// The item on the ground with object id `object_id`, if any.
    pub fn get_ground_item(&self, object_id: u32) -> (r: Option<&GroundItem>)
        ensures
            match r {
                Some(g) => self.ground_map().contains_key(object_id) && self.ground_map()[object_id]
                    == *g,
                None => !self.ground_map().contains_key(object_id),
            },
    {
        self.ground_items.get(&object_id)
    }

    /// Takes the item with object id `object_id` off the ground.
    pub fn remove_ground_item(&mut self, object_id: u32) -> (r: Option<GroundItem>)
        ensures
            final(self).templates_map() == old(self).templates_map(),
            final(self).next_ground_id() == old(self).next_ground_id(),
            final(self).ground_map() == old(self).ground_map().remove(object_id),
            match r {
                Some(g) => old(self).ground_map().contains_key(object_id) && old(self).ground_map()[object_id] == g,
                None => !old(self).ground_map().contains_key(object_id),
            },
    {
        self.ground_items.remove(&object_id)
    }

    /// Removes the items that have lain on the ground longer than 60 seconds
    /// (see [`ground_item_expired`]). The clock decides which; every item
    /// that stays is unchanged.
    pub fn clean_expired_ground_items(&mut self)
        ensures
            final(self).templates_map() == old(self).templates_map(),
            final(self).next_ground_id() == old(self).next_ground_id(),
            forall|k: u32| #[trigger] final(self).ground_map().contains_key(k) ==> old(
                self,
            ).ground_map().contains_key(k) && final(self).ground_map()[k] == old(
                self,
            ).ground_map()[k],
    {
        let now = instant_now();
        let keys = hash_map_keys(&self.ground_items);
        let ghost start = self.ground_items@;
        let mut i: usize = 0;
        while i < keys.len()
            invariant
                i <= keys@.len(),
                self.templates@ == old(self).templates@,
                self.next_ground_id == old(self).next_ground_id,
                start == old(self).ground_items@,
                forall|k: u32| #[trigger] self.ground_items@.contains_key(k) ==> start.contains_key(k)
                    && self.ground_items@[k] == start[k],
            decreases keys@.len() - i,
        {
            let id = keys[i];
            let expired = match self.ground_items.get(&id) {
                Some(item) => {
                    let d = duration_since(&now, &item.drop_time);
                    ground_item_expired(duration_secs(&d))
                },
                None => false,
            };
            if expired {
                self.ground_items.remove(&id);
            }
            i = i + 1;
        }
    }

    /// Object ids of the items lying on `map_id` within `range` of `(x, y)`
    /// (Manhattan distance), each once, in no particular order.
    pub fn get_ground_items_near(&self, map_id: u16, x: i32, y: i32, range: i32) -> (r: Vec<u32>)
        ensures
            r@.no_duplicates(),
            forall|i: int|
                0 <= i < r@.len() ==> self.ground_map().contains_key(#[trigger] r@[i])
                    && ground_item_near(self.ground_map()[r@[i]], map_id, x, y, range),
            forall|k: u32|
                #[trigger] self.ground_map().contains_key(k) && ground_item_near(
                    self.ground_map()[k],
                    map_id,
                    x,
                    y,
                    range,
                ) ==> r@.contains(k),
    {
        let keys = hash_map_keys(&self.ground_items);
        let mut r: Vec<u32> = Vec::new();
        let mut i: usize = 0;
        while i < keys.len()
            invariant
                i <= keys@.len(),
                keys@.no_duplicates(),
                forall|k: u32| #[trigger] keys@.contains(k) <==> self.ground_items@.contains_key(k),
                r@.no_duplicates(),
                forall|t: int|
                    0 <= t < r@.len() ==> self.ground_items@.contains_key(#[trigger] r@[t])
                        && ground_item_near(self.ground_items@[r@[t]], map_id, x, y, range),
                forall|j: int|
                    0 <= j < i && ground_item_near(
                        self.ground_items@[#[trigger] keys@[j]],
                        map_id,
                        x,
                        y,
                        range,
                    ) ==> r@.contains(keys@[j]),
                forall|c: u32| #[trigger] r@.contains(c) ==> exists|j: int| 0 <= j < i && keys@[j] == c,
            decreases keys@.len() - i,
        {
            let id = keys[i];
            assert(keys@.contains(id));
            let item = self.ground_items.get(&id).unwrap();
            let d = distance_i64(item.x, item.y, x, y);
            let ghost before = r@;
            if item.map_id == map_id && d <= range as i64 {
                proof {
                    assert(!r@.contains(id)) by {
                        if r@.contains(id) {
                            let j = choose|j: int| 0 <= j < i && keys@[j] == id;
                            assert(keys@[j] == keys@[i as int]);
                        }
                    }
                }
                let ghost old_r = r@;
                r.push(id);
                proof {
                    assert forall|c: u32| #[trigger] r@.contains(c) implies exists|j: int| 0 <= j < i + 1 && keys@[j] == c by {
                        if c != id {
                            let k = choose|k: int| 0 <= k < r@.len() && r@[k] == c;
                            assert(old_r[k] == c);
                            assert(old_r.contains(c));
                        } else {
                            assert(keys@[i as int] == c);
                        }
                    }
                }
            }
            proof {
                assert forall|j: int|
                    0 <= j < i + 1 && ground_item_near(
                        self.ground_items@[#[trigger] keys@[j]],
                        map_id,
                        x,
                        y,
                        range,
                    ) implies r@.contains(keys@[j]) by {
                    if j < i {
                        let k = choose|k: int| 0 <= k < before.len() && before[k] == keys@[j];
                        assert(r@[k] == keys@[j]);
                    } else {
                        assert(r@[r@.len() - 1] == keys@[j]);
                    }
                }
            }
            i = i + 1;
        }
        proof {
            assert forall|k: u32|
                #[trigger] self.ground_items@.contains_key(k) && ground_item_near(
                    self.ground_items@[k],
                    map_id,
                    x,
                    y,
                    range,
                ) implies r@.contains(k) by {
                assert(keys@.contains(k));
                let j = choose|j: int| 0 <= j < keys@.len() && keys@[j] == k;
            }
        }
        r
    }
}

} // verus!
