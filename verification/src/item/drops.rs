//! Monster drops and item pickup.
use vstd::prelude::*;
use crate::item::{ItemManager, ItemTemplate};

verus! {

/// The item ids a list of `(item_id, count)` drops puts on the ground, in
/// order: `count` copies of each id whose template is known.
pub open spec fn placed_items(drops: Seq<(u16, u32)>, templates: Map<u16, ItemTemplate>) -> Seq<u16>
    decreases drops.len(),
{
    if drops.len() == 0 {
        Seq::empty()
    } else {
        let rest = placed_items(drops.drop_last(), templates);
        let (id, c) = drops.last();
        if templates.contains_key(id) {
            rest + Seq::new(c as nat, |_j: int| id)
        } else {
            rest
        }
    }
}

proof fn lemma_placed_prefix_len(drops: Seq<(u16, u32)>, templates: Map<u16, ItemTemplate>, i: int)
    requires
        0 <= i <= drops.len(),
    ensures
        placed_items(drops.take(i), templates).len() <= placed_items(drops, templates).len(),
    decreases drops.len() - i,
{
    if i < drops.len() {
        lemma_placed_prefix_len(drops, templates, i + 1);
        assert(drops.take(i + 1).drop_last() =~= drops.take(i));
    } else {
        assert(drops.take(i) =~= drops);
    }
}

/// `item_manager` holds, at object ids `base + t`, the items `ids[t]` placed at
/// `(x, y)` on `map_id`.
pub open spec fn placed_at(
    item_manager: &ItemManager,
    base: u32,
    objs: Seq<u32>,
    ids: Seq<u16>,
    map_id: u16,
    x: i32,
    y: i32,
) -> bool {
    &&& objs.len() == ids.len()
    &&& forall|t: int|
        0 <= t < objs.len() ==> #[trigger] objs[t] == base + t
            && item_manager.ground_map().contains_key(objs[t])
            && item_manager.ground_map()[objs[t]].item_id == ids[t]
            && item_manager.ground_map()[objs[t]].map_id == map_id
            && item_manager.ground_map()[objs[t]].x == x
            && item_manager.ground_map()[objs[t]].y == y
            && item_manager.ground_map()[objs[t]].count == 1
}

/// Places the drops of a dead monster on the ground at `(x, y)`: each
/// `(item_id, count)` entry puts `count` single items down, in order, skipping
/// ids without a template. Returns the new object ids, consecutive from the
/// manager's next ground id. (Which drops a kill yields is rolled against each
/// rule's probability by the caller.)
pub fn handle_monster_drop(
    item_manager: &mut ItemManager,
    drops: &[(u16, u32)],
    map_id: u16,
    x: i32,
    y: i32,
) -> (r: Vec<u32>)
    requires
        old(item_manager).next_ground_id() + placed_items(drops@, old(item_manager).templates_map()).len()
            < u32::MAX,
    ensures
        final(item_manager).templates_map() == old(item_manager).templates_map(),
        final(item_manager).next_ground_id() == old(item_manager).next_ground_id() + r@.len(),
        placed_at(
            &*final(item_manager),
            old(item_manager).next_ground_id(),
            r@,
            placed_items(drops@, old(item_manager).templates_map()),
            map_id,
            x,
            y,
        ),
{
    let ghost tm = item_manager.templates_map();
    let ghost base = item_manager.next_ground_id();
    let mut dropped: Vec<u32> = Vec::new();
    let mut i: usize = 0;
    while i < drops.len()
        invariant
            i <= drops@.len(),
            tm == old(item_manager).templates_map(),
            base == old(item_manager).next_ground_id(),
            item_manager.templates_map() == tm,
            base + placed_items(drops@, tm).len() < u32::MAX,
            item_manager.next_ground_id() == base + dropped@.len(),
            placed_at(&*item_manager, base, dropped@, placed_items(drops@.take(i as int), tm), map_id, x, y),
        decreases drops@.len() - i,
    {
        let (item_id, count) = drops[i];
        let ghost before = placed_items(drops@.take(i as int), tm);
        proof {
            assert(drops@.take(i + 1).drop_last() =~= drops@.take(i as int));
            lemma_placed_prefix_len(drops@, tm, i + 1);
        }
        let known = item_manager.get_template(item_id).is_some();
        let ghost after = placed_items(drops@.take(i + 1), tm);
        let mut c: u32 = 0;
        while c < count
            invariant
                c <= count,
                known == tm.contains_key(item_id),
                item_manager.templates_map() == tm,
                base + placed_items(drops@, tm).len() < u32::MAX,
                after.len() <= placed_items(drops@, tm).len(),
                known ==> after == before + Seq::new(count as nat, |_j: int| item_id),
                !known ==> after == before,
                item_manager.next_ground_id() == base + dropped@.len(),
                known ==> placed_at(&*item_manager, base, dropped@, before + Seq::new(c as nat, |_j: int| item_id), map_id, x, y),
                !known ==> placed_at(&*item_manager, base, dropped@, before, map_id, x, y),
            decreases count - c,
        {
            let ghost old_dropped = dropped@;
            let ghost old_m = *item_manager;
            let placed = item_manager.drop_item_on_ground(item_id, map_id, x, y);
            match placed {
                Some(obj_id) => {
                    dropped.push(obj_id);
                    proof {
                        let ids = before + Seq::new((c + 1) as nat, |_j: int| item_id);
                        assert(ids =~= (before + Seq::new(c as nat, |_j: int| item_id)).push(item_id));
                        assert forall|t: int| 0 <= t < dropped@.len() implies #[trigger] dropped@[t] == base + t
                            && item_manager.ground_map().contains_key(dropped@[t])
                            && item_manager.ground_map()[dropped@[t]].item_id == ids[t]
                            && item_manager.ground_map()[dropped@[t]].map_id == map_id
                            && item_manager.ground_map()[dropped@[t]].x == x
                            && item_manager.ground_map()[dropped@[t]].y == y
                            && item_manager.ground_map()[dropped@[t]].count == 1 by {
                            if t < old_dropped.len() {
                                assert(old_dropped[t] == dropped@[t]);
                                assert(old_m.ground_map().contains_key(old_dropped[t]));
                            }
                        }
                    }
                },
                None => {},
            }
            c = c + 1;
        }
        proof {
            if known {
                assert(before + Seq::new(count as nat, |_j: int| item_id) =~= after);
            }
        }
        i = i + 1;
    }
    proof {
        assert(drops@.take(drops@.len() as int) =~= drops@);
    }
    dropped
}

/// A player picks up the item with object id `ground_object_id`: it leaves
/// the ground, and its `(item_id, count)` is returned; `None` when there is
/// no such item.
pub fn handle_player_pickup(item_manager: &mut ItemManager, ground_object_id: u32) -> (r: Option<(u16, u32)>)
    ensures
        final(item_manager).templates_map() == old(item_manager).templates_map(),
        final(item_manager).next_ground_id() == old(item_manager).next_ground_id(),
        final(item_manager).ground_map() == old(item_manager).ground_map().remove(ground_object_id),
        match r {
            Some((item_id, count)) => old(item_manager).ground_map().contains_key(ground_object_id)
                && old(item_manager).ground_map()[ground_object_id].item_id == item_id
                && old(item_manager).ground_map()[ground_object_id].count == count,
            None => !old(item_manager).ground_map().contains_key(ground_object_id),
        },
{
    match item_manager.remove_ground_item(ground_object_id) {
        Some(item) => Some((item.item_id, item.count)),
        None => None,
    }
}

} // verus!
