//! NPCs: their templates, found by id, by map, or near a position.
pub mod shop;

use vstd::prelude::*;
use std::collections::HashMap;
use crate::collections::hash_map_keys;
use crate::item::distance_i64;
use crate::types::manhattan;

verus! {

broadcast use vstd::std_specs::hash::group_hash_axioms;

/// An NPC template, read from the NPC data file.
#[derive(Debug, Clone)]
pub struct NpcTemplate {
    pub id: u16,
    pub name: String,
    pub map_id: u16,
    pub x: i32,
    pub y: i32,
    pub image: u16,
    /// Kind of shop; empty for an NPC that keeps none.
    pub shop_type: String,
    /// Ids of the items the NPC sells.
    pub selling_items: Vec<u16>,
}

/// NPC templates by id, with the NPC ids of each map.
pub struct NpcManager {
    pub templates: HashMap<u16, NpcTemplate>,
    /// NPC ids on each map, in loading order.
    pub npcs_by_map: HashMap<u16, Vec<u16>>,
}

/// The per-map id lists as sequences.
pub open spec fn ids_by_map(m: Map<u16, Vec<u16>>) -> Map<u16, Seq<u16>> {
    m.map_values(|v: Vec<u16>| v@)
}

/// The ids on `map_id` in `by_map`, empty when the map has none.
pub open spec fn ids_on(by_map: Map<u16, Seq<u16>>, map_id: u16) -> Seq<u16> {
    if by_map.contains_key(map_id) { by_map[map_id] } else { Seq::empty() }
}

/// The templates of `ids` that `tm` knows, in the order of `ids`.
pub open spec fn known_templates(ids: Seq<u16>, tm: Map<u16, NpcTemplate>) -> Seq<NpcTemplate>
    decreases ids.len(),
{
    if ids.len() == 0 {
        Seq::empty()
    } else {
        let rest = known_templates(ids.drop_last(), tm);
        if tm.contains_key(ids.last()) { rest.push(tm[ids.last()]) } else { rest }
    }
}

/// The NPC `npc` stands on `map_id` within `range` steps of `(x, y)`.
pub open spec fn npc_near(npc: NpcTemplate, map_id: u16, x: i32, y: i32, range: i32) -> bool {
    npc.map_id == map_id && manhattan(npc.x as int, npc.y as int, x as int, y as int) <= range
}

impl NpcManager {
    /// The id lists of each map, as sequences.
    pub open spec fn by_map(&self) -> Map<u16, Seq<u16>> {
        ids_by_map(self.npcs_by_map@)
    }

    /// No NPC.
    pub fn new() -> (r: Self)
        ensures
            r.templates@ == Map::<u16, NpcTemplate>::empty(),
            r.by_map() == Map::<u16, Seq<u16>>::empty(),
    {
        let r = NpcManager { templates: HashMap::new(), npcs_by_map: HashMap::new() };
        proof {
            assert(r.by_map() =~= Map::<u16, Seq<u16>>::empty());
        }
        r
    }

    /// Adds one template: it is stored under its id (replacing one with the
    /// same id) and its id is appended to the list of its map.
    pub fn add_template(&mut self, npc: NpcTemplate)
        ensures
            final(self).templates@ == old(self).templates@.insert(npc.id, npc),
            final(self).by_map() == old(self).by_map().insert(
                npc.map_id,
                ids_on(old(self).by_map(), npc.map_id).push(npc.id),
            ),
    {
        let id = npc.id;
        let map_id = npc.map_id;
        self.templates.insert(id, npc);
        let mut ids: Vec<u16> = match self.npcs_by_map.get(&map_id) {
            Some(v) => v.clone(),
            None => Vec::new(),
        };
        ids.push(id);
        self.npcs_by_map.insert(map_id, ids);
        proof {
            assert(self.by_map() =~= old(self).by_map().insert(map_id, ids_on(old(self).by_map(), map_id).push(id)));
        }
    }

    /// Adds the templates of `npcs` in order, as [`NpcManager::add_template`] does.
    pub fn load_from_list(&mut self, npcs: Vec<NpcTemplate>)
        ensures
            final(self).templates@ == templates_loaded(old(self).templates@, npcs@),
            final(self).by_map() == ids_loaded(old(self).by_map(), npcs@),
    {
        let mut npcs = npcs;
        let ghost all = npcs@;
        assert(all.len() == npcs.len());
        let mut i: usize = 0;
        while npcs.len() > 0
            invariant
                i <= all.len(),
                npcs@ == all.skip(i as int),
                npcs@.len() == all.len() - i,
                all.len() <= usize::MAX,
                self.templates@ == templates_loaded(old(self).templates@, all.take(i as int)),
                self.by_map() == ids_loaded(old(self).by_map(), all.take(i as int)),
            decreases npcs@.len(),
        {
            let npc = npcs.remove(0);
            proof {
                assert(npc == all[i as int]);
                assert(all.take(i as int + 1).drop_last() =~= all.take(i as int));
                assert(all.take(i as int + 1).last() == all[i as int]);
                assert(npcs@ =~= all.skip(i as int + 1));
            }
            self.add_template(npc);
            i = i + 1;
        }
        proof {
            assert(all.take(all.len() as int) =~= all);
        }
    }

    /// The template with id `id`.
    pub fn get_npc(&self, id: u16) -> (r: Option<&NpcTemplate>)
        ensures
            r == (if self.templates@.contains_key(id) { Some(&self.templates@[id]) } else { None }),
    {
        self.templates.get(&id)
    }

    /// The templates of the NPCs listed on `map_id`, in list order; listed
    /// ids without a template are skipped.
    pub fn get_npcs_on_map(&self, map_id: u16) -> (r: Vec<&NpcTemplate>)
        ensures
            r@.map_values(|t: &NpcTemplate| *t) == known_templates(ids_on(self.by_map(), map_id), self.templates@),
    {
        let mut r: Vec<&NpcTemplate> = Vec::new();
        match self.npcs_by_map.get(&map_id) {
            Some(ids) => {
                let ghost s = ids@;
                assert(ids_on(self.by_map(), map_id) == s);
                let mut i: usize = 0;
                while i < ids.len()
                    invariant
                        i <= s.len(),
                        s == ids@,
                        r@.map_values(|t: &NpcTemplate| *t) == known_templates(s.take(i as int), self.templates@),
                    decreases s.len() - i,
                {
                    let id = ids[i];
                    proof {
                        assert(s.take(i as int + 1).drop_last() =~= s.take(i as int));
                    }
                    match self.templates.get(&id) {
                        Some(t) => {
                            r.push(t);
                        },
                        None => {},
                    }
                    proof {
                        assert(r@.map_values(|t: &NpcTemplate| *t) =~= known_templates(s.take(i as int + 1), self.templates@));
                    }
                    i = i + 1;
                }
                proof {
                    assert(s.take(s.len() as int) =~= s);
                }
            },
            None => {
                assert(r@.map_values(|t: &NpcTemplate| *t) =~= Seq::<NpcTemplate>::empty());
            },
        }
        r
    }

    /// Some NPC on `map_id` within `range` steps (Manhattan distance) of
    /// `(x, y)`, with its id, if there is one. Which of several is returned
    /// follows the map's iteration order.
    pub fn find_nearby_npc(&self, map_id: u16, x: i32, y: i32, range: i32) -> (r: Option<(u16, &NpcTemplate)>)
        ensures
            match r {
                Some((id, npc)) => self.templates@.contains_key(id) && *npc == self.templates@[id]
                    && npc_near(*npc, map_id, x, y, range),
                None => forall|id: u16| #[trigger] self.templates@.contains_key(id)
                    ==> !npc_near(self.templates@[id], map_id, x, y, range),
            },
    {
        let keys = hash_map_keys(&self.templates);
        let mut i: usize = 0;
        while i < keys.len()
            invariant
                i <= keys@.len(),
                forall|k: u16| #[trigger] keys@.contains(k) <==> self.templates@.contains_key(k),
                forall|j: int| 0 <= j < i ==> !npc_near(self.templates@[#[trigger] keys@[j]], map_id, x, y, range),
            decreases keys@.len() - i,
        {
            let id = keys[i];
            assert(keys@.contains(id));
            let npc = self.templates.get(&id).unwrap();
            if npc.map_id == map_id {
                let dist = distance_i64(npc.x, npc.y, x, y);
                if dist <= range as i64 {
                    return Some((id, npc));
                }
            }
            i = i + 1;
        }
        proof {
            assert forall|id: u16| #[trigger] self.templates@.contains_key(id) implies !npc_near(self.templates@[id], map_id, x, y, range) by {
                assert(keys@.contains(id));
                let j = choose|j: int| 0 <= j < keys@.len() && keys@[j] == id;
            }
        }
        None
    }
}

/// Templates by id after adding `npcs` in order.
pub open spec fn templates_loaded(m: Map<u16, NpcTemplate>, npcs: Seq<NpcTemplate>) -> Map<u16, NpcTemplate>
    decreases npcs.len(),
{
    if npcs.len() == 0 {
        m
    } else {
        templates_loaded(m, npcs.drop_last()).insert(npcs.last().id, npcs.last())
    }
}

/// Id lists by map after adding `npcs` in order.
pub open spec fn ids_loaded(m: Map<u16, Seq<u16>>, npcs: Seq<NpcTemplate>) -> Map<u16, Seq<u16>>
    decreases npcs.len(),
{
    if npcs.len() == 0 {
        m
    } else {
        let before = ids_loaded(m, npcs.drop_last());
        before.insert(npcs.last().map_id, ids_on(before, npcs.last().map_id).push(npcs.last().id))
    }
}

impl Default for NpcManager {
    fn default() -> (r: Self)
        ensures
            r.templates@ == Map::<u16, NpcTemplate>::empty(),
            r.by_map() == Map::<u16, Seq<u16>>::empty(),
    {
        NpcManager::new()
    }
}

} // verus!
