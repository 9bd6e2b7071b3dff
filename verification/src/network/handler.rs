//! The packet router, and what the server decides for each client packet.
//! Sending the replies and broadcasts is left to the caller.
use vstd::prelude::*;
use std::collections::HashMap;
use crate::enums::MirDirection;
use crate::item::{ground_item_near, ItemManager, ItemTemplate};
use crate::map::{first_connection_at, spec_walkable_at, MapConnection, MapManager};
use crate::messages::{decimal, numbered_player_name, spaced_player_name};
use crate::monster::ai::stepped;
use crate::monster::{ids_on, near_ids, MonsterManager};
use crate::npc::shop::{spec_try_buy, ShopResult, ShopSystem};
use crate::npc::{NpcManager, NpcTemplate};
use crate::packets::server::NPCGoodsItem;
use crate::types::manhattan;

verus! {

broadcast use vstd::std_specs::hash::group_hash_axioms;

/// Handlers by packet id: each client packet goes to the handler
/// registered for its id.
pub struct PacketRouter<H> {
    handlers: HashMap<u16, H>,
}

impl<H> View for PacketRouter<H> {
    type V = Map<u16, H>;

    closed spec fn view(&self) -> Map<u16, H> {
        self.handlers@
    }
}

/// The handler `handlers` gives packet id `packet_id`.
pub open spec fn spec_dispatch<H>(handlers: Map<u16, H>, packet_id: u16) -> Option<H> {
    if handlers.contains_key(packet_id) { Some(handlers[packet_id]) } else { None }
}

impl<H> PacketRouter<H> {
    /// No handler.
    pub fn new() -> (r: Self)
        ensures
            r@ == Map::<u16, H>::empty(),
    {
        PacketRouter { handlers: HashMap::new() }
    }

    /// Registers `handler` for `packet_id`, replacing an earlier one.
    pub fn register(&mut self, packet_id: u16, handler: H)
        ensures
            final(self)@ == old(self)@.insert(packet_id, handler),
    {
        self.handlers.insert(packet_id, handler);
    }

    /// The handler registered for `packet_id`; `None` when there is none
    /// (the packet is then ignored).
    pub fn dispatch(&self, packet_id: u16) -> (r: Option<&H>)
        ensures
            r == (match spec_dispatch(self@, packet_id) {
                Some(h) => Some(&h),
                None => None::<&H>,
            }),
    {
        self.handlers.get(&packet_id)
    }

    /// Number of packet ids with a handler.
    pub fn handler_count(&self) -> (r: usize)
        ensures
            r == self@.dom().len(),
    {
        self.handlers.len()
    }
}

/// After a handler is registered for a packet id, that id dispatches to it,
/// every other id dispatches as before, and the count of handled ids grows
/// by one unless the id had a handler already.
pub proof fn law_register_then_dispatch<H>(handlers: Map<u16, H>, packet_id: u16, handler: H, other: u16)
    requires
        handlers.dom().finite(),
    ensures
        spec_dispatch(handlers.insert(packet_id, handler), packet_id) == Some(handler),
        other != packet_id ==> spec_dispatch(handlers.insert(packet_id, handler), other) == spec_dispatch(
            handlers,
            other,
        ),
        handlers.insert(packet_id, handler).dom().len() == handlers.dom().len() + (if handlers.contains_key(
            packet_id,
        ) {
            0int
        } else {
            1int
        }),
{
    if handlers.contains_key(packet_id) {
        assert(handlers.insert(packet_id, handler).dom() =~= handlers.dom());
    } else {
        assert(handlers.insert(packet_id, handler).dom() =~= handlers.dom().insert(packet_id));
    }
}

/// What a walk leads to.
#[derive(Debug)]
pub enum WalkOutcome {
    /// The step is blocked; the player stays at `at`.
    Blocked { at: (i32, i32) },
    /// The player stepped to `to`; standing on `gate`, a gate to a loaded
    /// map, the player moves on through it.
    Moved { to: (i32, i32), gate: Option<MapConnection> },
}

/// The connection found at the position, when its target map is loaded.
pub open spec fn usable_gate(maps: Map<u16, crate::map::MapData>, map_id: u16, to: (i32, i32)) -> Option<MapConnection> {
    if maps.contains_key(map_id) {
        match first_connection_at(maps[map_id].connections@, to.0, to.1) {
            Some(c) => if maps.contains_key(c.target_map_id) { Some(c) } else { None },
            None => None,
        }
    } else {
        None
    }
}

/// The outcome of a step from `location` on `map_id` in `dir`: without
/// maps every step goes; with maps the target tile must be walkable.
pub open spec fn spec_walk(location: (i32, i32), map_id: u16, dir: MirDirection, maps: Option<Map<u16, crate::map::MapData>>) -> WalkOutcome {
    let to = stepped(location, dir);
    match maps {
        None => WalkOutcome::Moved { to, gate: None },
        Some(m) => if m.contains_key(map_id) && spec_walkable_at(m[map_id], to.0, to.1) {
            WalkOutcome::Moved { to, gate: usable_gate(m, map_id, to) }
        } else {
            WalkOutcome::Blocked { at: location }
        },
    }
}

/// Decides a walk (or run) step (see [`spec_walk`]).
pub fn decide_walk(location: (i32, i32), map_id: u16, dir: MirDirection, maps: Option<&MapManager>) -> (r: WalkOutcome)
    requires
        i32::MIN < location.0 < i32::MAX,
        i32::MIN < location.1 < i32::MAX,
    ensures
        r == spec_walk(location, map_id, dir, match maps {
            Some(mm) => Some(mm@),
            None => None,
        }),
{
    let (dx, dy) = crate::combat::direction_offset(dir);
    let to = (location.0 + dx, location.1 + dy);
    match maps {
        None => WalkOutcome::Moved { to, gate: None },
        Some(mm) => {
            if !mm.is_walkable(map_id, to.0, to.1) {
                return WalkOutcome::Blocked { at: location };
            }
            let gate = match mm.find_connection(map_id, to.0, to.1) {
                Some(c) => match mm.get_map(c.target_map_id) {
                    Some(_) => Some(c),
                    None => None,
                },
                None => None,
            };
            WalkOutcome::Moved { to, gate }
        },
    }
}

/// The monster an attack from `location` in `dir` on `map_id` strikes: the
/// first live monster listed on the map within one step of the tile in
/// front of the player.
pub fn pick_attack_target(monsters: &MonsterManager, map_id: u16, location: (i32, i32), dir: MirDirection) -> (r: Option<u32>)
    requires
        i32::MIN < location.0 < i32::MAX,
        i32::MIN < location.1 < i32::MAX,
    ensures
        ({
            let cell = stepped(location, dir);
            let near = near_ids(ids_on(monsters.monsters_by_map@, map_id), monsters.monsters@, cell.0, cell.1, 1);
            r == (if near.len() > 0 { Some(near[0]) } else { None::<u32> })
        }),
{
    let (dx, dy) = crate::combat::direction_offset(dir);
    let near = monsters.get_monsters_near(map_id, location.0 + dx, location.1 + dy, 1);
    if near.len() > 0 {
        Some(near[0])
    } else {
        None
    }
}

/// Experience after gaining `exp`, saturating at `u64::MAX`.
pub fn gain_experience(experience: u64, exp: u32) -> (r: u64)
    ensures
        r == (if experience + exp > u64::MAX { u64::MAX } else { (experience + exp) as u64 }),
{
    experience.saturating_add(exp as u64)
}

/// The name a player shows in chat: the character's name, or
/// `"Player <session id>"` before one is chosen.
pub fn chat_name(character_name: &String, session_id: u32) -> (r: String)
    ensures
        character_name@.len() > 0 ==> r@ == character_name@,
        character_name@.len() == 0 ==> r@ == "Player "@ + decimal(session_id as nat),
{
    if character_name.as_str().is_empty() {
        spaced_player_name(session_id)
    } else {
        character_name.clone()
    }
}

/// The name a player shows to others on a map: the character's name, or
/// `"Player<session id>"` before one is chosen.
pub fn shown_name(character_name: &String, session_id: u32) -> (r: String)
    ensures
        character_name@.len() > 0 ==> r@ == character_name@,
        character_name@.len() == 0 ==> r@ == "Player"@ + decimal(session_id as nat),
{
    if character_name.as_str().is_empty() {
        numbered_player_name(session_id)
    } else {
        character_name.clone()
    }
}

/// The chat line broadcast for `message` said by `name`: `"[name] message"`.
pub fn chat_line(name: &str, message: &str) -> (r: String)
    ensures
        r@ == "["@ + name@ + "] "@ + message@,
{
    let open = String::from_str("[");
    let line = open.concat(name).concat("] ").concat(message);
    line
}

/// What calling an NPC leads to.
#[derive(Debug)]
pub enum NpcCallOutcome {
    /// No NPC has this id.
    NotFound,
    /// The NPC is on another map.
    NotOnMap,
    /// The NPC is more than `NPC_TALK_RANGE` steps away.
    TooFar,
    /// A shop: the goods it sells whose templates are known, in its order.
    Goods { npc_id: u16, goods: Vec<NPCGoodsItem> },
    /// An NPC that only talks.
    Talk,
}

/// Farthest a player can be from an NPC to talk to it.
pub const NPC_TALK_RANGE: i32 = 12;

/// `goods` lists, in order, the items of `ids` whose templates `tm` knows,
/// with their prices and names.
pub open spec fn goods_listed(goods: Seq<NPCGoodsItem>, ids: Seq<u16>, tm: Map<u16, ItemTemplate>) -> bool
    decreases ids.len(),
{
    if ids.len() == 0 {
        goods.len() == 0
    } else if tm.contains_key(ids.last()) {
        &&& goods.len() > 0
        &&& goods.last().item_id == tm[ids.last()].id
        &&& goods.last().price == tm[ids.last()].price
        &&& goods.last().name@ == tm[ids.last()].name@
        &&& goods_listed(goods.drop_last(), ids.drop_last(), tm)
    } else {
        goods_listed(goods, ids.drop_last(), tm)
    }
}

/// The goods of a shop selling `ids`.
fn shop_goods(ids: &Vec<u16>, items: &ItemManager) -> (r: Vec<NPCGoodsItem>)
    ensures
        goods_listed(r@, ids@, items.templates_map()),
{
    let mut goods: Vec<NPCGoodsItem> = Vec::new();
    let mut i: usize = 0;
    while i < ids.len()
        invariant
            i <= ids@.len(),
            goods_listed(goods@, ids@.take(i as int), items.templates_map()),
        decreases ids@.len() - i,
    {
        let id = ids[i];
        proof {
            assert(ids@.take(i as int + 1).drop_last() =~= ids@.take(i as int));
        }
        match items.get_template(id) {
            Some(t) => {
                let ghost before = goods@;
                goods.push(NPCGoodsItem { item_id: t.id, price: t.price, name: t.name.clone() });
                proof {
                    assert(goods@.drop_last() =~= before);
                    assert(ids@.take(i as int + 1).last() == id);
                }
            },
                None => {
                assert(ids@.take(i as int + 1).last() == id);
            },
        }
        i = i + 1;
    }
    proof {
        assert(ids@.take(ids@.len() as int) =~= ids@);
    }
    goods
}

/// Decides a call of NPC `npc_id` by a player at `location` on `map_id`.
/// A shop is an NPC with a shop type and goods to sell.
pub fn decide_call_npc(npcs: &NpcManager, items: &ItemManager, npc_id: u16, map_id: u16, location: (i32, i32)) -> (r: NpcCallOutcome)
    ensures
        !npcs.templates@.contains_key(npc_id) ==> r is NotFound,
        npcs.templates@.contains_key(npc_id) ==> {
            let npc = npcs.templates@[npc_id];
            if npc.map_id != map_id {
                r is NotOnMap
            } else if manhattan(npc.x as int, npc.y as int, location.0 as int, location.1 as int) > NPC_TALK_RANGE {
                r is TooFar
            } else if npc.shop_type@.len() > 0 && npc.selling_items@.len() > 0 {
                r matches NpcCallOutcome::Goods { npc_id: id, goods } && id == npc.id && goods_listed(
                    goods@,
                    npc.selling_items@,
                    items.templates_map(),
                )
            } else {
                r is Talk
            }
        },
{
    let npc: &NpcTemplate = match npcs.get_npc(npc_id) {
        Some(n) => n,
        None => return NpcCallOutcome::NotFound,
    };
    if npc.map_id != map_id {
        return NpcCallOutcome::NotOnMap;
    }
    let dist = crate::item::distance_i64(npc.x, npc.y, location.0, location.1);
    if dist > NPC_TALK_RANGE as i64 {
        return NpcCallOutcome::TooFar;
    }
    if !npc.shop_type.as_str().is_empty() && npc.selling_items.len() != 0 {
        let goods = shop_goods(&npc.selling_items, items);
        NpcCallOutcome::Goods { npc_id: npc.id, goods }
    } else {
        NpcCallOutcome::Talk
    }
}

/// What a purchase request leads to.
#[derive(Debug)]
pub enum BuyOutcome {
    NpcNotFound,
    ItemNotFound,
    /// The checks of [`ShopSystem::try_buy`] failed with this verdict.
    Refused(ShopResult),
    /// Bought: the player's gold becomes `gold`.
    Bought { gold: u64 },
}

/// Decides a request to buy item `item_id` from NPC `npc_id` with `gold`:
/// the NPC and the item must exist and pass the checks before a purchase;
/// the price is then paid.
pub fn decide_buy(npcs: &NpcManager, items: &ItemManager, npc_id: u16, item_id: u16, gold: u64) -> (r: BuyOutcome)
    ensures
        !npcs.templates@.contains_key(npc_id) ==> r is NpcNotFound,
        npcs.templates@.contains_key(npc_id) && !items.templates_map().contains_key(item_id) ==> r is ItemNotFound,
        npcs.templates@.contains_key(npc_id) && items.templates_map().contains_key(item_id) ==> {
            let verdict = spec_try_buy(
                npcs.templates@[npc_id].selling_items@,
                items.templates_map()[item_id].id,
                items.templates_map()[item_id].price,
                gold,
            );
            if verdict == ShopResult::Success {
                r == BuyOutcome::Bought { gold: (gold - items.templates_map()[item_id].price) as u64 }
            } else {
                r == BuyOutcome::Refused(verdict)
            }
        },
{
    let npc = match npcs.get_npc(npc_id) {
        Some(n) => n,
        None => return BuyOutcome::NpcNotFound,
    };
    let template = match items.get_template(item_id) {
        Some(t) => t,
        None => return BuyOutcome::ItemNotFound,
    };
    match ShopSystem::try_buy(npc, template, gold) {
        ShopResult::Success => BuyOutcome::Bought { gold: gold - template.price as u64 },
        other => BuyOutcome::Refused(other),
    }
}

/// The ground item a player at `location` on `map_id` picks up: the first
/// within one step, if any.
pub fn pick_up_target(items: &ItemManager, map_id: u16, location: (i32, i32)) -> (r: Option<u32>)
    ensures
        match r {
            Some(id) => items.ground_map().contains_key(id) && ground_item_near(
                items.ground_map()[id],
                map_id,
                location.0,
                location.1,
                1,
            ),
            None => forall|k: u32| #[trigger] items.ground_map().contains_key(k) ==> !ground_item_near(
                items.ground_map()[k],
                map_id,
                location.0,
                location.1,
                1,
            ),
        },
{
    let near = items.get_ground_items_near(map_id, location.0, location.1, 1);
    if near.len() > 0 {
        Some(near[0])
    } else {
        proof {
            assert forall|k: u32| #[trigger] items.ground_map().contains_key(k) implies !ground_item_near(
                items.ground_map()[k],
                map_id,
                location.0,
                location.1,
                1,
            ) by {
                if ground_item_near(items.ground_map()[k], map_id, location.0, location.1, 1) {
                    assert(near@.contains(k));
                }
            }
        }
        None
    }
}

} // verus!
