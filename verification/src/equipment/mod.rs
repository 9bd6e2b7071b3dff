//! Equipment: worn items, the stats they add, and their wear.
use vstd::prelude::*;
use std::collections::HashMap;
use crate::collections::hash_map_keys;
use crate::enums::{EquipmentSlot, ItemType};
use crate::item::{ItemManager, ItemTemplate};
use crate::item::inventory::{
    count_empty, first_empty, is_empty_slot, lemma_first_empty_iff_room, new_stack, InventoryManager, InventorySlot,
};
use crate::messages::{decimal, empty_inventory_slot, item_type_debug, slot_not_equipped, unequippable_type};

verus! {

broadcast use vstd::std_specs::hash::group_hash_axioms;

/// Combat stats of a player: base stats from the level plus worn items.
#[derive(Debug, Clone, Copy, PartialEq, Eq, Structural)]
pub struct PlayerStats {
    pub dc_min: i32,
    pub dc_max: i32,
    pub mc_min: i32,
    pub mc_max: i32,
    pub sc_min: i32,
    pub sc_max: i32,
    pub ac: i32,
    pub mac: i32,
    pub accuracy: u32,
    pub agility: u32,
}

/// Base stats of a level: DC/MC/SC `level..level+1`, AC `level`, MAC
/// `level / 2`, accuracy `level / 3`, agility `level / 5`.
pub open spec fn spec_from_level(level: u16) -> PlayerStats {
    PlayerStats {
        dc_min: level as i32,
        dc_max: (level + 1) as i32,
        mc_min: level as i32,
        mc_max: (level + 1) as i32,
        sc_min: level as i32,
        sc_max: (level + 1) as i32,
        ac: level as i32,
        mac: (level / 2) as i32,
        accuracy: (level / 3) as u32,
        agility: (level / 5) as u32,
    }
}

/// `a + b` saturated at `u32::MAX`.
pub open spec fn sat_add_u32(a: u32, b: u32) -> u32 {
    if a + b > u32::MAX {
        u32::MAX
    } else {
        (a + b) as u32
    }
}

/// Adding a template's stats stays within `i32`.
pub open spec fn add_fits(s: PlayerStats, t: ItemTemplate) -> bool {
    &&& i32::MIN <= s.dc_min + t.dc_min <= i32::MAX
    &&& i32::MIN <= s.dc_max + t.dc_max <= i32::MAX
    &&& i32::MIN <= s.mc_min + t.mc_min <= i32::MAX
    &&& i32::MIN <= s.mc_max + t.mc_max <= i32::MAX
    &&& i32::MIN <= s.sc_min + t.sc_min <= i32::MAX
    &&& i32::MIN <= s.sc_max + t.sc_max <= i32::MAX
    &&& i32::MIN <= s.ac + t.ac <= i32::MAX
    &&& i32::MIN <= s.mac + t.mac <= i32::MAX
}

/// The stats with one worn item added; accuracy and agility saturate.
pub open spec fn spec_add_equipment(s: PlayerStats, t: ItemTemplate) -> PlayerStats {
    PlayerStats {
        dc_min: (s.dc_min + t.dc_min) as i32,
        dc_max: (s.dc_max + t.dc_max) as i32,
        mc_min: (s.mc_min + t.mc_min) as i32,
        mc_max: (s.mc_max + t.mc_max) as i32,
        sc_min: (s.sc_min + t.sc_min) as i32,
        sc_max: (s.sc_max + t.sc_max) as i32,
        ac: (s.ac + t.ac) as i32,
        mac: (s.mac + t.mac) as i32,
        accuracy: sat_add_u32(s.accuracy, t.accuracy),
        agility: sat_add_u32(s.agility, t.agility),
    }
}

/// The stats of a level with the items `ts` added in order.
pub open spec fn spec_calculate(level: u16, ts: Seq<ItemTemplate>) -> PlayerStats
    decreases ts.len(),
{
    if ts.len() == 0 {
        spec_from_level(level)
    } else {
        spec_add_equipment(spec_calculate(level, ts.drop_last()), ts.last())
    }
}

/// Adding the items `ts` in order never leaves `i32`.
pub open spec fn calculate_fits(level: u16, ts: Seq<ItemTemplate>) -> bool {
    forall|k: int| 0 <= k < ts.len() ==> #[trigger] add_fits(spec_calculate(level, ts.take(k)), ts[k])
}

impl PlayerStats {
    /// Base stats of a level.
    pub fn from_level(level: u16) -> (r: Self)
        ensures
            r == spec_from_level(level),
    {
        let l = level as i32;
        PlayerStats {
            dc_min: l,
            dc_max: l + 1,
            mc_min: l,
            mc_max: l + 1,
            sc_min: l,
            sc_max: l + 1,
            ac: l,
            mac: l / 2,
            accuracy: (level / 3) as u32,
            agility: (level / 5) as u32,
        }
    }

    /// Adds one worn item's stats.
    pub fn add_equipment(&mut self, template: &ItemTemplate)
        requires
            add_fits(*old(self), *template),
        ensures
            *final(self) == spec_add_equipment(*old(self), *template),
    {
        self.dc_min = self.dc_min + template.dc_min;
        self.dc_max = self.dc_max + template.dc_max;
        self.mc_min = self.mc_min + template.mc_min;
        self.mc_max = self.mc_max + template.mc_max;
        self.sc_min = self.sc_min + template.sc_min;
        self.sc_max = self.sc_max + template.sc_max;
        self.ac = self.ac + template.ac;
        self.mac = self.mac + template.mac;
        self.accuracy = self.accuracy.saturating_add(template.accuracy);
        self.agility = self.agility.saturating_add(template.agility);
    }

    /// Base stats of a level with the given items added in order.
    pub fn calculate(level: u16, templates: &[&ItemTemplate]) -> (r: Self)
        requires
            calculate_fits(level, templates@.map_values(|t: &ItemTemplate| *t)),
        ensures
            r == spec_calculate(level, templates@.map_values(|t: &ItemTemplate| *t)),
    {
        let ghost ts = templates@.map_values(|t: &ItemTemplate| *t);
        let mut stats = Self::from_level(level);
        let mut i: usize = 0;
        while i < templates.len()
            invariant
                i <= templates@.len(),
                ts == templates@.map_values(|t: &ItemTemplate| *t),
                calculate_fits(level, ts),
                stats == spec_calculate(level, ts.take(i as int)),
            decreases templates@.len() - i,
        {
            proof {
                assert(ts.take(i + 1).drop_last() =~= ts.take(i as int));
                assert(add_fits(spec_calculate(level, ts.take(i as int)), ts[i as int]));
            }
            stats.add_equipment(templates[i]);
            i = i + 1;
        }
        proof {
            assert(ts.take(i as int) =~= ts);
        }
        stats
    }
}

impl Default for PlayerStats {
    /// All stats zero.
    fn default() -> (r: Self)
        ensures
            r == (PlayerStats {
                dc_min: 0,
                dc_max: 0,
                mc_min: 0,
                mc_max: 0,
                sc_min: 0,
                sc_max: 0,
                ac: 0,
                mac: 0,
                accuracy: 0,
                agility: 0,
            }),
    {
        PlayerStats {
            dc_min: 0,
            dc_max: 0,
            mc_min: 0,
            mc_max: 0,
            sc_min: 0,
            sc_max: 0,
            ac: 0,
            mac: 0,
            accuracy: 0,
            agility: 0,
        }
    }
}

/// An item worn in an equipment slot.
#[derive(Debug, Clone, Copy)]
struct EquippedItem {
    template_id: u16,
    durability: i32,
}

/// The items worn by a player, by equipment slot index (the `EquipmentSlot`
/// wire values).
#[derive(Debug)]
pub struct EquipmentManager {
    slots: HashMap<u8, EquippedItem>,
}

/// The equipment slot an item type is worn in: weapon 0, armour 1, helmet 2,
/// torch 3, necklace 4, bracelet 5 (left), ring 7 (left), amulet 9, belt 10,
/// boots 11, stone 12, mount 13; other types are not worn.
pub open spec fn spec_item_type_to_slot(t: ItemType) -> Option<u8> {
    match t {
        ItemType::Weapon => Some(0u8),
        ItemType::Armour => Some(1u8),
        ItemType::Helmet => Some(2u8),
        ItemType::Torch => Some(3u8),
        ItemType::Necklace => Some(4u8),
        ItemType::Bracelet => Some(5u8),
        ItemType::Ring => Some(7u8),
        ItemType::Amulet => Some(9u8),
        ItemType::Belt => Some(10u8),
        ItemType::Boots => Some(11u8),
        ItemType::Stone => Some(12u8),
        ItemType::Mount => Some(13u8),
        _ => None,
    }
}

/// Each wearable item type is worn in the equipment slot of the same name
/// (its `EquipmentSlot` wire value; bracelets and rings on the left), no
/// other type is worn, and two different types never share a slot, so
/// wearing one never takes off an item of another type.
pub proof fn law_wearable_slots()
    ensures
        spec_item_type_to_slot(ItemType::Weapon) == Some(EquipmentSlot::Weapon.spec_code()),
        spec_item_type_to_slot(ItemType::Armour) == Some(EquipmentSlot::Armour.spec_code()),
        spec_item_type_to_slot(ItemType::Helmet) == Some(EquipmentSlot::Helmet.spec_code()),
        spec_item_type_to_slot(ItemType::Torch) == Some(EquipmentSlot::Torch.spec_code()),
        spec_item_type_to_slot(ItemType::Necklace) == Some(EquipmentSlot::Necklace.spec_code()),
        spec_item_type_to_slot(ItemType::Bracelet) == Some(EquipmentSlot::BraceletL.spec_code()),
        spec_item_type_to_slot(ItemType::Ring) == Some(EquipmentSlot::RingL.spec_code()),
        spec_item_type_to_slot(ItemType::Amulet) == Some(EquipmentSlot::Amulet.spec_code()),
        spec_item_type_to_slot(ItemType::Belt) == Some(EquipmentSlot::Belt.spec_code()),
        spec_item_type_to_slot(ItemType::Boots) == Some(EquipmentSlot::Boots.spec_code()),
        spec_item_type_to_slot(ItemType::Stone) == Some(EquipmentSlot::Stone.spec_code()),
        spec_item_type_to_slot(ItemType::Mount) == Some(EquipmentSlot::Mount.spec_code()),
        forall|t: ItemType| #[trigger] spec_item_type_to_slot(t) is Some <==> (t == ItemType::Weapon || t == ItemType::Armour || t == ItemType::Helmet || t == ItemType::Torch || t == ItemType::Necklace || t == ItemType::Bracelet || t == ItemType::Ring || t == ItemType::Amulet || t == ItemType::Belt || t == ItemType::Boots || t == ItemType::Stone || t == ItemType::Mount),
        forall|a: ItemType, b: ItemType|
            #[trigger] spec_item_type_to_slot(a) == #[trigger] spec_item_type_to_slot(b) && spec_item_type_to_slot(a) is Some
                ==> a == b,
{
}

/// What `InventoryManager::add_item(item_id, 1)` does to a bag: the slot used
/// and the bag after.
pub open spec fn bag_after_add(bag: Seq<Option<InventorySlot>>, item_id: u16) -> (Option<int>, Seq<Option<InventorySlot>>) {
    if exists|i: int| #[trigger] first_empty(bag, i) {
        let i = choose|i: int| #[trigger] first_empty(bag, i);
        (Some(i), bag.update(i, Some(new_stack(item_id, 1))))
    } else {
        (None, bag)
    }
}

/// The first empty slot is unique.
proof fn lemma_first_empty_unique(bag: Seq<Option<InventorySlot>>, i: int, j: int)
    requires
        first_empty(bag, i),
        first_empty(bag, j),
    ensures
        i == j,
{
    if i < j {
        assert(!is_empty_slot(bag[i]));
    } else if j < i {
        assert(!is_empty_slot(bag[j]));
    }
}

/// What unequipping `slot` does: `Ok(template_id)` when the bag took the item
/// back, or an error (`None` here) with the equipment and bag after.
pub open spec fn spec_unequip(
    eq: Map<u8, (u16, i32)>,
    bag: Seq<Option<InventorySlot>>,
    slot: u8,
) -> (Option<u16>, Map<u8, (u16, i32)>, Seq<Option<InventorySlot>>) {
    if !eq.contains_key(slot) {
        (None, eq, bag)
    } else {
        let tid = eq[slot].0;
        let (added, bag2) = bag_after_add(bag, tid);
        if added is None {
            // The bag is full: the item stays worn, as it was.
            (None, eq, bag)
        } else {
            (Some(tid), eq.remove(slot), bag2)
        }
    }
}

/// The text of the error `unequip` gives for `slot`: nothing worn there, or
/// no room in the bag.
pub open spec fn spec_unequip_error(eq: Map<u8, (u16, i32)>, slot: u8) -> Seq<char> {
    if !eq.contains_key(slot) {
        "Slot "@ + decimal(slot as nat) + " is not equipped"@
    } else {
        "Inventory is full, cannot unequip"@
    }
}

/// The text of the error `equip` gives, by the first check that fails: the
/// type is not wearable, the bag slot is empty, the bag holds another item,
/// or what is worn cannot be taken off.
pub open spec fn spec_equip_error(
    eq: Map<u8, (u16, i32)>,
    bag: Seq<Option<InventorySlot>>,
    t: ItemTemplate,
    inv_slot: int,
) -> Seq<char> {
    match spec_item_type_to_slot(t.item_type) {
        None => "Item type "@ + item_type_debug(t.item_type) + " cannot be equipped"@,
        Some(s) => {
            if !(0 <= inv_slot < bag.len() && bag[inv_slot] is Some) {
                "Inventory slot "@ + decimal(inv_slot as nat) + " is empty"@
            } else if bag[inv_slot]->Some_0.item_id != t.id {
                "Item ID mismatch between template and inventory slot"@
            } else {
                spec_unequip_error(eq, s)
            }
        },
    }
}

/// What equipping the item in bag slot `inv_slot` (described by `t`) does:
/// success, with the equipment and bag after.
pub open spec fn spec_equip(
    eq: Map<u8, (u16, i32)>,
    bag: Seq<Option<InventorySlot>>,
    t: ItemTemplate,
    inv_slot: int,
) -> (bool, Map<u8, (u16, i32)>, Seq<Option<InventorySlot>>) {
    match spec_item_type_to_slot(t.item_type) {
        None => (false, eq, bag),
        Some(s) => {
            if !(0 <= inv_slot < bag.len() && bag[inv_slot] is Some) {
                (false, eq, bag)
            } else if bag[inv_slot]->Some_0.item_id != t.id {
                (false, eq, bag)
            } else {
                let item = bag[inv_slot]->Some_0;
                let (ok, eq2, bag2) = if eq.contains_key(s) {
                    let (u, e, b) = spec_unequip(eq, bag, s);
                    (u is Some, e, b)
                } else {
                    (true, eq, bag)
                };
                if !ok {
                    (false, eq2, bag2)
                } else {
                    let dur = if t.durability > 0 {
                        t.durability
                    } else {
                        item.durability
                    };
                    let it = bag2[inv_slot]->Some_0;
                    let bag3 = bag2.update(
                        inv_slot,
                        if it.count <= 1 {
                            None
                        } else {
                            Some(InventorySlot { count: (it.count - 1) as u32, ..it })
                        },
                    );
                    (true, eq2.insert(s, (t.id, dur)), bag3)
                }
            }
        },
    }
}

/// Wearing a single item into a free equipment slot and taking it off
/// again gives back its template id and leaves the worn items as they were;
/// the item returns, as a fresh stack of one, to the first empty bag slot,
/// which is at latest the slot it was taken from.
pub proof fn law_equip_then_unequip(
    eq: Map<u8, (u16, i32)>,
    bag: Seq<Option<InventorySlot>>,
    t: ItemTemplate,
    inv_slot: int,
    s: u8,
)
    requires
        spec_item_type_to_slot(t.item_type) == Some(s),
        !eq.contains_key(s),
        0 <= inv_slot < bag.len(),
        bag[inv_slot] matches Some(it) && it.item_id == t.id && it.count == 1,
    ensures
        ({
            let (ok, e1, b1) = spec_equip(eq, bag, t, inv_slot);
            let (u, e2, b2) = spec_unequip(e1, b1, s);
            &&& ok
            &&& u == Some(t.id)
            &&& e2 == eq
            &&& exists|j: int| j <= inv_slot && first_empty(b1, j) && b2 == b1.update(j, Some(new_stack(t.id, 1)))
        }),
{
    let (ok, e1, b1) = spec_equip(eq, bag, t, inv_slot);
    assert(b1[inv_slot] is None);
    lemma_first_empty_exists(b1, inv_slot);
    let j = choose|j: int| #[trigger] first_empty(b1, j);
    assert(j <= inv_slot);
    let (u, e2, b2) = spec_unequip(e1, b1, s);
    assert(e2 =~= eq);
}

/// Taking off the item worn in `slot` succeeds exactly when something is
/// worn there and the bag has an empty slot; the item then goes, as a stack
/// of one, into the bag's first empty slot and the slot is cleared. On
/// failure the equipment, durability included, and the bag are unchanged.
pub proof fn law_unequip(eq: Map<u8, (u16, i32)>, bag: Seq<Option<InventorySlot>>, slot: u8)
    ensures
        ({
            let (u, e, b) = spec_unequip(eq, bag, slot);
            &&& u is Some <==> (eq.contains_key(slot) && count_empty(bag) > 0)
            &&& u is None ==> e == eq && b == bag
            &&& u is Some ==> u == Some(eq[slot].0) && e == eq.remove(slot) && exists|j: int| #[trigger] first_empty(bag, j)
                && b == bag.update(j, Some(new_stack(eq[slot].0, 1)))
        }),
{
    lemma_first_empty_iff_room(bag);
}

/// Wearing the item in bag slot `inv_slot` (described by `t`) can succeed:
/// its type is wearable, the bag slot holds the template's item, and either
/// nothing is worn in the type's slot or the bag has an empty slot for what
/// is worn there.
pub open spec fn equip_allowed(eq: Map<u8, (u16, i32)>, bag: Seq<Option<InventorySlot>>, t: ItemTemplate, inv_slot: int) -> bool {
    &&& spec_item_type_to_slot(t.item_type) is Some
    &&& 0 <= inv_slot < bag.len()
    &&& bag[inv_slot] is Some
    &&& bag[inv_slot]->Some_0.item_id == t.id
    &&& (!eq.contains_key(spec_item_type_to_slot(t.item_type)->Some_0) || count_empty(bag) > 0)
}

/// Wearing succeeds exactly when [`equip_allowed`]. On success the item is
/// worn in its type's slot, every other equipment slot keeps what it held,
/// the bag slot gives up one unit, the item taken off (if any) lies in the
/// bag's first empty slot, and every other bag slot is unchanged. On failure
/// nothing changes.
pub proof fn law_equip(eq: Map<u8, (u16, i32)>, bag: Seq<Option<InventorySlot>>, t: ItemTemplate, inv_slot: int)
    ensures
        ({
            let (ok, e, b) = spec_equip(eq, bag, t, inv_slot);
            let s = spec_item_type_to_slot(t.item_type)->Some_0;
            let it = bag[inv_slot]->Some_0;
            &&& ok <==> equip_allowed(eq, bag, t, inv_slot)
            &&& !ok ==> e == eq && b == bag
            &&& ok ==> e.contains_key(s) && e[s].0 == t.id
            &&& ok ==> forall|k: u8| k != s ==> #[trigger] e.contains_key(k) == eq.contains_key(k) && (eq.contains_key(k)
                ==> e[k] == eq[k])
            &&& ok ==> b.len() == bag.len()
            &&& ok ==> b[inv_slot] == (if it.count <= 1 {
                None
            } else {
                Some(InventorySlot { count: (it.count - 1) as u32, ..it })
            })
            &&& ok && eq.contains_key(s) ==> exists|j: int| #[trigger] first_empty(bag, j) && b[j] == Some(new_stack(eq[s].0, 1))
            &&& ok ==> forall|j: int| 0 <= j < bag.len() && j != inv_slot && !(eq.contains_key(s) && first_empty(bag, j))
                ==> #[trigger] b[j] == bag[j]
        }),
{
    lemma_first_empty_iff_room(bag);
    match spec_item_type_to_slot(t.item_type) {
        None => {},
        Some(s) => {
            if 0 <= inv_slot < bag.len() && bag[inv_slot] is Some && bag[inv_slot]->Some_0.item_id == t.id {
                if eq.contains_key(s) && count_empty(bag) > 0 {
                    let j = choose|j: int| #[trigger] first_empty(bag, j);
                    assert(j != inv_slot);
                }
            }
        },
    }
}

/// A bag with an empty slot at `k` has a first empty slot.
proof fn lemma_first_empty_exists(bag: Seq<Option<InventorySlot>>, k: int)
    requires
        0 <= k < bag.len(),
        is_empty_slot(bag[k]),
    ensures
        exists|j: int| #[trigger] first_empty(bag, j),
    decreases k,
{
    if forall|m: int| 0 <= m < k ==> !is_empty_slot(#[trigger] bag[m]) {
        assert(first_empty(bag, k));
    } else {
        let m = choose|m: int| 0 <= m < k && is_empty_slot(#[trigger] bag[m]);
        lemma_first_empty_exists(bag, m);
    }
}

/// `ts` lists, once each, the templates (found in `tm`) of the worn items.
pub open spec fn lists_worn_templates(
    ts: Seq<ItemTemplate>,
    eq: Map<u8, (u16, i32)>,
    tm: Map<u16, ItemTemplate>,
) -> bool {
    exists|ks: Seq<u8>| #[trigger] lists_worn_templates_by(ts, ks, eq, tm)
}

/// `ts` lists the templates of the worn items in slots `ks`, which are the
/// worn slots whose template is known, each once.
pub open spec fn lists_worn_templates_by(
    ts: Seq<ItemTemplate>,
    ks: Seq<u8>,
    eq: Map<u8, (u16, i32)>,
    tm: Map<u16, ItemTemplate>,
) -> bool {
    &&& ks.no_duplicates()
    &&& ks.len() == ts.len()
    &&& forall|k: u8| #[trigger] ks.contains(k) <==> (eq.contains_key(k) && tm.contains_key(eq[k].0))
    &&& forall|i: int| 0 <= i < ks.len() ==> #[trigger] ts[i] == tm[eq[ks[i]].0]
}

/// No two entries of `r` name the same slot.
pub open spec fn distinct_slots(r: Seq<(u8, u16)>) -> bool {
    forall|a: int, b: int| 0 <= a < b < r.len() ==> #[trigger] r[a].0 != #[trigger] r[b].0
}

/// After wearing down, `s` holds its item with one less durability when it
/// had some left, else unchanged.
pub open spec fn final_slot_ok(after: Map<u8, (u16, i32)>, before: Map<u8, (u16, i32)>, s: u8) -> bool {
    after[s] == (if before[s].1 > 0 {
        (before[s].0, (before[s].1 - 1) as i32)
    } else {
        before[s]
    })
}

impl Clone for EquipmentManager {
    /// A copy wearing the same items.
    fn clone(&self) -> (r: Self)
        ensures
            r@ == self@,
    {
        EquipmentManager { slots: self.slots.clone() }
    }
}

impl View for EquipmentManager {
    type V = Map<u8, (u16, i32)>;

    /// Worn items as `slot -> (template id, durability)`.
    closed spec fn view(&self) -> Map<u8, (u16, i32)> {
        self.slots@.map_values(|e: EquippedItem| (e.template_id, e.durability))
    }
}

impl EquipmentManager {
    /// Nothing worn.
    pub fn new() -> (r: Self)
        ensures
            r@ == Map::<u8, (u16, i32)>::empty(),
    {
        let r = EquipmentManager { slots: HashMap::new() };
        proof {
            assert(r@ =~= Map::<u8, (u16, i32)>::empty());
        }
        r
    }

    /// The equipment slot an item type is worn in.
    fn item_type_to_slot(item_type: ItemType) -> (r: Option<u8>)
        ensures
            r == spec_item_type_to_slot(item_type),
    {
        match item_type {
            ItemType::Weapon => Some(0),
            ItemType::Armour => Some(1),
            ItemType::Helmet => Some(2),
            ItemType::Torch => Some(3),
            ItemType::Necklace => Some(4),
            ItemType::Bracelet => Some(5),
            ItemType::Ring => Some(7),
            ItemType::Amulet => Some(9),
            ItemType::Belt => Some(10),
            ItemType::Boots => Some(11),
            ItemType::Stone => Some(12),
            ItemType::Mount => Some(13),
            _ => None,
        }
    }

    /// Takes off the item in `slot_index` and puts it into the first empty bag
    /// slot; returns its template id. When the bag is full the item stays
    /// worn as it was and an error comes back; also an error when nothing is
    /// worn there.
    pub fn unequip(&mut self, slot_index: u8, inventory: &mut InventoryManager) -> (r: Result<u16, String>)
        ensures
            ({
                let (u, e, b) = spec_unequip(old(self)@, old(inventory)@, slot_index);
                &&& (r is Ok <==> u is Some)
                &&& (r matches Ok(tid) ==> u == Some(tid))
                &&& (r matches Err(m) ==> m@ == spec_unequip_error(old(self)@, slot_index))
                &&& final(self)@ == e
                &&& final(inventory)@ == b
            }),
            final(inventory).owner() == old(inventory).owner(),
    {
        let removed = self.slots.remove(&slot_index);
        let worn = match removed {
            Some(eq) => eq,
            None => {
                proof {
                    assert(self@ =~= old(self)@);
                }
                return Err(slot_not_equipped(slot_index));
            },
        };
        let template_id = worn.template_id;
        let ghost bag = inventory@;
        let free_slot = inventory.add_item(template_id, 1);
        proof {
            if let Some(i) = free_slot {
                let j = choose|j: int| #[trigger] first_empty(bag, j);
                lemma_first_empty_unique(bag, i as int, j);
            }
        }
        match free_slot {
            None => {
                self.slots.insert(slot_index, worn);
                proof {
                    assert(self@ =~= old(self)@);
                }
                Err("Inventory is full, cannot unequip".to_string())
            },
            Some(_) => {
                proof {
                    assert(self@ =~= old(self)@.remove(slot_index));
                }
                Ok(template_id)
            },
        }
    }

    /// Wears the item in bag slot `inv_slot`, described by `item_template`:
    /// it leaves the bag (one from the stack) and goes into its type's slot,
    /// first taking off what is worn there. Its durability is the template's
    /// when positive, else the bag item's. Errors, with nothing changed, when
    /// the type is not wearable, the bag slot is empty or holds another item;
    /// an error too when taking off the worn item fails (see `unequip`).
    pub fn equip(
        &mut self,
        item_template: &ItemTemplate,
        inventory: &mut InventoryManager,
        inv_slot: usize,
    ) -> (r: Result<(), String>)
        ensures
            ({
                let (ok, e, b) = spec_equip(old(self)@, old(inventory)@, *item_template, inv_slot as int);
                &&& (r is Ok <==> ok)
                &&& (r matches Err(m) ==> m@ == spec_equip_error(old(self)@, old(inventory)@, *item_template, inv_slot as int))
                &&& final(self)@ == e
                &&& final(inventory)@ == b
            }),
            final(inventory).owner() == old(inventory).owner(),
    {
        let slot_index = match Self::item_type_to_slot(item_template.item_type) {
            Some(s) => s,
            None => {
                return Err(unequippable_type(item_template.item_type));
            },
        };
        let (item_id, item_durability) = match inventory.get_slot(inv_slot) {
            Some(inv_item) => (inv_item.item_id, inv_item.durability),
            None => {
                return Err(empty_inventory_slot(inv_slot));
            },
        };
        if item_id != item_template.id {
            return Err("Item ID mismatch between template and inventory slot".to_string());
        }
        if self.slots.contains_key(&slot_index) {
            match self.unequip(slot_index, inventory) {
                Ok(_) => {},
                Err(e) => {
                    return Err(e);
                },
            }
        }
        let durability = if item_template.durability > 0 {
            item_template.durability
        } else {
            item_durability
        };
        proof {
            let ghost bag = old(inventory)@;
            if old(self)@.contains_key(slot_index) {
                let tid = old(self)@[slot_index].0;
                let i = choose|i: int| #[trigger] first_empty(bag, i);
                assert(i != inv_slot);
            }
        }
        if !inventory.remove_item(inv_slot, 1) {
            return Err("Failed to remove item from inventory".to_string());
        }
        self.slots.insert(slot_index, EquippedItem { template_id: item_template.id, durability });
        proof {
            assert(self@ =~= spec_equip(old(self)@, old(inventory)@, *item_template, inv_slot as int).1);
        }
        Ok(())
    }

    /// Wears down every worn item with durability left by one. Returns each
    /// worn-down item as `(slot, template id)`, each once, in no particular order.
    pub fn apply_durability_damage(&mut self) -> (r: Vec<(u8, u16)>)
        ensures
            final(self)@.dom() == old(self)@.dom(),
            forall|s: u8| #[trigger] old(self)@.contains_key(s) ==> final(self)@[s] == (if old(self)@[s].1 > 0 {
                (old(self)@[s].0, (old(self)@[s].1 - 1) as i32)
            } else {
                old(self)@[s]
            }),
            forall|i: int| 0 <= i < r@.len() ==> old(self)@.contains_key((#[trigger] r@[i]).0)
                && old(self)@[r@[i].0].1 > 0 && old(self)@[r@[i].0].0 == r@[i].1,
            forall|s: u8| #[trigger] old(self)@.contains_key(s) && old(self)@[s].1 > 0 ==> r@.contains((s, old(self)@[s].0)),
            distinct_slots(r@),
    {
        let keys = hash_map_keys(&self.slots);
        let ghost start = self.slots@;
        let mut r: Vec<(u8, u16)> = Vec::new();
        let mut i: usize = 0;
        while i < keys.len()
            invariant
                i <= keys@.len(),
                start == old(self).slots@,
                keys@.no_duplicates(),
                forall|k: u8| #[trigger] keys@.contains(k) <==> start.contains_key(k),
                self.slots@.dom() == start.dom(),
                forall|t: int| 0 <= t < i ==> {
                    let k = #[trigger] keys@[t];
                    self.slots@[k].template_id == start[k].template_id
                        && self.slots@[k].durability == (if start[k].durability > 0 { (start[k].durability - 1) as i32 } else { start[k].durability })
                },
                forall|t: int| i <= t < keys@.len() ==> self.slots@[#[trigger] keys@[t]] == start[keys@[t]],
                forall|j: int| 0 <= j < r@.len() ==> start.contains_key((#[trigger] r@[j]).0)
                    && start[r@[j].0].durability > 0 && start[r@[j].0].template_id == r@[j].1,
                forall|t: int| 0 <= t < i && start[#[trigger] keys@[t]].durability > 0 ==> r@.contains((keys@[t], start[keys@[t]].template_id)),
                forall|j: int| 0 <= j < r@.len() ==> exists|t: int| 0 <= t < i && keys@[t] == (#[trigger] r@[j]).0,
                distinct_slots(r@),
            decreases keys@.len() - i,
        {
            let k = keys[i];
            assert(keys@.contains(k));
            let eq = *self.slots.get(&k).unwrap();
            let ghost before_r = r@;
            let ghost before_slots = self.slots@;
            if eq.durability > 0 {
                self.slots.insert(k, EquippedItem { template_id: eq.template_id, durability: eq.durability - 1 });
                r.push((k, eq.template_id));
                proof {
                    assert forall|a: int, b: int| 0 <= a < b < r@.len() implies #[trigger] r@[a].0 != #[trigger] r@[b].0 by {
                        if b == r@.len() - 1 {
                            if r@[a].0 == k {
                                assert(before_r[a] == r@[a]);
                                let t = choose|t: int| 0 <= t < i && #[trigger] keys@[t] == before_r[a].0;
                                assert(keys@[t] == keys@[i as int]);
                            }
                        } else {
                            assert(before_r[a] == r@[a] && before_r[b] == r@[b]);
                        }
                    }
                }
            }
            proof {
                assert forall|t: int| 0 <= t < i + 1 && start[#[trigger] keys@[t]].durability > 0 implies r@.contains((keys@[t], start[keys@[t]].template_id)) by {
                    if t < i {
                        let j = choose|j: int| 0 <= j < before_r.len() && #[trigger] before_r[j] == (keys@[t], start[keys@[t]].template_id);
                        assert(r@[j] == before_r[j]);
                    } else {
                        assert(r@[r@.len() - 1] == (keys@[t], start[keys@[t]].template_id));
                    }
                }
                assert forall|j: int| 0 <= j < r@.len() implies exists|t: int| 0 <= t < i + 1 && keys@[t] == (#[trigger] r@[j]).0 by {
                    if j < before_r.len() {
                        assert(r@[j] == before_r[j]);
                        let t = choose|t: int| 0 <= t < i && #[trigger] keys@[t] == before_r[j].0;
                    } else {
                        assert(keys@[i as int] == r@[j].0);
                    }
                }
                assert forall|t: int| 0 <= t < i + 1 implies {
                    let kk = #[trigger] keys@[t];
                    self.slots@[kk].template_id == start[kk].template_id
                        && self.slots@[kk].durability == (if start[kk].durability > 0 { (start[kk].durability - 1) as i32 } else { start[kk].durability })
                } by {
                    if t < i {
                        assert(keys@[t] != k);
                    }
                }
                assert forall|t: int| i + 1 <= t < keys@.len() implies self.slots@[#[trigger] keys@[t]] == start[keys@[t]] by {
                    assert(keys@[t] != k);
                }
            }
            i = i + 1;
        }
        proof {
            assert forall|s: u8| #[trigger] old(self)@.contains_key(s) implies final_slot_ok(self@, old(self)@, s) by {
                assert(keys@.contains(s));
                let t = choose|t: int| 0 <= t < keys@.len() && keys@[t] == s;
            }
            assert(self@.dom() =~= old(self)@.dom());
            assert forall|s: u8| #[trigger] old(self)@.contains_key(s) && old(self)@[s].1 > 0 implies r@.contains((s, old(self)@[s].0)) by {
                assert(keys@.contains(s));
                let t = choose|t: int| 0 <= t < keys@.len() && keys@[t] == s;
            }
        }
        r
    }

    /// The stats of a player of `level` wearing these items: the base stats
    /// plus every worn item whose template `item_manager` knows. Items are
    /// added in the map's iteration order; the sums must fit `i32` in every order.
    pub fn calculate_stats(&self, level: u16, item_manager: &ItemManager) -> (r: PlayerStats)
        requires
            forall|ts: Seq<ItemTemplate>| lists_worn_templates(ts, self@, item_manager.templates_map())
                ==> calculate_fits(level, ts),
        ensures
            exists|ts: Seq<ItemTemplate>| lists_worn_templates(ts, self@, item_manager.templates_map())
                && r == spec_calculate(level, ts),
    {
        let keys = hash_map_keys(&self.slots);
        let ghost tm = item_manager.templates_map();
        let mut templates: Vec<&ItemTemplate> = Vec::new();
        let ghost mut ks: Seq<u8> = Seq::empty();
        let mut i: usize = 0;
        while i < keys.len()
            invariant
                i <= keys@.len(),
                keys@.no_duplicates(),
                forall|k: u8| #[trigger] keys@.contains(k) <==> self.slots@.contains_key(k),
                ks.len() == templates@.len(),
                ks.no_duplicates(),
                forall|k: u8| #[trigger] ks.contains(k) <==> (exists|t: int| 0 <= t < i && keys@[t] == k && tm.contains_key(self@[k].0)),
                forall|j: int| 0 <= j < ks.len() ==> *templates@[j] == tm[self@[#[trigger] ks[j]].0],
                forall|j: int| 0 <= j < ks.len() ==> exists|t: int| 0 <= t < i && keys@[t] == #[trigger] ks[j],
                tm == item_manager.templates_map(),
            decreases keys@.len() - i,
        {
            let k = keys[i];
            assert(keys@.contains(k));
            let eq = self.slots.get(&k).unwrap();
            let ghost old_ks = ks;
            let ghost pushed = tm.contains_key(eq.template_id);
            match item_manager.get_template(eq.template_id) {
                Some(t) => {
                    proof {
                        assert(!ks.contains(k)) by {
                            if ks.contains(k) {
                                let j = choose|j: int| 0 <= j < ks.len() && ks[j] == k;
                                let t2 = choose|t2: int| 0 <= t2 < i && keys@[t2] == #[trigger] ks[j];
                                assert(keys@[t2] == keys@[i as int]);
                            }
                        }
                        ks = ks.push(k);
                    }
                    templates.push(t);
                },
                None => {},
            }
            proof {
                assert(self@[k].0 == eq.template_id);
                assert forall|k2: u8| #[trigger] ks.contains(k2) <==> (exists|t: int|
                    0 <= t < i + 1 && keys@[t] == k2 && tm.contains_key(self@[k2].0)) by {
                    if ks.contains(k2) {
                        if pushed && k2 == k {
                            assert(keys@[i as int] == k2);
                        } else {
                            if pushed {
                                let j = choose|j: int| 0 <= j < ks.len() && ks[j] == k2;
                                assert(old_ks[j] == k2);
                            }
                            assert(old_ks.contains(k2));
                        }
                    }
                    if exists|t: int| 0 <= t < i + 1 && keys@[t] == k2 && tm.contains_key(self@[k2].0) {
                        let t = choose|t: int| 0 <= t < i + 1 && keys@[t] == k2 && tm.contains_key(self@[k2].0);
                        if t == i {
                            assert(ks[ks.len() - 1] == k2);
                        } else {
                            assert(old_ks.contains(k2));
                            let j = choose|j: int| 0 <= j < old_ks.len() && old_ks[j] == k2;
                            assert(ks[j] == k2);
                        }
                    }
                }
                assert forall|j: int| 0 <= j < ks.len() implies exists|t: int| 0 <= t < i + 1 && keys@[t] == #[trigger] ks[j] by {
                    if j < old_ks.len() {
                        assert(ks[j] == old_ks[j]);
                        let t = choose|t: int| 0 <= t < i && keys@[t] == #[trigger] old_ks[j];
                    } else {
                        assert(keys@[i as int] == ks[j]);
                    }
                }
            }
            i = i + 1;
        }
        let ghost ts = templates@.map_values(|t: &ItemTemplate| *t);
        proof {
            assert forall|k: u8| #[trigger] ks.contains(k) <==> (self@.contains_key(k) && tm.contains_key(self@[k].0)) by {
                if self@.contains_key(k) && tm.contains_key(self@[k].0) {
                    assert(keys@.contains(k));
                    let t = choose|t: int| 0 <= t < keys@.len() && keys@[t] == k;
                }
                if ks.contains(k) {
                    let t = choose|t: int| 0 <= t < i && keys@[t] == k && tm.contains_key(self@[k].0);
                    assert(keys@.contains(k));
                    assert(self.slots@.contains_key(k));
                }
            }
            assert(lists_worn_templates_by(ts, ks, self@, tm));
        }
        PlayerStats::calculate(level, templates.as_slice())
    }

    /// The template id worn in `slot_index`, if any.
    pub fn get_equipped_template_id(&self, slot_index: u8) -> (r: Option<u16>)
        ensures
            r == (if self@.contains_key(slot_index) {
                Some(self@[slot_index].0)
            } else {
                None
            }),
    {
        match self.slots.get(&slot_index) {
            Some(eq) => Some(eq.template_id),
            None => None,
        }
    }

    /// Number of worn items.
    pub fn equipped_count(&self) -> (r: usize)
        ensures
            r == self@.dom().len(),
    {
        proof {
            assert(self@.dom() =~= self.slots@.dom());
        }
        self.slots.len()
    }

    /// Whether something is worn in `slot_index`.
    pub fn is_slot_equipped(&self, slot_index: u8) -> (r: bool)
        ensures
            r == self@.contains_key(slot_index),
    {
        self.slots.contains_key(&slot_index)
    }

    /// Every worn item as `(slot, template id)`, each once, in no particular order.
    pub fn all_equipped(&self) -> (r: Vec<(u8, u16)>)
        ensures
            r@.len() == self@.dom().len(),
            forall|i: int| 0 <= i < r@.len() ==> self@.contains_key((#[trigger] r@[i]).0) && self@[r@[i].0].0 == r@[i].1,
            forall|s: u8| #[trigger] self@.contains_key(s) ==> r@.contains((s, self@[s].0)),
            distinct_slots(r@),
    {
        let keys = hash_map_keys(&self.slots);
        let mut r: Vec<(u8, u16)> = Vec::new();
        let mut i: usize = 0;
        while i < keys.len()
            invariant
                i <= keys@.len(),
                keys@.no_duplicates(),
                keys@.len() == self.slots@.dom().len(),
                forall|k: u8| #[trigger] keys@.contains(k) <==> self.slots@.contains_key(k),
                r@.len() == i,
                forall|t: int| 0 <= t < i ==> (#[trigger] r@[t]).0 == keys@[t] && r@[t].1 == self.slots@[keys@[t]].template_id,
            decreases keys@.len() - i,
        {
            let k = keys[i];
            assert(keys@.contains(k));
            let eq = self.slots.get(&k).unwrap();
            r.push((k, eq.template_id));
            i = i + 1;
        }
        proof {
            assert(self@.dom() =~= self.slots@.dom());
            assert(r@.map_values(|p: (u8, u16)| p.0) =~= keys@);
            assert forall|t: int| 0 <= t < r@.len() implies self@.contains_key((#[trigger] r@[t]).0)
                && self@[r@[t].0].0 == r@[t].1 by {
                assert(keys@.contains(keys@[t]));
            }
            assert forall|s: u8| #[trigger] self@.contains_key(s) implies r@.contains((s, self@[s].0)) by {
                assert(keys@.contains(s));
                let j = choose|j: int| 0 <= j < keys@.len() && keys@[j] == s;
                assert(r@[j] == (s, self@[s].0));
            }
        }
        r
    }
}

impl Default for EquipmentManager {
    fn default() -> (r: Self)
        ensures
            r@ == Map::<u8, (u16, i32)>::empty(),
    {
        Self::new()
    }
}

} // verus!
