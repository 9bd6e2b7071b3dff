//! Buying from and selling to NPCs.
use vstd::prelude::*;
use crate::item::ItemTemplate;
use crate::item::inventory::{bag_after_remove, first_empty, new_stack, InventoryManager, InventorySlot};
use crate::npc::NpcTemplate;

verus! {

/// Outcome of a trade.
#[derive(Debug, Clone, Copy, PartialEq, Eq, Structural)]
pub enum ShopResult {
    Success,
    InsufficientGold,
    ItemNotFound,
    InventoryFull,
    NpcNotSellItem,
}

/// Trades between players and NPCs.
pub struct ShopSystem;

/// `a + b`, saturating at `u64::MAX`.
pub open spec fn sat_add_u64(a: u64, b: u64) -> u64 {
    if a + b > u64::MAX { u64::MAX } else { (a + b) as u64 }
}

/// Verdict of the checks made before a purchase: the NPC must sell the item
/// and the gold must cover its price.
pub open spec fn spec_try_buy(selling: Seq<u16>, item_id: u16, price: u32, gold: u64) -> ShopResult {
    if !selling.contains(item_id) {
        ShopResult::NpcNotSellItem
    } else if gold < price {
        ShopResult::InsufficientGold
    } else {
        ShopResult::Success
    }
}

/// A purchase of one `item_id` at `price`: the verdict, the gold and the bag
/// afterwards. On success the price is paid and the item goes into the
/// first empty slot; a full bag refuses the purchase. A refused purchase
/// changes nothing.
pub open spec fn spec_buy(
    selling: Seq<u16>,
    item_id: u16,
    price: u32,
    gold: u64,
    bag: Seq<Option<InventorySlot>>,
) -> (ShopResult, u64, Seq<Option<InventorySlot>>) {
    if spec_try_buy(selling, item_id, price, gold) != ShopResult::Success {
        (spec_try_buy(selling, item_id, price, gold), gold, bag)
    } else if exists|i: int| first_empty(bag, i) {
        let i = choose|i: int| first_empty(bag, i);
        (ShopResult::Success, (gold - price) as u64, bag.update(i, Some(new_stack(item_id, 1))))
    } else {
        (ShopResult::InventoryFull, gold, bag)
    }
}

/// A sale of one item from `slot` of an item priced `price`: the verdict,
/// the gold and the bag afterwards. An empty slot, a slot outside the bag
/// and a worn item are refused, changing nothing; otherwise half the price
/// (rounded down) is paid and one item leaves the slot.
pub open spec fn spec_sell(price: u32, gold: u64, bag: Seq<Option<InventorySlot>>, slot: int) -> (
    ShopResult,
    u64,
    Seq<Option<InventorySlot>>,
) {
    if !(0 <= slot < bag.len()) || bag[slot] is None || bag[slot]->Some_0.is_equipped {
        (ShopResult::ItemNotFound, gold, bag)
    } else {
        (ShopResult::Success, sat_add_u64(gold, (price / 2) as u64), bag_after_remove(bag, slot, 1))
    }
}

/// A bag has at most one first empty slot.
pub proof fn lemma_first_empty_unique(bag: Seq<Option<InventorySlot>>, i: int, j: int)
    requires
        first_empty(bag, i),
        first_empty(bag, j),
    ensures
        i == j,
{
    if i < j {
        assert(bag[i] is None);
    } else if j < i {
        assert(bag[j] is None);
    }
}

/// Buying an item and selling it back from the slot it went into leaves the
/// bag as it was and costs the price less half the price (rounded down).
pub proof fn law_buy_then_sell_back(
    selling: Seq<u16>,
    item_id: u16,
    price: u32,
    gold: u64,
    bag: Seq<Option<InventorySlot>>,
    slot: int,
)
    requires
        selling.contains(item_id),
        gold >= price,
        first_empty(bag, slot),
    ensures
        ({
            let bought = spec_buy(selling, item_id, price, gold, bag);
            let sold = spec_sell(price, bought.1, bought.2, slot);
            &&& bought.0 == ShopResult::Success
            &&& sold.0 == ShopResult::Success
            &&& sold.1 == gold - price + price / 2
            &&& sold.2 == bag
        }),
{
    let i = choose|i: int| first_empty(bag, i);
    lemma_first_empty_unique(bag, i, slot);
    let b1 = bag.update(slot, Some(new_stack(item_id, 1)));
    assert(bag_after_remove(b1, slot, 1) =~= bag);
}

/// Whether `ids` holds `id`.
fn sells(ids: &Vec<u16>, id: u16) -> (r: bool)
    ensures
        r == ids@.contains(id),
{
    let mut i: usize = 0;
    while i < ids.len()
        invariant
            i <= ids@.len(),
            forall|j: int| 0 <= j < i ==> ids@[j] != id,
        decreases ids@.len() - i,
    {
        if ids[i] == id {
            assert(ids@[i as int] == id);
            return true;
        }
        i = i + 1;
    }
    false
}

impl ShopSystem {
    /// The checks made before a purchase, changing nothing: does `npc` sell
    /// the item, and does `gold` cover its price.
    pub fn try_buy(npc: &NpcTemplate, item_template: &ItemTemplate, gold: u64) -> (r: ShopResult)
        ensures
            r == spec_try_buy(npc.selling_items@, item_template.id, item_template.price, gold),
    {
        if !sells(&npc.selling_items, item_template.id) {
            return ShopResult::NpcNotSellItem;
        }
        let price = item_template.price as u64;
        if gold < price {
            return ShopResult::InsufficientGold;
        }
        ShopResult::Success
    }

    /// Buys one item from `npc` (see [`spec_buy`]).
    pub fn buy_item(
        npc: &NpcTemplate,
        item_template: &ItemTemplate,
        gold: &mut u64,
        inventory: &mut InventoryManager,
    ) -> (r: ShopResult)
        ensures
            (r, *final(gold), final(inventory)@) == spec_buy(
                npc.selling_items@,
                item_template.id,
                item_template.price,
                *old(gold),
                old(inventory)@,
            ),
            final(inventory).owner() == old(inventory).owner(),
    {
        if !sells(&npc.selling_items, item_template.id) {
            return ShopResult::NpcNotSellItem;
        }
        let price = item_template.price as u64;
        if *gold < price {
            return ShopResult::InsufficientGold;
        }
        match inventory.add_item(item_template.id, 1) {
            Some(i) => {
                proof {
                    let c = choose|c: int| first_empty(old(inventory)@, c);
                    lemma_first_empty_unique(old(inventory)@, c, i as int);
                }
                *gold = *gold - price;
                ShopResult::Success
            },
            None => ShopResult::InventoryFull,
        }
    }

    /// Sells one item from `slot` (see [`spec_sell`]).
    pub fn sell_item(
        item_template: &ItemTemplate,
        gold: &mut u64,
        inventory: &mut InventoryManager,
        slot: usize,
    ) -> (r: ShopResult)
        ensures
            (r, *final(gold), final(inventory)@) == spec_sell(
                item_template.price,
                *old(gold),
                old(inventory)@,
                slot as int,
            ),
            final(inventory).owner() == old(inventory).owner(),
    {
        let item = match inventory.get_slot(slot) {
            Some(slot_item) => *slot_item,
            None => return ShopResult::ItemNotFound,
        };
        if item.is_equipped {
            return ShopResult::ItemNotFound;
        }
        let sell_price = (item_template.price / 2) as u64;
        *gold = gold.saturating_add(sell_price);
        inventory.remove_item(slot, 1);
        ShopResult::Success
    }
}

} // verus!
