use mir2::enums::ItemType;
use mir2::item::inventory::InventoryManager;
use mir2::item::ItemTemplate;
use mir2::npc::shop::{ShopResult, ShopSystem};
use mir2::npc::NpcTemplate;

fn make_potion_template() -> ItemTemplate {
    ItemTemplate {
        id: 0,
        name: "金创药(小)".to_string(),
        item_type: ItemType::Potion,
        level: 1,
        hp_restore: 40,
        mp_restore: 0,
        weight: 1,
        stack_size: 99,
        price: 50,
        image: 0,
        required_class: 0,
        required_level: 0,
        description: String::new(),
        dc_min: 0,
        dc_max: 0,
        ac: 0,
        mac: 0,
        accuracy: 0,
        agility: 0,
        durability: 0,
        mc_min: 0,
        mc_max: 0,
        sc_min: 0,
        sc_max: 0,
    }
}

fn make_npc() -> NpcTemplate {
    NpcTemplate {
        id: 1,
        name: "药店老板".to_string(),
        map_id: 0,
        x: 14,
        y: 14,
        image: 10,
        shop_type: "BuyAndSell".to_string(),
        selling_items: vec![0, 1],
    }
}

#[test]
fn test_buy_item_success() {
    let npc = make_npc();
    let item = make_potion_template();
    let mut gold = 100u64;
    let mut inventory = InventoryManager::new(1);
    let result = ShopSystem::buy_item(&npc, &item, &mut gold, &mut inventory);
    assert!(matches!(result, ShopResult::Success));
    assert_eq!(gold, 50);
    let items = inventory.all_items();
    assert_eq!(items.len(), 1);
}

#[test]
fn test_buy_item_insufficient_gold() {
    let npc = make_npc();
    let item = make_potion_template();
    let mut gold = 10u64;
    let mut inventory = InventoryManager::new(1);
    let result = ShopSystem::buy_item(&npc, &item, &mut gold, &mut inventory);
    assert!(matches!(result, ShopResult::InsufficientGold));
    assert_eq!(gold, 10);
}

#[test]
fn test_buy_item_npc_not_sell() {
    let npc = make_npc();
    let mut item = make_potion_template();
    item.id = 99;
    let mut gold = 100u64;
    let mut inventory = InventoryManager::new(1);
    let result = ShopSystem::buy_item(&npc, &item, &mut gold, &mut inventory);
    assert!(matches!(result, ShopResult::NpcNotSellItem));
}

#[test]
fn test_sell_item_success() {
    let item_template = make_potion_template();
    let mut inventory = InventoryManager::new(1);
    inventory.add_item(0, 1);
    let mut gold = 0u64;
    let slot = 0;
    let result = ShopSystem::sell_item(&item_template, &mut gold, &mut inventory, slot);
    assert!(matches!(result, ShopResult::Success));
    assert_eq!(gold, 25);
    assert!(inventory.get_slot(slot).is_none());
}

#[test]
fn test_sell_item_empty_inventory() {
    let item_template = make_potion_template();
    let mut inventory = InventoryManager::new(1);
    let mut gold = 100u64;
    let result = ShopSystem::sell_item(&item_template, &mut gold, &mut inventory, 0);
    assert!(matches!(result, ShopResult::ItemNotFound));
}

#[test]
fn buy_into_full_bag_is_refused_without_charge() {
    let npc = make_npc();
    let item = make_potion_template();
    let mut inventory = InventoryManager::new(1);
    while inventory.add_item(1, 1).is_some() {}
    let mut gold = 500u64;
    let result = ShopSystem::buy_item(&npc, &item, &mut gold, &mut inventory);
    assert_eq!(result, ShopResult::InventoryFull);
    assert_eq!(gold, 500);
}

#[test]
fn worn_items_cannot_be_sold() {
    let item_template = make_potion_template();
    let mut inventory = InventoryManager::new(1);
    inventory.add_item(0, 1);
    let mut worn = *inventory.get_slot(0).unwrap();
    worn.is_equipped = true;
    inventory.set_slot(0, Some(worn));
    let mut gold = 7u64;
    assert_eq!(ShopSystem::sell_item(&item_template, &mut gold, &mut inventory, 0), ShopResult::ItemNotFound);
    assert_eq!(gold, 7);
    assert!(inventory.get_slot(0).is_some());
}

#[test]
fn buy_then_sell_back_costs_half_the_price() {
    let npc = make_npc();
    let item = make_potion_template();
    let mut inventory = InventoryManager::new(1);
    inventory.add_item(1, 1);
    let mut gold = 75u64;
    assert_eq!(ShopSystem::buy_item(&npc, &item, &mut gold, &mut inventory), ShopResult::Success);
    assert_eq!(ShopSystem::sell_item(&item, &mut gold, &mut inventory, 1), ShopResult::Success);
    assert_eq!(gold, 75 - 50 + 25);
    assert!(inventory.get_slot(1).is_none());
    assert_eq!(inventory.all_items().len(), 1);
}

#[test]
fn try_buy_checks_without_changing_anything() {
    let npc = make_npc();
    let item = make_potion_template();
    assert_eq!(ShopSystem::try_buy(&npc, &item, 50), ShopResult::Success);
    assert_eq!(ShopSystem::try_buy(&npc, &item, 49), ShopResult::InsufficientGold);
    let mut other = make_potion_template();
    other.id = 3;
    assert_eq!(ShopSystem::try_buy(&npc, &other, 1000), ShopResult::NpcNotSellItem);
}

#[test]
fn selling_adds_gold_saturating() {
    let item_template = make_potion_template();
    let mut inventory = InventoryManager::new(1);
    inventory.add_item(0, 3);
    let mut gold = u64::MAX - 1;
    assert_eq!(ShopSystem::sell_item(&item_template, &mut gold, &mut inventory, 0), ShopResult::Success);
    assert_eq!(gold, u64::MAX);
    assert_eq!(inventory.get_slot(0).unwrap().count, 2);
}
