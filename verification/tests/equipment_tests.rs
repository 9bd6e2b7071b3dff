use mir2::enums::ItemType;
use mir2::equipment::{EquipmentManager, PlayerStats};
use mir2::item::inventory::InventoryManager;
use mir2::item::{ItemManager, ItemTemplate};

fn template(id: u16, name: &str, item_type: ItemType, level: u16, weight: u32, price: u32, image: u16) -> ItemTemplate {
    ItemTemplate {
        id,
        name: name.to_string(),
        item_type,
        level,
        hp_restore: 0,
        mp_restore: 0,
        weight,
        stack_size: 1,
        price,
        image,
        required_class: 0,
        required_level: 0,
        description: String::new(),
        dc_min: 0,
        dc_max: 0,
        ac: 0,
        mac: 0,
        accuracy: 0,
        agility: 0,
        durability: 0,
        mc_min: 0,
        mc_max: 0,
        sc_min: 0,
        sc_max: 0,
    }
}

fn wood_sword() -> ItemTemplate {
    let mut t = template(1, "木剑", ItemType::Weapon, 1, 10, 100, 1001);
    t.dc_min = 2;
    t.dc_max = 5;
    t.accuracy = 5;
    t.durability = 10;
    t
}

fn cloth_armour() -> ItemTemplate {
    let mut t = template(2, "布衣", ItemType::Armour, 1, 5, 50, 1002);
    t.ac = 3;
    t.mac = 1;
    t.durability = 8;
    t
}

fn potion() -> ItemTemplate {
    let mut t = template(3, "金创药", ItemType::Potion, 1, 1, 50, 1003);
    t.hp_restore = 50;
    t.stack_size = 10;
    t
}

fn setup_test_item_manager() -> ItemManager {
    let mut im = ItemManager::new();
    im.templates.insert(1, wood_sword());
    im.templates.insert(2, cloth_armour());
    im.templates.insert(3, potion());
    im
}

fn setup_inventory_with_items(inventory: &mut InventoryManager) {
    inventory.add_item(1, 1);
    inventory.add_item(2, 1);
}

#[test]
fn test_player_stats_from_level() {
    let stats_l1 = PlayerStats::from_level(1);
    assert_eq!(stats_l1.dc_min, 1);
    assert_eq!(stats_l1.dc_max, 2);
    assert_eq!(stats_l1.ac, 1);
    assert_eq!(stats_l1.mac, 0);
    assert_eq!(stats_l1.accuracy, 0);
    assert_eq!(stats_l1.agility, 0);

    let stats_l10 = PlayerStats::from_level(10);
    assert_eq!(stats_l10.dc_min, 10);
    assert_eq!(stats_l10.dc_max, 11);
    assert_eq!(stats_l10.ac, 10);
    assert_eq!(stats_l10.mac, 5);
    assert_eq!(stats_l10.accuracy, 3);
    assert_eq!(stats_l10.agility, 2);
}

#[test]
fn test_player_stats_add_equipment() {
    let mut stats = PlayerStats::from_level(1);
    let sword = wood_sword();
    stats.add_equipment(&sword);
    assert_eq!(stats.dc_min, 3);
    assert_eq!(stats.dc_max, 7);
    assert_eq!(stats.accuracy, 5);
    assert_eq!(stats.ac, 1);
}

#[test]
fn test_player_stats_calculate() {
    let sword = wood_sword();
    let armour = cloth_armour();
    let stats = PlayerStats::calculate(10, &[&sword, &armour]);
    assert_eq!(stats.dc_min, 12);
    assert_eq!(stats.dc_max, 16);
    assert_eq!(stats.ac, 13);
    assert_eq!(stats.mac, 6);
    assert_eq!(stats.accuracy, 8);
}

#[test]
fn test_equip_weapon() {
    let im = setup_test_item_manager();
    let mut inventory = InventoryManager::new(1);
    setup_inventory_with_items(&mut inventory);
    let mut em = EquipmentManager::new();
    let sword = im.get_template(1).unwrap();
    assert!(em.equip(sword, &mut inventory, 0).is_ok());
    assert_eq!(em.equipped_count(), 1);
    assert_eq!(em.get_equipped_template_id(0), Some(1));
}

#[test]
fn test_equip_removes_from_inventory() {
    let im = setup_test_item_manager();
    let mut inventory = InventoryManager::new(1);
    setup_inventory_with_items(&mut inventory);
    let mut em = EquipmentManager::new();
    let sword = im.get_template(1).unwrap();
    em.equip(sword, &mut inventory, 0).unwrap();
    assert!(inventory.get_slot(0).is_none(), "slot 0 should be empty after equipping");
    assert!(inventory.get_slot(1).is_some(), "slot 1 should keep the armour");
}

#[test]
fn test_unequip_weapon() {
    let im = setup_test_item_manager();
    let mut inventory = InventoryManager::new(1);
    setup_inventory_with_items(&mut inventory);
    let mut em = EquipmentManager::new();
    let sword = im.get_template(1).unwrap();
    em.equip(sword, &mut inventory, 0).unwrap();
    let template_id = em.unequip(0, &mut inventory).unwrap();
    assert_eq!(template_id, 1);
    assert_eq!(em.equipped_count(), 0);
    assert!(!em.is_slot_equipped(0));
    let slot = inventory.find_slot_by_item_id(1);
    assert!(slot.is_some(), "the weapon should be back in the bag");
}

#[test]
fn test_equip_replaces_existing() {
    let im = setup_test_item_manager();
    let mut inventory = InventoryManager::new(1);
    inventory.add_item(1, 1);
    inventory.add_item(2, 1);
    let mut iron_sword = template(4, "铁剑", ItemType::Weapon, 5, 30, 500, 1004);
    iron_sword.dc_min = 5;
    iron_sword.dc_max = 12;
    iron_sword.ac = 1;
    iron_sword.accuracy = 3;
    iron_sword.durability = 20;

    let mut em = EquipmentManager::new();
    let sword = im.get_template(1).unwrap();
    em.equip(sword, &mut inventory, 0).unwrap();
    inventory.add_item(4, 1);
    let iron_slot = inventory.find_slot_by_item_id(4).unwrap();
    assert!(em.equip(&iron_sword, &mut inventory, iron_slot).is_ok());
    assert_eq!(em.get_equipped_template_id(0), Some(4));
    let old_sword_slot = inventory.find_slot_by_item_id(1);
    assert!(old_sword_slot.is_some(), "the old weapon should be back in the bag");
}

#[test]
fn test_equipment_manager_calculate_stats() {
    let im = setup_test_item_manager();
    let mut inventory = InventoryManager::new(1);
    setup_inventory_with_items(&mut inventory);
    let mut em = EquipmentManager::new();
    let sword = im.get_template(1).unwrap();
    em.equip(sword, &mut inventory, 0).unwrap();
    let stats = em.calculate_stats(1, &im);
    assert_eq!(stats.dc_min, 3);
    assert_eq!(stats.dc_max, 7);
    assert_eq!(stats.ac, 1);
    assert_eq!(stats.accuracy, 5);
}

#[test]
fn test_apply_durability_damage() {
    let im = setup_test_item_manager();
    let mut inventory = InventoryManager::new(1);
    setup_inventory_with_items(&mut inventory);
    let mut em = EquipmentManager::new();
    let sword = im.get_template(1).unwrap();
    let armour = im.get_template(2).unwrap();
    em.equip(sword, &mut inventory, 0).unwrap();
    em.equip(armour, &mut inventory, 1).unwrap();
    let result = em.apply_durability_damage();
    assert_eq!(result.len(), 2, "both items should wear");
    let result2 = em.apply_durability_damage();
    assert_eq!(result2.len(), 2);
}

#[test]
fn test_equip_non_equippable_item_fails() {
    let im = setup_test_item_manager();
    let potion = im.get_template(3).unwrap();
    let mut inventory = InventoryManager::new(1);
    inventory.add_item(3, 1);
    let mut em = EquipmentManager::new();
    let result = em.equip(potion, &mut inventory, 0);
    assert!(result.is_err(), "a potion cannot be worn");
    assert_eq!(em.equipped_count(), 0);
}

#[test]
fn test_equip_empty_slot_fails() {
    let im = setup_test_item_manager();
    let mut inventory = InventoryManager::new(1);
    let mut em = EquipmentManager::new();
    let sword = im.get_template(1).unwrap();
    let result = em.equip(sword, &mut inventory, 0);
    assert!(result.is_err(), "an empty bag slot cannot be worn");
}

#[test]
fn durability_stops_at_zero() {
    let im = setup_test_item_manager();
    let mut inventory = InventoryManager::new(1);
    inventory.add_item(1, 1);
    let mut em = EquipmentManager::new();
    em.equip(im.get_template(1).unwrap(), &mut inventory, 0).unwrap();
    for _ in 0..10 {
        assert_eq!(em.apply_durability_damage().len(), 1);
    }
    assert_eq!(em.apply_durability_damage().len(), 0, "a worn-out item stays at zero");
}

#[test]
fn unequip_empty_slot_fails() {
    let mut inventory = InventoryManager::new(1);
    let mut em = EquipmentManager::new();
    assert!(em.unequip(0, &mut inventory).is_err());
}

#[test]
fn equip_then_unequip_restores_counts() {
    let im = setup_test_item_manager();
    let mut inventory = InventoryManager::new(1);
    setup_inventory_with_items(&mut inventory);
    let before = inventory.empty_slots();
    let mut em = EquipmentManager::new();
    em.equip(im.get_template(2).unwrap(), &mut inventory, 1).unwrap();
    assert_eq!(inventory.empty_slots(), before + 1);
    assert_eq!(em.unequip(1, &mut inventory), Ok(2));
    assert_eq!(inventory.empty_slots(), before);
    assert_eq!(em.equipped_count(), 0);
}

#[test]
fn equip_error_texts() {
    let im = setup_test_item_manager();
    let mut inventory = InventoryManager::new(1);
    inventory.add_item(3, 1);
    let mut em = EquipmentManager::new();
    assert_eq!(
        em.equip(im.get_template(3).unwrap(), &mut inventory, 0),
        Err("Item type Potion cannot be equipped".to_string())
    );
    assert_eq!(
        em.equip(im.get_template(1).unwrap(), &mut inventory, 5),
        Err("Inventory slot 5 is empty".to_string())
    );
    assert_eq!(
        em.equip(im.get_template(1).unwrap(), &mut inventory, 0),
        Err("Item ID mismatch between template and inventory slot".to_string())
    );
    assert_eq!(em.unequip(12, &mut inventory), Err("Slot 12 is not equipped".to_string()));
}

#[test]
fn unequip_into_full_bag_keeps_item_worn_as_it_was() {
    let im = setup_test_item_manager();
    let mut inventory = InventoryManager::new(1);
    inventory.add_item(1, 1);
    let mut em = EquipmentManager::new();
    em.equip(im.get_template(1).unwrap(), &mut inventory, 0).unwrap();
    for id in 100..140 {
        assert!(inventory.add_item(id, 1).is_some());
    }
    assert_eq!(inventory.empty_slots(), 0);
    assert_eq!(em.unequip(0, &mut inventory), Err("Inventory is full, cannot unequip".to_string()));
    assert_eq!(em.get_equipped_template_id(0), Some(1));
    for _ in 0..10 {
        assert_eq!(em.apply_durability_damage().len(), 1, "durability kept at 10");
    }
    assert_eq!(em.apply_durability_damage().len(), 0);
}
