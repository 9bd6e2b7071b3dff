use mir2::item::inventory::{InventoryManager, InventorySlot, INVENTORY_SLOTS};

#[test]
fn test_inventory_slot_equipment_marker() {
    let equipped = InventorySlot { uid: 1001, item_id: 10, count: 1, durability: 30, max_durability: 30, is_equipped: true };
    assert!(equipped.is_equipped);
    let not_equipped = InventorySlot { uid: 1002, item_id: 20, count: 5, durability: 0, max_durability: 0, is_equipped: false };
    assert!(!not_equipped.is_equipped);
    let default_slot = InventorySlot { uid: 1003, item_id: 30, count: 1, durability: 10, max_durability: 10, is_equipped: false };
    assert!(!default_slot.is_equipped);
    let mut toggle_slot = equipped.clone();
    toggle_slot.is_equipped = false;
    assert!(!toggle_slot.is_equipped);
    toggle_slot.is_equipped = true;
    assert!(toggle_slot.is_equipped);
}

#[test]
fn test_equipment_marker_in_inventory_manager() {
    let mut manager = InventoryManager::new(1);
    manager.set_slot(
        0,
        Some(InventorySlot { uid: 2001, item_id: 50, count: 1, durability: 20, max_durability: 20, is_equipped: true }),
    );
    let slot = manager.get_slot(0).unwrap();
    assert!(slot.is_equipped);
    let items = manager.all_items();
    assert_eq!(items.len(), 1);
    assert!(items[0].1.is_equipped);
}

#[test]
fn test_equipment_marker_clone_consistency() {
    let original = InventorySlot { uid: 3001, item_id: 100, count: 1, durability: 50, max_durability: 50, is_equipped: true };
    let cloned = original.clone();
    assert_eq!(cloned.is_equipped, original.is_equipped);
    assert_eq!(cloned.uid, original.uid);
    assert_eq!(cloned.item_id, original.item_id);
}

#[test]
fn bag_fills_in_slot_order_and_refuses_when_full() {
    let mut bag = InventoryManager::new(7);
    assert_eq!(bag.character_id(), 7);
    assert_eq!(bag.empty_slots(), INVENTORY_SLOTS);
    for i in 0..INVENTORY_SLOTS {
        assert_eq!(bag.add_item(5, 2), Some(i));
    }
    assert_eq!(bag.empty_slots(), 0);
    assert!(!bag.has_space_for(1));
    assert_eq!(bag.add_item(5, 2), None);
}

#[test]
fn remove_takes_from_the_stack_then_empties_it() {
    let mut bag = InventoryManager::new(1);
    bag.add_item(9, 3);
    assert!(bag.remove_item(0, 1));
    assert_eq!(bag.get_slot(0).unwrap().count, 2);
    assert!(bag.remove_item(0, 5));
    assert!(bag.get_slot(0).is_none());
    assert!(!bag.remove_item(0, 1), "an empty slot has nothing to remove");
    assert!(!bag.remove_item(INVENTORY_SLOTS, 1), "a slot outside the bag has nothing to remove");
}

#[test]
fn add_then_remove_restores_the_bag() {
    let mut bag = InventoryManager::new(1);
    bag.add_item(1, 1);
    let before = bag.empty_slots();
    let slot = bag.add_item(2, 4).unwrap();
    assert_eq!(bag.find_slot_by_item_id(2), Some(slot));
    assert!(bag.remove_item(slot, 4));
    assert_eq!(bag.empty_slots(), before);
    assert_eq!(bag.find_slot_by_item_id(2), None);
}

#[test]
fn empty_and_occupied_slots_make_up_the_bag() {
    let mut inventory = InventoryManager::new(9);
    inventory.add_item(1, 1);
    inventory.add_item(2, 5);
    inventory.add_item(3, 1);
    assert!(inventory.remove_item(1, 5));
    assert_eq!(inventory.empty_slots() + inventory.all_items().len(), 40);
    let items = inventory.all_items();
    assert_eq!(items.iter().map(|(i, _)| *i).collect::<Vec<_>>(), vec![0, 2]);
    assert!(inventory.has_space_for(0));
    assert!(!inventory.has_space_for(41));
    assert!(!inventory.remove_item(40, 1), "no slot 40");
    assert_eq!(inventory.character_id(), 9);
}
