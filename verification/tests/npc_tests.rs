use mir2::npc::{NpcManager, NpcTemplate};

fn npc(id: u16, name: &str, x: i32, y: i32, shop: &str, selling: Vec<u16>) -> NpcTemplate {
    NpcTemplate { id, name: name.to_string(), map_id: 0, x, y, image: 10 + id, shop_type: shop.to_string(), selling_items: selling }
}

/// The four NPCs of the town on map 0, as the NPC data file lists them.
fn town_npcs() -> Vec<NpcTemplate> {
    vec![
        npc(1, "药店老板", 14, 14, "BuyAndSell", vec![0, 1, 6, 7]),
        npc(2, "武器店老板", 20, 14, "BuyAndSell", vec![2, 3]),
        npc(3, "防具店老板", 26, 14, "BuyAndSell", vec![4, 5]),
        npc(4, "村长", 20, 20, "", vec![]),
    ]
}

fn loaded_manager() -> NpcManager {
    let mut manager = NpcManager::new();
    manager.load_from_list(town_npcs());
    manager
}

#[test]
fn mod_test_load_npcs_json_file() {
    let manager = loaded_manager();
    assert_eq!(manager.templates.len(), 4);
    assert!(manager.npcs_by_map.contains_key(&0));
}

#[test]
fn test_get_npc() {
    let manager = loaded_manager();
    let npc = manager.get_npc(1).expect("NPC 1 should exist");
    assert_eq!(npc.name, "药店老板");
    let none = manager.get_npc(99);
    assert!(none.is_none());
}

#[test]
fn test_get_npcs_on_map() {
    let manager = loaded_manager();
    let npcs = manager.get_npcs_on_map(0);
    assert_eq!(npcs.len(), 4);
    let empty = manager.get_npcs_on_map(999);
    assert!(empty.is_empty());
}

#[test]
fn test_find_nearby_npc() {
    let manager = loaded_manager();
    let result = manager.find_nearby_npc(0, 14, 14, 1);
    assert!(result.is_some());
    assert_eq!(result.unwrap().0, 1);
    let far = manager.find_nearby_npc(0, 100, 100, 1);
    assert!(far.is_none());
}

#[test]
fn adding_keeps_map_lists_in_order() {
    let mut manager = NpcManager::default();
    manager.add_template(npc(7, "a", 0, 0, "", vec![]));
    manager.add_template(npc(3, "b", 1, 1, "", vec![]));
    assert_eq!(manager.npcs_by_map.get(&0).unwrap(), &vec![7, 3]);
    let names: Vec<String> = manager.get_npcs_on_map(0).iter().map(|n| n.name.clone()).collect();
    assert_eq!(names, vec!["a".to_string(), "b".to_string()]);
}

#[test]
fn nearby_respects_the_map_and_the_range() {
    let manager = loaded_manager();
    assert!(manager.find_nearby_npc(1, 14, 14, 5).is_none(), "no NPC on map 1");
    assert!(manager.find_nearby_npc(0, 16, 15, 2).is_none(), "three steps is out of range 2");
    assert_eq!(manager.find_nearby_npc(0, 16, 15, 3).map(|(id, _)| id), Some(1));
}
