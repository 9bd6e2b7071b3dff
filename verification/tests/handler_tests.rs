use mir2::enums::{ItemType, MirDirection};
use mir2::item::drops::{handle_monster_drop, handle_player_pickup};
use mir2::item::{ItemManager, ItemTemplate};
use mir2::network::handler::{decide_buy, decide_call_npc, pick_up_target, BuyOutcome, NpcCallOutcome};
use mir2::npc::shop::ShopResult;
use mir2::npc::{NpcManager, NpcTemplate};

fn item(id: u16, name: &str, price: u32) -> ItemTemplate {
    ItemTemplate {
        id,
        name: name.to_string(),
        item_type: ItemType::Potion,
        level: 1,
        hp_restore: 0,
        mp_restore: 0,
        weight: 1,
        stack_size: 10,
        price,
        image: 0,
        required_class: 0,
        required_level: 0,
        description: String::new(),
        dc_min: 0,
        dc_max: 0,
        ac: 0,
        mac: 0,
        accuracy: 0,
        agility: 0,
        durability: 0,
        mc_min: 0,
        mc_max: 0,
        sc_min: 0,
        sc_max: 0,
    }
}

fn world() -> (NpcManager, ItemManager) {
    let mut npcs = NpcManager::new();
    npcs.add_template(NpcTemplate {
        id: 1,
        name: "shop".to_string(),
        map_id: 0,
        x: 10,
        y: 10,
        image: 1,
        shop_type: "BuyAndSell".to_string(),
        selling_items: vec![0, 5, 1],
    });
    npcs.add_template(NpcTemplate {
        id: 2,
        name: "elder".to_string(),
        map_id: 0,
        x: 30,
        y: 30,
        image: 2,
        shop_type: String::new(),
        selling_items: vec![],
    });
    let mut items = ItemManager::new();
    items.add_templates(vec![item(0, "potion", 50), item(1, "sun water", 120)]);
    (npcs, items)
}

#[test]
fn calling_npcs() {
    let (npcs, items) = world();
    assert!(matches!(decide_call_npc(&npcs, &items, 9, 0, (10, 10)), NpcCallOutcome::NotFound));
    assert!(matches!(decide_call_npc(&npcs, &items, 1, 3, (10, 10)), NpcCallOutcome::NotOnMap));
    assert!(matches!(decide_call_npc(&npcs, &items, 1, 0, (20, 13)), NpcCallOutcome::TooFar));
    match decide_call_npc(&npcs, &items, 1, 0, (16, 16)) {
        NpcCallOutcome::Goods { npc_id, goods } => {
            assert_eq!(npc_id, 1);
            let listed: Vec<(u16, u32, String)> = goods.into_iter().map(|g| (g.item_id, g.price, g.name)).collect();
            assert_eq!(listed, vec![(0, 50, "potion".to_string()), (1, 120, "sun water".to_string())]);
        }
        other => panic!("expected goods, got {:?}", other),
    }
    assert!(matches!(decide_call_npc(&npcs, &items, 2, 0, (30, 31)), NpcCallOutcome::Talk));
}

#[test]
fn buying() {
    let (npcs, items) = world();
    assert!(matches!(decide_buy(&npcs, &items, 9, 0, 100), BuyOutcome::NpcNotFound));
    assert!(matches!(decide_buy(&npcs, &items, 1, 5, 100), BuyOutcome::ItemNotFound));
    assert!(matches!(decide_buy(&npcs, &items, 1, 0, 100), BuyOutcome::Bought { gold: 50 }));
    assert!(matches!(decide_buy(&npcs, &items, 1, 1, 100), BuyOutcome::Refused(ShopResult::InsufficientGold)));
    assert!(matches!(decide_buy(&npcs, &items, 2, 0, 100), BuyOutcome::Refused(ShopResult::NpcNotSellItem)));
}

#[test]
fn picking_up() {
    let (_, mut items) = world();
    assert_eq!(pick_up_target(&items, 0, (5, 5)), None);
    let id = items.drop_item_on_ground(0, 0, 5, 6).unwrap();
    assert_eq!(id, 20000);
    assert_eq!(pick_up_target(&items, 0, (5, 5)), Some(id));
    assert_eq!(pick_up_target(&items, 1, (5, 5)), None, "another map");
    assert_eq!(pick_up_target(&items, 0, (5, 4)), None, "two steps away");
    assert_eq!(items.drop_item_on_ground(77, 0, 5, 6), None, "unknown item");
    let g = items.remove_ground_item(id).unwrap();
    assert_eq!((g.item_id, g.item_name.as_str(), g.count), (0, "potion", 1));
    assert_eq!(pick_up_target(&items, 0, (5, 5)), None);
    let _ = MirDirection::Up;
}

#[test]
fn monster_drops_land_in_order() {
    let (_, mut items) = world();
    let ids = handle_monster_drop(&mut items, &[(0, 2), (9, 3), (1, 1)], 4, 7, 8);
    assert_eq!(ids, vec![20000, 20001, 20002]);
    let kinds: Vec<u16> = ids.iter().map(|id| items.get_ground_item(*id).unwrap().item_id).collect();
    assert_eq!(kinds, vec![0, 0, 1]);
    assert_eq!(handle_player_pickup(&mut items, 20002), Some((1, 1)));
    assert_eq!(handle_player_pickup(&mut items, 20002), None);
}

#[test]
fn ground_items_last_a_minute() {
    assert!(!mir2::item::ground_item_expired(60));
    assert!(mir2::item::ground_item_expired(61));
    let (_, mut items) = world();
    let id = items.drop_item_on_ground(0, 0, 1, 1).unwrap();
    items.clean_expired_ground_items();
    assert!(items.get_ground_item(id).is_some(), "a fresh item stays");
}
