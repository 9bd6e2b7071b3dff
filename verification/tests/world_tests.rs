use std::sync::Arc;

use mir2::enums::{CellAttribute, MirDirection};
use mir2::game::{regen, regen_gain, regen_tick};
use mir2::map::loader::{build_map, build_tiles, is_safety_layer, map_id_of, parse_u16, property, MapLayer};
use mir2::map::{MapConnection, MapData, MapManager, MonsterSpawnConfig, MonsterSpawnConfigs, Rect, Tile};
use mir2::monster::ai::{direction_toward, tick_monster_with};
use mir2::monster::spawner::{calculate_spawn_count, spawn_batch};
use mir2::monster::{Monster, MonsterManager, MonsterState, MonsterTemplate};
use mir2::network::handler::{chat_line, chat_name, decide_walk, gain_experience, shown_name, PacketRouter, WalkOutcome};
use mir2::network::session::{heartbeat_expired, SessionRegistry, SessionState};
use mir2::types::StatRange;

fn layer(name: &str, kind: &str, data: Option<Vec<u32>>) -> MapLayer {
    MapLayer { name: name.to_string(), layer_type: kind.to_string(), data }
}

fn props(list: &[(&str, &str)]) -> Vec<(String, String)> {
    list.iter().map(|(k, v)| (k.to_string(), v.to_string())).collect()
}

/// A 3 by 2 map: a wall at (1, 0), a safe tile at (2, 1), a gate at (0, 1)
/// to map 2 (which exists when `with_target`).
fn small_world(with_target: bool) -> MapManager {
    let layers = vec![
        layer("ground", "tilelayer", Some(vec![1, 2, 1, 1, 1, 10])),
        layer("objects", "objectgroup", None),
    ];
    let p = props(&[("map_id", "1"), ("title", "Town")]);
    let gate = MapConnection { source_x: 0, source_y: 1, target_map_id: 2, target_x: 5, target_y: 5 };
    let map = build_map(3, 2, &p, &layers, "town".to_string(), vec![gate], None, MonsterSpawnConfigs::default());
    let mut mm = MapManager::new();
    mm.insert_map(map);
    if with_target {
        let other = build_map(8, 8, &props(&[("map_id", "2")]), &vec![], "field".to_string(), vec![], None, MonsterSpawnConfigs::default());
        mm.insert_map(other);
    }
    mm
}

#[test]
fn tiles_follow_the_layers() {
    let layers = vec![
        layer("ground", "tilelayer", Some(vec![1, 2, 3, 0])),
        layer("SafeZone", "tilelayer", Some(vec![0, 0, 7])),
        layer("ignored", "imagelayer", Some(vec![2, 2, 2, 2])),
    ];
    let tiles = build_tiles(2, 2, &layers);
    let attrs: Vec<(CellAttribute, bool)> = tiles.iter().map(|t| (t.attr, t.is_safe_zone)).collect();
    assert_eq!(
        attrs,
        vec![
            (CellAttribute::Walk, false),
            (CellAttribute::HighWall, false),
            (CellAttribute::Walk, true),
            (CellAttribute::Walk, false),
        ]
    );
}

#[test]
fn tile_ids() {
    assert_eq!(MapManager::tile_id_to_attr(0), CellAttribute::Walk);
    assert_eq!(MapManager::tile_id_to_attr(1), CellAttribute::Walk);
    assert_eq!(MapManager::tile_id_to_attr(2), CellAttribute::HighWall);
    assert_eq!(MapManager::tile_id_to_attr(3), CellAttribute::LowWall);
    assert_eq!(MapManager::tile_id_to_attr(10), CellAttribute::Walk);
    assert_eq!(MapManager::tile_id_to_attr(11), CellAttribute::HighWall);
    assert!(MapManager::tile_id_is_safe_zone(10));
    assert!(!MapManager::tile_id_is_safe_zone(1));
}

#[test]
fn safety_layers_by_name() {
    assert!(is_safety_layer("SafeZone"));
    assert!(is_safety_layer("town_SAFETY"));
    assert!(!is_safety_layer("ground"));
    assert!(!is_safety_layer("saf"));
}

#[test]
fn map_properties() {
    let p = props(&[("map_id", "7"), ("title", "A"), ("title", "B")]);
    assert_eq!(property(&p, "title"), Some("B".to_string()));
    assert_eq!(property(&p, "filename"), None);
    assert_eq!(map_id_of(&p), 7);
    assert_eq!(map_id_of(&props(&[("map_id", "70000")])), 0);
    assert_eq!(map_id_of(&props(&[])), 0);
    assert_eq!(parse_u16(b"+65535"), Some(65535));
    assert_eq!(parse_u16(b"65536"), None);
    assert_eq!(parse_u16(b"-1"), None);
    assert_eq!(parse_u16(b""), None);
    assert_eq!(parse_u16(b"+"), None);
    assert_eq!(parse_u16(b"007"), Some(7));
}

#[test]
fn built_map_fields() {
    let mm = small_world(false);
    let map: &MapData = mm.get_map(1).unwrap();
    assert_eq!(map.title, "Town");
    assert_eq!(map.filename, "town");
    assert_eq!((map.width, map.height), (3, 2));
    assert_eq!(mm.map_count(), 1);
    assert!(mm.is_walkable(1, 0, 0));
    assert!(!mm.is_walkable(1, 1, 0));
    assert!(!mm.is_walkable(1, 3, 0), "off the map");
    assert!(!mm.is_walkable(9, 0, 0), "unknown map");
    assert!(mm.is_safe_zone(1, 2, 1));
    assert!(!mm.is_safe_zone(1, 0, 0));
    assert_eq!(mm.find_connection(1, 0, 1).map(|c| c.target_map_id), Some(2));
    assert!(mm.find_connection(1, 1, 1).is_none());
}

#[test]
fn rectangles_and_safe_rectangles() {
    let r = Rect { x: 2, y: 2, w: 10, h: 10 };
    assert!(r.contains(2, 2));
    assert!(r.contains(11, 11));
    assert!(!r.contains(12, 5));
    let big = Rect { x: i32::MAX - 1, y: 0, w: i32::MAX, h: 1 };
    assert!(big.contains(i32::MAX, 0), "bounds are computed without overflow");
    let map = MapData {
        id: 3,
        width: 1,
        height: 1,
        title: String::new(),
        filename: String::new(),
        tiles: vec![Tile { attr: CellAttribute::Walk, is_safe_zone: false }],
        connections: vec![],
        safe_zone: Some(Rect { x: 0, y: 0, w: 5, h: 5 }),
        spawn_configs: MonsterSpawnConfigs::default(),
    };
    assert!(map.is_safe_zone_at(4, 4), "inside the safe rectangle, off the tiles");
    assert!(!map.is_walkable_at(4, 4));
}

#[test]
fn walking() {
    let mm = small_world(true);
    match decide_walk((0, 0), 1, MirDirection::Right, Some(&mm)) {
        WalkOutcome::Blocked { at } => assert_eq!(at, (0, 0)),
        other => panic!("the wall should block, got {:?}", other),
    }
    match decide_walk((0, 0), 1, MirDirection::Down, Some(&mm)) {
        WalkOutcome::Moved { to, gate } => {
            assert_eq!(to, (0, 1));
            assert_eq!(gate.map(|g| (g.target_map_id, g.target_x, g.target_y)), Some((2, 5, 5)));
        }
        other => panic!("expected a move, got {:?}", other),
    }
    let no_target = small_world(false);
    match decide_walk((0, 0), 1, MirDirection::Down, Some(&no_target)) {
        WalkOutcome::Moved { gate, .. } => assert!(gate.is_none(), "a gate to a missing map is not used"),
        other => panic!("expected a move, got {:?}", other),
    }
    match decide_walk((0, 0), 1, MirDirection::Up, None) {
        WalkOutcome::Moved { to, gate } => {
            assert_eq!(to, (0, -1));
            assert!(gate.is_none());
        }
        other => panic!("without maps every step goes, got {:?}", other),
    }
}

fn rat() -> MonsterTemplate {
    MonsterTemplate {
        id: 4,
        name: "骷髅".to_string(),
        level: 8,
        max_hp: 120,
        max_mp: 0,
        dc: StatRange { min: 8, max: 15 },
        ac: 2,
        mac: 0,
        accuracy: 5,
        agility: 3,
        exp: 30,
        attack_speed: 1000,
        move_speed: 800,
        image: 4,
    }
}

fn field() -> MapManager {
    let map = build_map(
        20,
        20,
        &props(&[("map_id", "5")]),
        &vec![layer("ground", "tilelayer", Some(vec![1; 400]))],
        "field".to_string(),
        vec![],
        None,
        MonsterSpawnConfigs::default(),
    );
    let mut mm = MapManager::new();
    mm.insert_map(map);
    mm
}

fn spawn_cfg(count: u8) -> MonsterSpawnConfig {
    MonsterSpawnConfig { monster_id: 4, count, interval: 10000, x: 2, y: 2, w: 5, h: 5, range: 3 }
}

#[test]
fn spawning_and_removing_monsters() {
    let mut mm = MonsterManager::new(Arc::new(field()));
    mm.init_templates(vec![rat()]);
    mm.assign_map_spawns(5, vec![spawn_cfg(3)]);
    mm.spawn_all(5);
    assert_eq!(mm.alive_count_on_map(5, 4), 3);
    let ids = mm.monsters_by_map.get(&5).unwrap().clone();
    assert_eq!(ids, vec![10000, 10001, 10002]);
    let m = mm.get_monster(10000).unwrap();
    assert_eq!(m.current_hp, 120);
    assert_eq!(m.state, MonsterState::Idle);
    assert_eq!(m.location, m.spawn_point);
    assert!((2..7).contains(&m.location.0) && (2..7).contains(&m.location.1));

    mm.spawn_all(5);
    assert_eq!(mm.alive_count_on_map(5, 4), 3, "a full map spawns nothing more");

    let killed = mm.get_monster_mut(10001).unwrap().take_damage(500);
    assert!(killed);
    assert_eq!(mm.alive_count_on_map(5, 4), 2);
    assert_eq!(mm.get_monsters_on_map(5).len(), 2);
    mm.remove_dead_monsters();
    assert!(mm.get_monster(10001).is_none());
    assert_eq!(mm.monsters_by_map.get(&5).unwrap(), &vec![10000, 10002]);

    mm.remove_monster(10000);
    assert_eq!(mm.monsters_by_map.get(&5).unwrap(), &vec![10002]);
    assert!(mm.spawn_monster(9, &spawn_cfg(1)).is_none(), "no such map");
}

#[test]
fn monsters_near_a_point() {
    let mut mm = MonsterManager::new(Arc::new(field()));
    mm.init_templates(vec![rat()]);
    let id = mm.spawn_monster(5, &MonsterSpawnConfig { monster_id: 4, count: 1, interval: 0, x: 3, y: 3, w: 0, h: 0, range: 1 }).unwrap();
    assert_eq!(mm.get_monster(id).unwrap().location, (3, 3));
    assert_eq!(mm.get_monsters_near(5, 4, 3, 1), vec![id]);
    assert!(mm.get_monsters_near(5, 6, 3, 1).is_empty());
    let second = mm.spawn_monster(5, &MonsterSpawnConfig { monster_id: 4, count: 1, interval: 0, x: 3, y: 3, w: 0, h: 0, range: 1 }).unwrap();
    assert_ne!(mm.get_monster(second).unwrap().location, (3, 3), "an occupied tile is not reused");
}

#[test]
fn take_damage_kills_once() {
    let mut m = Monster::new(1, Arc::new(rat()), 5, 3, 3);
    m.current_hp = 10;
    assert!(!m.take_damage(4));
    assert_eq!(m.current_hp, 6);
    assert!(m.take_damage(6));
    assert_eq!((m.current_hp, m.is_alive, m.state), (0, false, MonsterState::Dead));
    assert!(!m.take_damage(1), "a dead monster is not killed again");
    assert_eq!(m.distance_to(0, 0), 6);
}

#[test]
fn monster_ai_steps() {
    let now = std::time::Instant::now();
    let mut m = Monster::new(1, Arc::new(rat()), 5, 10, 10);
    tick_monster_with(&mut m, now, 100, 0, MirDirection::Up, false);
    assert_eq!(m.state, MonsterState::Idle, "too early to patrol");
    tick_monster_with(&mut m, now, 2501, 0, MirDirection::Up, false);
    assert_eq!(m.state, MonsterState::Patrol);
    tick_monster_with(&mut m, now, 800, 0, MirDirection::Right, true);
    assert_eq!((m.location, m.direction), ((12, 10), MirDirection::Right));
    m.location = (21, 10);
    tick_monster_with(&mut m, now, 800, 0, MirDirection::Right, true);
    assert_eq!((m.location, m.direction), ((20, 10), MirDirection::Left), "too far out: one step back");

    m.state = MonsterState::Chase;
    m.target_id = Some(9);
    m.location = (13, 10);
    tick_monster_with(&mut m, now, 800, 0, MirDirection::Up, false);
    assert_eq!(m.location, (12, 10));
    m.location = (11, 10);
    tick_monster_with(&mut m, now, 800, 0, MirDirection::Up, false);
    assert_eq!(m.state, MonsterState::Attack);
    m.location = (10, 12);
    tick_monster_with(&mut m, now, 0, 5000, MirDirection::Up, false);
    assert_eq!(m.state, MonsterState::Chase, "out of reach again");
}

#[test]
fn directions_toward() {
    assert_eq!(direction_toward((0, 0), (5, 1)), MirDirection::Right);
    assert_eq!(direction_toward((0, 0), (-5, 1)), MirDirection::Left);
    assert_eq!(direction_toward((0, 0), (2, 2)), MirDirection::Down);
    assert_eq!(direction_toward((0, 0), (0, -3)), MirDirection::Up);
}

#[test]
fn spawn_counts() {
    assert_eq!(calculate_spawn_count(5, 2, 10), 3);
    assert_eq!(calculate_spawn_count(5, 2, 2), 2);
    assert_eq!(calculate_spawn_count(5, 9, 2), 0);
}

#[test]
fn router_dispatches_the_registered_handler() {
    let mut router: PacketRouter<&str> = PacketRouter::new();
    assert_eq!(router.handler_count(), 0);
    router.register(5, "login");
    router.register(8, "start");
    router.register(5, "login2");
    assert_eq!(router.handler_count(), 2);
    assert_eq!(router.dispatch(5), Some(&"login2"));
    assert_eq!(router.dispatch(8), Some(&"start"));
    assert_eq!(router.dispatch(9), None);
}

#[test]
fn sessions() {
    let mut reg = SessionRegistry::new();
    let a = reg.allocate_id();
    let b = reg.allocate_id();
    assert_eq!((a, b), (1, 2));
    reg.set_state(a, SessionState::new(10));
    let mut s = SessionState::new(11);
    s.map_id = 3;
    reg.set_state(b, s);
    let ids = vec![a, b, 99];
    assert_eq!(reg.map_recipients(&ids, 0, None), vec![a]);
    assert_eq!(reg.map_recipients(&ids, 3, Some(b)), Vec::<u32>::new());
    reg.get_state_mut(a).unwrap().map_id = 3;
    assert_eq!(reg.map_recipients(&ids, 3, None), vec![a, b]);
    reg.remove_state(a);
    assert!(reg.get_state(a).is_none());
    assert!(heartbeat_expired(15_000_000_001));
    assert!(!heartbeat_expired(15_000_000_000));
}

#[test]
fn chat_and_experience() {
    assert_eq!(chat_line("Bob", "hi"), "[Bob] hi");
    assert_eq!(gain_experience(10, 5), 15);
    assert_eq!(gain_experience(u64::MAX - 1, 5), u64::MAX);
}

#[test]
fn regeneration() {
    assert!(regen_tick(20));
    assert!(!regen_tick(21));
    assert_eq!(regen_gain(100), 2);
    assert_eq!(regen_gain(10), 1);
    assert_eq!(regen(95, 100), 97);
    assert_eq!(regen(99, 100), 100);
    assert_eq!(regen_gain(5000), 100);
}

#[test]
fn default_names() {
    let mm = small_world(true);
    assert_eq!(mm.get_map(2).unwrap().title, "Map 2");
    assert_eq!(mm.get_map(2).unwrap().filename, "field");
    assert_eq!(chat_name(&String::new(), 7), "Player 7");
    assert_eq!(shown_name(&String::new(), 7), "Player7");
    assert_eq!(chat_name(&"Bob".to_string(), 7), "Bob");
}

#[test]
fn session_state_clone_keeps_worn_items_and_skills() {
    let mut state = SessionState::new(7);
    state.skills.learn_skill(12).unwrap();
    state.gold = 99;
    let copy = state.clone();
    assert_eq!(copy.gold, 99);
    assert!(copy.skills.has_skill(12));
    assert_eq!(copy.skills.skill_count(), 1);
    assert_eq!(copy.equipment.equipped_count(), state.equipment.equipped_count());
}

#[test]
fn spawn_batch_hands_out_consecutive_ids() {
    let mut mm = MonsterManager::new(Arc::new(field()));
    mm.init_templates(vec![rat()]);
    let mut unknown = spawn_cfg(2);
    unknown.monster_id = 99;
    let ids = spawn_batch(&mut mm, 5, &[spawn_cfg(2), unknown, spawn_cfg(3)]);
    assert_eq!(ids, vec![10000, 10001, 10002], "the second setting of the same template only tops up to 3");
    assert_eq!(mm.next_monster_id, 10003);
    assert_eq!(mm.alive_count_on_map(5, 4), 3);
}

#[test]
fn far_away_monster_walks_back_toward_spawn() {
    let now = std::time::Instant::now();
    let mut m = Monster::new(1, Arc::new(rat()), 5, 10, 10);
    m.state = MonsterState::Patrol;
    m.location = (10, 5000);
    tick_monster_with(&mut m, now, 800, 0, MirDirection::Right, true);
    assert_eq!((m.location, m.direction), ((10, 4999), MirDirection::Up));
    m.location = (i32::MAX, 10);
    tick_monster_with(&mut m, now, 800, 0, MirDirection::Right, true);
    assert_eq!((m.location, m.direction), ((i32::MAX - 1, 10), MirDirection::Left));
}

#[test]
fn a_tick_moves_a_monster_at_most_two_cells() {
    let now = std::time::Instant::now();
    let mut m = Monster::new(1, Arc::new(rat()), 5, 10, 10);
    m.state = MonsterState::Patrol;
    let before = m.location;
    tick_monster_with(&mut m, now, 800, 0, MirDirection::DownRight, true);
    assert_eq!(m.location, (before.0 + 2, before.1 + 2));
    assert_eq!((m.object_id, m.current_hp, m.map_id, m.spawn_point, m.is_alive), (1, 0, 5, (10, 10), true));
    m.is_alive = false;
    let dead = m.location;
    tick_monster_with(&mut m, now, 800, 0, MirDirection::Up, true);
    assert_eq!(m.location, dead, "a dead monster stays put");
}
