use std::time::{Duration, Instant};

use mir2::combat::{
    cooldown_active, hit_rate, is_melee_range, is_on_cooldown, physical_damage, random_damage_in_range, CombatSystem,
};
use mir2::packets::parse::parse_chat;
use mir2::skill::SkillManager;

#[test]
fn hit_rate_formula_and_bounds() {
    assert_eq!(hit_rate(10, 10), 50);
    assert_eq!(hit_rate(12, 10), 60);
    assert_eq!(hit_rate(100, 0), 95);
    assert_eq!(hit_rate(0, 100), 5);
    assert_eq!(CombatSystem::calculate_hit_rate(3, 5), 40);
}

#[test]
fn damage_formula_and_floor() {
    assert_eq!(physical_damage(20, 10), 15);
    assert_eq!(physical_damage(20, 11), 15, "half the defence, rounded toward zero");
    assert_eq!(physical_damage(1, 100), 1);
    assert_eq!(physical_damage(20, -4), 22);
    assert_eq!(CombatSystem::calculate_damage(i32::MIN, 2), 1);
}

#[test]
fn damage_draws_stay_in_range() {
    for _ in 0..50 {
        let v = random_damage_in_range(3, 6);
        assert!((3..=6).contains(&v));
    }
    assert_eq!(random_damage_in_range(9, 2), 9);
}

#[test]
fn reach_and_cooldown() {
    assert!(is_melee_range(0, 0, 1, 0));
    assert!(!is_melee_range(0, 0, 1, 1));
    assert!(cooldown_active(499, 500));
    assert!(!cooldown_active(500, 500));
    assert!(!is_on_cooldown(&Instant::now(), 0));
    let long_ago = Instant::now() - Duration::from_secs(5);
    assert!(!is_on_cooldown(&long_ago, 500));
    assert!(is_on_cooldown(&Instant::now(), 60_000));
}

#[test]
fn resolved_player_attacks() {
    let mut hp = 30;
    let r = CombatSystem::resolve_player_attack(1000, 10, 0, 0, 10, 10, &mut hp, 7, 1, 0, 10, 20);
    assert!(r.hit);
    assert_eq!(r.damage, 15);
    assert_eq!((hp, r.target_hp_remaining, r.target_alive), (15, 15, true));

    let mut hp = 30;
    let r = CombatSystem::resolve_player_attack(100, 10, 0, 0, 10, 10, &mut hp, 7, 1, 0, 0, 20);
    assert!(!r.hit, "within the cooldown nothing happens");
    assert_eq!(hp, 30);

    let mut hp = 30;
    let r = CombatSystem::resolve_player_attack(1000, 10, 0, 0, 10, 10, &mut hp, 7, 2, 0, 0, 20);
    assert!(!r.hit, "out of reach");
    assert_eq!(hp, 30);

    let mut hp = 30;
    let r = CombatSystem::resolve_player_attack(1000, 10, 0, 0, 10, 10, &mut hp, 7, 1, 0, 50, 20);
    assert!(!r.hit, "a roll of 50 misses a 50% hit rate");
    assert_eq!(hp, 30);

    let mut hp = 10;
    let r = CombatSystem::resolve_player_attack(1000, 10, 0, 0, 0, 10, &mut hp, 7, 0, 1, 0, 40);
    assert!(r.hit && !r.target_alive);
    assert_eq!(hp, -30);
}

#[test]
fn resolved_monster_attacks() {
    let mut hp = 20;
    let r = CombatSystem::resolve_monster_attack(10, 4, 10, &mut hp, 0, 25);
    assert!(r.hit && r.player_just_died);
    assert_eq!(r.damage, 23);
    assert_eq!(hp, -3);

    let mut hp = 0;
    let r = CombatSystem::resolve_monster_attack(10, 4, 10, &mut hp, 0, 25);
    assert!(!r.hit && !r.target_alive && !r.player_just_died, "a dead player is not attacked");
    assert_eq!(hp, 0);
}

#[test]
fn attack_with_random_draws_keeps_hp_consistent() {
    let mut hp = 1000;
    let long_ago = Instant::now() - Duration::from_secs(5);
    let r = CombatSystem::player_attack_monster(1, 5, 15, 10, &long_ago, 0, 0, 0, 0, &mut hp, 3, 0, 1);
    if r.hit {
        assert!((5..=15).contains(&r.damage));
        assert_eq!(hp, 1000 - r.damage as i32);
    } else {
        assert_eq!(hp, 1000);
    }
    assert_eq!(r.target_hp_remaining, hp);
}

#[test]
fn messages_name_their_values() {
    let mut sm = SkillManager::new();
    sm.learn_skill(31).unwrap();
    assert_eq!(sm.learn_skill(31), Err("Skill 31 is already learned".to_string()));
    assert_eq!(sm.use_skill(32), Err("Skill 32 not learned".to_string()));
}

#[test]
fn invalid_utf8_chat_is_replaced() {
    assert_eq!(parse_chat(&[3, 0, b'a', 0xff, b'b']), Some("a\u{fffd}b".to_string()));
}

#[test]
fn respawn_state_sends_player_to_town_with_full_pools() {
    let mut state = mir2::network::session::SessionState::new(3);
    state.map_id = 7;
    state.location = (12, -4);
    state.current_hp = 0;
    state.current_mp = 3;
    state.max_hp = 140;
    state.max_mp = 60;
    state.gold = 25;
    mir2::combat::respawn_state(&mut state);
    assert_eq!(state.map_id, 0);
    assert_eq!(state.location, (50, 50));
    assert_eq!(state.current_hp, 140);
    assert_eq!(state.current_mp, 60);
    assert_eq!(state.gold, 25);
}

#[test]
fn dead_player_is_untouched_whatever_the_numbers() {
    let mut hp = 0;
    let r = CombatSystem::monster_attack_player(i32::MIN, i32::MAX, 0, 1, 0, 0x8000_0000, &mut hp);
    assert!(!r.hit && r.damage == 0 && !r.target_alive && !r.player_just_died);
    assert_eq!(hp, 0);
}

#[test]
fn target_out_of_reach_is_missed_whatever_the_numbers() {
    let long_ago = Instant::now() - Duration::from_secs(5);
    let mut hp = 40;
    let r = CombatSystem::player_attack_monster(1, i32::MIN, i32::MAX, 0x7FFF_FFFF, &long_ago, 0, 0, 0, 0, &mut hp, 3, 0, 2);
    assert!(!r.hit && r.damage == 0 && r.target_alive);
    assert_eq!(hp, 40);
}
