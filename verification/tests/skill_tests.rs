use mir2::skill::effects::{fencing_bonus, healing_amount, random_in_range};
use mir2::skill::{SkillManager, SkillState};

#[test]
fn test_learn_skill() {
    let mut sm = SkillManager::new();
    assert!(sm.learn_skill(31).is_ok());
    assert!(sm.has_skill(31));
    assert_eq!(sm.skill_count(), 1);
}

#[test]
fn test_learn_skill_duplicate() {
    let mut sm = SkillManager::new();
    sm.learn_skill(31).unwrap();
    let result = sm.learn_skill(31);
    assert!(result.is_err(), "learning twice should fail");
}

#[test]
fn test_use_unlearned_skill() {
    let mut sm = SkillManager::new();
    let result = sm.use_skill(31);
    assert!(result.is_err(), "an unlearned skill cannot be used");
}

#[test]
fn test_skill_proficiency_and_level_up() {
    let mut sm = SkillManager::new();
    sm.learn_skill(31).unwrap();
    let mut leveled_up = false;
    for _ in 0..200 {
        if let Ok(Some(_new_level)) = sm.use_skill(31) {
            leveled_up = true;
            break;
        }
    }
    assert!(leveled_up, "the skill should level up within 200 uses");
    let state = sm.skills.get(&31).unwrap();
    assert!(state.level >= 1);
    assert_eq!(state.proficiency, 0);
}

#[test]
fn test_max_level_skill_no_proficiency_gain() {
    let mut sm = SkillManager::new();
    sm.skills.insert(31, SkillState { spell_id: 31, level: 3, proficiency: 0 });
    for _ in 0..10 {
        let result = sm.use_skill(31).unwrap();
        assert!(result.is_none());
    }
    let state = sm.skills.get(&31).unwrap();
    assert_eq!(state.level, 3);
    assert_eq!(state.proficiency, 0);
}

#[test]
fn test_get_learned_skills() {
    let mut sm = SkillManager::new();
    sm.learn_skill(31).unwrap();
    sm.learn_skill(61).unwrap();
    sm.learn_skill(1).unwrap();
    let skills = sm.get_learned_skills();
    assert_eq!(skills.len(), 3);
    let ids: Vec<u16> = skills.iter().map(|s| s.spell_id).collect();
    assert!(ids.contains(&31));
    assert!(ids.contains(&61));
    assert!(ids.contains(&1));
}

#[test]
fn test_load_from_list() {
    let list = vec![
        SkillState { spell_id: 31, level: 1, proficiency: 50 },
        SkillState { spell_id: 61, level: 2, proficiency: 0 },
    ];
    let mut sm = SkillManager::new();
    sm.load_from_list(list);
    assert_eq!(sm.skill_count(), 2);
    assert_eq!(sm.get_skill_level(31), Some(1));
    assert_eq!(sm.get_skill_level(61), Some(2));
}

#[test]
fn test_proficiency_thresholds() {
    assert_eq!(SkillState::proficiency_for_next_level(0), Some(100));
    assert_eq!(SkillState::proficiency_for_next_level(1), Some(300));
    assert_eq!(SkillState::proficiency_for_next_level(2), Some(600));
    assert_eq!(SkillState::proficiency_for_next_level(3), None);
    assert_eq!(SkillState::proficiency_for_next_level(4), None);
}

#[test]
fn test_healing_amount_basic() {
    assert_eq!(healing_amount(20, 0), 20);
    assert_eq!(healing_amount(20, 1), 30);
    assert_eq!(healing_amount(20, 2), 40);
    assert_eq!(healing_amount(20, 3), 50);
}

#[test]
fn test_healing_amount_minimum() {
    assert_eq!(healing_amount(0, 0), 10);
    assert!(healing_amount(0, 0) >= 1);
}

#[test]
fn test_healing_amount_scaling() {
    let high_sc = healing_amount(100, 3);
    assert_eq!(high_sc, 150);
    let mid = healing_amount(50, 2);
    assert_eq!(mid, 70);
}

#[test]
fn test_fencing_bonus_basic() {
    assert_eq!(fencing_bonus(0), (0, 0));
    assert_eq!(fencing_bonus(1), (1, 3));
    assert_eq!(fencing_bonus(2), (2, 6));
    assert_eq!(fencing_bonus(3), (3, 10));
}

#[test]
fn test_fencing_bonus_invalid_level() {
    assert_eq!(fencing_bonus(4), (0, 0));
    assert_eq!(fencing_bonus(255), (0, 0));
}

#[test]
fn test_fencing_bonus_application() {
    let (min_bonus, max_bonus) = fencing_bonus(2);
    let final_dc_min = 5 + min_bonus;
    let final_dc_max = 10 + max_bonus;
    assert_eq!(final_dc_min, 7);
    assert_eq!(final_dc_max, 16);
}

#[test]
fn test_random_in_range() {
    assert_eq!(random_in_range(5, 5), 5);
    assert_eq!(random_in_range(0, 0), 0);
    assert_eq!(random_in_range(-3, -3), -3);
    for _ in 0..100 {
        let v = random_in_range(10, 20);
        assert!(v >= 10 && v <= 20, "value {} should lie in [10, 20]", v);
    }
}

#[test]
fn healing_rounds_half_points_up_and_floors_odd_power() {
    // (⌊21 / 2⌋ + 10) * 1.5 = 30
    assert_eq!(healing_amount(21, 1), 30);
    // (⌊22 / 2⌋ + 10) * 1.5 = 31.5, rounded up
    assert_eq!(healing_amount(22, 1), 32);
    // ⌊-3 / 2⌋ = -2: (−2 + 10) * 1 = 8
    assert_eq!(healing_amount(-3, 0), 8);
    // far negative power still heals at least 1
    assert_eq!(healing_amount(-1000, 3), 1);
    // a huge power is held to u32
    assert_eq!(healing_amount(i32::MAX, 255), u32::MAX);
}

#[test]
fn use_with_gain_levels_up_at_threshold() {
    let mut sm = SkillManager::new();
    sm.skills.insert(7, SkillState { spell_id: 7, level: 0, proficiency: 98 });
    assert_eq!(sm.use_skill_with_gain(7, 1), Ok(None));
    assert_eq!(sm.skills.get(&7).unwrap().proficiency, 99);
    assert_eq!(sm.use_skill_with_gain(7, 3), Ok(Some(1)));
    let s = sm.skills.get(&7).unwrap();
    assert_eq!((s.level, s.proficiency), (1, 0));
    assert!(sm.use_skill_with_gain(8, 1).is_err());
}

#[test]
fn level_names() {
    assert_eq!(SkillState::new(1).level_name(), "未学习");
    assert_eq!(SkillState { spell_id: 1, level: 3, proficiency: 0 }.level_name(), "高级");
    assert_eq!(SkillState { spell_id: 1, level: 9, proficiency: 0 }.level_name(), "未知");
}

#[test]
fn later_entries_win_when_loading() {
    let mut sm = SkillManager::default();
    sm.load_from_list(vec![
        SkillState { spell_id: 5, level: 1, proficiency: 0 },
        SkillState { spell_id: 5, level: 2, proficiency: 0 },
    ]);
    assert_eq!(sm.skill_count(), 1);
    assert_eq!(sm.get_skill_level(5), Some(2));
}
