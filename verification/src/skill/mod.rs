//! Skills: learning, use, proficiency and levels. A skill has three levels,
//! reached by gathering proficiency through use.
pub mod effects;

use vstd::prelude::*;
use std::collections::HashMap;
use crate::collections::hash_map_keys;
use crate::messages::{decimal, skill_already_learned, skill_not_learned};
use crate::rand::rand_u32_between;

verus! {

broadcast use vstd::std_specs::hash::group_hash_axioms;

/// The highest skill level.
pub const MAX_SKILL_LEVEL: u8 = 3;

/// A learned skill.
#[derive(Debug, Clone, Copy)]
pub struct SkillState {
    pub spell_id: u16,
    pub level: u8,
    pub proficiency: u32,
}

/// Proficiency needed to leave `level`: 100, 300 and 600 for levels 0 to 2;
/// none from level 3 on.
pub open spec fn spec_proficiency_for_next_level(level: u8) -> Option<u32> {
    if level == 0 {
        Some(100u32)
    } else if level == 1 {
        Some(300u32)
    } else if level == 2 {
        Some(600u32)
    } else {
        None
    }
}

/// `a + b`, saturating at `u32::MAX`.
pub open spec fn sat_add_u32(a: u32, b: u32) -> u32 {
    if a + b > u32::MAX { u32::MAX } else { (a + b) as u32 }
}

/// One use of skill `s` that earned `gain` proficiency: the skill afterwards,
/// and the new level when it went up. A skill at the top level is left alone;
/// otherwise the proficiency grows, and once it reaches the threshold the
/// level goes up by one and the proficiency starts again from zero.
pub open spec fn spec_use_once(s: SkillState, gain: u32) -> (SkillState, Option<u8>) {
    if s.level >= MAX_SKILL_LEVEL {
        (s, None)
    } else {
        let p = sat_add_u32(s.proficiency, gain);
        match spec_proficiency_for_next_level(s.level) {
            Some(req) => if p >= req {
                (SkillState { spell_id: s.spell_id, level: (s.level + 1) as u8, proficiency: 0 }, Some((s.level + 1) as u8))
            } else {
                (SkillState { spell_id: s.spell_id, level: s.level, proficiency: p }, None)
            },
            None => (SkillState { spell_id: s.spell_id, level: s.level, proficiency: p }, None),
        }
    }
}

/// One use never takes a skill past the top level, never lowers its level
/// and raises it by at most one; a level gained is reported and restarts the
/// proficiency at zero.
pub proof fn law_use_levels(s: SkillState, gain: u32)
    requires
        s.level <= MAX_SKILL_LEVEL,
    ensures
        ({
            let (n, up) = spec_use_once(s, gain);
            &&& n.spell_id == s.spell_id
            &&& s.level <= n.level <= MAX_SKILL_LEVEL
            &&& n.level <= s.level + 1
            &&& (up is Some <==> n.level == s.level + 1)
            &&& (up matches Some(l) ==> l == n.level && n.proficiency == 0)
        }),
{
}

/// `m` after loading the skills of `list` in order, each under its spell id.
pub open spec fn spec_loaded(m: Map<u16, SkillState>, list: Seq<SkillState>) -> Map<u16, SkillState>
    decreases list.len(),
{
    if list.len() == 0 {
        m
    } else {
        spec_loaded(m, list.drop_last()).insert(list.last().spell_id, list.last())
    }
}

/// Loading a list keeps, for each spell id in it, the last skill listed with
/// that id; every other learned skill stays as it was.
pub proof fn law_load_last_wins(m: Map<u16, SkillState>, list: Seq<SkillState>, id: u16)
    ensures
        (exists|j: int| 0 <= j < list.len() && #[trigger] list[j].spell_id == id) ==> exists|j: int|
            0 <= j < list.len() && #[trigger] list[j].spell_id == id && (forall|k: int| j < k < list.len() ==> #[trigger] list[k].spell_id != id)
                && spec_loaded(m, list).contains_key(id) && spec_loaded(m, list)[id] == list[j],
        (forall|j: int| 0 <= j < list.len() ==> #[trigger] list[j].spell_id != id) ==> spec_loaded(m, list).contains_key(id)
            == m.contains_key(id) && (m.contains_key(id) ==> spec_loaded(m, list)[id] == m[id]),
    decreases list.len(),
{
    if list.len() > 0 {
        let t = list.drop_last();
        law_load_last_wins(m, t, id);
        let n = list.len() - 1;
        if list[n].spell_id == id {
            assert(list.last() == list[n]);
        } else {
            if exists|j: int| 0 <= j < list.len() && #[trigger] list[j].spell_id == id {
                let j0 = choose|j: int| 0 <= j < list.len() && #[trigger] list[j].spell_id == id;
                assert(t[j0].spell_id == id);
                let j = choose|j: int|
                    0 <= j < t.len() && #[trigger] t[j].spell_id == id && (forall|k: int| j < k < t.len() ==> #[trigger] t[k].spell_id != id)
                        && spec_loaded(m, t).contains_key(id) && spec_loaded(m, t)[id] == t[j];
                assert(list[j] == t[j]);
                assert forall|k: int| j < k < list.len() implies #[trigger] list[k].spell_id != id by {
                    if k < n {
                        assert(list[k] == t[k]);
                    }
                }
            }
            assert forall|j: int| 0 <= j < t.len() && (forall|k: int| 0 <= k < list.len() ==> #[trigger] list[k].spell_id != id)
                implies #[trigger] t[j].spell_id != id by {
                assert(t[j] == list[j]);
            }
        }
    }
}

/// `r` holds the values of `m` in the key order `ks`, which names every key once.
pub open spec fn lists_values_by(r: Seq<&SkillState>, ks: Seq<u16>, m: Map<u16, SkillState>) -> bool {
    &&& ks.no_duplicates()
    &&& ks.len() == r.len()
    &&& forall|k: u16| #[trigger] ks.contains(k) <==> m.contains_key(k)
    &&& forall|i: int| 0 <= i < r.len() ==> *(#[trigger] r[i]) == m[ks[i]]
}

impl SkillState {
    /// A freshly learned skill: level 0, no proficiency.
    pub fn new(spell_id: u16) -> (r: Self)
        ensures
            r.spell_id == spell_id && r.level == 0 && r.proficiency == 0,
    {
        SkillState { spell_id, level: 0, proficiency: 0 }
    }

    /// Proficiency needed to leave `level`.
    pub fn proficiency_for_next_level(level: u8) -> (r: Option<u32>)
        ensures
            r == spec_proficiency_for_next_level(level),
    {
        match level {
            0 => Some(100),
            1 => Some(300),
            2 => Some(600),
            _ => None,
        }
    }

    /// The display name of the skill's level.
    pub fn level_name(&self) -> (r: &'static str)
        ensures
            self.level == 0 ==> r@ == "未学习"@,
            self.level == 1 ==> r@ == "初级"@,
            self.level == 2 ==> r@ == "中级"@,
            self.level == 3 ==> r@ == "高级"@,
            self.level > 3 ==> r@ == "未知"@,
    {
        match self.level {
            0 => "未学习",
            1 => "初级",
            2 => "中级",
            3 => "高级",
            _ => "未知",
        }
    }
}

/// The skills a player has learned, by spell id.
#[derive(Debug)]
pub struct SkillManager {
    pub skills: HashMap<u16, SkillState>,
}

impl SkillManager {
    /// No skill learned.
    pub fn new() -> (r: Self)
        ensures
            r.skills@ == Map::<u16, SkillState>::empty(),
    {
        SkillManager { skills: HashMap::new() }
    }

    /// Learns `spell_id` at level 0. Fails, changing nothing, when it is
    /// already learned.
    pub fn learn_skill(&mut self, spell_id: u16) -> (r: Result<(), String>)
        ensures
            old(self).skills@.contains_key(spell_id) ==> (r matches Err(e) && e@ == "Skill "@ + decimal(spell_id as nat)
                + " is already learned"@) && final(self).skills@ == old(self).skills@,
            !old(self).skills@.contains_key(spell_id) ==> r is Ok && final(self).skills@
                == old(self).skills@.insert(spell_id, SkillState { spell_id, level: 0, proficiency: 0 }),
    {
        if self.skills.contains_key(&spell_id) {
            return Err(skill_already_learned(spell_id));
        }
        self.skills.insert(spell_id, SkillState::new(spell_id));
        Ok(())
    }

    /// One use of `spell_id` that earned `gain` proficiency (see
    /// [`spec_use_once`]): `Ok(Some(level))` when the skill went up to
    /// `level`, `Ok(None)` when not, `Err` when the skill is not learned.
    pub fn use_skill_with_gain(&mut self, spell_id: u16, gain: u32) -> (r: Result<Option<u8>, String>)
        ensures
            !old(self).skills@.contains_key(spell_id) ==> (r matches Err(e) && e@ == "Skill "@ + decimal(spell_id as nat)
                + " not learned"@) && final(self).skills@ == old(self).skills@,
            old(self).skills@.contains_key(spell_id) ==> {
                let after = spec_use_once(old(self).skills@[spell_id], gain);
                &&& r == Ok::<Option<u8>, String>(after.1)
                &&& final(self).skills@ == old(self).skills@.insert(spell_id, after.0)
            },
    {
        let state = match self.skills.get(&spell_id) {
            Some(s) => *s,
            None => return Err(skill_not_learned(spell_id)),
        };
        if state.level >= MAX_SKILL_LEVEL {
            proof {
                assert(old(self).skills@.insert(spell_id, state) =~= old(self).skills@);
            }
            return Ok(None);
        }
        let proficiency = state.proficiency.saturating_add(gain);
        match SkillState::proficiency_for_next_level(state.level) {
            Some(req) => {
                if proficiency >= req {
                    let level = state.level + 1;
                    self.skills.insert(spell_id, SkillState { spell_id: state.spell_id, level, proficiency: 0 });
                    return Ok(Some(level));
                }
            },
            None => {},
        }
        self.skills.insert(spell_id, SkillState { spell_id: state.spell_id, level: state.level, proficiency });
        Ok(None)
    }

    /// One use of `spell_id`: a proficiency gain of 1 to 3 is drawn at random
    /// and applied as in [`SkillManager::use_skill_with_gain`].
    pub fn use_skill(&mut self, spell_id: u16) -> (r: Result<Option<u8>, String>)
        ensures
            !old(self).skills@.contains_key(spell_id) ==> (r matches Err(e) && e@ == "Skill "@ + decimal(spell_id as nat)
                + " not learned"@) && final(self).skills@ == old(self).skills@,
            old(self).skills@.contains_key(spell_id) ==> exists|gain: u32| 1 <= gain <= 3 && {
                let after = #[trigger] spec_use_once(old(self).skills@[spell_id], gain);
                &&& r == Ok::<Option<u8>, String>(after.1)
                &&& final(self).skills@ == old(self).skills@.insert(spell_id, after.0)
            },
    {
        if !self.skills.contains_key(&spell_id) {
            return Err(skill_not_learned(spell_id));
        }
        let gain = rand_u32_between(1, 3);
        self.use_skill_with_gain(spell_id, gain)
    }

    /// Every learned skill, once each, in the map's iteration order.
    pub fn get_learned_skills(&self) -> (r: Vec<&SkillState>)
        ensures
            exists|ks: Seq<u16>| #[trigger] lists_values_by(r@, ks, self.skills@),
    {
        let keys = hash_map_keys(&self.skills);
        let mut r: Vec<&SkillState> = Vec::new();
        let mut i: usize = 0;
        while i < keys.len()
            invariant
                i <= keys@.len(),
                r@.len() == i,
                forall|k: u16| #[trigger] keys@.contains(k) <==> self.skills@.contains_key(k),
                forall|j: int| 0 <= j < i ==> *(#[trigger] r@[j]) == self.skills@[keys@[j]],
            decreases keys@.len() - i,
        {
            let k = keys[i];
            assert(keys@.contains(k));
            let s = self.skills.get(&k).unwrap();
            r.push(s);
            i = i + 1;
        }
        proof {
            assert(lists_values_by(r@, keys@, self.skills@));
        }
        r
    }

    /// Loads `list` (read back from storage), each skill under its spell id;
    /// a later entry replaces an earlier one with the same id.
    pub fn load_from_list(&mut self, list: Vec<SkillState>)
        ensures
            final(self).skills@ == spec_loaded(old(self).skills@, list@),
    {
        let mut i: usize = 0;
        while i < list.len()
            invariant
                i <= list@.len(),
                self.skills@ == spec_loaded(old(self).skills@, list@.take(i as int)),
            decreases list@.len() - i,
        {
            let s = list[i];
            self.skills.insert(s.spell_id, s);
            proof {
                assert(list@.take(i as int + 1).drop_last() =~= list@.take(i as int));
            }
            i = i + 1;
        }
        proof {
            assert(list@.take(list@.len() as int) =~= list@);
        }
    }

    /// The level of `spell_id`, if learned.
    pub fn get_skill_level(&self, spell_id: u16) -> (r: Option<u8>)
        ensures
            r == (if self.skills@.contains_key(spell_id) { Some(self.skills@[spell_id].level) } else { None }),
    {
        match self.skills.get(&spell_id) {
            Some(s) => Some(s.level),
            None => None,
        }
    }

    /// Whether `spell_id` is learned.
    pub fn has_skill(&self, spell_id: u16) -> (r: bool)
        ensures
            r == self.skills@.contains_key(spell_id),
    {
        self.skills.contains_key(&spell_id)
    }

    /// Number of learned skills.
    pub fn skill_count(&self) -> (r: usize)
        ensures
            r == self.skills@.dom().len(),
    {
        self.skills.len()
    }
}

impl Clone for SkillManager {
    /// A copy with the same skills learned.
    fn clone(&self) -> (r: Self)
        ensures
            r.skills@ == self.skills@,
    {
        SkillManager { skills: self.skills.clone() }
    }
}

impl Default for SkillManager {
    fn default() -> (r: Self)
        ensures
            r.skills@ == Map::<u16, SkillState>::empty(),
    {
        SkillManager::new()
    }
}

} // verus!
