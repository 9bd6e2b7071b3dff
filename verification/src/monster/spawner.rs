//! Spawning helpers on top of `MonsterManager`.
use vstd::prelude::*;
use crate::map::MonsterSpawnConfig;
use crate::monster::{
    all_topped_up, counted_alive, shortfall, spawn_attempt, spawn_attempts, spawn_in_range, topped_up, AliveCount,
    MonsterManager,
};

verus! {

/// How many monsters to spawn: the shortfall of `current_alive` against
/// `configured_count`, at most `max_per_spawn`.
pub fn calculate_spawn_count(configured_count: u8, current_alive: usize, max_per_spawn: u8) -> (r: u8)
    ensures
        r == (if configured_count > current_alive {
            if configured_count - current_alive < max_per_spawn {
                configured_count - current_alive
            } else {
                max_per_spawn as int
            }
        } else {
            0
        }),
{
    let c = configured_count as usize;
    let missing: u8 = if c > current_alive { (c - current_alive) as u8 } else { 0 };
    if missing < max_per_spawn { missing } else { max_per_spawn }
}

/// The object id handed out `j` spawns after `start` (ids wrap around
/// after `u32::MAX`).
pub open spec fn nth_id(start: u32, j: int) -> u32 {
    ((start + j) % 0x1_0000_0000) as u32
}

/// Tops up each of `configs` on `map_id` in order, as
/// `MonsterManager::spawn_all` does, but counting the live monsters listed on
/// the map (see [`all_topped_up`]); returns the object ids spawned, in order:
/// consecutive ids from the manager's next id.
pub fn spawn_batch(manager: &mut MonsterManager, map_id: u16, configs: &[MonsterSpawnConfig]) -> (r: Vec<u32>)
    requires
        old(manager).wf(),
        forall|j: int| 0 <= j < configs@.len() ==> spawn_in_range(#[trigger] configs@[j]),
    ensures
        final(manager).wf(),
        final(manager).templates@ == old(manager).templates@,
        final(manager).spawn_configs@ == old(manager).spawn_configs@,
        final(manager).map_manager == old(manager).map_manager,
        forall|j: int| 0 <= j < r@.len() ==> final(manager).monsters@.contains_key(#[trigger] r@[j])
            && final(manager).monsters@[r@[j]].map_id == map_id,
        all_topped_up(*old(manager), *final(manager), map_id, configs@, AliveCount::Listed),
        forall|j: int| 0 <= j < r@.len() ==> #[trigger] r@[j] == nth_id(old(manager).next_monster_id, j),
        final(manager).next_monster_id == nth_id(old(manager).next_monster_id, r@.len() as int),
{
    let mut spawned_ids: Vec<u32> = Vec::new();
    let ghost start = manager.next_monster_id;
    let mut i: usize = 0;
    while i < configs.len()
        invariant
            i <= configs@.len(),
            forall|j: int| 0 <= j < configs@.len() ==> spawn_in_range(#[trigger] configs@[j]),
            manager.wf(),
            manager.templates@ == old(manager).templates@,
            manager.spawn_configs@ == old(manager).spawn_configs@,
            manager.map_manager == old(manager).map_manager,
            forall|j: int| 0 <= j < spawned_ids@.len() ==> manager.monsters@.contains_key(#[trigger] spawned_ids@[j])
                && manager.monsters@[spawned_ids@[j]].map_id == map_id,
            start == old(manager).next_monster_id,
            forall|j: int| 0 <= j < spawned_ids@.len() ==> #[trigger] spawned_ids@[j] == nth_id(start, j),
            manager.next_monster_id == nth_id(start, spawned_ids@.len() as int),
            all_topped_up(*old(manager), *manager, map_id, configs@.take(i as int), AliveCount::Listed),
        decreases configs@.len() - i,
    {
        let spawn = configs[i];
        let ghost s0 = *manager;
        if manager.templates.contains_key(&spawn.monster_id) {
            let alive_n = manager.alive_count_on_map(map_id, spawn.monster_id);
            let alive: u8 = (alive_n % 256) as u8;
            let to_spawn: u8 = if alive < spawn.count { spawn.count - alive } else { 0 };
            proof {
                assert(to_spawn == shortfall(spawn.count, counted_alive(s0, map_id, spawn.monster_id, AliveCount::Listed)));
            }
            let mut n: u8 = 0;
            while n < to_spawn
                invariant
                    n <= to_spawn,
                    spawn_in_range(spawn),
                    manager.wf(),
                    manager.templates@ == old(manager).templates@,
                    manager.spawn_configs@ == old(manager).spawn_configs@,
                    manager.map_manager == old(manager).map_manager,
                    forall|j: int| 0 <= j < spawned_ids@.len() ==> manager.monsters@.contains_key(
                        #[trigger] spawned_ids@[j],
                    ) && manager.monsters@[spawned_ids@[j]].map_id == map_id,
                    forall|j: int| 0 <= j < spawned_ids@.len() ==> #[trigger] spawned_ids@[j] == nth_id(start, j),
                    manager.next_monster_id == nth_id(start, spawned_ids@.len() as int),
                    spawn_attempts(s0, *manager, map_id, spawn, n as nat),
                decreases to_spawn - n,
            {
                let ghost before = manager.monsters@;
                let ghost prev = *manager;
                match manager.spawn_monster(map_id, &spawn) {
                    Some(id) => {
                        spawned_ids.push(id);
                        proof {
                            assert forall|j: int| 0 <= j < spawned_ids@.len() implies manager.monsters@.contains_key(
                                #[trigger] spawned_ids@[j],
                            ) && manager.monsters@[spawned_ids@[j]].map_id == map_id by {
                                if j < spawned_ids@.len() - 1 && spawned_ids@[j] != id {
                                    assert(before.contains_key(spawned_ids@[j]));
                                }
                            }
                            assert((start + (spawned_ids@.len() - 1)) % 0x1_0000_0000 + 1 < 0x1_0000_0000 ==> (start + spawned_ids@.len()) % 0x1_0000_0000 == (start + (spawned_ids@.len() - 1)) % 0x1_0000_0000 + 1);
                            assert(manager.next_monster_id == nth_id(start, spawned_ids@.len() as int)) by {
                                vstd::arithmetic::div_mod::lemma_add_mod_noop(start + (spawned_ids@.len() - 1), 1, 0x1_0000_0000);
                            }
                        }
                    },
                    None => {},
                }
                proof {
                    assert(spawn_attempts(s0, prev, map_id, spawn, n as nat) && spawn_attempt(prev, *manager, map_id, spawn));
                    assert(spawn_attempts(s0, *manager, map_id, spawn, (n + 1) as nat));
                }
                n = n + 1;
            }
        }
        proof {
            assert(topped_up(s0, *manager, map_id, spawn, AliveCount::Listed));
            assert(configs@.take(i as int + 1).drop_last() =~= configs@.take(i as int));
            assert(configs@.take(i as int + 1).last() == spawn);
            assert(all_topped_up(*old(manager), s0, map_id, configs@.take(i as int), AliveCount::Listed));
        }
        i = i + 1;
    }
    proof {
        assert(configs@.take(configs@.len() as int) =~= configs@);
    }
    spawned_ids
}

} // verus!
