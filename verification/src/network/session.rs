//! Per-session player state and the registry that holds it.
use vstd::prelude::*;
use std::collections::HashMap;
use std::collections::hash_map::Entry;
use std::time::Instant;
use crate::collections::hash_map_keys;
use crate::enums::MirDirection;
use crate::equipment::EquipmentManager;
use crate::skill::SkillManager;
use crate::time::instant_now;
use crate::bytes::read_le16;
use crate::packets::{PacketCodec, HEADER_SIZE};

verus! {

broadcast use vstd::std_specs::hash::group_hash_axioms;

/// Seconds without traffic after which a session is dropped.
pub const HEARTBEAT_TIMEOUT_SECS: u64 = 15;

/// Whether a session silent for `idle_nanos` nanoseconds has timed out:
/// strictly more than `HEARTBEAT_TIMEOUT_SECS` seconds.
pub fn heartbeat_expired(idle_nanos: u64) -> (r: bool)
    ensures
        r == (idle_nanos > HEARTBEAT_TIMEOUT_SECS * 1_000_000_000),
{
    idle_nanos > HEARTBEAT_TIMEOUT_SECS * 1_000_000_000
}

/// What a session does with a binary frame from its client: the packet id
/// and payload to dispatch, when the frame holds a whole payload; nothing
/// (the frame is dropped) otherwise.
pub fn frame_to_dispatch(data: &[u8]) -> (r: Option<(u16, Vec<u8>)>)
    ensures
        ({
            let n = data@.len();
            if n >= HEADER_SIZE && n >= HEADER_SIZE + read_le16(data@[2], data@[3]) {
                r matches Some((id, payload)) && id == read_le16(data@[0], data@[1]) && payload@ == data@.subrange(
                    HEADER_SIZE as int,
                    HEADER_SIZE + read_le16(data@[2], data@[3]),
                )
            } else {
                r is None
            }
        }),
{
    match PacketCodec::decode_payload(data) {
        Ok(payload) => match PacketCodec::decode_header(data) {
            Ok((packet_id, _)) => Some((packet_id, payload)),
            Err(_) => None,
        },
        Err(_) => None,
    }
}

/// The game state of one session.
#[derive(Debug)]
pub struct SessionState {
    /// The account logged in.
    pub account_id: i64,
    pub authenticated: bool,
    /// The character chosen, once in game.
    pub character_id: Option<i64>,
    pub map_id: u16,
    pub location: (i32, i32),
    pub direction: MirDirection,
    pub character_name: String,
    pub level: u16,
    pub current_hp: u32,
    pub current_mp: u32,
    pub max_hp: u32,
    pub max_mp: u32,
    pub experience: u64,
    pub gold: u64,
    /// For the attack cooldown.
    pub last_attack_time: Instant,
    pub equipment: EquipmentManager,
    pub skills: SkillManager,
}

impl Clone for SessionState {
    /// A copy of the state: equal fields, the name by its text.
    fn clone(&self) -> (r: Self)
        ensures
            r.account_id == self.account_id && r.authenticated == self.authenticated,
            r.character_id == self.character_id && r.map_id == self.map_id,
            r.location == self.location && r.direction == self.direction,
            r.character_name@ == self.character_name@,
            r.level == self.level && r.current_hp == self.current_hp && r.current_mp == self.current_mp,
            r.max_hp == self.max_hp && r.max_mp == self.max_mp,
            r.experience == self.experience && r.gold == self.gold,
            r.last_attack_time == self.last_attack_time,
            r.equipment@ == self.equipment@,
            r.skills.skills@ == self.skills.skills@,
    {
        SessionState {
            account_id: self.account_id,
            authenticated: self.authenticated,
            character_id: self.character_id,
            map_id: self.map_id,
            location: self.location,
            direction: self.direction,
            character_name: self.character_name.clone(),
            level: self.level,
            current_hp: self.current_hp,
            current_mp: self.current_mp,
            max_hp: self.max_hp,
            max_mp: self.max_mp,
            experience: self.experience,
            gold: self.gold,
            last_attack_time: self.last_attack_time,
            equipment: self.equipment.clone(),
            skills: self.skills.clone(),
        }
    }
}

impl SessionState {
    /// The state right after `account_id` logs in: authenticated, no
    /// character yet, on map 0 at (50, 50) facing down, level 1 with 100 HP
    /// and 50 MP, no experience or gold, nothing worn or learned.
    pub fn new(account_id: i64) -> (r: Self)
        ensures
            r.account_id == account_id,
            r.authenticated,
            r.character_id is None,
            r.map_id == 0,
            r.location == (50i32, 50i32),
            r.direction == MirDirection::Down,
            r.character_name@ == Seq::<char>::empty(),
            r.level == 1,
            r.current_hp == 100 && r.max_hp == 100,
            r.current_mp == 50 && r.max_mp == 50,
            r.experience == 0 && r.gold == 0,
            r.equipment@ == Map::<u8, (u16, i32)>::empty(),
            r.skills.skills@ == Map::<u16, crate::skill::SkillState>::empty(),
    {
        SessionState {
            account_id,
            authenticated: true,
            character_id: None,
            map_id: 0,
            location: (50, 50),
            direction: MirDirection::Down,
            character_name: String::new(),
            level: 1,
            current_hp: 100,
            current_mp: 50,
            max_hp: 100,
            max_mp: 50,
            experience: 0,
            gold: 0,
            last_attack_time: instant_now(),
            equipment: EquipmentManager::new(),
            skills: SkillManager::new(),
        }
    }
}

/// The states of the sessions, by session id, and the next id to hand out.
pub struct SessionRegistry {
    pub states: HashMap<u32, SessionState>,
    /// Ids start at 1; 0 is kept free.
    pub next_id: u32,
}

/// The sessions of `ids` whose state is on `map_id`, except `exclude`, in
/// the order of `ids`.
pub open spec fn recipients(ids: Seq<u32>, states: Map<u32, SessionState>, map_id: u16, exclude: Option<u32>) -> Seq<u32>
    decreases ids.len(),
{
    if ids.len() == 0 {
        Seq::empty()
    } else {
        let rest = recipients(ids.drop_last(), states, map_id, exclude);
        let sid = ids.last();
        if exclude != Some(sid) && states.contains_key(sid) && states[sid].map_id == map_id {
            rest.push(sid)
        } else {
            rest
        }
    }
}

/// A map-wide broadcast reaches exactly the listed sessions whose player is
/// on the map, and never the excluded one.
pub proof fn law_broadcast_reaches_the_map(ids: Seq<u32>, states: Map<u32, SessionState>, map_id: u16, exclude: Option<u32>, sid: u32)
    ensures
        recipients(ids, states, map_id, exclude).contains(sid) <==> (ids.contains(sid) && exclude != Some(sid)
            && states.contains_key(sid) && states[sid].map_id == map_id),
    decreases ids.len(),
{
    if ids.len() > 0 {
        let init = ids.drop_last();
        let last = ids.last();
        law_broadcast_reaches_the_map(init, states, map_id, exclude, sid);
        let rest = recipients(init, states, map_id, exclude);
        assert(ids =~= init.push(last));
        vstd::seq_lib::lemma_seq_contains_after_push(init, last, sid);
        vstd::seq_lib::lemma_seq_contains_after_push(rest, last, sid);
    }
}

impl SessionRegistry {
    /// No session; the first id handed out is 1.
    pub fn new() -> (r: Self)
        ensures
            r.states@ == Map::<u32, SessionState>::empty(),
            r.next_id == 1,
    {
        SessionRegistry { states: HashMap::new(), next_id: 1 }
    }

    /// Hands out the next session id (ids wrap around after `u32::MAX`).
    pub fn allocate_id(&mut self) -> (r: u32)
        ensures
            r == old(self).next_id,
            final(self).next_id == old(self).next_id.wrapping_add(1),
            final(self).states@ == old(self).states@,
    {
        let id = self.next_id;
        self.next_id = self.next_id.wrapping_add(1);
        id
    }

    /// The state of `session_id`.
    pub fn get_state(&self, session_id: u32) -> (r: Option<&SessionState>)
        ensures
            r == (if self.states@.contains_key(session_id) { Some(&self.states@[session_id]) } else { None }),
    {
        self.states.get(&session_id)
    }

    /// The state of `session_id`, to change in place.
    pub fn get_state_mut(&mut self, session_id: u32) -> (r: Option<&mut SessionState>)
        ensures
            match r {
                Some(s) => old(self).states@.contains_key(session_id) && *s == old(self).states@[session_id]
                    && final(self).states@ == old(self).states@.insert(session_id, *final(s)),
                None => !old(self).states@.contains_key(session_id) && final(self).states@ == old(self).states@,
            },
            final(self).next_id == old(self).next_id,
    {
        match self.states.entry(session_id) {
            Entry::Occupied(o) => Some(o.into_mut()),
            Entry::Vacant(_) => None,
        }
    }

    /// Sets the state of `session_id`.
    pub fn set_state(&mut self, session_id: u32, state: SessionState)
        ensures
            final(self).states@ == old(self).states@.insert(session_id, state),
            final(self).next_id == old(self).next_id,
    {
        self.states.insert(session_id, state);
    }

    /// Forgets the state of `session_id`.
    pub fn remove_state(&mut self, session_id: u32)
        ensures
            final(self).states@ == old(self).states@.remove(session_id),
            final(self).next_id == old(self).next_id,
    {
        self.states.remove(&session_id);
    }

    /// The sessions with a state, each once, in the map's iteration order.
    pub fn session_ids(&self) -> (r: Vec<u32>)
        ensures
            r@.no_duplicates(),
            forall|k: u32| #[trigger] r@.contains(k) <==> self.states@.contains_key(k),
    {
        hash_map_keys(&self.states)
    }

    /// The sessions of `ids` whose player is on `map_id`, leaving out
    /// `exclude` (see [`recipients`]): who a map-wide broadcast reaches.
    pub fn map_recipients(&self, ids: &Vec<u32>, map_id: u16, exclude: Option<u32>) -> (r: Vec<u32>)
        ensures
            r@ == recipients(ids@, self.states@, map_id, exclude),
    {
        let mut r: Vec<u32> = Vec::new();
        let mut i: usize = 0;
        while i < ids.len()
            invariant
                i <= ids@.len(),
                r@ == recipients(ids@.take(i as int), self.states@, map_id, exclude),
            decreases ids@.len() - i,
        {
            let sid = ids[i];
            proof {
                assert(ids@.take(i as int + 1).drop_last() =~= ids@.take(i as int));
            }
            let excluded = match exclude {
                Some(e) => e == sid,
                None => false,
            };
            if !excluded {
                match self.states.get(&sid) {
                    Some(s) => {
                        if s.map_id == map_id {
                            r.push(sid);
                        }
                    },
                    None => {},
                }
            }
            i = i + 1;
        }
        proof {
            assert(ids@.take(ids@.len() as int) =~= ids@);
        }
        r
    }
}

} // verus!
