//! A verified core for a Legend of Mir 2 style game server: the binary wire
//! protocol, the game rules (combat, skills, inventory, equipment, shops,
//! maps, monsters) and the per-packet decisions the network layer acts on.
pub mod bytes;
pub mod error;
pub mod opcodes;
pub mod packets;
pub mod enums;
pub mod rand;
pub mod types;
pub mod time;
pub mod collections;
pub mod item;
pub mod models;
pub mod messages;
pub mod equipment;
pub mod combat;
pub mod skill;
pub mod npc;
pub mod map;
pub mod monster;
pub mod network;
pub mod auth;
pub mod config;
pub mod game;
