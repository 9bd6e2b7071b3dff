//! Server settings, read from a TOML file outside the library.
use vstd::prelude::*;

verus! {

/// Server settings.
#[derive(Debug, Clone)]
pub struct ServerConfig {
    pub network: NetworkConfig,
    pub database: DatabaseConfig,
    pub game: GameConfig,
}

/// Where the server listens.
#[derive(Debug, Clone)]
pub struct NetworkConfig {
    pub host: String,
    pub port: u16,
}

/// Where the database lives.
#[derive(Debug, Clone)]
pub struct DatabaseConfig {
    pub path: String,
}

/// Game settings and data files.
#[derive(Debug, Clone)]
pub struct GameConfig {
    pub max_players: u32,
    pub tick_rate_ms: u64,
    pub map_dir: String,
    pub monster_data_path: String,
    pub item_data_path: String,
    pub npc_data_path: String,
    pub skill_data_path: String,
    pub drops_table_path: String,
}

impl Default for ServerConfig {
    /// Listens on 0.0.0.0:7000, keeps its database in `./data/mir2.db`,
    /// admits 500 players, ticks every 50 ms and reads its data files from
    /// `data/`.
    fn default() -> (r: Self)
        ensures
            r.network.host@ == "0.0.0.0"@,
            r.network.port == 7000,
            r.database.path@ == "./data/mir2.db"@,
            r.game.max_players == 500,
            r.game.tick_rate_ms == 50,
            r.game.map_dir@ == "data/maps"@,
            r.game.monster_data_path@ == "data/monsters.json"@,
            r.game.item_data_path@ == "data/items.json"@,
            r.game.npc_data_path@ == "data/npcs.json"@,
            r.game.skill_data_path@ == "data/skills.json"@,
            r.game.drops_table_path@ == "data/drops.json"@,
    {
        ServerConfig {
            network: NetworkConfig { host: "0.0.0.0".to_string(), port: 7000 },
            database: DatabaseConfig { path: "./data/mir2.db".to_string() },
            game: GameConfig {
                max_players: 500,
                tick_rate_ms: 50,
                map_dir: "data/maps".to_string(),
                monster_data_path: "data/monsters.json".to_string(),
                item_data_path: "data/items.json".to_string(),
                npc_data_path: "data/npcs.json".to_string(),
                skill_data_path: "data/skills.json".to_string(),
                drops_table_path: "data/drops.json".to_string(),
            },
        }
    }
}

} // verus!
