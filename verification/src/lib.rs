//! Game rules of an on-chain role-playing game: creating games, players and
//! monsters, attacking monsters and collecting the action points that players
//! spend. Each instruction checks its accounts the way the program's account
//! constraints declare them, then computes the new account state together
//! with the lamport transfer that the runtime has to perform.

pub mod constants;
pub mod error;
pub mod helpers;
pub mod instructions;
pub mod key;
pub mod laws;
pub mod laws_instructions;
pub mod pda;
pub mod rpg;
pub mod state;

pub use error::{ProgramError, RpgError};
pub use helpers::{spend_action_points, Transfer};
pub use instructions::attack_monster::{run_attack_monster, AttackMonster};
pub use instructions::collect_points::{collect_payment, run_collect_action_points, CollectActionPoints};
pub use instructions::create_game::{run_create_game, CreateGame};
pub use instructions::create_player::{run_create_player, CreatePlayer};
pub use instructions::spawn_monster::{run_spawn_monster, SpawnMonster};
pub use key::{program_id, Key};
pub use rpg::{attack_monster, create_game, create_player, deposit_action_points, spawn_monster};
pub use state::{Game, GameConfig, InventoryItem, Monster, Player};
