use vstd::prelude::*;

use crate::key::Key;

verus! {

/// The settings that the game master chose when creating a game.
#[derive(Clone, Copy, Debug)]
pub struct GameConfig {
    pub max_items_per_player: u8,
    /// Action points that creating a player costs.
    pub ap_per_player_creation: u64,
    /// Action points that spawning a monster costs.
    pub ap_per_monster_spawn: u64,
    /// Chosen when the game is created and stored, but read by no instruction:
    /// an attack always costs `ATTACK_ACTION_POINTS`.
    pub ap_per_monster_attack: u64,
    pub for_future_use: [u64; 13],
}

/// A game: who runs it, where its fees go, and what has been collected so far.
#[derive(Clone, Copy, Debug)]
pub struct Game {
    pub game_master: Key,
    pub treasury: Key,
    pub action_points_collected: u64,
    pub game_config: GameConfig,
}

/// An item in a player's inventory.
#[derive(Clone, Copy, Debug)]
pub struct InventoryItem {
    /// Up to 32 bytes of name, padded with zero bytes.
    pub name: [u8; 32],
    pub amount: u64,
    pub for_future_use: [u8; 128],
}

/// A player's account in a game.
#[derive(Clone, Debug)]
pub struct Player {
    /// The wallet that owns this player.
    pub player: Key,
    /// The game the player belongs to.
    pub game: Key,
    pub action_points_spent: u64,
    pub action_points_to_be_collected: u64,
    pub status_flag: u8,
    pub experience: u64,
    pub kills: u64,
    /// The index that the next monster spawned by this player gets.
    pub next_monster_index: u64,
    pub for_future_use: [u8; 256],
    pub inventory: Vec<InventoryItem>,
}

/// A monster, spawned by a player in a game.
#[derive(Clone, Copy, Debug)]
pub struct Monster {
    /// The wallet of the player that spawned it.
    pub player: Key,
    /// The game it lives in.
    pub game: Key,
    pub hitpoints: u64,
}

impl Player {
    /// The action points that the player has spent are all still owed to the
    /// treasury, and no more: the two counters move together.
    pub open spec fn points_in_step(self) -> bool {
        self.action_points_spent == self.action_points_to_be_collected
    }
}

} // verus!
