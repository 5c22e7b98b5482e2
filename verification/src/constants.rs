use vstd::prelude::*;

verus! {

/// The name of the item that a monster may drop: `bronze, spear` in ASCII,
/// padded with zero bytes.
pub const BRONZE_SPEAR: [u8; 32] = [
    98, 114, 111, 110, 122, 101, 44, 32, 115, 112, 101, 97, 114, 0, 0, 0, 0, 0, 0, 0, 0, 0, 0, 0,
    0, 0, 0, 0, 0, 0, 0, 0,
];

pub const IS_FROZEN_FLAG: u8 = 1;

pub const IS_POISONED_FLAG: u8 = 2;

pub const IS_BURNING_FLAG: u8 = 4;

pub const IS_BLESSED_FLAG: u8 = 8;

pub const IS_CURSED_FLAG: u8 = 16;

pub const IS_STUNNED_FLAG: u8 = 32;

pub const IS_SLOWED_FLAG: u8 = 64;

pub const IS_BLEEDING_FLAG: u8 = 128;

/// The status of a player on whom no effect lies.
pub const NO_EFFECT_FLAG: u8 = 0;

/// The bytes that open every account's data and name its type.
pub const ANCHOR_DISCRIMINATOR: usize = 8;

/// How many items a player's inventory can hold.
pub const MAX_INVENTORY_ITEMS: usize = 8;

/// The action points (lamports) that one attack on a monster costs.
pub const ATTACK_ACTION_POINTS: u64 = 1;

/// The hitpoints of a freshly spawned monster.
pub const MONSTER_START_HITPOINTS: u64 = 100;

} // verus!
