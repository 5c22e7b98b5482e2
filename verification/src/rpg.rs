use vstd::prelude::*;

use crate::error::ProgramError;
use crate::helpers::Transfer;
use crate::instructions::attack_monster::{attack_outcome, run_attack_monster, AttackMonster};
use crate::instructions::collect_points::{
    collect_outcome,
    run_collect_action_points,
    CollectActionPoints,
};
use crate::instructions::create_game::{create_game_outcome, run_create_game, CreateGame};
use crate::instructions::create_player::{create_player_outcome, run_create_player, CreatePlayer};
use crate::instructions::spawn_monster::{run_spawn_monster, spawn_outcome, SpawnMonster};
use crate::key::Key;
use crate::state::{Game, Monster, Player};

verus! {

/// What the instruction that creates a game gives: the refusal of the
/// account checks, or else what running it gives.
pub open spec fn create_game_entry(
    ctx: CreateGame,
    program_id: Seq<u8>,
    max_items_per_player: u8,
    ap_per_player_creation: u64,
    ap_per_monster_spawn: u64,
    ap_per_monster_attack: u64,
    res: Result<Game, ProgramError>,
) -> bool {
    match ctx.spec_validate(program_id) {
        Err(e) => res == Err::<Game, ProgramError>(e),
        Ok(_) => create_game_outcome(
            ctx,
            max_items_per_player,
            ap_per_player_creation,
            ap_per_monster_spawn,
            ap_per_monster_attack,
            res,
        ),
    }
}

/// What the instruction with which a wallet joins a game gives.
pub open spec fn create_player_entry(
    ctx: CreatePlayer,
    program_id: Seq<u8>,
    res: Result<(Player, Transfer), ProgramError>,
) -> bool {
    match ctx.spec_validate(program_id) {
        Err(e) => res == Err::<(Player, Transfer), ProgramError>(e),
        Ok(_) => create_player_outcome(ctx, res),
    }
}

/// What the instruction that spawns a monster gives and leaves behind: where
/// the accounts are refused, the refusal and the accounts unchanged.
pub open spec fn spawn_monster_entry(
    before: SpawnMonster,
    after: SpawnMonster,
    program_id: Seq<u8>,
    res: Result<(Monster, Transfer), ProgramError>,
) -> bool {
    match before.spec_validate(program_id) {
        Err(e) => res == Err::<(Monster, Transfer), ProgramError>(e) && after == before,
        Ok(_) => spawn_outcome(before, after, res),
    }
}

/// What the instruction that attacks a monster gives and leaves behind.
pub open spec fn attack_monster_entry(
    before: AttackMonster,
    after: AttackMonster,
    res: Result<Transfer, ProgramError>,
) -> bool {
    match before.spec_validate() {
        Err(e) => res == Err::<Transfer, ProgramError>(e) && after == before,
        Ok(_) => attack_outcome(before, after, res),
    }
}

/// What the instruction that collects action points gives and leaves behind.
pub open spec fn deposit_action_points_entry(
    before: CollectActionPoints,
    after: CollectActionPoints,
    res: Result<Transfer, ProgramError>,
) -> bool {
    match before.spec_validate() {
        Err(e) => res == Err::<Transfer, ProgramError>(e) && after == before,
        Ok(_) => collect_outcome(before, after, res),
    }
}

/// The instruction that creates a game: the accounts are checked, then the
/// game is set up with the given settings.
pub fn create_game(
    ctx: &CreateGame,
    program_id: &Key,
    max_items_per_player: u8,
    ap_per_player_creation: u64,
    ap_per_monster_spawn: u64,
    ap_per_monster_attack: u64,
) -> (res: Result<Game, ProgramError>)
    ensures
        create_game_entry(
            *ctx,
            program_id@,
            max_items_per_player,
            ap_per_player_creation,
            ap_per_monster_spawn,
            ap_per_monster_attack,
            res,
        ),
{
    match ctx.validate(program_id) {
        Err(e) => Err(e),
        Ok(_) => run_create_game(
            ctx,
            max_items_per_player,
            ap_per_player_creation,
            ap_per_monster_spawn,
            ap_per_monster_attack,
        ),
    }
}

/// The instruction with which a wallet joins a game.
pub fn create_player(ctx: &CreatePlayer, program_id: &Key) -> (res: Result<
    (Player, Transfer),
    ProgramError,
>)
    ensures
        create_player_entry(*ctx, program_id@, res),
{
    match ctx.validate(program_id) {
        Err(e) => Err(e),
        Ok(_) => run_create_player(ctx),
    }
}

/// The instruction with which a player spawns a monster. Where the accounts
/// are refused, nothing changes.
pub fn spawn_monster(ctx: &mut SpawnMonster, program_id: &Key) -> (res: Result<
    (Monster, Transfer),
    ProgramError,
>)
    ensures
        spawn_monster_entry(*old(ctx), *final(ctx), program_id@, res),
{
    match ctx.validate(program_id) {
        Err(e) => Err(e),
        Ok(_) => run_spawn_monster(ctx),
    }
}

/// The instruction with which a player attacks a monster. Where the accounts
/// are refused, nothing changes.
pub fn attack_monster(ctx: &mut AttackMonster) -> (res: Result<Transfer, ProgramError>)
    ensures
        attack_monster_entry(*old(ctx), *final(ctx), res),
{
    match ctx.validate() {
        Err(e) => Err(e),
        Ok(_) => run_attack_monster(ctx),
    }
}

/// The instruction that pays a player's spent action points into the
/// treasury. Where the accounts are refused, nothing changes. The payment is
/// made by the runtime before the accounts are updated (see
/// `collect_payment`), so a wallet that cannot pay makes the instruction fail
/// with the system program's error first.
pub fn deposit_action_points(ctx: &mut CollectActionPoints) -> (res: Result<Transfer, ProgramError>)
    ensures
        deposit_action_points_entry(*old(ctx), *final(ctx), res),
{
    match ctx.validate() {
        Err(e) => Err(e),
        Ok(_) => run_collect_action_points(ctx),
    }
}

} // verus!
