use vstd::prelude::*;

use crate::constants::MONSTER_START_HITPOINTS;
use crate::error::{ProgramError, RpgError};
use crate::helpers::{spend_action_points, spend_fits, spend_transfer, spent, Transfer};
use crate::key::Key;
use crate::pda::{monster_seed_list, monster_seeds, program_address, seeds_check, verify_seeds};
use crate::state::{Game, Monster, Player};

verus! {

/// The accounts of the instruction that spawns a monster.
#[derive(Clone, Debug)]
pub struct SpawnMonster {
    pub game: Game,
    pub game_key: Key,
    /// The spawning player's account.
    pub player_account: Player,
    pub player_account_key: Key,
    /// The address at which the monster account is created.
    pub monster: Key,
    /// The wallet that spawns and pays.
    pub player: Key,
    pub player_signed: bool,
}

impl SpawnMonster {
    /// The outcome of the account constraints, in the order the program checks
    /// them: the wallet signed; the monster sits at the address derived from
    /// `MONSTER`, the game, the wallet and the player's next monster index; the
    /// player account belongs to the game and to the wallet.
    pub open spec fn spec_validate(self, program_id: Seq<u8>) -> Result<u8, ProgramError> {
        if !self.player_signed {
            Err(ProgramError::AccountNotSigner)
        } else {
            match seeds_check(
                program_address(
                    monster_seeds(
                        self.game_key@,
                        self.player@,
                        self.player_account.next_monster_index,
                    ),
                    program_id,
                ),
                self.monster@,
            ) {
                Err(e) => Err(e),
                Ok(bump) => if self.player_account.game@ != self.game_key@
                    || self.player_account.player@ != self.player@ {
                    Err(ProgramError::ConstraintHasOne)
                } else {
                    Ok(bump)
                },
            }
        }
    }

    /// Checks the account constraints of the instruction, in the order the
    /// program checks them, and returns the bump seed of the monster's address.
    pub fn validate(&self, program_id: &Key) -> (res: Result<u8, ProgramError>)
        ensures
            res == self.spec_validate(program_id@),
    {
        if !self.player_signed {
            return Err(ProgramError::AccountNotSigner);
        }
        let seeds = monster_seed_list(
            &self.game_key,
            &self.player,
            self.player_account.next_monster_index,
        );
        let bump = match verify_seeds(&seeds, program_id, &self.monster) {
            Ok(b) => b,
            Err(e) => return Err(e),
        };
        if !self.player_account.game.same(&self.game_key) || !self.player_account.player.same(
            &self.player,
        ) {
            return Err(ProgramError::ConstraintHasOne);
        }
        Ok(bump)
    }
}

/// Whether spawning can go through: the monster index has room to grow, and
/// the player's counters can take the price of a spawn.
pub open spec fn spawn_fits(ctx: SpawnMonster) -> bool {
    &&& ctx.player_account.next_monster_index + 1 <= u64::MAX
    &&& spend_fits(ctx.game.game_config.ap_per_monster_spawn, ctx.player_account)
}

/// The player after a spawn: the next index moves on by one and the price of a
/// spawn is charged.
pub open spec fn spawned_player(ctx: SpawnMonster) -> Player {
    spent(
        ctx.game.game_config.ap_per_monster_spawn,
        Player {
            next_monster_index: (ctx.player_account.next_monster_index + 1) as u64,
            ..ctx.player_account
        },
    )
}

/// The new monster: the wallet's, in the game, at full hitpoints.
pub open spec fn new_monster(ctx: SpawnMonster) -> Monster {
    Monster { player: ctx.player, game: ctx.game_key, hitpoints: MONSTER_START_HITPOINTS }
}

/// What a spawn does: where it fits, it succeeds with the new monster and the
/// payment for it, and only the player account changes, to `spawned_player`;
/// otherwise it fails with `ArithmeticOverflow` and the accounts stay as they
/// were.
pub open spec fn spawn_outcome(
    before: SpawnMonster,
    after: SpawnMonster,
    res: Result<(Monster, Transfer), ProgramError>,
) -> bool {
    if spawn_fits(before) {
        &&& res == Ok::<(Monster, Transfer), ProgramError>(
            (
                new_monster(before),
                spend_transfer(
                    before.game.game_config.ap_per_monster_spawn,
                    before.player_account_key,
                    before.player,
                ),
            ),
        )
        &&& after == SpawnMonster { player_account: spawned_player(before), ..before }
    } else {
        &&& res == Err::<(Monster, Transfer), ProgramError>(
            ProgramError::Rpg(RpgError::ArithmeticOverflow),
        )
        &&& after == before
    }
}

/// Spawns a monster for the player and charges the game's price of a spawn,
/// paid from the wallet into the player account. Where the monster index or a
/// counter of action points would overflow, fails with `ArithmeticOverflow`
/// and changes nothing.
pub fn run_spawn_monster(ctx: &mut SpawnMonster) -> (res: Result<(Monster, Transfer), ProgramError>)
    ensures
        spawn_outcome(*old(ctx), *final(ctx), res),
{
    let monster = Monster { player: ctx.player, game: ctx.game_key, hitpoints: MONSTER_START_HITPOINTS };
    let next_index = match ctx.player_account.next_monster_index.checked_add(1) {
        Some(i) => i,
        None => return Err(ProgramError::Rpg(RpgError::ArithmeticOverflow)),
    };
    let action_points_to_spend = ctx.game.game_config.ap_per_monster_spawn;
    let transfer = match spend_action_points(
        action_points_to_spend,
        &mut ctx.player_account,
        &ctx.player_account_key,
        &ctx.player,
    ) {
        Ok(t) => t,
        Err(e) => return Err(ProgramError::Rpg(e)),
    };
    ctx.player_account.next_monster_index = next_index;
    Ok((monster, transfer))
}

} // verus!
