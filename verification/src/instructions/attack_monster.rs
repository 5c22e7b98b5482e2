use vstd::prelude::*;

use crate::constants::ATTACK_ACTION_POINTS;
use crate::error::{ProgramError, RpgError};
use crate::helpers::{spend_action_points, spend_fits, spend_transfer, spent, Transfer};
use crate::key::Key;
use crate::state::{Monster, Player};

verus! {

/// The accounts of the instruction in which a player attacks a monster.
#[derive(Clone, Debug)]
pub struct AttackMonster {
    /// The attacking player's account.
    pub player_account: Player,
    pub player_account_key: Key,
    /// The monster attacked.
    pub monster: Monster,
    /// The wallet that attacks and pays.
    pub player: Key,
    pub player_signed: bool,
}

impl AttackMonster {
    /// The outcome of the account constraints, in the order the program checks
    /// them: the wallet signed; the player account and the monster both belong
    /// to the wallet; the monster lives in the player's game.
    pub open spec fn spec_validate(self) -> Result<(), ProgramError> {
        if !self.player_signed {
            Err(ProgramError::AccountNotSigner)
        } else if self.player_account.player@ != self.player@ {
            Err(ProgramError::ConstraintHasOne)
        } else if self.monster.player@ != self.player@ {
            Err(ProgramError::ConstraintHasOne)
        } else if self.monster.game@ != self.player_account.game@ {
            Err(ProgramError::Rpg(RpgError::GameMismatch))
        } else {
            Ok(())
        }
    }

    /// Checks the account constraints of the instruction, in the order the
    /// program checks them.
    pub fn validate(&self) -> (res: Result<(), ProgramError>)
        ensures
            res == self.spec_validate(),
    {
        if !self.player_signed {
            return Err(ProgramError::AccountNotSigner);
        }
        if !self.player_account.player.same(&self.player) {
            return Err(ProgramError::ConstraintHasOne);
        }
        if !self.monster.player.same(&self.player) {
            return Err(ProgramError::ConstraintHasOne);
        }
        if !self.monster.game.same(&self.player_account.game) {
            return Err(ProgramError::Rpg(RpgError::GameMismatch));
        }
        Ok(())
    }
}

/// The monster after one blow: one hitpoint less, but never below zero.
pub open spec fn struck(monster: Monster) -> Monster {
    Monster { hitpoints: monster.hitpoints.saturating_sub(1), ..monster }
}

/// The player after striking `monster`: where the blow hurt, one more
/// experience point, and one more kill where it left the monster at zero
/// (both stopping at `u64::MAX`); then the price of the attack is charged.
pub open spec fn striker(player: Player, monster: Monster) -> Player {
    let hurt = monster.hitpoints > 0;
    let killed = monster.hitpoints == 1;
    spent(
        ATTACK_ACTION_POINTS,
        Player {
            experience: if hurt {
                player.experience.saturating_add(1)
            } else {
                player.experience
            },
            kills: if killed {
                player.kills.saturating_add(1)
            } else {
                player.kills
            },
            ..player
        },
    )
}

/// The accounts after a successful attack.
pub open spec fn attacked(ctx: AttackMonster) -> AttackMonster {
    AttackMonster {
        player_account: striker(ctx.player_account, ctx.monster),
        monster: struck(ctx.monster),
        ..ctx
    }
}

/// Whether the player's counters can take the price of an attack.
pub open spec fn attack_fits(ctx: AttackMonster) -> bool {
    spend_fits(ATTACK_ACTION_POINTS, ctx.player_account)
}

/// What an attack does: where the price of the attack fits, it succeeds with
/// its payment and the accounts after the blow; otherwise it fails with
/// `ArithmeticOverflow` and the accounts stay as they were.
pub open spec fn attack_outcome(
    before: AttackMonster,
    after: AttackMonster,
    res: Result<Transfer, ProgramError>,
) -> bool {
    if attack_fits(before) {
        &&& res == Ok::<Transfer, ProgramError>(
            spend_transfer(ATTACK_ACTION_POINTS, before.player_account_key, before.player),
        )
        &&& after == attacked(before)
    } else {
        &&& res == Err::<Transfer, ProgramError>(ProgramError::Rpg(RpgError::ArithmeticOverflow))
        &&& after == before
    }
}

/// The player strikes the monster once. A monster with hitpoints left loses
/// one and the player gains one experience point, and a kill where the monster
/// drops to zero; striking a dead monster does nothing to either. Every attack
/// costs `ATTACK_ACTION_POINTS`, paid from the wallet into the player account;
/// where a counter of action points would overflow, fails with
/// `ArithmeticOverflow` and changes nothing.
pub fn run_attack_monster(ctx: &mut AttackMonster) -> (res: Result<Transfer, ProgramError>)
    ensures
        attack_outcome(*old(ctx), *final(ctx), res),
{
    let transfer = match spend_action_points(
        ATTACK_ACTION_POINTS,
        &mut ctx.player_account,
        &ctx.player_account_key,
        &ctx.player,
    ) {
        Ok(t) => t,
        Err(e) => return Err(ProgramError::Rpg(e)),
    };
    let hp_before_attack = ctx.monster.hitpoints;
    let hp_after_attack = ctx.monster.hitpoints.saturating_sub(1);
    let damage_dealt = hp_before_attack.saturating_sub(hp_after_attack);
    ctx.monster.hitpoints = hp_after_attack;
    if damage_dealt > 0 {
        ctx.player_account.experience = ctx.player_account.experience.saturating_add(1);
        if hp_after_attack == 0 {
            ctx.player_account.kills = ctx.player_account.kills.saturating_add(1);
        }
    }
    Ok(transfer)
}

} // verus!
