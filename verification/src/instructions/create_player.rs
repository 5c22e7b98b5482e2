use vstd::prelude::*;

use crate::constants::NO_EFFECT_FLAG;
use crate::error::ProgramError;
use crate::helpers::{spend_action_points, spend_transfer, Transfer};
use crate::key::Key;
use crate::pda::{player_seed_list, player_seeds, program_address, seeds_check, verify_seeds};
use crate::state::{Game, Player};

verus! {

/// The accounts of the instruction that lets a wallet join a game.
#[derive(Clone, Copy, Debug)]
pub struct CreatePlayer {
    /// The game joined.
    pub game: Game,
    pub game_key: Key,
    /// The address at which the player account is created.
    pub player_account: Key,
    /// The wallet that joins and pays.
    pub player: Key,
    pub player_signed: bool,
}

/// Whether all bytes of an array are zero.
pub open spec fn all_zero_u8(values: Seq<u8>) -> bool {
    forall|i: int| 0 <= i < values.len() ==> values[i] == 0
}

impl CreatePlayer {
    /// The outcome of the account constraints: the wallet signed, and the
    /// player account sits at the address derived from `PLAYER`, the game and
    /// the wallet.
    pub open spec fn spec_validate(self, program_id: Seq<u8>) -> Result<u8, ProgramError> {
        if !self.player_signed {
            Err(ProgramError::AccountNotSigner)
        } else {
            seeds_check(
                program_address(player_seeds(self.game_key@, self.player@), program_id),
                self.player_account@,
            )
        }
    }

    /// Checks the account constraints of the instruction: the wallet signs,
    /// and the player account is at its derived address. Returns the bump seed
    /// of that address.
    pub fn validate(&self, program_id: &Key) -> (res: Result<u8, ProgramError>)
        ensures
            res == self.spec_validate(program_id@),
    {
        if !self.player_signed {
            return Err(ProgramError::AccountNotSigner);
        }
        let seeds = player_seed_list(&self.game_key, &self.player);
        verify_seeds(&seeds, program_id, &self.player_account)
    }
}

/// Whether `player` is the player that `ctx` creates: owned by the wallet, in
/// the game, unaffected, without experience, kills, monsters or items, having
/// spent (and owing) the game's price of joining.
pub open spec fn is_new_player(player: Player, ctx: CreatePlayer) -> bool {
    let cost = ctx.game.game_config.ap_per_player_creation;
    &&& player.player@ == ctx.player@
    &&& player.game@ == ctx.game_key@
    &&& player.action_points_spent == cost
    &&& player.action_points_to_be_collected == cost
    &&& player.status_flag == NO_EFFECT_FLAG
    &&& player.experience == 0
    &&& player.kills == 0
    &&& player.next_monster_index == 0
    &&& player.for_future_use@.len() == 256
    &&& all_zero_u8(player.for_future_use@)
    &&& player.inventory@.len() == 0
}

/// The wallet's new player, and the payment of the price of joining from the
/// wallet into the player account.
pub open spec fn create_player_outcome(ctx: CreatePlayer, res: Result<(Player, Transfer), ProgramError>) -> bool {
    &&& res is Ok
    &&& is_new_player(res->Ok_0.0, ctx)
    &&& res->Ok_0.1 == spend_transfer(
        ctx.game.game_config.ap_per_player_creation,
        ctx.player_account,
        ctx.player,
    )
}

/// Creates the wallet's player in the game and charges it the game's price of
/// joining. A fresh account cannot overflow, so this always succeeds.
pub fn run_create_player(ctx: &CreatePlayer) -> (res: Result<(Player, Transfer), ProgramError>)
    ensures
        create_player_outcome(*ctx, res),
{
    let mut player_account = Player {
        player: ctx.player,
        game: ctx.game_key,
        action_points_spent: 0,
        action_points_to_be_collected: 0,
        status_flag: NO_EFFECT_FLAG,
        experience: 0,
        kills: 0,
        next_monster_index: 0,
        for_future_use: [0u8; 256],
        inventory: Vec::new(),
    };
    let action_points_to_spend = ctx.game.game_config.ap_per_player_creation;
    match spend_action_points(
        action_points_to_spend,
        &mut player_account,
        &ctx.player_account,
        &ctx.player,
    ) {
        Ok(transfer) => Ok((player_account, transfer)),
        Err(e) => Err(ProgramError::Rpg(e)),
    }
}

} // verus!
