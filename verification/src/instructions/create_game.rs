use vstd::prelude::*;

use crate::error::{ProgramError, RpgError};
use crate::key::Key;
use crate::pda::{game_seed_list, game_seeds, program_address, seeds_check, verify_seeds};
use crate::state::{Game, GameConfig};

verus! {

/// The accounts of the instruction that creates a game.
#[derive(Clone, Copy, Debug)]
pub struct CreateGame {
    /// The address at which the game account is created.
    pub game: Key,
    /// The game master, who pays for the game account.
    pub game_master: Key,
    pub game_master_signed: bool,
    /// The account that collects the game's fees; the game's address derives
    /// from it.
    pub treasury: Key,
    pub treasury_signed: bool,
}

/// Whether all values of an array are zero.
pub open spec fn all_zero_u64(values: Seq<u64>) -> bool {
    forall|i: int| 0 <= i < values.len() ==> values[i] == 0
}

impl CreateGame {
    /// The outcome of the account constraints: both signers signed, and the
    /// game sits at the address derived from `GAME` and the treasury.
    pub open spec fn spec_validate(self, program_id: Seq<u8>) -> Result<u8, ProgramError> {
        if !self.game_master_signed || !self.treasury_signed {
            Err(ProgramError::AccountNotSigner)
        } else {
            seeds_check(program_address(game_seeds(self.treasury@), program_id), self.game@)
        }
    }

    /// Checks the account constraints of the instruction: the game master and
    /// the treasury sign, and the game account is at its derived address.
    /// Returns the bump seed of that address.
    pub fn validate(&self, program_id: &Key) -> (res: Result<u8, ProgramError>)
        ensures
            res == self.spec_validate(program_id@),
    {
        if !self.game_master_signed || !self.treasury_signed {
            return Err(ProgramError::AccountNotSigner);
        }
        let seeds = game_seed_list(&self.treasury);
        verify_seeds(&seeds, program_id, &self.game)
    }
}

/// Whether `game` is the game that `ctx` creates with the given settings:
/// nothing collected yet and every unused setting zero.
pub open spec fn is_new_game(
    game: Game,
    ctx: CreateGame,
    max_items_per_player: u8,
    ap_per_player_creation: u64,
    ap_per_monster_spawn: u64,
    ap_per_monster_attack: u64,
) -> bool {
    &&& game.game_master@ == ctx.game_master@
    &&& game.treasury@ == ctx.treasury@
    &&& game.action_points_collected == 0
    &&& game.game_config.max_items_per_player == max_items_per_player
    &&& game.game_config.ap_per_player_creation == ap_per_player_creation
    &&& game.game_config.ap_per_monster_spawn == ap_per_monster_spawn
    &&& game.game_config.ap_per_monster_attack == ap_per_monster_attack
    &&& game.game_config.for_future_use@.len() == 13
    &&& all_zero_u64(game.game_config.for_future_use@)
}

/// What creating a game gives: `InvalidGameConfig` where a player may hold no
/// item, the new game otherwise.
pub open spec fn create_game_outcome(
    ctx: CreateGame,
    max_items_per_player: u8,
    ap_per_player_creation: u64,
    ap_per_monster_spawn: u64,
    ap_per_monster_attack: u64,
    res: Result<Game, ProgramError>,
) -> bool {
    if max_items_per_player == 0 {
        res == Err::<Game, ProgramError>(ProgramError::Rpg(RpgError::InvalidGameConfig))
    } else {
        &&& res is Ok
        &&& is_new_game(
            res->Ok_0,
            ctx,
            max_items_per_player,
            ap_per_player_creation,
            ap_per_monster_spawn,
            ap_per_monster_attack,
        )
    }
}

/// Sets up a new game run by the game master, whose fees go to the treasury,
/// with the given settings. A game in which a player may hold no item is
/// refused with `InvalidGameConfig`.
pub fn run_create_game(
    ctx: &CreateGame,
    max_items_per_player: u8,
    ap_per_player_creation: u64,
    ap_per_monster_spawn: u64,
    ap_per_monster_attack: u64,
) -> (res: Result<Game, ProgramError>)
    ensures
        create_game_outcome(
            *ctx,
            max_items_per_player,
            ap_per_player_creation,
            ap_per_monster_spawn,
            ap_per_monster_attack,
            res,
        ),
{
    if max_items_per_player == 0 {
        return Err(ProgramError::Rpg(RpgError::InvalidGameConfig));
    }
    let game = Game {
        game_master: ctx.game_master,
        treasury: ctx.treasury,
        action_points_collected: 0,
        game_config: GameConfig {
            max_items_per_player,
            ap_per_player_creation,
            ap_per_monster_spawn,
            ap_per_monster_attack,
            for_future_use: [0u64; 13],
        },
    };
    Ok(game)
}

} // verus!
