use vstd::prelude::*;

use crate::error::{ProgramError, RpgError};
use crate::helpers::Transfer;
use crate::key::Key;
use crate::state::{Game, Player};

verus! {

/// The accounts of the instruction that pays a player's spent action points
/// into the game's treasury.
#[derive(Clone, Debug)]
pub struct CollectActionPoints {
    pub game: Game,
    pub game_key: Key,
    /// The player whose points are collected.
    pub player: Player,
    pub player_key: Key,
    /// The game's treasury, which receives the payment.
    pub treasury: Key,
    /// The wallet that pays.
    pub player_wallet: Key,
    pub player_wallet_signed: bool,
}

impl CollectActionPoints {
    /// The outcome of the account constraints, in the order the program checks
    /// them: the paying wallet signed; the treasury is the game's; the player
    /// belongs to the game.
    pub open spec fn spec_validate(self) -> Result<(), ProgramError> {
        if !self.player_wallet_signed {
            Err(ProgramError::AccountNotSigner)
        } else if self.game.treasury@ != self.treasury@ {
            Err(ProgramError::ConstraintHasOne)
        } else if self.player.game@ != self.game_key@ {
            Err(ProgramError::ConstraintHasOne)
        } else {
            Ok(())
        }
    }

    /// Checks the account constraints of the instruction, in the order the
    /// program checks them.
    pub fn validate(&self) -> (res: Result<(), ProgramError>)
        ensures
            res == self.spec_validate(),
    {
        if !self.player_wallet_signed {
            return Err(ProgramError::AccountNotSigner);
        }
        if !self.game.treasury.same(&self.treasury) {
            return Err(ProgramError::ConstraintHasOne);
        }
        if !self.player.game.same(&self.game_key) {
            return Err(ProgramError::ConstraintHasOne);
        }
        Ok(())
    }
}

/// Whether the game's collected total can take the player's spent points.
pub open spec fn collect_fits(ctx: CollectActionPoints) -> bool {
    ctx.game.action_points_collected + ctx.player.action_points_spent <= u64::MAX
}

/// The accounts after the collection: the game's total grows by the player's
/// spent points, and the player owes and has spent nothing.
pub open spec fn collected(ctx: CollectActionPoints) -> CollectActionPoints {
    CollectActionPoints {
        game: Game {
            action_points_collected: (ctx.game.action_points_collected
                + ctx.player.action_points_spent) as u64,
            ..ctx.game
        },
        player: Player { action_points_spent: 0, action_points_to_be_collected: 0, ..ctx.player },
        ..ctx
    }
}

/// The payment of the player's spent points from the wallet to the treasury.
pub open spec fn collect_transfer(ctx: CollectActionPoints) -> Transfer {
    Transfer { from: ctx.player_wallet, to: ctx.treasury, lamports: ctx.player.action_points_spent }
}

/// What a collection does: where the total fits, it succeeds with the payment
/// to the treasury and the accounts after it; otherwise it fails with
/// `ArithmeticOverflow` and the accounts stay as they were.
pub open spec fn collect_outcome(
    before: CollectActionPoints,
    after: CollectActionPoints,
    res: Result<Transfer, ProgramError>,
) -> bool {
    if collect_fits(before) {
        &&& res == Ok::<Transfer, ProgramError>(collect_transfer(before))
        &&& after == collected(before)
    } else {
        &&& res == Err::<Transfer, ProgramError>(ProgramError::Rpg(RpgError::ArithmeticOverflow))
        &&& after == before
    }
}

/// The payment that a collection makes: the player's spent points, from the
/// wallet to the treasury. The program performs this payment before it
/// updates the accounts with `run_collect_action_points`, so that where the
/// wallet cannot pay, the payment's failure is what the instruction reports,
/// even where the collected total would also overflow.
pub fn collect_payment(ctx: &CollectActionPoints) -> (transfer: Transfer)
    ensures
        transfer == collect_transfer(*ctx),
{
    Transfer { from: ctx.player_wallet, to: ctx.treasury, lamports: ctx.player.action_points_spent }
}

/// Moves the player's spent action points to the game's collected total: the
/// wallet pays that many lamports to the treasury, and the player's counters
/// return to zero. Where the collected total would overflow, fails with
/// `ArithmeticOverflow` and changes nothing. The payment itself is made by
/// the runtime, and in the program before this update (see
/// `collect_payment`): where the wallet lacks the lamports, the instruction
/// fails with the system program's error, whatever this function would
/// return.
pub fn run_collect_action_points(ctx: &mut CollectActionPoints) -> (res: Result<
    Transfer,
    ProgramError,
>)
    ensures
        collect_outcome(*old(ctx), *final(ctx), res),
{
    let transfer = collect_payment(ctx);
    let transfer_amount: u64 = transfer.lamports;
    let new_total = match ctx.game.action_points_collected.checked_add(transfer_amount) {
        Some(t) => t,
        None => return Err(ProgramError::Rpg(RpgError::ArithmeticOverflow)),
    };
    ctx.game.action_points_collected = new_total;
    ctx.player.action_points_to_be_collected = 0;
    ctx.player.action_points_spent = 0;
    Ok(transfer)
}

} // verus!
