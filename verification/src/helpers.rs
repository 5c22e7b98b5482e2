use vstd::prelude::*;

use crate::error::RpgError;
use crate::key::Key;
use crate::state::Player;

verus! {

/// A movement of lamports from one account to another, which the runtime
/// performs for an instruction that succeeds.
#[derive(Clone, Copy, Debug)]
pub struct Transfer {
    pub from: Key,
    pub to: Key,
    pub lamports: u64,
}

/// Whether both of the player's counters can take `action_points` more.
pub open spec fn spend_fits(action_points: u64, player_account: Player) -> bool {
    &&& player_account.action_points_spent + action_points <= u64::MAX
    &&& player_account.action_points_to_be_collected + action_points <= u64::MAX
}

/// The player after spending `action_points`, where `spend_fits` holds.
pub open spec fn spent(action_points: u64, player_account: Player) -> Player {
    Player {
        action_points_spent: (player_account.action_points_spent + action_points) as u64,
        action_points_to_be_collected: (player_account.action_points_to_be_collected
            + action_points) as u64,
        ..player_account
    }
}

/// The payment for spent action points: lamports from the player's wallet to
/// the player's account.
pub open spec fn spend_transfer(action_points: u64, player_account_key: Key, player: Key) -> Transfer {
    Transfer { from: player, to: player_account_key, lamports: action_points }
}

/// Charges `action_points` to the player: both the spent counter and the
/// counter of points owed to the treasury grow by that much, and the wallet
/// `player` pays as many lamports into the player's account. Fails with
/// `ArithmeticOverflow`, leaving the player as it was, where a counter would
/// pass `u64::MAX`.
pub fn spend_action_points(
    action_points: u64,
    player_account: &mut Player,
    player_account_key: &Key,
    player: &Key,
) -> (res: Result<Transfer, RpgError>)
    ensures
        spend_fits(action_points, *old(player_account)) ==> {
            &&& res == Ok::<Transfer, RpgError>(
                spend_transfer(action_points, *player_account_key, *player),
            )
            &&& *final(player_account) == spent(action_points, *old(player_account))
        },
        !spend_fits(action_points, *old(player_account)) ==> {
            &&& res == Err::<Transfer, RpgError>(RpgError::ArithmeticOverflow)
            &&& *final(player_account) == *old(player_account)
        },
        res is Ok <==> (old(player_account).action_points_spent + action_points <= u64::MAX
            && old(player_account).action_points_to_be_collected + action_points <= u64::MAX),
        res is Ok ==> {
            &&& final(player_account).action_points_spent == old(player_account).action_points_spent
                + action_points
            &&& final(player_account).action_points_to_be_collected == old(
                player_account,
            ).action_points_to_be_collected + action_points
            &&& res->Ok_0.from@ == player@
            &&& res->Ok_0.to@ == player_account_key@
            &&& res->Ok_0.lamports == action_points
        },
{
    let new_spent = match player_account.action_points_spent.checked_add(action_points) {
        Some(v) => v,
        None => return Err(RpgError::ArithmeticOverflow),
    };
    let new_to_be_collected = match player_account.action_points_to_be_collected.checked_add(
        action_points,
    ) {
        Some(v) => v,
        None => return Err(RpgError::ArithmeticOverflow),
    };
    player_account.action_points_spent = new_spent;
    player_account.action_points_to_be_collected = new_to_be_collected;
    Ok(Transfer { from: *player, to: *player_account_key, lamports: action_points })
}

} // verus!
