use vstd::prelude::*;

use crate::constants::{ATTACK_ACTION_POINTS, MONSTER_START_HITPOINTS, NO_EFFECT_FLAG};
use crate::error::{ProgramError, RpgError};
use crate::helpers::Transfer;
use crate::instructions::attack_monster::AttackMonster;
use crate::instructions::collect_points::CollectActionPoints;
use crate::instructions::create_game::CreateGame;
use crate::instructions::create_player::CreatePlayer;
use crate::instructions::spawn_monster::SpawnMonster;
use crate::pda::{game_seeds, monster_seeds, player_seeds, program_address, seeds_check};
use crate::rpg::{
    attack_monster_entry,
    create_game_entry,
    create_player_entry,
    deposit_action_points_entry,
    spawn_monster_entry,
};
use crate::state::{Game, Monster, Player};

verus! {

// What each instruction does, stated in terms of its accounts and arguments
// alone: when it succeeds, what it gives, and which refusal comes when.

/// Whether `address` is the address derived from `seeds` (with some bump).
pub open spec fn derives(seeds: Seq<Seq<u8>>, program_id: Seq<u8>, address: Seq<u8>) -> bool {
    &&& program_address(seeds, program_id) is Some
    &&& (program_address(seeds, program_id)->0).0 == address
}

// ---------------------------------------------------------------- create_game

/// Creating a game at its derived address, signed by the game master and the
/// treasury, fails with `InvalidGameConfig` exactly when a player may hold no
/// item. For any other limit the game is created with every setting stored as
/// given, nothing collected and the unused settings zero.
pub proof fn law_create_game_succeeds_for_any_item_limit(
    ctx: CreateGame,
    program_id: Seq<u8>,
    max_items_per_player: u8,
    ap_per_player_creation: u64,
    ap_per_monster_spawn: u64,
    ap_per_monster_attack: u64,
    res: Result<Game, ProgramError>,
)
    requires
        create_game_entry(
            ctx,
            program_id,
            max_items_per_player,
            ap_per_player_creation,
            ap_per_monster_spawn,
            ap_per_monster_attack,
            res,
        ),
        ctx.game_master_signed,
        ctx.treasury_signed,
        derives(game_seeds(ctx.treasury@), program_id, ctx.game@),
    ensures
        res is Err <==> max_items_per_player == 0,
        max_items_per_player == 0 ==> res == Err::<Game, ProgramError>(
            ProgramError::Rpg(RpgError::InvalidGameConfig),
        ),
        max_items_per_player != 0 ==> {
            let game = res->Ok_0;
            &&& game.game_master@ == ctx.game_master@
            &&& game.treasury@ == ctx.treasury@
            &&& game.action_points_collected == 0
            &&& game.game_config.max_items_per_player == max_items_per_player
            &&& game.game_config.ap_per_player_creation == ap_per_player_creation
            &&& game.game_config.ap_per_monster_spawn == ap_per_monster_spawn
            &&& game.game_config.ap_per_monster_attack == ap_per_monster_attack
            &&& forall|i: int|
                0 <= i < game.game_config.for_future_use@.len()
                    ==> game.game_config.for_future_use@[i] == 0
        },
{
}

/// A game is created only where both the game master and the treasury
/// signed, whatever the other accounts and the settings.
pub proof fn law_create_game_needs_both_signatures(
    ctx: CreateGame,
    program_id: Seq<u8>,
    max_items_per_player: u8,
    ap_per_player_creation: u64,
    ap_per_monster_spawn: u64,
    ap_per_monster_attack: u64,
    res: Result<Game, ProgramError>,
)
    requires
        create_game_entry(
            ctx,
            program_id,
            max_items_per_player,
            ap_per_player_creation,
            ap_per_monster_spawn,
            ap_per_monster_attack,
            res,
        ),
        !ctx.game_master_signed || !ctx.treasury_signed,
    ensures
        res == Err::<Game, ProgramError>(ProgramError::AccountNotSigner),
{
}

/// A signed game creation at an address that is not derived from the
/// treasury is refused with `ConstraintSeeds`.
pub proof fn law_create_game_needs_derived_address(
    ctx: CreateGame,
    program_id: Seq<u8>,
    max_items_per_player: u8,
    ap_per_player_creation: u64,
    ap_per_monster_spawn: u64,
    ap_per_monster_attack: u64,
    res: Result<Game, ProgramError>,
)
    requires
        create_game_entry(
            ctx,
            program_id,
            max_items_per_player,
            ap_per_player_creation,
            ap_per_monster_spawn,
            ap_per_monster_attack,
            res,
        ),
        ctx.game_master_signed,
        ctx.treasury_signed,
        !derives(game_seeds(ctx.treasury@), program_id, ctx.game@),
    ensures
        res == Err::<Game, ProgramError>(ProgramError::ConstraintSeeds),
{
}

// -------------------------------------------------------------- create_player

/// A signed join at the derived address always succeeds: the new player
/// belongs to the wallet and the game, is unaffected, has no experience,
/// kills, monsters or items, and has spent (and owes) exactly the game's price
/// of joining, which the wallet pays into the player account. Unsigned joins
/// are refused with `AccountNotSigner`, joins at another address with
/// `ConstraintSeeds`.
pub proof fn law_create_player(
    ctx: CreatePlayer,
    program_id: Seq<u8>,
    res: Result<(Player, Transfer), ProgramError>,
)
    requires
        create_player_entry(ctx, program_id, res),
    ensures
        !ctx.player_signed ==> res == Err::<(Player, Transfer), ProgramError>(
            ProgramError::AccountNotSigner,
        ),
        ctx.player_signed && !derives(
            player_seeds(ctx.game_key@, ctx.player@),
            program_id,
            ctx.player_account@,
        ) ==> res == Err::<(Player, Transfer), ProgramError>(ProgramError::ConstraintSeeds),
        ctx.player_signed && derives(
            player_seeds(ctx.game_key@, ctx.player@),
            program_id,
            ctx.player_account@,
        ) ==> {
            let cost = ctx.game.game_config.ap_per_player_creation;
            let (player, transfer) = res->Ok_0;
            &&& res is Ok
            &&& player.player@ == ctx.player@
            &&& player.game@ == ctx.game_key@
            &&& player.action_points_spent == cost
            &&& player.action_points_to_be_collected == cost
            &&& player.status_flag == NO_EFFECT_FLAG
            &&& player.experience == 0
            &&& player.kills == 0
            &&& player.next_monster_index == 0
            &&& player.inventory@.len() == 0
            &&& forall|i: int|
                0 <= i < player.for_future_use@.len() ==> player.for_future_use@[i] == 0
            &&& transfer.from@ == ctx.player@
            &&& transfer.to@ == ctx.player_account@
            &&& transfer.lamports == cost
        },
{
}

// -------------------------------------------------------------- spawn_monster

/// Whether the accounts of a spawn pass every check: the wallet signed, the
/// monster is at the address derived from the player's next index, and the
/// player account belongs to the game and to the wallet.
pub open spec fn spawn_accounts_valid(ctx: SpawnMonster, program_id: Seq<u8>) -> bool {
    &&& ctx.player_signed
    &&& derives(
        monster_seeds(ctx.game_key@, ctx.player@, ctx.player_account.next_monster_index),
        program_id,
        ctx.monster@,
    )
    &&& ctx.player_account.game@ == ctx.game_key@
    &&& ctx.player_account.player@ == ctx.player@
}

/// A spawn with valid accounts succeeds exactly when the monster index is
/// below `u64::MAX` and both counters can take the game's price of a spawn.
/// Then the monster is the wallet's, in the game, with full hitpoints; the
/// index grows by one; both counters grow by the price, which the wallet pays
/// into the player account; and nothing else changes. Otherwise the spawn
/// fails with `ArithmeticOverflow` and nothing changes. There is no other
/// limit on the number of monsters a player spawns.
pub proof fn law_spawn_succeeds_while_counters_have_room(
    before: SpawnMonster,
    after: SpawnMonster,
    program_id: Seq<u8>,
    res: Result<(Monster, Transfer), ProgramError>,
)
    requires
        spawn_monster_entry(before, after, program_id, res),
        spawn_accounts_valid(before, program_id),
    ensures
        ({
            let p = before.player_account;
            let cost = before.game.game_config.ap_per_monster_spawn;
            res is Ok <==> (p.next_monster_index < u64::MAX && p.action_points_spent + cost
                <= u64::MAX && p.action_points_to_be_collected + cost <= u64::MAX)
        }),
        res is Err ==> res == Err::<(Monster, Transfer), ProgramError>(
            ProgramError::Rpg(RpgError::ArithmeticOverflow),
        ) && after == before,
        res is Ok ==> {
            let p = before.player_account;
            let q = after.player_account;
            let cost = before.game.game_config.ap_per_monster_spawn;
            let (monster, transfer) = res->Ok_0;
            &&& monster.player@ == before.player@
            &&& monster.game@ == before.game_key@
            &&& monster.hitpoints == MONSTER_START_HITPOINTS
            &&& q.next_monster_index == p.next_monster_index + 1
            &&& q.action_points_spent == p.action_points_spent + cost
            &&& q.action_points_to_be_collected == p.action_points_to_be_collected + cost
            &&& q.player == p.player
            &&& q.game == p.game
            &&& q.experience == p.experience
            &&& q.kills == p.kills
            &&& q.status_flag == p.status_flag
            &&& q.inventory == p.inventory
            &&& q.for_future_use == p.for_future_use
            &&& transfer.from@ == before.player@
            &&& transfer.to@ == before.player_account_key@
            &&& transfer.lamports == cost
            &&& after.game == before.game
            &&& after.monster == before.monster
        },
{
}

/// The refusals of a spawn, in the order the program checks them; each one
/// leaves the accounts unchanged: an unsigned spawn; a monster not at the
/// address derived from the player's next index; a player account of another
/// game or of another wallet.
pub proof fn law_spawn_refusals(
    before: SpawnMonster,
    after: SpawnMonster,
    program_id: Seq<u8>,
    res: Result<(Monster, Transfer), ProgramError>,
)
    requires
        spawn_monster_entry(before, after, program_id, res),
    ensures
        !before.player_signed ==> res == Err::<(Monster, Transfer), ProgramError>(
            ProgramError::AccountNotSigner,
        ) && after == before,
        before.player_signed && !derives(
            monster_seeds(before.game_key@, before.player@, before.player_account.next_monster_index),
            program_id,
            before.monster@,
        ) ==> res == Err::<(Monster, Transfer), ProgramError>(ProgramError::ConstraintSeeds)
            && after == before,
        before.player_signed && derives(
            monster_seeds(before.game_key@, before.player@, before.player_account.next_monster_index),
            program_id,
            before.monster@,
        ) && (before.player_account.game@ != before.game_key@ || before.player_account.player@
            != before.player@) ==> res == Err::<(Monster, Transfer), ProgramError>(
            ProgramError::ConstraintHasOne,
        ) && after == before,
{
}

// ------------------------------------------------------------- attack_monster

/// Whether the accounts of an attack pass every check: the wallet signed and
/// owns both the player account and the monster, which live in the same game.
pub open spec fn attack_accounts_valid(ctx: AttackMonster) -> bool {
    &&& ctx.player_signed
    &&& ctx.player_account.player@ == ctx.player@
    &&& ctx.monster.player@ == ctx.player@
    &&& ctx.monster.game@ == ctx.player_account.game@
}

/// An attack with valid accounts succeeds exactly when both counters can take
/// one more point. Then a monster with hitpoints loses one and the player
/// gains one experience point (none past `u64::MAX`), and one kill (none past
/// `u64::MAX`) where the monster had exactly one hitpoint; a dead monster and
/// the player's experience and kills stay as they were. Both counters grow by
/// `ATTACK_ACTION_POINTS`, which the wallet pays into the player account, and
/// nothing else changes. Otherwise the attack fails with `ArithmeticOverflow`
/// and nothing changes.
pub proof fn law_attack(
    before: AttackMonster,
    after: AttackMonster,
    res: Result<Transfer, ProgramError>,
)
    requires
        attack_monster_entry(before, after, res),
        attack_accounts_valid(before),
    ensures
        res is Ok <==> (before.player_account.action_points_spent + ATTACK_ACTION_POINTS
            <= u64::MAX && before.player_account.action_points_to_be_collected
            + ATTACK_ACTION_POINTS <= u64::MAX),
        res is Err ==> res == Err::<Transfer, ProgramError>(
            ProgramError::Rpg(RpgError::ArithmeticOverflow),
        ) && after == before,
        res is Ok ==> {
            let p = before.player_account;
            let q = after.player_account;
            let hp = before.monster.hitpoints;
            let transfer = res->Ok_0;
            &&& after.monster.hitpoints == (if hp > 0 {
                hp - 1
            } else {
                0
            })
            &&& after.monster.player == before.monster.player
            &&& after.monster.game == before.monster.game
            &&& q.experience == (if hp > 0 && p.experience < u64::MAX {
                p.experience + 1
            } else {
                p.experience as int
            })
            &&& q.kills == (if hp == 1 && p.kills < u64::MAX {
                p.kills + 1
            } else {
                p.kills as int
            })
            &&& q.action_points_spent == p.action_points_spent + ATTACK_ACTION_POINTS
            &&& q.action_points_to_be_collected == p.action_points_to_be_collected
                + ATTACK_ACTION_POINTS
            &&& q.next_monster_index == p.next_monster_index
            &&& q.player == p.player
            &&& q.game == p.game
            &&& q.status_flag == p.status_flag
            &&& q.inventory == p.inventory
            &&& q.for_future_use == p.for_future_use
            &&& transfer.from@ == before.player@
            &&& transfer.to@ == before.player_account_key@
            &&& transfer.lamports == ATTACK_ACTION_POINTS
        },
{
}

/// The refusals of an attack, in the order the program checks them; each one
/// leaves the accounts unchanged: an unsigned attack; a player account or a
/// monster of another wallet (`ConstraintHasOne`); a monster of another game
/// (`GameMismatch`).
pub proof fn law_attack_refusals(
    before: AttackMonster,
    after: AttackMonster,
    res: Result<Transfer, ProgramError>,
)
    requires
        attack_monster_entry(before, after, res),
    ensures
        !before.player_signed ==> res == Err::<Transfer, ProgramError>(
            ProgramError::AccountNotSigner,
        ) && after == before,
        before.player_signed && (before.player_account.player@ != before.player@
            || before.monster.player@ != before.player@) ==> res == Err::<Transfer, ProgramError>(
            ProgramError::ConstraintHasOne,
        ) && after == before,
        before.player_signed && before.player_account.player@ == before.player@
            && before.monster.player@ == before.player@ && before.monster.game@
            != before.player_account.game@ ==> res == Err::<Transfer, ProgramError>(
            ProgramError::Rpg(RpgError::GameMismatch),
        ) && after == before,
{
}

// ------------------------------------------------------ deposit_action_points

/// Whether the accounts of a collection pass every check: the paying wallet
/// signed, the treasury is the game's and the player belongs to the game.
pub open spec fn collect_accounts_valid(ctx: CollectActionPoints) -> bool {
    &&& ctx.player_wallet_signed
    &&& ctx.game.treasury@ == ctx.treasury@
    &&& ctx.player.game@ == ctx.game_key@
}

/// A collection with valid accounts succeeds exactly when the game's total
/// can take the player's spent points, whatever they are (zero included).
/// Then the wallet pays exactly the spent points to the treasury, the game's
/// total grows by them, the player's two counters become zero, and nothing
/// else changes; with nothing spent, the payment is zero and the total stays.
/// Otherwise it fails with `ArithmeticOverflow` and nothing changes.
pub proof fn law_deposit(
    before: CollectActionPoints,
    after: CollectActionPoints,
    res: Result<Transfer, ProgramError>,
)
    requires
        deposit_action_points_entry(before, after, res),
        collect_accounts_valid(before),
    ensures
        res is Ok <==> before.game.action_points_collected + before.player.action_points_spent
            <= u64::MAX,
        res is Err ==> res == Err::<Transfer, ProgramError>(
            ProgramError::Rpg(RpgError::ArithmeticOverflow),
        ) && after == before,
        res is Ok ==> {
            let transfer = res->Ok_0;
            &&& transfer.from@ == before.player_wallet@
            &&& transfer.to@ == before.treasury@
            &&& transfer.lamports == before.player.action_points_spent
            &&& after.game.action_points_collected == before.game.action_points_collected
                + before.player.action_points_spent
            &&& after.player.action_points_spent == 0
            &&& after.player.action_points_to_be_collected == 0
            &&& after.player.next_monster_index == before.player.next_monster_index
            &&& after.player.experience == before.player.experience
            &&& after.player.kills == before.player.kills
            &&& after.player.player == before.player.player
            &&& after.player.game == before.player.game
            &&& after.game.treasury == before.game.treasury
            &&& after.game.game_master == before.game.game_master
            &&& after.game.game_config == before.game.game_config
        },
        res is Ok && before.player.action_points_spent == 0 ==> res->Ok_0.lamports == 0
            && after.game.action_points_collected == before.game.action_points_collected,
{
}

/// The refusals of a collection, in the order the program checks them; each
/// one leaves the accounts unchanged: an unsigned collection; a treasury that
/// is not the game's, or a player of another game (`ConstraintHasOne`).
pub proof fn law_deposit_refusals(
    before: CollectActionPoints,
    after: CollectActionPoints,
    res: Result<Transfer, ProgramError>,
)
    requires
        deposit_action_points_entry(before, after, res),
    ensures
        !before.player_wallet_signed ==> res == Err::<Transfer, ProgramError>(
            ProgramError::AccountNotSigner,
        ) && after == before,
        before.player_wallet_signed && (before.game.treasury@ != before.treasury@
            || before.player.game@ != before.game_key@) ==> res == Err::<Transfer, ProgramError>(
            ProgramError::ConstraintHasOne,
        ) && after == before,
{
}

// ------------------------------------------------------- address derivation

/// The check of a derived address accepts exactly the derived address, and
/// gives back the bump seed found with it; anything else, and a derivation
/// that found nothing, is `ConstraintSeeds`.
pub proof fn law_seeds_check(found: Option<(Seq<u8>, u8)>, address: Seq<u8>)
    ensures
        seeds_check(found, address) is Ok <==> (found is Some && (found->0).0 == address),
        seeds_check(found, address) is Ok ==> seeds_check(found, address)->Ok_0 == (found->0).1,
        seeds_check(found, address) is Err ==> seeds_check(found, address) == Err::<
            u8,
            ProgramError,
        >(ProgramError::ConstraintSeeds),
{
}

/// Where the accounts of an instruction that creates an account pass every
/// check, the check gives back the bump seed found with the derived address,
/// which the program signs the creation with.
pub proof fn law_validate_gives_the_derived_bump(
    game_ctx: CreateGame,
    player_ctx: CreatePlayer,
    spawn_ctx: SpawnMonster,
    program_id: Seq<u8>,
)
    ensures
        game_ctx.game_master_signed && game_ctx.treasury_signed && derives(
            game_seeds(game_ctx.treasury@),
            program_id,
            game_ctx.game@,
        ) ==> game_ctx.spec_validate(program_id) == Ok::<u8, ProgramError>(
            (program_address(game_seeds(game_ctx.treasury@), program_id)->0).1,
        ),
        player_ctx.player_signed && derives(
            player_seeds(player_ctx.game_key@, player_ctx.player@),
            program_id,
            player_ctx.player_account@,
        ) ==> player_ctx.spec_validate(program_id) == Ok::<u8, ProgramError>(
            (program_address(player_seeds(player_ctx.game_key@, player_ctx.player@), program_id)->0).1,
        ),
        spawn_accounts_valid(spawn_ctx, program_id) ==> spawn_ctx.spec_validate(program_id) == Ok::<
            u8,
            ProgramError,
        >(
            (program_address(
                monster_seeds(
                    spawn_ctx.game_key@,
                    spawn_ctx.player@,
                    spawn_ctx.player_account.next_monster_index,
                ),
                program_id,
            )->0).1,
        ),
{
}

// --------------------------------------------------------------- error codes

/// Every refusal has its own code: the game's own errors take distinct codes
/// from 6000 up to below 6012, and the framework's refusals keep their codes
/// below 6000.
pub proof fn law_error_codes_distinct(a: ProgramError, b: ProgramError)
    ensures
        a != b ==> a.spec_code() != b.spec_code(),
        a matches ProgramError::Rpg(_) ==> 6000 <= a.spec_code() < 6012,
        !(a matches ProgramError::Rpg(_)) ==> a.spec_code() < 6000,
{
}

} // verus!
