use vstd::prelude::*;

use crate::constants::ATTACK_ACTION_POINTS;
use crate::error::ProgramError;
use crate::helpers::{spend_fits, spent, Transfer};
use crate::instructions::attack_monster::{attack_fits, attack_outcome, attacked, AttackMonster};
use crate::instructions::collect_points::{collect_outcome, CollectActionPoints};
use crate::instructions::create_player::{create_player_outcome, CreatePlayer};
use crate::instructions::spawn_monster::{spawn_outcome, SpawnMonster};
use crate::pda::{le_bytes, monster_seeds};
use crate::state::{Monster, Player};

verus! {

/// Charging action points keeps a player's two counters equal.
pub proof fn law_spend_keeps_points_in_step(action_points: u64, player: Player)
    requires
        player.points_in_step(),
        spend_fits(action_points, player),
    ensures
        spent(action_points, player).points_in_step(),
{
}

/// A new player starts with its two counters equal.
pub proof fn law_new_player_points_in_step(
    ctx: CreatePlayer,
    res: Result<(Player, Transfer), ProgramError>,
)
    requires
        create_player_outcome(ctx, res),
    ensures
        res->Ok_0.0.points_in_step(),
{
}

/// Spawning a monster keeps the player's two counters equal.
pub proof fn law_spawn_keeps_points_in_step(
    before: SpawnMonster,
    after: SpawnMonster,
    res: Result<(Monster, Transfer), ProgramError>,
)
    requires
        spawn_outcome(before, after, res),
        before.player_account.points_in_step(),
    ensures
        after.player_account.points_in_step(),
{
}

/// Attacking keeps the player's two counters equal.
pub proof fn law_attack_keeps_points_in_step(
    before: AttackMonster,
    after: AttackMonster,
    res: Result<Transfer, ProgramError>,
)
    requires
        attack_outcome(before, after, res),
        before.player_account.points_in_step(),
    ensures
        after.player_account.points_in_step(),
{
}

/// Collecting leaves the player's two counters equal (both zero where it
/// succeeds).
pub proof fn law_collect_keeps_points_in_step(
    before: CollectActionPoints,
    after: CollectActionPoints,
    res: Result<Transfer, ProgramError>,
)
    requires
        collect_outcome(before, after, res),
        before.player.points_in_step(),
    ensures
        after.player.points_in_step(),
        res is Ok ==> after.player.action_points_spent == 0,
{
}

/// A collection loses no point and makes none: what the game's total gains is
/// what the player had spent, which is also what the treasury is paid.
pub proof fn law_collect_conserves_points(
    before: CollectActionPoints,
    after: CollectActionPoints,
    res: Result<Transfer, ProgramError>,
)
    requires
        collect_outcome(before, after, res),
    ensures
        after.game.action_points_collected + after.player.action_points_spent
            == before.game.action_points_collected + before.player.action_points_spent,
        res is Ok ==> res->Ok_0.lamports == before.player.action_points_spent,
        res is Ok ==> res->Ok_0.to == before.treasury,
{
}

/// Every point an attack or a spawn charges is paid for: the payment is what
/// the spent counter gains.
pub proof fn law_charges_are_paid(
    attack_before: AttackMonster,
    attack_after: AttackMonster,
    attack_res: Result<Transfer, ProgramError>,
    spawn_before: SpawnMonster,
    spawn_after: SpawnMonster,
    spawn_res: Result<(Monster, Transfer), ProgramError>,
)
    requires
        attack_outcome(attack_before, attack_after, attack_res),
        spawn_outcome(spawn_before, spawn_after, spawn_res),
    ensures
        attack_res is Ok ==> attack_after.player_account.action_points_spent
            == attack_before.player_account.action_points_spent + attack_res->Ok_0.lamports,
        spawn_res is Ok ==> spawn_after.player_account.action_points_spent
            == spawn_before.player_account.action_points_spent + spawn_res->Ok_0.1.lamports,
{
}

/// The accounts after `n` successful attacks in a row.
pub open spec fn attacks(ctx: AttackMonster, n: nat) -> AttackMonster
    decreases n,
{
    if n == 0 {
        ctx
    } else {
        attacked(attacks(ctx, (n - 1) as nat))
    }
}

/// Whether the player's counters and experience and kills have room for `n`
/// attacks, so that none of them stops at `u64::MAX`.
pub open spec fn room_for_attacks(ctx: AttackMonster, n: nat) -> bool {
    &&& ctx.player_account.action_points_spent + n * ATTACK_ACTION_POINTS <= u64::MAX
    &&& ctx.player_account.action_points_to_be_collected + n * ATTACK_ACTION_POINTS <= u64::MAX
    &&& ctx.player_account.experience + n <= u64::MAX
    &&& ctx.player_account.kills < u64::MAX
}

/// The hitpoints left after `n` blows.
pub open spec fn hitpoints_after(hitpoints: u64, n: nat) -> nat {
    if hitpoints >= n {
        (hitpoints - n) as nat
    } else {
        0
    }
}

/// The blows that hurt, out of `n` on a monster with `hitpoints`.
pub open spec fn blows_that_hurt(hitpoints: u64, n: nat) -> nat {
    if hitpoints >= n {
        n
    } else {
        hitpoints as nat
    }
}

/// Attacking a monster again and again: every attack goes through (where the
/// player has room), the monster loses one hitpoint per blow down to zero and
/// never gains any, the player gains one experience point per blow that hurt,
/// and exactly one kill, on the blow that takes the monster's last hitpoint.
/// Every attack costs the same.
pub proof fn law_repeated_attacks(ctx: AttackMonster, n: nat)
    requires
        room_for_attacks(ctx, n),
    ensures
        forall|k: nat| k < n ==> #[trigger] attack_fits(attacks(ctx, k)),
        attacks(ctx, n).monster.hitpoints == hitpoints_after(ctx.monster.hitpoints, n),
        attacks(ctx, n).player_account.experience == ctx.player_account.experience
            + blows_that_hurt(ctx.monster.hitpoints, n),
        attacks(ctx, n).player_account.kills == ctx.player_account.kills + if 0
            < ctx.monster.hitpoints <= n {
            1int
        } else {
            0int
        },
        attacks(ctx, n).player_account.action_points_spent == ctx.player_account.action_points_spent
            + n * ATTACK_ACTION_POINTS,
        attacks(ctx, n).player_account.action_points_to_be_collected
            == ctx.player_account.action_points_to_be_collected + n * ATTACK_ACTION_POINTS,
    decreases n,
{
    if n > 0 {
        let m = (n - 1) as nat;
        law_repeated_attacks(ctx, m);
        assert forall|k: nat| k < n implies #[trigger] attack_fits(attacks(ctx, k)) by {
            if k < m {
            } else {
                assert(k == m);
            }
        }
    }
}

proof fn lemma_le_bytes_len(x: nat, n: nat)
    ensures
        le_bytes(x, n).len() == n,
    decreases n,
{
    if n > 0 {
        lemma_le_bytes_len(x / 256, (n - 1) as nat);
    }
}

/// Little-endian encodings of the same length that agree come from the same
/// number, as long as both numbers fit in that many bytes.
proof fn lemma_le_bytes_injective(x: nat, y: nat, n: nat)
    requires
        le_bytes(x, n) == le_bytes(y, n),
        fits_in_bytes(x, n),
        fits_in_bytes(y, n),
    ensures
        x == y,
    decreases n,
{
    if n > 0 {
        let tail_x = le_bytes(x / 256, (n - 1) as nat);
        let tail_y = le_bytes(y / 256, (n - 1) as nat);
        lemma_le_bytes_len(x / 256, (n - 1) as nat);
        lemma_le_bytes_len(y / 256, (n - 1) as nat);
        assert(le_bytes(x, n)[0] == (x % 256) as u8);
        assert(le_bytes(y, n)[0] == (y % 256) as u8);
        assert(le_bytes(x, n).subrange(1, n as int) =~= tail_x);
        assert(le_bytes(y, n).subrange(1, n as int) =~= tail_y);
        lemma_le_bytes_injective(x / 256, y / 256, (n - 1) as nat);
    }
}

/// Whether `x` fits in `n` bytes.
pub open spec fn fits_in_bytes(x: nat, n: nat) -> bool
    decreases n,
{
    if n == 0 {
        x == 0
    } else {
        fits_in_bytes(x / 256, (n - 1) as nat)
    }
}

proof fn lemma_u64_fits_in_eight_bytes(x: u64)
    ensures
        fits_in_bytes(x as nat, 8),
{
    let x0 = x as nat;
    let x1 = x0 / 256;
    let x2 = x1 / 256;
    let x3 = x2 / 256;
    let x4 = x3 / 256;
    let x5 = x4 / 256;
    let x6 = x5 / 256;
    let x7 = x6 / 256;
    let x8 = x7 / 256;
    assert(x1 < 0x100000000000000);
    assert(x2 < 0x1000000000000);
    assert(x3 < 0x10000000000);
    assert(x4 < 0x100000000);
    assert(x5 < 0x1000000);
    assert(x6 < 0x10000);
    assert(x7 < 0x100);
    assert(x8 == 0);
    assert(fits_in_bytes(x8, 0));
    assert(fits_in_bytes(x7, 1));
    assert(fits_in_bytes(x6, 2));
    assert(fits_in_bytes(x5, 3));
    assert(fits_in_bytes(x4, 4));
    assert(fits_in_bytes(x3, 5));
    assert(fits_in_bytes(x2, 6));
    assert(fits_in_bytes(x1, 7));
}

/// Monsters with different indices derive their addresses from different
/// seeds.
pub proof fn law_monster_seeds_distinct(game: Seq<u8>, player: Seq<u8>, i: u64, j: u64)
    requires
        i != j,
    ensures
        monster_seeds(game, player, i) != monster_seeds(game, player, j),
{
    if monster_seeds(game, player, i) == monster_seeds(game, player, j) {
        assert(monster_seeds(game, player, i)[3] == le_bytes(i as nat, 8));
        assert(monster_seeds(game, player, j)[3] == le_bytes(j as nat, 8));
        lemma_u64_fits_in_eight_bytes(i);
        lemma_u64_fits_in_eight_bytes(j);
        lemma_le_bytes_injective(i as nat, j as nat, 8);
    }
}

/// After a spawn, the player's next monster derives its address from other
/// seeds than the monster just spawned.
pub proof fn law_spawn_moves_to_fresh_seeds(
    before: SpawnMonster,
    after: SpawnMonster,
    res: Result<(Monster, Transfer), ProgramError>,
)
    requires
        spawn_outcome(before, after, res),
        res is Ok,
    ensures
        after.player_account.next_monster_index == before.player_account.next_monster_index + 1,
        monster_seeds(before.game_key@, before.player@, after.player_account.next_monster_index)
            != monster_seeds(
            before.game_key@,
            before.player@,
            before.player_account.next_monster_index,
        ),
{
    law_monster_seeds_distinct(
        before.game_key@,
        before.player@,
        after.player_account.next_monster_index,
        before.player_account.next_monster_index,
    );
}

/// Whether `after` can follow `before` as the state of one player account
/// through one instruction: an attack, a spawn or a collection that acts on
/// it, or any instruction that leaves it alone.
pub open spec fn player_step(before: Player, after: Player) -> bool {
    ||| after == before
    ||| exists|b: AttackMonster, a: AttackMonster, r: Result<Transfer, ProgramError>|
        #![trigger attack_outcome(b, a, r)]
        attack_outcome(b, a, r) && b.player_account == before && a.player_account == after
    ||| exists|b: SpawnMonster, a: SpawnMonster, r: Result<(Monster, Transfer), ProgramError>|
        #![trigger spawn_outcome(b, a, r)]
        spawn_outcome(b, a, r) && b.player_account == before && a.player_account == after
    ||| exists|b: CollectActionPoints, a: CollectActionPoints, r: Result<Transfer, ProgramError>|
        #![trigger collect_outcome(b, a, r)]
        collect_outcome(b, a, r) && b.player == before && a.player == after
}

/// No instruction lowers a player's next monster index: attacks and
/// collections keep it, and a spawn raises it by one exactly where it
/// succeeds.
pub proof fn law_instructions_never_lower_monster_index(
    attack_before: AttackMonster,
    attack_after: AttackMonster,
    attack_res: Result<Transfer, ProgramError>,
    spawn_before: SpawnMonster,
    spawn_after: SpawnMonster,
    spawn_res: Result<(Monster, Transfer), ProgramError>,
    collect_before: CollectActionPoints,
    collect_after: CollectActionPoints,
    collect_res: Result<Transfer, ProgramError>,
)
    requires
        attack_outcome(attack_before, attack_after, attack_res),
        spawn_outcome(spawn_before, spawn_after, spawn_res),
        collect_outcome(collect_before, collect_after, collect_res),
    ensures
        attack_after.player_account.next_monster_index
            == attack_before.player_account.next_monster_index,
        collect_after.player.next_monster_index == collect_before.player.next_monster_index,
        spawn_res is Ok ==> spawn_after.player_account.next_monster_index
            == spawn_before.player_account.next_monster_index + 1,
        spawn_res is Err ==> spawn_after.player_account.next_monster_index
            == spawn_before.player_account.next_monster_index,
{
}

/// One step of a player account never lowers its next monster index.
proof fn lemma_step_keeps_index(before: Player, after: Player)
    requires
        player_step(before, after),
    ensures
        before.next_monster_index <= after.next_monster_index,
{
    if after == before {
    } else if exists|b: AttackMonster, a: AttackMonster, r: Result<Transfer, ProgramError>|
        #![trigger attack_outcome(b, a, r)]
        attack_outcome(b, a, r) && b.player_account == before && a.player_account == after {
        let (b, a, r) = choose|b: AttackMonster, a: AttackMonster, r: Result<Transfer, ProgramError>|
            #![trigger attack_outcome(b, a, r)]
            attack_outcome(b, a, r) && b.player_account == before && a.player_account == after;
        assert(attack_outcome(b, a, r));
    } else if exists|b: SpawnMonster, a: SpawnMonster, r: Result<(Monster, Transfer), ProgramError>|
        #![trigger spawn_outcome(b, a, r)]
        spawn_outcome(b, a, r) && b.player_account == before && a.player_account == after {
        let (b, a, r) = choose|b: SpawnMonster, a: SpawnMonster, r: Result<(Monster, Transfer), ProgramError>|
            #![trigger spawn_outcome(b, a, r)]
            spawn_outcome(b, a, r) && b.player_account == before && a.player_account == after;
        assert(spawn_outcome(b, a, r));
    } else {
        let (b, a, r) = choose|b: CollectActionPoints, a: CollectActionPoints, r: Result<Transfer, ProgramError>|
            #![trigger collect_outcome(b, a, r)]
            collect_outcome(b, a, r) && b.player == before && a.player == after;
        assert(collect_outcome(b, a, r));
    }
}

/// Along a history of steps, a player's next monster index only grows.
proof fn lemma_history_keeps_index(history: Seq<Player>, from: int, to: int)
    requires
        forall|k: int| 0 <= k < history.len() - 1 ==> #[trigger] player_step(history[k], history[k + 1]),
        0 <= from <= to < history.len(),
    ensures
        history[from].next_monster_index <= history[to].next_monster_index,
    decreases to - from,
{
    if from < to {
        lemma_history_keeps_index(history, from, to - 1);
        let k = to - 1;
        assert(player_step(history[k], history[k + 1]));
        lemma_step_keeps_index(history[k], history[k + 1]);
    }
}

/// Two spawns by one player, with any instructions in between: once a spawn
/// has gone through at step `i`, every later spawn at step `j` derives its
/// monster's address from a strictly larger index, and so from other seeds.
/// `history[k]` is the player account before step `k`, and the spawn at
/// step `i` is the one given.
pub proof fn law_spawns_use_distinct_seeds(
    history: Seq<Player>,
    i: int,
    j: int,
    spawn_before: SpawnMonster,
    spawn_after: SpawnMonster,
    spawn_res: Result<(Monster, Transfer), ProgramError>,
    game: Seq<u8>,
    player: Seq<u8>,
)
    requires
        forall|k: int| 0 <= k < history.len() - 1 ==> #[trigger] player_step(history[k], history[k + 1]),
        0 <= i < j < history.len(),
        spawn_outcome(spawn_before, spawn_after, spawn_res),
        spawn_res is Ok,
        spawn_before.player_account == history[i],
        spawn_after.player_account == history[i + 1],
    ensures
        history[i].next_monster_index < history[j].next_monster_index,
        monster_seeds(game, player, history[i].next_monster_index) != monster_seeds(
            game,
            player,
            history[j].next_monster_index,
        ),
{
    lemma_history_keeps_index(history, i + 1, j);
    law_monster_seeds_distinct(
        game,
        player,
        history[i].next_monster_index,
        history[j].next_monster_index,
    );
}

/// The number that a little-endian byte sequence stands for.
pub open spec fn le_value(bytes: Seq<u8>) -> nat
    decreases bytes.len(),
{
    if bytes.len() == 0 {
        0
    } else {
        bytes[0] as nat + 256 * le_value(bytes.drop_first())
    }
}

proof fn lemma_le_bytes_round_trip(x: nat, n: nat)
    requires
        fits_in_bytes(x, n),
    ensures
        le_value(le_bytes(x, n)) == x,
    decreases n,
{
    if n > 0 {
        lemma_le_bytes_round_trip(x / 256, (n - 1) as nat);
        assert(le_bytes(x, n).drop_first() =~= le_bytes(x / 256, (n - 1) as nat));
    }
}

/// The eight bytes that stand for a monster index in its seeds read back as
/// the index, least significant byte first.
pub proof fn law_index_bytes_read_back(index: u64)
    ensures
        le_bytes(index as nat, 8).len() == 8,
        le_bytes(index as nat, 8)[0] == index % 256,
        le_value(le_bytes(index as nat, 8)) == index,
{
    lemma_le_bytes_len(index as nat, 8);
    lemma_u64_fits_in_eight_bytes(index);
    lemma_le_bytes_round_trip(index as nat, 8);
}

} // verus!
