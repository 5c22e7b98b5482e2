use anchor_lang::prelude::Pubkey;
use rpg::constants::{
    ATTACK_ACTION_POINTS, BRONZE_SPEAR, IS_BLEEDING_FLAG, IS_BLESSED_FLAG, IS_BURNING_FLAG,
    IS_CURSED_FLAG, IS_FROZEN_FLAG, IS_POISONED_FLAG, IS_SLOWED_FLAG, IS_STUNNED_FLAG,
    NO_EFFECT_FLAG,
};
use rpg::{
    attack_monster, create_game, create_player, deposit_action_points, program_id,
    run_attack_monster, run_collect_action_points, run_create_game, run_create_player,
    run_spawn_monster, spawn_monster, spend_action_points, AttackMonster, CollectActionPoints,
    CreateGame, CreatePlayer, Game, GameConfig, Key, Monster, Player, ProgramError, RpgError,
    SpawnMonster,
};

fn key(fill: u8) -> Key {
    Key::new([fill; 32])
}

fn derive(seeds: &[&[u8]]) -> (Key, u8) {
    let (address, bump) =
        Pubkey::find_program_address(seeds, &Pubkey::new_from_array(program_id().bytes));
    (Key::new(address.to_bytes()), bump)
}

fn game(treasury: Key) -> Game {
    Game {
        game_master: key(10),
        treasury,
        action_points_collected: 0,
        game_config: GameConfig {
            max_items_per_player: 8,
            ap_per_player_creation: 100,
            ap_per_monster_spawn: 5,
            ap_per_monster_attack: 1,
            for_future_use: [0; 13],
        },
    }
}

fn player(wallet: Key, game: Key) -> Player {
    Player {
        player: wallet,
        game,
        action_points_spent: 0,
        action_points_to_be_collected: 0,
        status_flag: NO_EFFECT_FLAG,
        experience: 0,
        kills: 0,
        next_monster_index: 0,
        for_future_use: [0; 256],
        inventory: Vec::new(),
    }
}

fn attack_ctx(hitpoints: u64) -> AttackMonster {
    let wallet = key(2);
    let game_key = key(1);
    AttackMonster {
        player_account: player(wallet, game_key),
        player_account_key: key(20),
        monster: Monster { player: wallet, game: game_key, hitpoints },
        player: wallet,
        player_signed: true,
    }
}

#[test]
fn status_flags_are_distinct_bits() {
    let flags = [
        IS_FROZEN_FLAG,
        IS_POISONED_FLAG,
        IS_BURNING_FLAG,
        IS_BLESSED_FLAG,
        IS_CURSED_FLAG,
        IS_STUNNED_FLAG,
        IS_SLOWED_FLAG,
        IS_BLEEDING_FLAG,
    ];
    for (i, f) in flags.iter().enumerate() {
        assert_eq!(*f, 1u8 << i);
    }
    assert_eq!(NO_EFFECT_FLAG, 0);
    let mut name = [0u8; 32];
    name[..13].copy_from_slice(b"bronze, spear");
    assert_eq!(BRONZE_SPEAR, name);
}

#[test]
fn error_codes_follow_the_framework() {
    assert_eq!(RpgError::ArithmeticOverflow.code(), 6000);
    assert_eq!(RpgError::GameMismatch.code(), 6008);
    assert_eq!(RpgError::InsufficientFunds.code(), 6011);
    assert_eq!(RpgError::InvalidGameConfig.message(), "Invalid game configuration");
    assert_eq!(
        RpgError::GameMismatch.message(),
        "Monster and player are not in the same game"
    );
    assert_eq!(
        ProgramError::ConstraintSeeds.code(),
        u32::from(anchor_lang::error::ErrorCode::ConstraintSeeds)
    );
    assert_eq!(
        ProgramError::ConstraintHasOne.code(),
        u32::from(anchor_lang::error::ErrorCode::ConstraintHasOne)
    );
    assert_eq!(
        ProgramError::AccountNotSigner.code(),
        u32::from(anchor_lang::error::ErrorCode::AccountNotSigner)
    );
    assert_eq!(ProgramError::Rpg(RpgError::InvalidGameConfig).code(), 6001);
}

#[test]
fn spend_charges_both_counters_and_pays() {
    let mut p = player(key(2), key(1));
    p.action_points_spent = 7;
    p.action_points_to_be_collected = 7;
    let t = spend_action_points(5, &mut p, &key(20), &key(2)).unwrap();
    assert_eq!((p.action_points_spent, p.action_points_to_be_collected), (12, 12));
    assert!(t.from.same(&key(2)) && t.to.same(&key(20)));
    assert_eq!(t.lamports, 5);
}

#[test]
fn spend_overflow_changes_nothing() {
    let mut p = player(key(2), key(1));
    p.action_points_spent = 3;
    p.action_points_to_be_collected = u64::MAX - 1;
    let r = spend_action_points(2, &mut p, &key(20), &key(2));
    assert_eq!(r.unwrap_err(), RpgError::ArithmeticOverflow);
    assert_eq!((p.action_points_spent, p.action_points_to_be_collected), (3, u64::MAX - 1));
}

#[test]
fn create_game_sets_up_the_config() {
    let treasury = key(3);
    let (address, _) = derive(&[b"GAME", &treasury.bytes]);
    let ctx = CreateGame {
        game: address,
        game_master: key(10),
        game_master_signed: true,
        treasury,
        treasury_signed: true,
    };
    let g = create_game(&ctx, &program_id(), 4, 100, 5, 1).unwrap();
    assert!(g.game_master.same(&key(10)) && g.treasury.same(&treasury));
    assert_eq!(g.action_points_collected, 0);
    assert_eq!(g.game_config.max_items_per_player, 4);
    assert_eq!(g.game_config.ap_per_player_creation, 100);
    assert_eq!(g.game_config.ap_per_monster_spawn, 5);
    assert_eq!(g.game_config.ap_per_monster_attack, 1);
    assert_eq!(g.game_config.for_future_use, [0; 13]);
}

#[test]
fn create_game_refuses_zero_items() {
    let ctx = CreateGame {
        game: key(4),
        game_master: key(10),
        game_master_signed: true,
        treasury: key(3),
        treasury_signed: true,
    };
    assert_eq!(
        run_create_game(&ctx, 0, 1, 1, 1).unwrap_err(),
        ProgramError::Rpg(RpgError::InvalidGameConfig)
    );
    assert!(run_create_game(&ctx, 1, 1, 1, 1).is_ok());
}

#[test]
fn create_game_checks_accounts() {
    let treasury = key(3);
    let (address, _) = derive(&[b"GAME", &treasury.bytes]);
    let mut ctx = CreateGame {
        game: key(4),
        game_master: key(10),
        game_master_signed: true,
        treasury,
        treasury_signed: true,
    };
    assert_eq!(
        create_game(&ctx, &program_id(), 4, 1, 1, 1).unwrap_err(),
        ProgramError::ConstraintSeeds
    );
    ctx.game = address;
    ctx.treasury_signed = false;
    assert_eq!(
        create_game(&ctx, &program_id(), 4, 1, 1, 1).unwrap_err(),
        ProgramError::AccountNotSigner
    );
    ctx.treasury_signed = true;
    assert_eq!(
        create_game(&ctx, &program_id(), 0, 1, 1, 1).unwrap_err(),
        ProgramError::Rpg(RpgError::InvalidGameConfig)
    );
}

#[test]
fn create_player_charges_the_joining_price() {
    let game_key = key(1);
    let wallet = key(2);
    let (address, _) = derive(&[b"PLAYER", &game_key.bytes, &wallet.bytes]);
    let ctx = CreatePlayer {
        game: game(key(3)),
        game_key,
        player_account: address,
        player: wallet,
        player_signed: true,
    };
    let (p, t) = create_player(&ctx, &program_id()).unwrap();
    assert!(p.player.same(&wallet) && p.game.same(&game_key));
    assert_eq!(p.status_flag, NO_EFFECT_FLAG);
    assert_eq!((p.experience, p.kills, p.next_monster_index), (0, 0, 0));
    assert_eq!((p.action_points_spent, p.action_points_to_be_collected), (100, 100));
    assert!(p.inventory.is_empty());
    assert!(t.from.same(&wallet) && t.to.same(&address));
    assert_eq!(t.lamports, 100);
    let (q, _) = run_create_player(&ctx).unwrap();
    assert_eq!(q.action_points_spent, 100);
}

#[test]
fn create_player_checks_accounts() {
    let game_key = key(1);
    let wallet = key(2);
    let mut ctx = CreatePlayer {
        game: game(key(3)),
        game_key,
        player_account: key(9),
        player: wallet,
        player_signed: false,
    };
    assert_eq!(
        create_player(&ctx, &program_id()).unwrap_err(),
        ProgramError::AccountNotSigner
    );
    ctx.player_signed = true;
    assert_eq!(
        create_player(&ctx, &program_id()).unwrap_err(),
        ProgramError::ConstraintSeeds
    );
}

fn spawn_ctx(index: u64) -> SpawnMonster {
    let game_key = key(1);
    let wallet = key(2);
    let mut p = player(wallet, game_key);
    p.next_monster_index = index;
    let (address, _) = derive(&[b"MONSTER", &game_key.bytes, &wallet.bytes, &index.to_le_bytes()]);
    SpawnMonster {
        game: game(key(3)),
        game_key,
        player_account: p,
        player_account_key: key(20),
        monster: address,
        player: wallet,
        player_signed: true,
    }
}

#[test]
fn spawn_creates_a_full_health_monster() {
    let mut ctx = spawn_ctx(3);
    let (m, t) = spawn_monster(&mut ctx, &program_id()).unwrap();
    assert_eq!(m.hitpoints, 100);
    assert!(m.player.same(&key(2)) && m.game.same(&key(1)));
    assert_eq!(ctx.player_account.next_monster_index, 4);
    assert_eq!(ctx.player_account.action_points_spent, 5);
    assert_eq!(ctx.player_account.action_points_to_be_collected, 5);
    assert!(t.from.same(&key(2)) && t.to.same(&key(20)));
    assert_eq!(t.lamports, 5);
}

#[test]
fn spawn_refuses_overflowing_index() {
    let mut ctx = spawn_ctx(u64::MAX);
    assert_eq!(
        run_spawn_monster(&mut ctx).unwrap_err(),
        ProgramError::Rpg(RpgError::ArithmeticOverflow)
    );
    assert_eq!(ctx.player_account.next_monster_index, u64::MAX);
    assert_eq!(ctx.player_account.action_points_spent, 0);
}

#[test]
fn spawn_refuses_overflowing_points() {
    let mut ctx = spawn_ctx(0);
    ctx.player_account.action_points_spent = u64::MAX;
    assert_eq!(
        run_spawn_monster(&mut ctx).unwrap_err(),
        ProgramError::Rpg(RpgError::ArithmeticOverflow)
    );
    assert_eq!(ctx.player_account.next_monster_index, 0);
}

#[test]
fn spawn_checks_accounts() {
    let mut ctx = spawn_ctx(0);
    ctx.player_signed = false;
    assert_eq!(spawn_monster(&mut ctx, &program_id()).unwrap_err(), ProgramError::AccountNotSigner);
    let mut ctx = spawn_ctx(0);
    ctx.monster = key(9);
    assert_eq!(spawn_monster(&mut ctx, &program_id()).unwrap_err(), ProgramError::ConstraintSeeds);
    // the player account of another game
    let mut ctx = spawn_ctx(0);
    ctx.player_account.game = key(7);
    assert_eq!(spawn_monster(&mut ctx, &program_id()).unwrap_err(), ProgramError::ConstraintHasOne);
    assert_eq!(ctx.player_account.next_monster_index, 0);
    // the address is derived from the index the player account holds
    let mut ctx = spawn_ctx(0);
    ctx.player_account.next_monster_index = 1;
    assert_eq!(spawn_monster(&mut ctx, &program_id()).unwrap_err(), ProgramError::ConstraintSeeds);
}

#[test]
fn attack_hurts_a_living_monster() {
    let mut ctx = attack_ctx(100);
    let t = attack_monster(&mut ctx).unwrap();
    assert_eq!(ctx.monster.hitpoints, 99);
    assert_eq!(ctx.player_account.experience, 1);
    assert_eq!(ctx.player_account.kills, 0);
    assert_eq!(ctx.player_account.action_points_spent, ATTACK_ACTION_POINTS);
    assert_eq!(t.lamports, 1);
    assert!(t.from.same(&key(2)) && t.to.same(&key(20)));
}

#[test]
fn attack_takes_the_last_hitpoint() {
    let mut ctx = attack_ctx(1);
    run_attack_monster(&mut ctx).unwrap();
    assert_eq!(ctx.monster.hitpoints, 0);
    assert_eq!(ctx.player_account.experience, 1);
    assert_eq!(ctx.player_account.kills, 1);
}

#[test]
fn attacking_a_dead_monster_only_costs() {
    let mut ctx = attack_ctx(0);
    let t = run_attack_monster(&mut ctx).unwrap();
    assert_eq!(ctx.monster.hitpoints, 0);
    assert_eq!(ctx.player_account.experience, 0);
    assert_eq!(ctx.player_account.kills, 0);
    assert_eq!(ctx.player_account.action_points_spent, 1);
    assert_eq!(t.lamports, 1);
}

#[test]
fn experience_and_kills_stop_at_max() {
    let mut ctx = attack_ctx(1);
    ctx.player_account.experience = u64::MAX;
    ctx.player_account.kills = u64::MAX;
    run_attack_monster(&mut ctx).unwrap();
    assert_eq!(ctx.player_account.experience, u64::MAX);
    assert_eq!(ctx.player_account.kills, u64::MAX);
}

#[test]
fn attack_overflow_changes_nothing() {
    let mut ctx = attack_ctx(5);
    ctx.player_account.action_points_spent = u64::MAX;
    ctx.player_account.action_points_to_be_collected = u64::MAX;
    assert_eq!(
        run_attack_monster(&mut ctx).unwrap_err(),
        ProgramError::Rpg(RpgError::ArithmeticOverflow)
    );
    assert_eq!(ctx.monster.hitpoints, 5);
    assert_eq!(ctx.player_account.experience, 0);
}

#[test]
fn attack_checks_accounts() {
    let mut ctx = attack_ctx(5);
    ctx.player_signed = false;
    assert_eq!(attack_monster(&mut ctx).unwrap_err(), ProgramError::AccountNotSigner);
    let mut ctx = attack_ctx(5);
    ctx.player_account.player = key(8);
    assert_eq!(attack_monster(&mut ctx).unwrap_err(), ProgramError::ConstraintHasOne);
    let mut ctx = attack_ctx(5);
    ctx.monster.player = key(8);
    assert_eq!(attack_monster(&mut ctx).unwrap_err(), ProgramError::ConstraintHasOne);
    let mut ctx = attack_ctx(5);
    ctx.monster.game = key(8);
    assert_eq!(
        attack_monster(&mut ctx).unwrap_err(),
        ProgramError::Rpg(RpgError::GameMismatch)
    );
    assert_eq!(ctx.monster.hitpoints, 5);
}

#[test]
fn repeated_attacks_kill_once() {
    let mut ctx = attack_ctx(100);
    for _ in 0..150 {
        attack_monster(&mut ctx).unwrap();
    }
    assert_eq!(ctx.monster.hitpoints, 0);
    assert_eq!(ctx.player_account.experience, 100);
    assert_eq!(ctx.player_account.kills, 1);
    assert_eq!(ctx.player_account.action_points_spent, 150);
    assert_eq!(ctx.player_account.action_points_to_be_collected, 150);
}

fn collect_ctx(spent: u64, collected: u64) -> CollectActionPoints {
    let mut g = game(key(3));
    g.action_points_collected = collected;
    let mut p = player(key(2), key(1));
    p.action_points_spent = spent;
    p.action_points_to_be_collected = spent;
    CollectActionPoints {
        game: g,
        game_key: key(1),
        player: p,
        player_key: key(20),
        treasury: key(3),
        player_wallet: key(2),
        player_wallet_signed: true,
    }
}

#[test]
fn collect_moves_points_to_the_game() {
    let mut ctx = collect_ctx(42, 8);
    let t = deposit_action_points(&mut ctx).unwrap();
    assert_eq!(ctx.game.action_points_collected, 50);
    assert_eq!(ctx.player.action_points_spent, 0);
    assert_eq!(ctx.player.action_points_to_be_collected, 0);
    assert_eq!(t.lamports, 42);
    assert!(t.from.same(&key(2)) && t.to.same(&key(3)));
}

#[test]
fn collect_overflow_changes_nothing() {
    let mut ctx = collect_ctx(2, u64::MAX - 1);
    assert_eq!(
        run_collect_action_points(&mut ctx).unwrap_err(),
        ProgramError::Rpg(RpgError::ArithmeticOverflow)
    );
    assert_eq!(ctx.game.action_points_collected, u64::MAX - 1);
    assert_eq!(ctx.player.action_points_spent, 2);
}

#[test]
fn collect_checks_accounts() {
    let mut ctx = collect_ctx(2, 0);
    ctx.player_wallet_signed = false;
    assert_eq!(deposit_action_points(&mut ctx).unwrap_err(), ProgramError::AccountNotSigner);
    let mut ctx = collect_ctx(2, 0);
    ctx.treasury = key(9);
    assert_eq!(deposit_action_points(&mut ctx).unwrap_err(), ProgramError::ConstraintHasOne);
    let mut ctx = collect_ctx(2, 0);
    ctx.player.game = key(9);
    assert_eq!(deposit_action_points(&mut ctx).unwrap_err(), ProgramError::ConstraintHasOne);
    assert_eq!(ctx.player.action_points_spent, 2);
}

#[test]
fn a_full_round_keeps_the_books() {
    let treasury = key(3);
    let game_key = key(1);
    let wallet = key(2);
    let (player_address, _) = derive(&[b"PLAYER", &game_key.bytes, &wallet.bytes]);
    let g = game(treasury);
    let (p, _) = create_player(
        &CreatePlayer { game: g, game_key, player_account: player_address, player: wallet, player_signed: true },
        &program_id(),
    )
    .unwrap();
    let (monster_address, _) =
        derive(&[b"MONSTER", &game_key.bytes, &wallet.bytes, &0u64.to_le_bytes()]);
    let mut spawn = SpawnMonster {
        game: g,
        game_key,
        player_account: p,
        player_account_key: player_address,
        monster: monster_address,
        player: wallet,
        player_signed: true,
    };
    let (m, _) = spawn_monster(&mut spawn, &program_id()).unwrap();
    let mut attack = AttackMonster {
        player_account: spawn.player_account,
        player_account_key: player_address,
        monster: m,
        player: wallet,
        player_signed: true,
    };
    attack_monster(&mut attack).unwrap();
    assert_eq!(attack.player_account.action_points_spent, 106);
    let mut collect = CollectActionPoints {
        game: g,
        game_key,
        player: attack.player_account,
        player_key: player_address,
        treasury,
        player_wallet: wallet,
        player_wallet_signed: true,
    };
    let t = deposit_action_points(&mut collect).unwrap();
    assert_eq!(t.lamports, 106);
    assert_eq!(collect.game.action_points_collected, 106);
    assert_eq!(collect.player.action_points_spent, 0);
}

#[test]
fn later_spawns_use_later_indices() {
    let mut spawn = spawn_ctx(0);
    spawn_monster(&mut spawn, &program_id()).unwrap();
    let first_index = 0u64;
    let mut attack = attack_ctx(10);
    attack.player_account = spawn.player_account.clone();
    attack_monster(&mut attack).unwrap();
    let mut collect = collect_ctx(0, 0);
    collect.player = attack.player_account.clone();
    deposit_action_points(&mut collect).unwrap();
    assert_eq!(collect.player.next_monster_index, 1);
    let mut second = spawn_ctx(collect.player.next_monster_index);
    second.player_account = collect.player.clone();
    let (first_address, _) =
        derive(&[b"MONSTER", &key(1).bytes, &key(2).bytes, &first_index.to_le_bytes()]);
    assert!(!second.monster.same(&first_address));
    spawn_monster(&mut second, &program_id()).unwrap();
    assert_eq!(second.player_account.next_monster_index, 2);
}

#[test]
fn collect_payment_is_the_spent_counter() {
    let mut ctx = collect_ctx(42, 8);
    ctx.player.action_points_to_be_collected = 3;
    let t = rpg::collect_payment(&ctx);
    assert_eq!(t.lamports, 42);
    assert!(t.from.same(&key(2)) && t.to.same(&key(3)));
    assert_eq!(ctx.game.action_points_collected, 8);
}
