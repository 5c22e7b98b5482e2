use std::str::FromStr;

use anchor_lang::prelude::Pubkey;
use rpg::pda::{
    check_derived_address, game_seed_list, monster_seed_list, player_seed_list, u64_le_bytes,
    verify_seeds,
};
use rpg::{program_id, Key, ProgramError};

fn key(fill: u8) -> Key {
    Key::new([fill; 32])
}

fn pubkey(k: &Key) -> Pubkey {
    Pubkey::new_from_array(k.bytes)
}

#[test]
fn program_id_is_the_declared_address() {
    let declared = Pubkey::from_str("5Sc3gJv4tvPiFzE75boYMJabbNRs44zRhtT23fLdKewz").unwrap();
    assert_eq!(program_id().bytes, declared.to_bytes());
}

#[test]
fn keys_compare_by_every_byte() {
    let a = key(7);
    let mut bytes = [7u8; 32];
    assert!(a.same(&Key::new(bytes)));
    bytes[31] = 8;
    assert!(!a.same(&Key::new(bytes)));
    bytes[31] = 7;
    bytes[0] = 0;
    assert!(!a.same(&Key::new(bytes)));
}

#[test]
fn le_bytes_match_std() {
    for x in [0u64, 1, 255, 256, 0x0102_0304_0506_0708, u64::MAX, 1 << 63] {
        assert_eq!(u64_le_bytes(x), x.to_le_bytes().to_vec());
    }
}

#[test]
fn seed_lists_hold_tag_and_keys() {
    let game = key(1);
    let player = key(2);
    let treasury = key(3);
    assert_eq!(game_seed_list(&treasury), vec![b"GAME".to_vec(), treasury.bytes.to_vec()]);
    assert_eq!(
        player_seed_list(&game, &player),
        vec![b"PLAYER".to_vec(), game.bytes.to_vec(), player.bytes.to_vec()]
    );
    assert_eq!(
        monster_seed_list(&game, &player, 5),
        vec![
            b"MONSTER".to_vec(),
            game.bytes.to_vec(),
            player.bytes.to_vec(),
            5u64.to_le_bytes().to_vec()
        ]
    );
}

#[test]
fn verify_seeds_accepts_the_derived_address() {
    let treasury = key(3);
    let id = program_id();
    let (expected, bump) =
        Pubkey::find_program_address(&[b"GAME", treasury.bytes.as_ref()], &pubkey(&id));
    let address = Key::new(expected.to_bytes());
    let seeds = game_seed_list(&treasury);
    assert_eq!(verify_seeds(&seeds, &id, &address), Ok(bump));
}

#[test]
fn verify_seeds_refuses_another_address() {
    let treasury = key(3);
    let id = program_id();
    let seeds = game_seed_list(&treasury);
    // the program id itself is on the curve's side of things: never a derived address
    assert_eq!(verify_seeds(&seeds, &id, &id), Err(ProgramError::ConstraintSeeds));
    assert_eq!(verify_seeds(&seeds, &id, &treasury), Err(ProgramError::ConstraintSeeds));
}

#[test]
fn verify_seeds_refuses_seeds_out_of_limits() {
    let id = program_id();
    let address = key(9);
    let too_many: Vec<Vec<u8>> = (0..16u8).map(|i| vec![i]).collect();
    assert_eq!(verify_seeds(&too_many, &id, &address), Err(ProgramError::ConstraintSeeds));
    let too_long: Vec<Vec<u8>> = vec![vec![1u8; 33]];
    assert_eq!(verify_seeds(&too_long, &id, &address), Err(ProgramError::ConstraintSeeds));
}

#[test]
fn derived_address_check_on_given_results() {
    let a = key(4);
    let b = key(5);
    assert_eq!(check_derived_address(Some((a, 251)), &a), Ok(251));
    assert_eq!(check_derived_address(Some((a, 251)), &b), Err(ProgramError::ConstraintSeeds));
    assert_eq!(check_derived_address(None, &a), Err(ProgramError::ConstraintSeeds));
}

#[test]
fn monster_addresses_differ_by_index() {
    let id = program_id();
    let game = key(1);
    let player = key(2);
    let first = Pubkey::find_program_address(
        &[b"MONSTER", game.bytes.as_ref(), player.bytes.as_ref(), &0u64.to_le_bytes()],
        &pubkey(&id),
    );
    let second = Pubkey::find_program_address(
        &[b"MONSTER", game.bytes.as_ref(), player.bytes.as_ref(), &1u64.to_le_bytes()],
        &pubkey(&id),
    );
    assert_ne!(first.0, second.0);
    let seeds = monster_seed_list(&game, &player, 1);
    assert_eq!(
        verify_seeds(&seeds, &id, &Key::new(second.0.to_bytes())),
        Ok(second.1)
    );
    assert_eq!(
        verify_seeds(&seeds, &id, &Key::new(first.0.to_bytes())),
        Err(ProgramError::ConstraintSeeds)
    );
}
