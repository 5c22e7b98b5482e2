# rpg

The rules of an on-chain role-playing game, verified with Verus.

- `src/` is the library. Each instruction (`create_game`, `create_player`,
  `spawn_monster`, `attack_monster`, `deposit_action_points`) first checks its
  accounts as the program's account constraints declare them (signers,
  ownership links, program-derived addresses), then computes the new account
  state and the lamport transfer to perform. `src/laws.rs` states and proves
  the properties that hold across instructions: the two action-point counters
  of a player move together, collecting conserves points, every charge is
  paid, repeated attacks kill a monster exactly once, and monsters of one
  player derive their addresses from distinct seeds.
- `app/` is the on-chain program around it: it reads and writes the accounts,
  creates the derived accounts, moves lamports and logs.
- `tests/` runs the library on concrete accounts and compares its address
  derivation and error codes with the framework's.
