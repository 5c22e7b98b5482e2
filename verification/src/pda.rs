use vstd::prelude::*;

use crate::error::ProgramError;
use crate::key::Key;

verus! {

/// The program-derived address and bump seed that the runtime finds for
/// `seeds` under `program_id`, or `None` where it finds none.
pub uninterp spec fn program_address(seeds: Seq<Seq<u8>>, program_id: Seq<u8>) -> Option<(Seq<u8>, u8)>;

/// The most seeds an address can be derived from, the bump seed included.
pub open spec fn max_seeds() -> nat {
    16
}

/// The longest a single seed can be.
pub open spec fn max_seed_len() -> nat {
    32
}

/// Calls `Pubkey::try_find_program_address` of `anchor_lang`. Trusted to return
/// exactly `program_address` of the seeds and the program id, the address
/// taken by its bytes; and, as its source shows (it appends a bump seed and
/// gives up on seeds that `create_program_address` rejects for their number or
/// length), to return `None` where there are 16 seeds or more or a seed is
/// longer than 32 bytes. What the address is (a SHA-256 hash that must fall off
/// the curve) is left to the name.
#[verifier::external_body]
fn try_find_program_address(seeds: &Vec<Vec<u8>>, program_id: &Key) -> (found: Option<(Key, u8)>)
    ensures
        found_view(found) == program_address(seeds.deep_view(), program_id@),
        seeds.len() + 1 > max_seeds() ==> found is None,
        (exists|i: int| 0 <= i < seeds.len() && #[trigger] seeds@[i].len() > max_seed_len())
            ==> found is None,
{
    let slices: Vec<&[u8]> = seeds.iter().map(|s| s.as_slice()).collect();
    let id = anchor_lang::prelude::Pubkey::new_from_array(program_id.bytes);
    match anchor_lang::prelude::Pubkey::try_find_program_address(&slices, &id) {
        Some((address, bump)) => Some((Key { bytes: address.to_bytes() }, bump)),
        None => None,
    }
}

/// A found address and bump, the address taken by its bytes.
pub open spec fn found_view(found: Option<(Key, u8)>) -> Option<(Seq<u8>, u8)> {
    match found {
        Some((address, bump)) => Some((address@, bump)),
        None => None,
    }
}

/// What a seeds constraint concludes from the derivation: the bump where the
/// account sits at the derived address, `ConstraintSeeds` otherwise.
pub open spec fn seeds_check(found: Option<(Seq<u8>, u8)>, address: Seq<u8>) -> Result<u8, ProgramError> {
    match found {
        Some((derived, bump)) => if derived == address {
            Ok(bump)
        } else {
            Err(ProgramError::ConstraintSeeds)
        },
        None => Err(ProgramError::ConstraintSeeds),
    }
}

/// Compares an account's address with the one derived from its seeds.
pub fn check_derived_address(found: Option<(Key, u8)>, address: &Key) -> (res: Result<u8, ProgramError>)
    ensures
        res == seeds_check(found_view(found), address@),
{
    match found {
        Some((derived, bump)) => {
            if derived.same(address) {
                Ok(bump)
            } else {
                Err(ProgramError::ConstraintSeeds)
            }
        },
        None => Err(ProgramError::ConstraintSeeds),
    }
}

/// Checks that `address` is the program-derived address of `seeds` under
/// `program_id`, and returns its bump seed.
pub fn verify_seeds(seeds: &Vec<Vec<u8>>, program_id: &Key, address: &Key) -> (res: Result<
    u8,
    ProgramError,
>)
    ensures
        res == seeds_check(program_address(seeds.deep_view(), program_id@), address@),
{
    let found = try_find_program_address(seeds, program_id);
    check_derived_address(found, address)
}

/// `GAME` in ASCII.
pub open spec fn game_tag() -> Seq<u8> {
    seq![71u8, 65, 77, 69]
}

/// `PLAYER` in ASCII.
pub open spec fn player_tag() -> Seq<u8> {
    seq![80u8, 76, 65, 89, 69, 82]
}

/// `MONSTER` in ASCII.
pub open spec fn monster_tag() -> Seq<u8> {
    seq![77u8, 79, 78, 83, 84, 69, 82]
}

/// The `n` lowest bytes of `x`, least significant first.
pub open spec fn le_bytes(x: nat, n: nat) -> Seq<u8>
    decreases n,
{
    if n == 0 {
        seq![]
    } else {
        seq![(x % 256) as u8] + le_bytes(x / 256, (n - 1) as nat)
    }
}

/// The seeds of a game's address: the tag and the treasury.
pub open spec fn game_seeds(treasury: Seq<u8>) -> Seq<Seq<u8>> {
    seq![game_tag(), treasury]
}

/// The seeds of a player's address: the tag, the game and the player's wallet.
pub open spec fn player_seeds(game: Seq<u8>, player: Seq<u8>) -> Seq<Seq<u8>> {
    seq![player_tag(), game, player]
}

/// The seeds of a monster's address: the tag, the game, the spawning wallet
/// and the spawning player's monster index in little-endian order.
pub open spec fn monster_seeds(game: Seq<u8>, player: Seq<u8>, index: u64) -> Seq<Seq<u8>> {
    seq![monster_tag(), game, player, le_bytes(index as nat, 8)]
}

/// The eight bytes of `x`, least significant first.
pub fn u64_le_bytes(x: u64) -> (bytes: Vec<u8>)
    ensures
        bytes@ == le_bytes(x as nat, 8),
{
    let mut bytes: Vec<u8> = Vec::new();
    let mut rest: u64 = x;
    let mut i: usize = 0;
    while i < 8
        invariant
            i <= 8,
            bytes@ + le_bytes(rest as nat, (8 - i) as nat) == le_bytes(x as nat, 8),
        decreases 8 - i,
    {
        let byte: u8 = (rest % 256) as u8;
        let ghost before = bytes@;
        bytes.push(byte);
        proof {
            let tail = le_bytes((rest / 256) as nat, (8 - i - 1) as nat);
            assert(le_bytes(rest as nat, (8 - i) as nat) == seq![byte] + tail);
            assert(before + (seq![byte] + tail) =~= bytes@ + tail);
        }
        rest = rest / 256;
        i += 1;
    }
    assert(bytes@ =~= bytes@ + le_bytes(rest as nat, 0));
    bytes
}

/// The bytes of a key as a vector.
fn key_bytes(key: &Key) -> (bytes: Vec<u8>)
    ensures
        bytes@ == key@,
{
    let mut bytes: Vec<u8> = Vec::new();
    let mut i: usize = 0;
    while i < 32
        invariant
            i <= 32,
            key@.len() == 32,
            bytes@ =~= key@.subrange(0, i as int),
        decreases 32 - i,
    {
        bytes.push(key.bytes[i]);
        i += 1;
    }
    bytes
}

/// The deep view of a vector of byte vectors is the sequence of their views.
proof fn lemma_seeds_view(seeds: Vec<Vec<u8>>, views: Seq<Seq<u8>>)
    requires
        seeds.len() == views.len(),
        forall|i: int| 0 <= i < seeds.len() ==> #[trigger] seeds@[i]@ == views[i],
    ensures
        seeds.deep_view() == views,
{
    assert forall|i: int| 0 <= i < seeds.len() implies #[trigger] seeds.deep_view()[i] == views[i] by {
        assert(seeds@[i].deep_view() =~= seeds@[i]@);
    }
    assert(seeds.deep_view() =~= views);
}

/// The seeds of the game whose fees go to `treasury`.
pub fn game_seed_list(treasury: &Key) -> (seeds: Vec<Vec<u8>>)
    ensures
        seeds.deep_view() == game_seeds(treasury@),
{
    let mut seeds: Vec<Vec<u8>> = Vec::new();
    seeds.push(vec![71u8, 65, 77, 69]);
    seeds.push(key_bytes(treasury));
    proof {
        assert(seeds@[0]@ =~= game_tag());
        lemma_seeds_view(seeds, game_seeds(treasury@));
    }
    seeds
}

/// The seeds of the player that `player` owns in `game`.
pub fn player_seed_list(game: &Key, player: &Key) -> (seeds: Vec<Vec<u8>>)
    ensures
        seeds.deep_view() == player_seeds(game@, player@),
{
    let mut seeds: Vec<Vec<u8>> = Vec::new();
    seeds.push(vec![80u8, 76, 65, 89, 69, 82]);
    seeds.push(key_bytes(game));
    seeds.push(key_bytes(player));
    proof {
        assert(seeds@[0]@ =~= player_tag());
        lemma_seeds_view(seeds, player_seeds(game@, player@));
    }
    seeds
}

/// The seeds of the monster with index `index` among those that `player`
/// spawned in `game`.
pub fn monster_seed_list(game: &Key, player: &Key, index: u64) -> (seeds: Vec<Vec<u8>>)
    ensures
        seeds.deep_view() == monster_seeds(game@, player@, index),
{
    let mut seeds: Vec<Vec<u8>> = Vec::new();
    seeds.push(vec![77u8, 79, 78, 83, 84, 69, 82]);
    seeds.push(key_bytes(game));
    seeds.push(key_bytes(player));
    seeds.push(u64_le_bytes(index));
    proof {
        assert(seeds@[0]@ =~= monster_tag());
        lemma_seeds_view(seeds, monster_seeds(game@, player@, index));
    }
    seeds
}

} // verus!
