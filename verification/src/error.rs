use vstd::prelude::*;

verus! {

/// The errors of the game's own rules.
#[derive(Clone, Copy, Debug, PartialEq, Eq, Structural)]
pub enum RpgError {
    ArithmeticOverflow,
    InvalidGameConfig,
    PlayerNotFound,
    MonsterNotFound,
    InsufficientActionPoints,
    InvalidAttack,
    MaxInventoryReached,
    InvalidItemOperation,
    GameMismatch,
    InvalidTreasury,
    PlayerGameMismatch,
    InsufficientFunds,
}

/// The first code of the program's own errors; those below it belong to the
/// framework.
pub const ERROR_CODE_OFFSET: u32 = 6000;

impl RpgError {
    /// The position of the variant in the declaration, from 0.
    pub open spec fn spec_index(self) -> u32 {
        match self {
            RpgError::ArithmeticOverflow => 0,
            RpgError::InvalidGameConfig => 1,
            RpgError::PlayerNotFound => 2,
            RpgError::MonsterNotFound => 3,
            RpgError::InsufficientActionPoints => 4,
            RpgError::InvalidAttack => 5,
            RpgError::MaxInventoryReached => 6,
            RpgError::InvalidItemOperation => 7,
            RpgError::GameMismatch => 8,
            RpgError::InvalidTreasury => 9,
            RpgError::PlayerGameMismatch => 10,
            RpgError::InsufficientFunds => 11,
        }
    }

    /// The text that the program logs with the error.
    pub open spec fn spec_message(self) -> Seq<char> {
        match self {
            RpgError::ArithmeticOverflow => "Arithmetic overflow occurred"@,
            RpgError::InvalidGameConfig => "Invalid game configuration"@,
            RpgError::PlayerNotFound => "Player not found"@,
            RpgError::MonsterNotFound => "Monster not found"@,
            RpgError::InsufficientActionPoints => "Insufficient action points"@,
            RpgError::InvalidAttack => "Invalid attack"@,
            RpgError::MaxInventoryReached => "Maximum inventory size reached"@,
            RpgError::InvalidItemOperation => "Invalid item operation"@,
            RpgError::GameMismatch => "Monster and player are not in the same game"@,
            RpgError::InvalidTreasury => "Invalid treasury account"@,
            RpgError::PlayerGameMismatch => "Player does not belong to the specified game"@,
            RpgError::InsufficientFunds => "Insufficient funds for transfer"@,
        }
    }

    /// The error code that the program reports: the offset plus the variant's
    /// position.
    pub fn code(&self) -> (code: u32)
        ensures
            code == ERROR_CODE_OFFSET + self.spec_index(),
    {
        let index: u32 = match self {
            RpgError::ArithmeticOverflow => 0,
            RpgError::InvalidGameConfig => 1,
            RpgError::PlayerNotFound => 2,
            RpgError::MonsterNotFound => 3,
            RpgError::InsufficientActionPoints => 4,
            RpgError::InvalidAttack => 5,
            RpgError::MaxInventoryReached => 6,
            RpgError::InvalidItemOperation => 7,
            RpgError::GameMismatch => 8,
            RpgError::InvalidTreasury => 9,
            RpgError::PlayerGameMismatch => 10,
            RpgError::InsufficientFunds => 11,
        };
        ERROR_CODE_OFFSET + index
    }

    /// The text that the program logs with the error.
    pub fn message(&self) -> (text: &'static str)
        ensures
            text@ == self.spec_message(),
    {
        match self {
            RpgError::ArithmeticOverflow => "Arithmetic overflow occurred",
            RpgError::InvalidGameConfig => "Invalid game configuration",
            RpgError::PlayerNotFound => "Player not found",
            RpgError::MonsterNotFound => "Monster not found",
            RpgError::InsufficientActionPoints => "Insufficient action points",
            RpgError::InvalidAttack => "Invalid attack",
            RpgError::MaxInventoryReached => "Maximum inventory size reached",
            RpgError::InvalidItemOperation => "Invalid item operation",
            RpgError::GameMismatch => "Monster and player are not in the same game",
            RpgError::InvalidTreasury => "Invalid treasury account",
            RpgError::PlayerGameMismatch => "Player does not belong to the specified game",
            RpgError::InsufficientFunds => "Insufficient funds for transfer",
        }
    }
}

/// Why an instruction was refused: a rule of the game, or an account that does
/// not meet the constraints that the instruction declares on it.
#[derive(Clone, Copy, Debug, PartialEq, Eq, Structural)]
pub enum ProgramError {
    /// A rule of the game was broken.
    Rpg(RpgError),
    /// An account that has to sign the transaction did not.
    AccountNotSigner,
    /// An account does not point to the account it has to belong to.
    ConstraintHasOne,
    /// An account to be created is not at the address its seeds derive.
    ConstraintSeeds,
}

impl ProgramError {
    /// The error code reported to the client.
    pub open spec fn spec_code(self) -> int {
        match self {
            ProgramError::Rpg(e) => ERROR_CODE_OFFSET + e.spec_index(),
            ProgramError::AccountNotSigner => 3010,
            ProgramError::ConstraintHasOne => 2001,
            ProgramError::ConstraintSeeds => 2006,
        }
    }

    /// The error code reported to the client.
    pub fn code(&self) -> (code: u32)
        ensures
            code == self.spec_code(),
    {
        match self {
            ProgramError::Rpg(e) => e.code(),
            ProgramError::AccountNotSigner => 3010,
            ProgramError::ConstraintHasOne => 2001,
            ProgramError::ConstraintSeeds => 2006,
        }
    }
}

} // verus!
