//! The reasons for which an operation is refused.

use vstd::prelude::*;

verus! {

/// The refusals that the rules of the game themselves give.
#[derive(Clone, Copy, Debug, PartialEq, Eq, Structural)]
pub enum FomoErrors {
    /// The key or its asset is not one this round can act on.
    InvalidKeyAccount,
    /// The round already has its first key.
    RoundStarted,
    /// The countdown has run out; no key can be minted any more.
    RoundOver,
    /// The countdown is still running; nothing can be settled yet.
    RoundNotOver,
    /// The asset presented as the winning key is not the round's own.
    InvalidAsset,
    /// A sum, product or difference left the range of a `u64`.
    CalculationError,
    /// A division by zero.
    DivisionError,
    /// The caller does not own the asset.
    InvalidOwner,
}

/// The five families into which every refusal falls.
#[derive(Clone, Copy, Debug, PartialEq, Eq, Structural)]
pub enum ErrorKind {
    /// The caller lacks the authority the operation asks for.
    Authorization,
    /// The round is in the wrong state for the operation; trying later may help.
    Lifecycle,
    /// Checked arithmetic failed; the operation can never succeed on these values.
    Arithmetic,
    /// An account, asset, group or signature does not match the round.
    Consistency,
    /// Something the operation relies on outside this library failed.
    ExternalCapability,
}

/// Every reason for which an operation is refused.
#[derive(Clone, Copy, Debug, PartialEq, Eq, Structural)]
pub enum Failure {
    /// The signer is not the round's authority.
    Unauthorized,
    /// An account handed in is not the one the round or key records.
    AccountMismatch,
    /// The storage slot derived from the seed already holds a round.
    AlreadyExists,
    /// The round already has its vaults.
    AlreadyProvisioned,
    /// The asset's record could not be read.
    AssetUnreadable,
    /// A rule of the game refused the operation.
    Program(FomoErrors),
}

impl FomoErrors {
    /// The family a refusal belongs to.
    pub open spec fn spec_kind(self) -> ErrorKind {
        match self {
            FomoErrors::RoundStarted | FomoErrors::RoundOver | FomoErrors::RoundNotOver =>
                ErrorKind::Lifecycle,
            FomoErrors::CalculationError | FomoErrors::DivisionError => ErrorKind::Arithmetic,
            FomoErrors::InvalidKeyAccount | FomoErrors::InvalidAsset | FomoErrors::InvalidOwner =>
                ErrorKind::Consistency,
        }
    }

    /// The family a refusal belongs to.
    pub fn kind(&self) -> (k: ErrorKind)
        ensures
            k == self.spec_kind(),
    {
        match self {
            FomoErrors::RoundStarted | FomoErrors::RoundOver | FomoErrors::RoundNotOver =>
                ErrorKind::Lifecycle,
            FomoErrors::CalculationError | FomoErrors::DivisionError => ErrorKind::Arithmetic,
            FomoErrors::InvalidKeyAccount | FomoErrors::InvalidAsset | FomoErrors::InvalidOwner =>
                ErrorKind::Consistency,
        }
    }

    /// The text shown for a refusal.
    pub open spec fn spec_message(self) -> Seq<char> {
        match self {
            FomoErrors::InvalidKeyAccount => "Invalid account key"@,
            FomoErrors::RoundStarted => "Round already started"@,
            FomoErrors::RoundOver => "Round over"@,
            FomoErrors::RoundNotOver => "Round not over"@,
            FomoErrors::InvalidAsset => "Invalid Asset"@,
            FomoErrors::CalculationError => "An error occurred during calculation."@,
            FomoErrors::DivisionError =>
                "An error occurred during division, likely division by zero."@,
            FomoErrors::InvalidOwner => "Doesn't matched with token owner"@,
        }
    }

    /// The text shown for a refusal.
    pub fn message(&self) -> (text: String)
        ensures
            text@ == self.spec_message(),
    {
        match self {
            FomoErrors::InvalidKeyAccount => "Invalid account key".to_owned(),
            FomoErrors::RoundStarted => "Round already started".to_owned(),
            FomoErrors::RoundOver => "Round over".to_owned(),
            FomoErrors::RoundNotOver => "Round not over".to_owned(),
            FomoErrors::InvalidAsset => "Invalid Asset".to_owned(),
            FomoErrors::CalculationError => "An error occurred during calculation.".to_owned(),
            FomoErrors::DivisionError =>
                "An error occurred during division, likely division by zero.".to_owned(),
            FomoErrors::InvalidOwner => "Doesn't matched with token owner".to_owned(),
        }
    }
}

impl Failure {
    /// The family a refusal belongs to.
    pub open spec fn spec_kind(self) -> ErrorKind {
        match self {
            Failure::Unauthorized => ErrorKind::Authorization,
            Failure::AccountMismatch => ErrorKind::Consistency,
            Failure::AlreadyExists | Failure::AlreadyProvisioned => ErrorKind::Lifecycle,
            Failure::AssetUnreadable => ErrorKind::ExternalCapability,
            Failure::Program(e) => e.spec_kind(),
        }
    }

    /// The family a refusal belongs to.
    pub fn kind(&self) -> (k: ErrorKind)
        ensures
            k == self.spec_kind(),
    {
        match self {
            Failure::Unauthorized => ErrorKind::Authorization,
            Failure::AccountMismatch => ErrorKind::Consistency,
            Failure::AlreadyExists | Failure::AlreadyProvisioned => ErrorKind::Lifecycle,
            Failure::AssetUnreadable => ErrorKind::ExternalCapability,
            Failure::Program(e) => e.kind(),
        }
    }
}

} // verus!
