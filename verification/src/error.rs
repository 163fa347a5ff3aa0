//! The errors that an operation of the ledger can end in.

use vstd::prelude::*;

verus! {

/// Why a string is not an identifier.
#[derive(Clone, Copy, Debug, PartialEq, Eq, Structural)]
pub enum InvalidIdentifier {
    /// The string holds an `@` but does not have the shape of an email address.
    BadEmail,
    /// The string holds no `@` and is not 3 to 32 alphanumeric characters.
    BadUsername,
}

/// Why a fee could not be taken from an amount.
#[derive(Clone, Copy, Debug, PartialEq, Eq, Structural)]
pub enum FeeError {
    /// The fee exceeds the gross amount.
    AmountTooSmall,
}

/// The outcome of an operation that was refused.  A refused operation leaves
/// the ledger as it was.
#[derive(Clone, Copy, Debug, PartialEq, Eq, Structural)]
pub enum ContractError {
    /// The identifier is neither an email address nor a username.
    InvalidIdentifier(InvalidIdentifier),
    /// The identifier is already bound to an account.
    AlreadyRegistered,
    /// The ledger has no configuration yet.
    NotInitialized,
    /// The amount is not in the accepted denomination.
    WrongDenomination,
    /// The fee exceeds the gross amount.
    AmountTooSmall,
    /// The identifier is not bound to the caller.
    NotOwner,
    /// Nothing is held in escrow for the identifier.
    NoEscrow,
}

impl InvalidIdentifier {
    /// The text of the error as a caller sees it.
    pub open spec fn message_spec(self) -> Seq<char> {
        match self {
            InvalidIdentifier::BadEmail => "Invalid email format"@,
            InvalidIdentifier::BadUsername => "Username must be 3-32 alphanumeric characters"@,
        }
    }

    /// The text of the error as a caller sees it.
    pub fn message(&self) -> (text: String)
        ensures
            text@ == self.message_spec(),
    {
        match self {
            InvalidIdentifier::BadEmail => "Invalid email format".to_owned(),
            InvalidIdentifier::BadUsername => {
                "Username must be 3-32 alphanumeric characters".to_owned()
            },
        }
    }
}

impl FeeError {
    /// The text of the error as a caller sees it.
    pub open spec fn message_spec(self) -> Seq<char> {
        "Amount too small to cover fees"@
    }

    /// The text of the error as a caller sees it.
    pub fn message(&self) -> (text: String)
        ensures
            text@ == self.message_spec(),
    {
        "Amount too small to cover fees".to_owned()
    }
}

impl ContractError {
    /// The text of the error as a caller sees it.
    pub open spec fn message_spec(self) -> Seq<char> {
        match self {
            ContractError::InvalidIdentifier(why) => why.message_spec(),
            ContractError::AlreadyRegistered => "Identifier already registered"@,
            ContractError::NotInitialized => "Config not found"@,
            ContractError::WrongDenomination => "Invalid token denomination"@,
            ContractError::AmountTooSmall => "Amount too small to cover fees"@,
            ContractError::NotOwner => "identifier is not registered to caller"@,
            ContractError::NoEscrow => "No escrowed tokens found"@,
        }
    }

    /// The text of the error as a caller sees it.
    pub fn message(&self) -> (text: String)
        ensures
            text@ == self.message_spec(),
    {
        match self {
            ContractError::InvalidIdentifier(why) => why.message(),
            ContractError::AlreadyRegistered => "Identifier already registered".to_owned(),
            ContractError::NotInitialized => "Config not found".to_owned(),
            ContractError::WrongDenomination => "Invalid token denomination".to_owned(),
            ContractError::AmountTooSmall => "Amount too small to cover fees".to_owned(),
            ContractError::NotOwner => "identifier is not registered to caller".to_owned(),
            ContractError::NoEscrow => "No escrowed tokens found".to_owned(),
        }
    }
}

} // verus!
