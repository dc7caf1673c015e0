use vstd::prelude::*;

verus! {

/// Why a transition was refused. A refused transition changes nothing.
#[derive(Clone, Copy, Debug, PartialEq, Eq, Structural)]
pub enum PumpError {
    /// The requested amount is zero.
    InvalidAmount,
    /// The tokens asked for are not there: the vault holds fewer than a buy
    /// wants, or fewer were sold than a sell returns.
    InsufficientTokens,
    /// Reserved for pricing failures.
    CalculationError,
    /// Reserved for a second creation of the same listing.
    AlreadyMinted,
    /// A counter addition would leave its integer width.
    Overflow,
    /// A multiplication, a power or a narrowing of a token amount would leave
    /// its integer width.
    MathOverflow,
    /// Reserved for pricing failures.
    InvalidCalculation,
    /// The listing name is longer than the record can store.
    NameTooLong,
}

impl PumpError {
    /// The text that describes each error to a user.
    pub open spec fn spec_message(self) -> Seq<char> {
        match self {
            PumpError::InvalidAmount => "Invalid Amount - it should be greater than 0"@,
            PumpError::InsufficientTokens => "Invalid Tokens"@,
            PumpError::CalculationError => "Calculation Error"@,
            PumpError::AlreadyMinted => "Already Minted"@,
            PumpError::Overflow => "Overflow"@,
            PumpError::MathOverflow => "Math Overflow"@,
            PumpError::InvalidCalculation => "Invalid Calculation"@,
            PumpError::NameTooLong => "Name Too Long"@,
        }
    }

    /// A short human-readable description of the error.
    pub fn message(&self) -> (r: String)
        ensures
            r@ == self.spec_message(),
    {
        match self {
            PumpError::InvalidAmount => String::from_str("Invalid Amount - it should be greater than 0"),
            PumpError::InsufficientTokens => String::from_str("Invalid Tokens"),
            PumpError::CalculationError => String::from_str("Calculation Error"),
            PumpError::AlreadyMinted => String::from_str("Already Minted"),
            PumpError::Overflow => String::from_str("Overflow"),
            PumpError::MathOverflow => String::from_str("Math Overflow"),
            PumpError::InvalidCalculation => String::from_str("Invalid Calculation"),
            PumpError::NameTooLong => String::from_str("Name Too Long"),
        }
    }
}

} // verus!
