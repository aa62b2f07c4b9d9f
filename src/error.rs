use vstd::prelude::*;

verus! {

/// Every failure an operation can report. A failed operation leaves all
/// records as they were.
#[derive(Clone, Copy, Debug, PartialEq, Eq, Structural)]
pub enum RwaHubError {
    InvalidInstruction,
    InvalidAssetState,
    InsufficientFunds,
    Unauthorized,
    AssetAlreadyExists,
    AssetNotFound,
    InvalidDividendAmount,
    InvalidAmount,
    InsufficientSupply,
    InvalidFeeAmount,
    InvalidDeadline,
    ArithmeticOverflow,
    DividendExpired,
    DividendNotActive,
    InsufficientDividendBalance,
    AlreadyClaimed,
    InvalidAccountData,
}

impl RwaHubError {
    /// The numeric code under which the host reports this error.
    pub open spec fn spec_code(&self) -> u32 {
        match self {
            RwaHubError::InvalidInstruction => 0,
            RwaHubError::InvalidAssetState => 1,
            RwaHubError::InsufficientFunds => 2,
            RwaHubError::Unauthorized => 3,
            RwaHubError::AssetAlreadyExists => 4,
            RwaHubError::AssetNotFound => 5,
            RwaHubError::InvalidDividendAmount => 6,
            RwaHubError::InvalidAmount => 7,
            RwaHubError::InsufficientSupply => 8,
            RwaHubError::InvalidFeeAmount => 9,
            RwaHubError::InvalidDeadline => 10,
            RwaHubError::ArithmeticOverflow => 11,
            RwaHubError::DividendExpired => 12,
            RwaHubError::DividendNotActive => 13,
            RwaHubError::InsufficientDividendBalance => 14,
            RwaHubError::AlreadyClaimed => 15,
            RwaHubError::InvalidAccountData => 16,
        }
    }

    #[verifier::when_used_as_spec(spec_code)]
    pub fn code(&self) -> (r: u32)
        ensures
            r == self.spec_code(),
    {
        match self {
            RwaHubError::InvalidInstruction => 0,
            RwaHubError::InvalidAssetState => 1,
            RwaHubError::InsufficientFunds => 2,
            RwaHubError::Unauthorized => 3,
            RwaHubError::AssetAlreadyExists => 4,
            RwaHubError::AssetNotFound => 5,
            RwaHubError::InvalidDividendAmount => 6,
            RwaHubError::InvalidAmount => 7,
            RwaHubError::InsufficientSupply => 8,
            RwaHubError::InvalidFeeAmount => 9,
            RwaHubError::InvalidDeadline => 10,
            RwaHubError::ArithmeticOverflow => 11,
            RwaHubError::DividendExpired => 12,
            RwaHubError::DividendNotActive => 13,
            RwaHubError::InsufficientDividendBalance => 14,
            RwaHubError::AlreadyClaimed => 15,
            RwaHubError::InvalidAccountData => 16,
        }
    }
}

} // verus!
