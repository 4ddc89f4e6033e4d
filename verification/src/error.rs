//! The closed set of conditions under which an operation is refused.

use vstd::prelude::*;

verus! {

/// Why an operation was refused. A refused operation changes nothing.
#[derive(Clone, Copy, Debug, PartialEq, Eq, Structural)]
pub enum ErrorCode {
    /// The listing has left the active state, which it never re-enters.
    ListingNotActive,
    /// The caller is not the party that the record names.
    Unauthorized,
    /// A price must be greater than zero.
    InvalidPrice,
    /// The seller's holding is not exactly one unit of the asset.
    InsufficientAssetBalance,
    /// The holding offered for sale does not belong to the seller.
    InvalidAssetOwner,
    /// A checked arithmetic step left the range of its type.
    ArithmeticOverflow,
    /// A fee rate above the cap of ten percent.
    InvalidFeePercentage,
    /// The payee that the buyer declared is not the listing's seller.
    InvalidSeller,
    /// The fee recipient that the buyer declared is not the registry's operator.
    InvalidAdmin,
}

/// Whether `outcome` is a refusal for `reason`.
pub open spec fn refused<T>(outcome: Result<T, ErrorCode>, reason: ErrorCode) -> bool {
    outcome == Err::<T, ErrorCode>(reason)
}

impl ErrorCode {
    /// The text shown to a caller for each condition.
    pub open spec fn message_text(self) -> Seq<char> {
        match self {
            ErrorCode::ListingNotActive => "Listing is not active"@,
            ErrorCode::Unauthorized => "Unauthorized access"@,
            ErrorCode::InvalidPrice => "Invalid price - must be greater than 0"@,
            ErrorCode::InsufficientAssetBalance => "Insufficient asset balance"@,
            ErrorCode::InvalidAssetOwner => "Invalid asset owner"@,
            ErrorCode::ArithmeticOverflow => "Arithmetic overflow"@,
            ErrorCode::InvalidFeePercentage => "Invalid fee percentage - must be <= 1000 (10%)"@,
            ErrorCode::InvalidSeller => "Invalid seller account"@,
            ErrorCode::InvalidAdmin => "Invalid admin account"@,
        }
    }

    /// A one-line description of the condition.
    pub fn message(&self) -> (text: &'static str)
        ensures
            text@ == self.message_text(),
    {
        match self {
            ErrorCode::ListingNotActive => "Listing is not active",
            ErrorCode::Unauthorized => "Unauthorized access",
            ErrorCode::InvalidPrice => "Invalid price - must be greater than 0",
            ErrorCode::InsufficientAssetBalance => "Insufficient asset balance",
            ErrorCode::InvalidAssetOwner => "Invalid asset owner",
            ErrorCode::ArithmeticOverflow => "Arithmetic overflow",
            ErrorCode::InvalidFeePercentage => "Invalid fee percentage - must be <= 1000 (10%)",
            ErrorCode::InvalidSeller => "Invalid seller account",
            ErrorCode::InvalidAdmin => "Invalid admin account",
        }
    }
}

} // verus!
