use vstd::prelude::*;

verus! {

/// Why a request was rejected. Every error aborts the whole request: no record
/// that it touched is changed and no payment is owed.
#[derive(Clone, Copy, Debug, PartialEq, Eq, Structural)]
pub enum RxError {
    /// The signer is not the owner recorded in the creator record.
    Unauthorized,
    /// A tier name is longer than its byte bound.
    NameTooLong,
    /// A tier URI is longer than its byte bound.
    UriTooLong,
    /// The tier does not belong to the creator named in the same request.
    InvalidTierCreator,
    /// A checked addition or subtraction left its integer range.
    MathOverflow,
    /// The tier is priced in a token other than the native currency.
    TokenPaymentsNotSupported,
    /// The payout account is not the creator's configured payout wallet.
    InvalidPayoutWallet,
    /// The tier's scholarship pool is empty.
    NoScholarshipSlots,
    /// A record that a request creates already exists at its address.
    AccountAlreadyInUse,
}

} // verus!
