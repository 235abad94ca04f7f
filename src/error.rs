use vstd::prelude::*;

verus! {

/// The closed set of ways a key load or a transfer run can fail.
#[derive(Debug, PartialEq, Eq, Structural)]
pub enum TransferError {
    /// The secret key text is not valid base-58.
    InvalidEncoding,
    /// The decoded secret key does not have the scheme's fixed length.
    InvalidKeyLength,
    /// The decoded bytes are not a consistent signing key pair.
    KeyConstructionError,
    /// The destination account text is not a valid account reference.
    InvalidAddress,
    /// The source account cannot cover the amount plus the reserve.
    /// `required` is exact: it is computed without a width limit.
    InsufficientBalance { current: u64, required: u128 },
    /// A balance or recency-anchor query, or the submission, failed in transport.
    NetworkError,
    /// The chain refused the submitted transaction.
    RejectedByChain,
    /// No confirmation came in time: the transfer may or may not have landed.
    Timeout,
}

impl TransferError {
    /// True only for the outcome where the transfer's fate is unknown.
    pub fn is_indeterminate(&self) -> (r: bool)
        ensures
            r <==> (*self === TransferError::Timeout),
    {
        match self {
            TransferError::Timeout => true,
            _ => false,
        }
    }
}

} // verus!
