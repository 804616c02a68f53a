use vstd::prelude::*;

verus! {

/// Why a sweep stopped.
#[derive(Clone, Copy, Debug, PartialEq, Eq, Structural)]
pub enum ErrorCode {
    /// The list of remaining accounts does not split into pairs.
    InvalidAccountPairs,
    /// The source account of a pair does not hold a token account.
    DeserializationFailure,
    /// The host rejected a transfer.
    TransferFailure,
}

impl ErrorCode {
    /// The words in which the error is reported.
    pub open spec fn spec_message(self) -> Seq<char> {
        match self {
            ErrorCode::InvalidAccountPairs => "Invalid remaining accounts pairs"@,
            ErrorCode::DeserializationFailure => "Source account is not a token account"@,
            ErrorCode::TransferFailure => "Transfer rejected"@,
        }
    }

    /// The words in which the error is reported.
    pub fn message(&self) -> (text: &'static str)
        ensures
            text@ == self.spec_message(),
    {
        match self {
            ErrorCode::InvalidAccountPairs => "Invalid remaining accounts pairs",
            ErrorCode::DeserializationFailure => "Source account is not a token account",
            ErrorCode::TransferFailure => "Transfer rejected",
        }
    }
}

} // verus!
