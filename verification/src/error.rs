//! The reasons for which the contract refuses a call.

use vstd::prelude::*;

verus! {

/// Why a call was refused. A refused call changes nothing.
#[derive(Clone, Copy, Debug, PartialEq, Eq, Structural)]
pub enum Error {
    AlreadyInitialized,
    MembersEmpty,
    TooManyMembers,
    InvalidThreshold,
    NotInitialized,
    NotMember,
    TtlTooLong,
    DescriptionTooLong,
    ExpiryOverflow,
    CountOverflow,
    ProposalNotFound,
    NotPending,
    ProposalExpired,
    AlreadySigned,
    TooManySignatures,
    ThresholdNotMet,
    Unauthorized,
    NotYetExpired,
    MemberAlreadyExists,
    BoardFull,
    StatsOverflow,
}

/// The message of each error.
pub open spec fn message_text(e: Error) -> Seq<char> {
    match e {
        Error::AlreadyInitialized => "already initialized"@,
        Error::MembersEmpty => "members cannot be empty"@,
        Error::TooManyMembers => "too many members"@,
        Error::InvalidThreshold => "invalid threshold"@,
        Error::NotInitialized => "not initialized"@,
        Error::NotMember => "not a board member"@,
        Error::TtlTooLong => "ttl too long"@,
        Error::DescriptionTooLong => "description too long"@,
        Error::ExpiryOverflow => "expiry time overflows"@,
        Error::CountOverflow => "proposal count overflows"@,
        Error::ProposalNotFound => "proposal not found"@,
        Error::NotPending => "proposal not pending"@,
        Error::ProposalExpired => "proposal expired"@,
        Error::AlreadySigned => "already signed"@,
        Error::TooManySignatures => "too many signatures"@,
        Error::ThresholdNotMet => "threshold not met"@,
        Error::Unauthorized => "unauthorized"@,
        Error::NotYetExpired => "not yet expired"@,
        Error::MemberAlreadyExists => "member already exists"@,
        Error::BoardFull => "board is at maximum capacity"@,
        Error::StatsOverflow => "signature total overflows"@,
    }
}

impl Error {
    /// The message with which the contract aborts on this error.
    pub fn message(&self) -> (r: &'static str)
        ensures
            r@ == message_text(*self),
    {
        match self {
            Error::AlreadyInitialized => "already initialized",
            Error::MembersEmpty => "members cannot be empty",
            Error::TooManyMembers => "too many members",
            Error::InvalidThreshold => "invalid threshold",
            Error::NotInitialized => "not initialized",
            Error::NotMember => "not a board member",
            Error::TtlTooLong => "ttl too long",
            Error::DescriptionTooLong => "description too long",
            Error::ExpiryOverflow => "expiry time overflows",
            Error::CountOverflow => "proposal count overflows",
            Error::ProposalNotFound => "proposal not found",
            Error::NotPending => "proposal not pending",
            Error::ProposalExpired => "proposal expired",
            Error::AlreadySigned => "already signed",
            Error::TooManySignatures => "too many signatures",
            Error::ThresholdNotMet => "threshold not met",
            Error::Unauthorized => "unauthorized",
            Error::NotYetExpired => "not yet expired",
            Error::MemberAlreadyExists => "member already exists",
            Error::BoardFull => "board is at maximum capacity",
            Error::StatsOverflow => "signature total overflows",
        }
    }
}

} // verus!
