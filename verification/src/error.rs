use vstd::prelude::*;

verus! {

/// Errors returned by the campaign-escrow contract.
#[derive(Copy, Clone, Debug, PartialEq, Eq, PartialOrd, Ord, Structural)]
pub enum Error {
    NotInitialized,
    AlreadyInitialized,
    Unauthorized,
    CampaignNotFound,
    ApplicationNotFound,
    InvalidStatus,
    InvalidAmount,
    DeadlinePassed,
    MaxCreatorsReached,
    InsufficientEscrowBalance,
    /// Caller is not the campaign owner (business) that created the campaign.
    NotCampaignOwner,
    /// A submission/claim was attempted that is not yet eligible for payout.
    SubmissionNotPayable,
    /// The creator has already applied to this campaign.
    AlreadyApplied,
    /// The creator has already been selected (approved) for this campaign.
    AlreadySelected,
    /// Applications are no longer accepted (application deadline passed).
    ApplicationDeadlinePassed,
    /// Proof of work can no longer be submitted (content deadline passed).
    ContentDeadlinePassed,
    /// A deadline was supplied that is in the past.
    DeadlineInPast,
    /// The campaign is not yet past its content deadline.
    DeadlineNotReached,
}

impl Error {
    /// The number under which the error leaves the contract.
    pub open spec fn spec_code(self) -> u32 {
        match self {
            Error::NotInitialized => 1,
            Error::AlreadyInitialized => 2,
            Error::Unauthorized => 3,
            Error::CampaignNotFound => 4,
            Error::ApplicationNotFound => 5,
            Error::InvalidStatus => 6,
            Error::InvalidAmount => 7,
            Error::DeadlinePassed => 8,
            Error::MaxCreatorsReached => 9,
            Error::InsufficientEscrowBalance => 10,
            Error::NotCampaignOwner => 11,
            Error::SubmissionNotPayable => 12,
            Error::AlreadyApplied => 13,
            Error::AlreadySelected => 14,
            Error::ApplicationDeadlinePassed => 15,
            Error::ContentDeadlinePassed => 16,
            Error::DeadlineInPast => 17,
            Error::DeadlineNotReached => 18,
        }
    }

    /// The number under which the error leaves the contract: clients of the
    /// deployed contract see this number, so it never changes.
    pub fn code(self) -> (code: u32)
        ensures
            code == self.spec_code(),
    {
        match self {
            Error::NotInitialized => 1,
            Error::AlreadyInitialized => 2,
            Error::Unauthorized => 3,
            Error::CampaignNotFound => 4,
            Error::ApplicationNotFound => 5,
            Error::InvalidStatus => 6,
            Error::InvalidAmount => 7,
            Error::DeadlinePassed => 8,
            Error::MaxCreatorsReached => 9,
            Error::InsufficientEscrowBalance => 10,
            Error::NotCampaignOwner => 11,
            Error::SubmissionNotPayable => 12,
            Error::AlreadyApplied => 13,
            Error::AlreadySelected => 14,
            Error::ApplicationDeadlinePassed => 15,
            Error::ContentDeadlinePassed => 16,
            Error::DeadlineInPast => 17,
            Error::DeadlineNotReached => 18,
        }
    }
}

/// Clients can tell every two errors apart, and no error passes for success.
pub proof fn law_codes_tell_errors_apart(a: Error, b: Error)
    ensures
        a.spec_code() == b.spec_code() ==> a == b,
        1 <= a.spec_code() <= 18,
{
}

} // verus!
