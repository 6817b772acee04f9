//! When each call succeeds, what each refusal means, and what the answer does
//! not depend on.
use crate::calls::Call;
use crate::env::EnvView;
use crate::error::Error;
use crate::rules::{
    after_approve_submission, after_reject_submission, after_submit, answer, apply_refusal,
    approve_refusal, cancel_refusal, claim_refusal, create_refusal, expire_refusal, fund_refusal,
    initialize_refusal, reclaim_refusal, review_refusal, submit_refusal,
};
use crate::shared::CampaignId;
use vstd::prelude::*;

verus! {

/// A call answers with the reason for which it is refused, and with success
/// where there is none.
pub proof fn law_answers_tell_the_reason(refusal: Option<Error>, error: Error)
    ensures
        answer(refusal) is Ok <==> refusal is None,
        answer(refusal) == Err::<(), Error>(error) <==> refusal == Some(error),
{
}

/// The contract can be initialized exactly once, with a fee between nothing
/// and the whole payout.
pub proof fn law_initialize_answers(s: EnvView, fee_bps: int)
    ensures
        ({
            let refusal = initialize_refusal(s, fee_bps);
            let fresh = s.storage.settings is None;
            let in_range = 0 <= fee_bps && fee_bps <= 10_000;
            &&& refusal is None <==> fresh && in_range
            &&& refusal == Some(Error::AlreadyInitialized) <==> !fresh
            &&& refusal == Some(Error::InvalidAmount) <==> fresh && !in_range
        }),
{
}

/// A campaign can be created by anyone once the contract is initialized, with a
/// budget, room for a creator, and two deadlines ahead of which the one for
/// applications comes first.
pub proof fn law_creation_answers(
    s: EnvView,
    total_budget: int,
    max_creators: nat,
    application_deadline: int,
    completion_deadline: int,
)
    ensures
        ({
            let refusal = create_refusal(
                s,
                total_budget,
                max_creators,
                application_deadline,
                completion_deadline,
            );
            let ready = s.storage.settings is Some;
            let sized = total_budget > 0 && max_creators > 0;
            let ahead = s.timestamp < application_deadline && s.timestamp < completion_deadline;
            let ordered = application_deadline < completion_deadline;
            &&& refusal is None <==> ready && sized && ahead && ordered
            &&& refusal == Some(Error::NotInitialized) <==> !ready
            &&& refusal == Some(Error::DeadlineInPast) <==> ready && sized && !ahead
            &&& refusal == Some(Error::InvalidAmount) <==> ready && (!sized || ahead && !ordered)
        }),
{
}

/// A campaign can be funded by its owner as long as it is a draft.
pub proof fn law_funding_answers(s: EnvView, business: Seq<char>, id: CampaignId)
    ensures
        ({
            let refusal = fund_refusal(s, business, id);
            let found = s.storage.campaigns.contains_key(id);
            let draft = s.storage.campaigns[id].status is Draft;
            let owner = s.storage.campaigns[id].business == business;
            &&& refusal is None <==> found && draft && owner
            &&& refusal == Some(Error::CampaignNotFound) <==> !found
            &&& refusal == Some(Error::InvalidStatus) <==> found && !draft
            &&& refusal == Some(Error::NotCampaignOwner) <==> found && draft && !owner
        }),
{
}

/// A creator can apply once to a funded or active campaign, up to and at its
/// application deadline.
pub proof fn law_application_answers(s: EnvView, creator: Seq<char>, id: CampaignId)
    ensures
        ({
            let refusal = apply_refusal(s, creator, id);
            let found = s.storage.campaigns.contains_key(id);
            let campaign = s.storage.campaigns[id];
            let open = campaign.status is Funded || campaign.status is Active;
            let in_time = s.timestamp <= campaign.application_deadline;
            let first = !s.storage.applications.contains_key((id, creator));
            &&& refusal is None <==> found && open && in_time && first
            &&& refusal == Some(Error::CampaignNotFound) <==> !found
            &&& refusal == Some(Error::InvalidStatus) <==> found && !open
            &&& refusal == Some(Error::ApplicationDeadlinePassed) <==> found && open && !in_time
            &&& refusal == Some(Error::AlreadyApplied) <==> found && open && in_time && !first
        }),
{
}

/// The owner of a funded or active campaign can select a pending applicant, as
/// long as a place is left, for any payout that what is neither spent nor
/// reserved can cover. No deadline stands in the way.
pub proof fn law_selection_answers(
    s: EnvView,
    business: Seq<char>,
    id: CampaignId,
    creator: Seq<char>,
    payout_amount: int,
)
    ensures
        ({
            let refusal = approve_refusal(s, business, id, creator, payout_amount);
            let found = s.storage.campaigns.contains_key(id);
            let campaign = s.storage.campaigns[id];
            let owner = campaign.business == business;
            let open = campaign.status is Funded || campaign.status is Active;
            let positive = payout_amount > 0;
            let applied = s.storage.applications.contains_key((id, creator));
            let pending = s.storage.applications[(id, creator)].status is Pending;
            let room = campaign.approved_count < campaign.max_creators;
            let covered = campaign.committed_payouts + payout_amount <= campaign.escrow_balance;
            let eligible = found && owner && open && positive && applied;
            &&& refusal is None <==> eligible && pending && room && covered
            &&& refusal == Some(Error::CampaignNotFound) <==> !found
            &&& refusal == Some(Error::NotCampaignOwner) <==> found && !owner
            &&& refusal == Some(Error::InvalidStatus) <==> found && owner && !open
            &&& refusal == Some(Error::InvalidAmount) <==> found && owner && open && !positive
            &&& refusal == Some(Error::ApplicationNotFound) <==> found && owner && open && positive
                && !applied
            &&& refusal == Some(Error::AlreadySelected) <==> eligible && !pending
            &&& refusal == Some(Error::MaxCreatorsReached) <==> eligible && pending && !room
            &&& refusal == Some(Error::InsufficientEscrowBalance) <==> eligible && pending && room
                && !covered
        }),
{
}

/// A selected creator who owes proof can hand it in up to and at the content
/// deadline, whatever has become of the campaign.
pub proof fn law_submission_answers(s: EnvView, creator: Seq<char>, id: CampaignId)
    ensures
        ({
            let refusal = submit_refusal(s, creator, id);
            let found = s.storage.campaigns.contains_key(id);
            let in_time = s.timestamp <= s.storage.campaigns[id].completion_deadline;
            let applied = s.storage.applications.contains_key((id, creator));
            let selected = s.storage.applications[(id, creator)].status is Approved;
            &&& refusal is None <==> found && in_time && applied && selected
            &&& refusal == Some(Error::CampaignNotFound) <==> !found
            &&& refusal == Some(Error::ContentDeadlinePassed) <==> found && !in_time
            &&& refusal == Some(Error::ApplicationNotFound) <==> found && in_time && !applied
            &&& refusal == Some(Error::InvalidStatus) <==> found && in_time && applied && !selected
        }),
{
}

/// The owner of a campaign can review a proof as long as it is handed in and
/// not paid, at any time and whatever has become of the campaign.
pub proof fn law_review_answers(
    s: EnvView,
    business: Seq<char>,
    id: CampaignId,
    creator: Seq<char>,
)
    ensures
        ({
            let refusal = review_refusal(s, business, id, creator);
            let found = s.storage.campaigns.contains_key(id);
            let owner = s.storage.campaigns[id].business == business;
            let applied = s.storage.applications.contains_key((id, creator));
            let submitted = s.storage.applications[(id, creator)].status is ProofSubmitted;
            &&& refusal is None <==> found && owner && applied && submitted
            &&& refusal == Some(Error::CampaignNotFound) <==> !found
            &&& refusal == Some(Error::NotCampaignOwner) <==> found && !owner
            &&& refusal == Some(Error::ApplicationNotFound) <==> found && owner && !applied
            &&& refusal == Some(Error::InvalidStatus) <==> found && owner && applied && !submitted
        }),
{
}

/// A creator can claim the payout for a proof that is handed in and not paid,
/// from its acceptance on, or else from the content deadline on, whatever has
/// become of the campaign; only a fee that cannot be worked out stands in the
/// way.
pub proof fn law_claim_answers(s: EnvView, creator: Seq<char>, id: CampaignId)
    ensures
        ({
            let refusal = claim_refusal(s, creator, id);
            let found = s.storage.campaigns.contains_key(id);
            let applied = s.storage.applications.contains_key((id, creator));
            let application = s.storage.applications[(id, creator)];
            let overdue = s.timestamp > s.storage.campaigns[id].completion_deadline;
            let payable = application.status is ProofSubmitted && (application.proof_approved
                || overdue);
            let ready = s.storage.settings is Some;
            let product = application.payout_amount * s.storage.settings->0.fee_bps;
            let computable = product <= i128::MAX;
            &&& refusal is None <==> found && applied && payable && ready && computable
            &&& refusal == Some(Error::CampaignNotFound) <==> !found
            &&& refusal == Some(Error::ApplicationNotFound) <==> found && !applied
            &&& refusal == Some(Error::SubmissionNotPayable) <==> found && applied && !payable
            &&& refusal == Some(Error::NotInitialized) <==> found && applied && payable && !ready
            &&& refusal == Some(Error::InvalidAmount) <==> found && applied && payable && ready
                && !computable
        }),
{
}

/// The owner can cancel a campaign that is not cancelled yet, except one that
/// is complete and owes nobody anything.
pub proof fn law_cancellation_answers(s: EnvView, business: Seq<char>, id: CampaignId)
    ensures
        ({
            let refusal = cancel_refusal(s, business, id);
            let found = s.storage.campaigns.contains_key(id);
            let campaign = s.storage.campaigns[id];
            let owner = campaign.business == business;
            let over = campaign.status is Cancelled || campaign.status is Completed
                && campaign.committed_payouts == 0;
            &&& refusal is None <==> found && owner && !over
            &&& refusal == Some(Error::CampaignNotFound) <==> !found
            &&& refusal == Some(Error::NotCampaignOwner) <==> found && !owner
            &&& refusal == Some(Error::InvalidStatus) <==> found && owner && over
        }),
{
}

/// The owner can expire a campaign after its content deadline and no earlier,
/// whatever its status, as long as it has not ended.
pub proof fn law_expiry_answers(s: EnvView, business: Seq<char>, id: CampaignId)
    ensures
        ({
            let refusal = expire_refusal(s, business, id);
            let found = s.storage.campaigns.contains_key(id);
            let campaign = s.storage.campaigns[id];
            let owner = campaign.business == business;
            let overdue = s.timestamp > campaign.completion_deadline;
            let ended = campaign.status is Cancelled || campaign.status is Completed;
            &&& refusal is None <==> found && owner && overdue && !ended
            &&& refusal == Some(Error::CampaignNotFound) <==> !found
            &&& refusal == Some(Error::NotCampaignOwner) <==> found && !owner
            &&& refusal == Some(Error::DeadlineNotReached) <==> found && owner && !overdue
            &&& refusal == Some(Error::InvalidStatus) <==> found && owner && overdue && ended
        }),
{
}

/// The owner can take the surplus back at any time, unless the campaign is
/// cancelled.
pub proof fn law_reclaim_answers(s: EnvView, business: Seq<char>, id: CampaignId)
    ensures
        ({
            let refusal = reclaim_refusal(s, business, id);
            let found = s.storage.campaigns.contains_key(id);
            let owner = s.storage.campaigns[id].business == business;
            let cancelled = s.storage.campaigns[id].status is Cancelled;
            &&& refusal is None <==> found && owner && !cancelled
            &&& refusal == Some(Error::CampaignNotFound) <==> !found
            &&& refusal == Some(Error::NotCampaignOwner) <==> found && !owner
            &&& refusal == Some(Error::InvalidStatus) <==> found && owner && cancelled
        }),
{
}

/// Whether the calendar has a say in the answer to the call.
pub open spec fn keeps_dates(call: Call) -> bool {
    ||| call is CreateCampaign
    ||| call is ApplyToCampaign
    ||| call is SubmitProof
    ||| call is ClaimPayment
    ||| call is ExpireCampaign
}

/// Funding, selecting, reviewing, cancelling and reclaiming know no date: at
/// any two times the answer is the same.
pub proof fn law_other_answers_are_timeless(s: EnvView, call: Call, t1: int, t2: int)
    requires
        !keeps_dates(call),
    ensures
        call.refusal(s.at(t1)) == call.refusal(s.at(t2)),
{
}

/// Time decides whether a call is carried out, never what it does: at two times
/// at which the answer is the same, the call writes the same entries and asks
/// for the same things.
pub proof fn law_time_decides_only_whether(s: EnvView, call: Call, t1: int, t2: int)
    requires
        call.refusal(s.at(t1)) == call.refusal(s.at(t2)),
    ensures
        call.after(s.at(t1)).storage == call.after(s.at(t2)).storage,
        call.after(s.at(t1)).actions == call.after(s.at(t2)).actions,
{
}

/// Windows close and waits end: whoever can apply, submit proof or create a
/// campaign could have done so earlier, and whoever can claim or expire can
/// also do so later.
pub proof fn law_windows_close_and_waits_end(s: EnvView, call: Call, earlier: int, later: int)
    requires
        earlier <= later,
    ensures
        (call is ApplyToCampaign || call is SubmitProof || call is CreateCampaign) && call.refusal(
            s.at(later),
        ) is None ==> call.refusal(s.at(earlier)) is None,
        (call is ClaimPayment || call is ExpireCampaign) && call.refusal(s.at(earlier)) is None
            ==> call.refusal(s.at(later)) is None,
{
}

/// A campaign that has not ended can be expired from the very moment on at
/// which no proof can be handed in any more.
pub proof fn law_expiry_follows_the_last_submission(
    s: EnvView,
    creator: Seq<char>,
    id: CampaignId,
)
    requires
        s.storage.campaigns.contains_key(id),
        !(s.storage.campaigns[id].status is Cancelled),
        !(s.storage.campaigns[id].status is Completed),
    ensures
        expire_refusal(s, s.storage.campaigns[id].business, id) is None <==> submit_refusal(
            s,
            creator,
            id,
        ) == Some(Error::ContentDeadlinePassed),
{
}

/// A proof that was just handed in is not accepted yet: it can be claimed from
/// the content deadline on and no earlier, whatever was accepted before.
pub proof fn law_submitted_proof_awaits_review(
    s: EnvView,
    creator: Seq<char>,
    id: CampaignId,
    proof_uri: Seq<char>,
    later: int,
)
    requires
        s.storage.valid(),
        submit_refusal(s, creator, id) is None,
    ensures
        ({
            let t = after_submit(s, creator, id, proof_uri);
            let deadline = s.storage.campaigns[id].completion_deadline;
            let owner = s.storage.campaigns[id].business;
            &&& !t.storage.applications[(id, creator)].proof_approved
            &&& later <= deadline ==> claim_refusal(t.at(later), creator, id) == Some(
                Error::SubmissionNotPayable,
            )
            &&& later > deadline ==> claim_refusal(t.at(later), creator, id) != Some(
                Error::SubmissionNotPayable,
            )
            &&& review_refusal(t.at(later), owner, id, creator) is None
        }),
{
}

/// Accepting a proof makes it payable at once and for good, whenever it is
/// accepted, as far as the fee can be worked out.
pub proof fn law_acceptance_makes_payable(
    s: EnvView,
    business: Seq<char>,
    id: CampaignId,
    creator: Seq<char>,
    later: int,
)
    requires
        s.storage.valid(),
        review_refusal(s, business, id, creator) is None,
        s.storage.settings is Some,
        s.storage.applications[(id, creator)].payout_amount * s.storage.settings->0.fee_bps
            <= i128::MAX,
    ensures
        claim_refusal(
            after_approve_submission(s, business, id, creator).at(later),
            creator,
            id,
        ) is None,
{
}

/// A rejected proof cannot be claimed, however late; the creator can hand in
/// another one up to the content deadline.
pub proof fn law_rejection_stops_the_claim(
    s: EnvView,
    business: Seq<char>,
    id: CampaignId,
    creator: Seq<char>,
    later: int,
)
    requires
        s.storage.valid(),
        review_refusal(s, business, id, creator) is None,
    ensures
        ({
            let t = after_reject_submission(s, business, id, creator).at(later);
            &&& claim_refusal(t, creator, id) == Some(Error::SubmissionNotPayable)
            &&& submit_refusal(t, creator, id) is None <==> later
                <= s.storage.campaigns[id].completion_deadline
            &&& review_refusal(t, business, id, creator) == Some(Error::InvalidStatus)
        }),
{
}

} // verus!
