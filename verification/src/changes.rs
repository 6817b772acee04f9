//! What each call changes: entry by entry and field by field.
use crate::calls::Call;
use crate::env::EnvView;
use crate::error::Error;
use crate::laws::{
    law_campaign_terms_are_final, law_entries_stay_valid, law_refusal_changes_nothing,
};
use crate::rules::{after_apply, after_submit, apply_refusal, claim_refusal, submit_refusal};
use crate::shared::{ApplicationStatus, CampaignId, CampaignStatus};
use crate::storage::ApplicationKey;
use vstd::prelude::*;

verus! {

impl Call {
    /// Whether the call is carried out.
    pub open spec fn goes(self, s: EnvView) -> bool {
        self.refusal(s) is None
    }

    /// The campaign that the call is about. A creation is about none that
    /// exists.
    pub open spec fn campaign(self) -> Option<CampaignId> {
        match self {
            Call::Initialize { .. } => None,
            Call::CreateCampaign { .. } => None,
            Call::FundCampaign { id, .. } => Some(id),
            Call::ApplyToCampaign { id, .. } => Some(id),
            Call::ApproveCreator { id, .. } => Some(id),
            Call::SubmitProof { id, .. } => Some(id),
            Call::ApproveSubmission { id, .. } => Some(id),
            Call::RejectSubmission { id, .. } => Some(id),
            Call::ClaimPayment { id, .. } => Some(id),
            Call::CancelCampaign { id, .. } => Some(id),
            Call::ExpireCampaign { id, .. } => Some(id),
            Call::ReclaimSurplus { id, .. } => Some(id),
        }
    }

    /// The application that the call is about, if it is about one.
    pub open spec fn application(self) -> Option<ApplicationKey> {
        match self {
            Call::ApplyToCampaign { id, creator, .. } => Some((id, creator)),
            Call::ApproveCreator { id, creator, .. } => Some((id, creator)),
            Call::SubmitProof { id, creator, .. } => Some((id, creator)),
            Call::ApproveSubmission { id, creator, .. } => Some((id, creator)),
            Call::RejectSubmission { id, creator, .. } => Some((id, creator)),
            Call::ClaimPayment { id, creator } => Some((id, creator)),
            _ => None,
        }
    }
}

/// No call changes the time or the contract's address, or takes back anything
/// that was asked for before.
pub proof fn law_surroundings_stay(s: EnvView, call: Call)
    ensures
        call.after(s).timestamp == s.timestamp,
        call.after(s).contract == s.contract,
        s.actions.len() <= call.after(s).actions.len(),
        forall|i: int|
            0 <= i < s.actions.len() ==> #[trigger] call.after(s).actions[i] == s.actions[i],
{
}

/// Only `initialize` writes the settings: admin and dispute contract as they
/// were given, the admin as the treasury, and the fee.
pub proof fn law_settings_come_from_initialize(s: EnvView, call: Call)
    ensures
        ({
            let t = call.after(s).storage;
            &&& !(call is Initialize && call.goes(s)) ==> t.settings == s.storage.settings
            &&& call.goes(s) ==> (call matches Call::Initialize {
                admin,
                dispute_contract,
                fee_bps,
            } ==> {
                &&& t.settings is Some
                &&& t.settings->0.admin == admin
                &&& t.settings->0.treasury == admin
                &&& t.settings->0.dispute_contract == dispute_contract
                &&& t.settings->0.fee_bps == fee_bps
            })
        }),
{
}

/// Every creation uses up one number, and nothing else does.
pub proof fn law_numbers_are_used_by_creation(s: EnvView, call: Call)
    ensures
        call.after(s).storage.next_campaign_id == s.storage.next_campaign_id + (
        if call is CreateCampaign && call.goes(s) {
            1int
        } else {
            0int
        }),
{
}

/// A created campaign stands under the number that was next, belongs to the
/// caller, has the terms that were asked for, and is a draft: nothing is
/// deposited, committed or selected.
pub proof fn law_creation_writes_the_terms(s: EnvView, call: Call)
    requires
        s.storage.valid(),
        call.goes(s),
        s.storage.next_campaign_id < u64::MAX,
    ensures
        call matches Call::CreateCampaign {
            business,
            asset,
            total_budget,
            max_creators,
            application_deadline,
            completion_deadline,
            metadata_uri,
        } ==> {
            let id = s.storage.next_campaign_id as u64;
            let t = call.after(s).storage;
            let created = t.campaigns[id];
            &&& !s.storage.campaigns.contains_key(id)
            &&& t.campaigns.contains_key(id)
            &&& created.id == id
            &&& created.business == business
            &&& created.asset == asset
            &&& created.total_budget == total_budget
            &&& created.max_creators == max_creators
            &&& created.application_deadline == application_deadline
            &&& created.completion_deadline == completion_deadline
            &&& created.metadata_uri == metadata_uri
            &&& created.status is Draft
            &&& created.escrow_balance == 0
            &&& created.committed_payouts == 0
            &&& created.approved_count == 0
        },
{
}

/// A call leaves alone every campaign and every application that it is not
/// about. A creation adds one campaign, an application one application, and
/// nothing ever goes away.
pub proof fn law_other_entries_stay(
    s: EnvView,
    call: Call,
    id: CampaignId,
    key: ApplicationKey,
)
    requires
        s.storage.valid(),
    ensures
        ({
            let t = call.after(s).storage;
            let creates = call is CreateCampaign && call.goes(s) && id
                == s.storage.next_campaign_id as u64;
            let applies = call is ApplyToCampaign && call.goes(s) && call.application() == Some(
                key,
            );
            &&& !creates && call.campaign() != Some(id) ==> t.campaigns[id]
                == s.storage.campaigns[id]
            &&& t.campaigns.contains_key(id) <==> s.storage.campaigns.contains_key(id) || creates
            &&& call.application() != Some(key) ==> t.applications[key]
                == s.storage.applications[key]
            &&& t.applications.contains_key(key) <==> s.storage.applications.contains_key(key)
                || applies
        }),
{
    if !call.goes(s) {
        law_refusal_changes_nothing(s, call);
    } else if s.storage.campaigns.contains_key(id) {
        assert(s.storage.campaigns[id].id == id);
    }
}

/// What a campaign was created with stays as it is.
pub proof fn law_terms_stay(s: EnvView, call: Call, id: CampaignId)
    requires
        s.storage.valid(),
        s.storage.campaigns.contains_key(id),
        call is CreateCampaign && call.goes(s) ==> s.storage.next_campaign_id < u64::MAX,
    ensures
        ({
            let before = s.storage.campaigns[id];
            let after = call.after(s).storage.campaigns[id];
            &&& after.id == before.id
            &&& after.business == before.business
            &&& after.asset == before.asset
            &&& after.total_budget == before.total_budget
            &&& after.max_creators == before.max_creators
            &&& after.application_deadline == before.application_deadline
            &&& after.completion_deadline == before.completion_deadline
            &&& after.metadata_uri == before.metadata_uri
        }),
{
    law_campaign_terms_are_final(s, call, id);
}

/// Money enters the escrow of a campaign by its funding alone, the whole budget
/// at once. It leaves by a claim, the whole payout, or when the campaign is
/// closed or its surplus taken back, all that is not committed.
pub proof fn law_escrow_moves(s: EnvView, call: Call, id: CampaignId)
    requires
        s.storage.valid(),
        s.storage.campaigns.contains_key(id),
        call is CreateCampaign && call.goes(s) ==> s.storage.next_campaign_id < u64::MAX,
    ensures
        ({
            let before = s.storage.campaigns[id];
            let after = call.after(s).storage.campaigns[id];
            let moved = after.escrow_balance - before.escrow_balance;
            if call.goes(s) && call.campaign() == Some(id) {
                match call {
                    Call::FundCampaign { .. } => {
                        &&& moved == before.total_budget
                        &&& after.escrow_balance == before.total_budget
                    },
                    Call::ClaimPayment { creator, .. } => moved == -s.storage.applications[(
                        id,
                        creator,
                    )].payout_amount,
                    Call::CancelCampaign { .. }
                    | Call::ExpireCampaign { .. }
                    | Call::ReclaimSurplus { .. } => {
                        &&& moved == before.committed_payouts - before.escrow_balance
                        &&& after.escrow_balance == after.committed_payouts
                    },
                    _ => moved == 0,
                }
            } else {
                moved == 0
            }
        }),
{
    assert(s.storage.campaigns[id].valid());
    lemma_campaign_written(s, call, id);
}

/// Selecting a creator commits the payout, and the claim releases it; nothing
/// else, and no closing of the campaign, touches what is committed.
pub proof fn law_commitments_move(s: EnvView, call: Call, id: CampaignId)
    requires
        s.storage.valid(),
        s.storage.campaigns.contains_key(id),
        call is CreateCampaign && call.goes(s) ==> s.storage.next_campaign_id < u64::MAX,
    ensures
        ({
            let moved = call.after(s).storage.campaigns[id].committed_payouts
                - s.storage.campaigns[id].committed_payouts;
            if call.goes(s) && call.campaign() == Some(id) {
                match call {
                    Call::ApproveCreator { payout_amount, .. } => moved == payout_amount,
                    Call::ClaimPayment { creator, .. } => moved == -s.storage.applications[(
                        id,
                        creator,
                    )].payout_amount,
                    _ => moved == 0,
                }
            } else {
                moved == 0
            }
        }),
{
    lemma_campaign_written(s, call, id);
}

/// Every selection counts one creator, and nothing ever uncounts one.
pub proof fn law_selections_are_counted(s: EnvView, call: Call, id: CampaignId)
    requires
        s.storage.valid(),
        s.storage.campaigns.contains_key(id),
        call is CreateCampaign && call.goes(s) ==> s.storage.next_campaign_id < u64::MAX,
    ensures
        call.after(s).storage.campaigns[id].approved_count
            == s.storage.campaigns[id].approved_count + (if call is ApproveCreator && call.goes(s)
            && call.campaign() == Some(id) {
            1int
        } else {
            0int
        }),
{
    lemma_campaign_written(s, call, id);
}

/// A campaign is funded by its funding, active from its first selection on,
/// cancelled by its cancellation or expiry, and complete once its surplus is
/// taken back or a claim empties its escrow. Nothing else moves it.
pub proof fn law_campaign_status_moves(s: EnvView, call: Call, id: CampaignId)
    requires
        s.storage.valid(),
        s.storage.campaigns.contains_key(id),
        call is CreateCampaign && call.goes(s) ==> s.storage.next_campaign_id < u64::MAX,
    ensures
        ({
            let before = s.storage.campaigns[id].status;
            let left = call.after(s).storage.campaigns[id];
            let after = left.status;
            if call.goes(s) && call.campaign() == Some(id) {
                match call {
                    Call::FundCampaign { .. } => before is Draft && after
                        == CampaignStatus::Funded,
                    Call::ApproveCreator { .. } => after == CampaignStatus::Active,
                    Call::CancelCampaign { .. } | Call::ExpireCampaign { .. } => after
                        == CampaignStatus::Cancelled,
                    Call::ReclaimSurplus { .. } => after == CampaignStatus::Completed,
                    Call::ClaimPayment { .. } => {
                        &&& left.escrow_balance == 0 ==> after == CampaignStatus::Completed
                        &&& left.escrow_balance != 0 ==> after == before
                    },
                    _ => after == before,
                }
            } else {
                after == before
            }
        }),
{
    lemma_campaign_written(s, call, id);
}

/// Each campaign stands under its own number, also after the call.
proof fn lemma_campaign_written(s: EnvView, call: Call, id: CampaignId)
    requires
        s.storage.valid(),
        s.storage.campaigns.contains_key(id),
        call is CreateCampaign && call.goes(s) ==> s.storage.next_campaign_id < u64::MAX,
    ensures
        s.storage.campaigns[id].id == id,
        !call.goes(s) ==> call.after(s).storage == s.storage,
        !call.goes(s) || call.campaign() != Some(id) ==> call.after(s).storage.campaigns[id]
            == s.storage.campaigns[id],
{
    if !call.goes(s) {
        law_refusal_changes_nothing(s, call);
    }
    assert(id < s.storage.next_campaign_id);
}

/// An application arrives with its campaign, its creator and the pitch, and
/// waits: nothing is agreed, handed in or accepted.
pub proof fn law_application_arrives_pending(
    s: EnvView,
    creator: Seq<char>,
    id: CampaignId,
    pitch_uri: Seq<char>,
)
    requires
        apply_refusal(s, creator, id) is None,
    ensures
        ({
            let t = after_apply(s, creator, id, pitch_uri).storage;
            let arrived = t.applications[(id, creator)];
            &&& t.applications.contains_key((id, creator))
            &&& arrived.campaign_id == id
            &&& arrived.creator == creator
            &&& arrived.pitch_uri == pitch_uri
            &&& arrived.status is Pending
            &&& arrived.payout_amount == 0
            &&& arrived.proof_uri is None
            &&& !arrived.proof_approved
        }),
{
}

/// Whose application it is and what was pitched stays as it is, and only the
/// selection sets the payout, to the amount that the business names.
pub proof fn law_payout_is_set_by_selection(
    s: EnvView,
    call: Call,
    id: CampaignId,
    creator: Seq<char>,
)
    requires
        s.storage.valid(),
        s.storage.applications.contains_key((id, creator)),
    ensures
        ({
            let before = s.storage.applications[(id, creator)];
            let after = call.after(s).storage.applications[(id, creator)];
            &&& after.campaign_id == before.campaign_id
            &&& after.creator == before.creator
            &&& after.pitch_uri == before.pitch_uri
            &&& if call is ApproveCreator && call.goes(s) && call.application() == Some(
                (id, creator),
            ) {
                after.payout_amount == call->ApproveCreator_payout_amount
            } else {
                after.payout_amount == before.payout_amount
            }
        }),
{
}

/// A creator is selected by the selection, has handed in proof by the
/// submission, owes it again after a rejection, and is paid by the claim.
/// Nothing else moves an application.
pub proof fn law_application_status_moves(
    s: EnvView,
    call: Call,
    id: CampaignId,
    creator: Seq<char>,
)
    requires
        s.storage.valid(),
        s.storage.applications.contains_key((id, creator)),
    ensures
        ({
            let before = s.storage.applications[(id, creator)].status;
            let after = call.after(s).storage.applications[(id, creator)].status;
            if call.goes(s) && call.application() == Some((id, creator)) {
                match call {
                    Call::ApproveCreator { .. } => before is Pending && after
                        == ApplicationStatus::Approved,
                    Call::SubmitProof { .. } => before is Approved && after
                        == ApplicationStatus::ProofSubmitted,
                    Call::RejectSubmission { .. } => before is ProofSubmitted && after
                        == ApplicationStatus::Approved,
                    Call::ClaimPayment { .. } => before is ProofSubmitted && after
                        == ApplicationStatus::Paid,
                    _ => after == before,
                }
            } else {
                after == before
            }
        }),
{
}

/// The proof on record is the one that was handed in last, until the business
/// rejects it.
pub proof fn law_proof_is_the_one_handed_in(
    s: EnvView,
    call: Call,
    id: CampaignId,
    creator: Seq<char>,
)
    requires
        s.storage.valid(),
        s.storage.applications.contains_key((id, creator)),
    ensures
        ({
            let before = s.storage.applications[(id, creator)].proof_uri;
            let after = call.after(s).storage.applications[(id, creator)].proof_uri;
            if call.goes(s) && call.application() == Some((id, creator)) {
                match call {
                    Call::SubmitProof { proof_uri, .. } => after == Some(proof_uri),
                    Call::RejectSubmission { .. } => after is None,
                    _ => after == before,
                }
            } else {
                after == before
            }
        }),
{
}

/// A proof is accepted by the owner of the campaign and by nobody and nothing
/// else: it comes in unaccepted, every review that accepts it does so, and it
/// stays accepted until it is rejected.
pub proof fn law_only_the_owner_accepts(s: EnvView, call: Call, id: CampaignId, creator: Seq<char>)
    requires
        s.storage.valid(),
        s.storage.applications.contains_key((id, creator)),
    ensures
        ({
            let before = s.storage.applications[(id, creator)].proof_approved;
            let after = call.after(s).storage.applications[(id, creator)].proof_approved;
            &&& !before && after ==> {
                &&& call is ApproveSubmission
                &&& call.goes(s)
                &&& call.application() == Some((id, creator))
                &&& call.caller() == s.storage.campaigns[id].business
            }
            &&& before && !after ==> {
                &&& call is SubmitProof || call is RejectSubmission
                &&& call.goes(s)
                &&& call.application() == Some((id, creator))
            }
            &&& call.goes(s) && call.application() == Some((id, creator)) ==> {
                &&& call is ApproveSubmission ==> after
                &&& call is SubmitProof ==> !after
                &&& call is RejectSubmission ==> !after
            }
        }),
{
    assert(s.storage.campaigns.contains_key((id, creator).0));
}

/// Whatever happens, a proof that the business has not accepted cannot be
/// claimed before the content deadline has passed.
pub proof fn law_no_early_payout_without_review(
    s: EnvView,
    calls: Seq<(int, Call)>,
    id: CampaignId,
    creator: Seq<char>,
    later: int,
)
    requires
        s.storage.valid(),
        s.storage.next_campaign_id + calls.len() <= u64::MAX,
        s.storage.applications.contains_key((id, creator)),
        !s.storage.applications[(id, creator)].proof_approved,
        forall|i: int|
            0 <= i < calls.len() ==> !((#[trigger] calls[i]).1 is ApproveSubmission
                && calls[i].1.application() == Some((id, creator)) && calls[i].1.caller()
                == s.storage.campaigns[id].business),
    ensures
        ({
            let t = s.history(calls);
            &&& t.storage.valid()
            &&& t.storage.next_campaign_id <= s.storage.next_campaign_id + calls.len()
            &&& t.storage.applications.contains_key((id, creator))
            &&& !t.storage.applications[(id, creator)].proof_approved
            &&& t.storage.campaigns[id].business == s.storage.campaigns[id].business
            &&& t.storage.campaigns[id].completion_deadline
                == s.storage.campaigns[id].completion_deadline
            &&& later <= s.storage.campaigns[id].completion_deadline ==> claim_refusal(
                t.at(later),
                creator,
                id,
            ) == Some(Error::SubmissionNotPayable)
        }),
    decreases calls.len(),
{
    if calls.len() > 0 {
        let front = calls.drop_last();
        let (when, call) = calls.last();
        assert(calls[calls.len() - 1] == (when, call));
        assert forall|i: int| 0 <= i < front.len() implies !((#[trigger] front[i]).1
            is ApproveSubmission && front[i].1.application() == Some((id, creator))
            && front[i].1.caller() == s.storage.campaigns[id].business) by {
            assert(front[i] == calls[i]);
        }
        law_no_early_payout_without_review(s, front, id, creator, later);
        let before = s.history(front).at(when);
        assert(before.storage.campaigns.contains_key((id, creator).0));
        law_entries_stay_valid(before, call);
        law_numbers_are_used_by_creation(before, call);
        law_other_entries_stay(before, call, id, (id, creator));
        law_terms_stay(before, call, id);
        law_only_the_owner_accepts(before, call, id, creator);
    }
    let t = s.history(calls);
    assert(t.storage.campaigns.contains_key((id, creator).0));
}

/// A proof that was handed in cannot be claimed by the content deadline unless
/// the business has accepted it since, whatever else is called in between.
pub proof fn law_submission_waits_for_acceptance(
    s: EnvView,
    creator: Seq<char>,
    id: CampaignId,
    proof_uri: Seq<char>,
    calls: Seq<(int, Call)>,
    later: int,
)
    requires
        s.storage.valid(),
        s.storage.next_campaign_id + calls.len() <= u64::MAX,
        submit_refusal(s, creator, id) is None,
        later <= s.storage.campaigns[id].completion_deadline,
        forall|i: int|
            0 <= i < calls.len() ==> !((#[trigger] calls[i]).1 is ApproveSubmission
                && calls[i].1.application() == Some((id, creator)) && calls[i].1.caller()
                == s.storage.campaigns[id].business),
    ensures
        claim_refusal(
            after_submit(s, creator, id, proof_uri).history(calls).at(later),
            creator,
            id,
        ) == Some(Error::SubmissionNotPayable),
{
    let call = Call::SubmitProof { creator, id, proof_uri };
    law_entries_stay_valid(s, call);
    law_terms_stay(s, call, id);
    law_no_early_payout_without_review(call.after(s), calls, id, creator, later);
}

} // verus!
