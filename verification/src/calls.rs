//! All calls under one name, and histories of them.
use crate::env::EnvView;
use crate::error::Error;
use crate::rules::{
    after_apply, after_approve, after_approve_submission, after_cancel, after_claim, after_create,
    after_expire, after_fund, after_initialize, after_reclaim, after_reject_submission,
    after_submit, apply_refusal, approve_refusal, cancel_refusal, claim_refusal, create_refusal,
    expire_refusal, fund_refusal, initialize_refusal, reclaim_refusal, review_refusal,
    submit_refusal,
};
use crate::shared::{CampaignId, PayoutAssetView};
use crate::storage::StorageView;
use vstd::prelude::*;

verus! {

/// A call that can change the contract's entries, with its arguments.
pub enum Call {
    Initialize { admin: Seq<char>, dispute_contract: Seq<char>, fee_bps: int },
    CreateCampaign {
        business: Seq<char>,
        asset: PayoutAssetView,
        total_budget: int,
        max_creators: nat,
        application_deadline: int,
        completion_deadline: int,
        metadata_uri: Seq<char>,
    },
    FundCampaign { business: Seq<char>, id: CampaignId },
    ApplyToCampaign { creator: Seq<char>, id: CampaignId, pitch_uri: Seq<char> },
    ApproveCreator {
        business: Seq<char>,
        id: CampaignId,
        creator: Seq<char>,
        payout_amount: int,
    },
    SubmitProof { creator: Seq<char>, id: CampaignId, proof_uri: Seq<char> },
    ApproveSubmission { business: Seq<char>, id: CampaignId, creator: Seq<char> },
    RejectSubmission { business: Seq<char>, id: CampaignId, creator: Seq<char> },
    ClaimPayment { creator: Seq<char>, id: CampaignId },
    CancelCampaign { business: Seq<char>, id: CampaignId },
    ExpireCampaign { business: Seq<char>, id: CampaignId },
    ReclaimSurplus { business: Seq<char>, id: CampaignId },
}

impl Call {
    /// Who makes the call.
    pub open spec fn caller(self) -> Seq<char> {
        match self {
            Call::Initialize { admin, .. } => admin,
            Call::CreateCampaign { business, .. } => business,
            Call::FundCampaign { business, .. } => business,
            Call::ApplyToCampaign { creator, .. } => creator,
            Call::ApproveCreator { business, .. } => business,
            Call::SubmitProof { creator, .. } => creator,
            Call::ApproveSubmission { business, .. } => business,
            Call::RejectSubmission { business, .. } => business,
            Call::ClaimPayment { creator, .. } => creator,
            Call::CancelCampaign { business, .. } => business,
            Call::ExpireCampaign { business, .. } => business,
            Call::ReclaimSurplus { business, .. } => business,
        }
    }

    /// Why the call is refused, if it is.
    pub open spec fn refusal(self, s: EnvView) -> Option<Error> {
        match self {
            Call::Initialize { fee_bps, .. } => initialize_refusal(s, fee_bps),
            Call::CreateCampaign {
                total_budget,
                max_creators,
                application_deadline,
                completion_deadline,
                ..
            } => create_refusal(
                s,
                total_budget,
                max_creators,
                application_deadline,
                completion_deadline,
            ),
            Call::FundCampaign { business, id } => fund_refusal(s, business, id),
            Call::ApplyToCampaign { creator, id, .. } => apply_refusal(s, creator, id),
            Call::ApproveCreator { business, id, creator, payout_amount } => approve_refusal(
                s,
                business,
                id,
                creator,
                payout_amount,
            ),
            Call::SubmitProof { creator, id, .. } => submit_refusal(s, creator, id),
            Call::ApproveSubmission { business, id, creator } => review_refusal(
                s,
                business,
                id,
                creator,
            ),
            Call::RejectSubmission { business, id, creator } => review_refusal(
                s,
                business,
                id,
                creator,
            ),
            Call::ClaimPayment { creator, id } => claim_refusal(s, creator, id),
            Call::CancelCampaign { business, id } => cancel_refusal(s, business, id),
            Call::ExpireCampaign { business, id } => expire_refusal(s, business, id),
            Call::ReclaimSurplus { business, id } => reclaim_refusal(s, business, id),
        }
    }

    /// What the call leaves behind.
    pub open spec fn after(self, s: EnvView) -> EnvView {
        match self {
            Call::Initialize { admin, dispute_contract, fee_bps } => after_initialize(
                s,
                admin,
                dispute_contract,
                fee_bps,
            ),
            Call::CreateCampaign {
                business,
                asset,
                total_budget,
                max_creators,
                application_deadline,
                completion_deadline,
                metadata_uri,
            } => after_create(
                s,
                business,
                asset,
                total_budget,
                max_creators,
                application_deadline,
                completion_deadline,
                metadata_uri,
            ),
            Call::FundCampaign { business, id } => after_fund(s, business, id),
            Call::ApplyToCampaign { creator, id, pitch_uri } => after_apply(
                s,
                creator,
                id,
                pitch_uri,
            ),
            Call::ApproveCreator { business, id, creator, payout_amount } => after_approve(
                s,
                business,
                id,
                creator,
                payout_amount,
            ),
            Call::SubmitProof { creator, id, proof_uri } => after_submit(
                s,
                creator,
                id,
                proof_uri,
            ),
            Call::ApproveSubmission { business, id, creator } => after_approve_submission(
                s,
                business,
                id,
                creator,
            ),
            Call::RejectSubmission { business, id, creator } => after_reject_submission(
                s,
                business,
                id,
                creator,
            ),
            Call::ClaimPayment { creator, id } => after_claim(s, creator, id),
            Call::CancelCampaign { business, id } => after_cancel(s, business, id),
            Call::ExpireCampaign { business, id } => after_expire(s, business, id),
            Call::ReclaimSurplus { business, id } => after_reclaim(s, business, id),
        }
    }
}

impl EnvView {
    /// The surroundings of a contract that was just deployed.
    pub open spec fn deployed(contract: Seq<char>, timestamp: int) -> EnvView {
        EnvView { timestamp, contract, storage: StorageView::empty(), actions: Seq::empty() }
    }

    /// The same at another time.
    pub open spec fn at(self, timestamp: int) -> EnvView {
        EnvView { timestamp, ..self }
    }

    /// What is left behind by calls, each made at its time, one after another.
    pub open spec fn history(self, calls: Seq<(int, Call)>) -> EnvView
        decreases calls.len(),
    {
        if calls.len() == 0 {
            self
        } else {
            let before = self.history(calls.drop_last());
            calls.last().1.after(before.at(calls.last().0))
        }
    }
}

} // verus!
