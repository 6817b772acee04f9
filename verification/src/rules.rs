//! The rules of the escrow: for each call, why it is refused and what it
//! leaves behind.
//!
//! A refusal is the first of the call's conditions that does not hold. A call
//! that is refused leaves the entries as they are.
use crate::action::{ActionView, EventView};
use crate::env::EnvView;
use crate::error::Error;
use crate::shared::{
    ApplicationStatus, CampaignId, CampaignStatus, PayoutAssetView, BASIS_POINTS_DENOMINATOR,
};
use crate::storage::StorageView;
use crate::types::{ApplicationView, CampaignView, SettingsView};
use vstd::prelude::*;

verus! {

/// What a call with this refusal answers.
pub open spec fn answer(refusal: Option<Error>) -> Result<(), Error> {
    match refusal {
        Some(error) => Err(error),
        None => Ok(()),
    }
}

/// The platform's part of a payout: rounded down to a whole unit.
pub open spec fn fee_of(payout: int, fee_bps: int) -> int {
    payout * fee_bps / BASIS_POINTS_DENOMINATOR as int
}

/// The creator's part of a payout.
pub open spec fn net_of(payout: int, fee_bps: int) -> int {
    payout - fee_of(payout, fee_bps)
}

impl EnvView {
    /// The campaign under this number.
    pub open spec fn campaign(self, id: CampaignId) -> CampaignView {
        self.storage.campaigns[id]
    }

    /// The creator's application to the campaign.
    pub open spec fn application(self, id: CampaignId, creator: Seq<char>) -> ApplicationView {
        self.storage.applications[(id, creator)]
    }

    /// Whether there is a campaign under this number.
    pub open spec fn has_campaign(self, id: CampaignId) -> bool {
        self.storage.campaigns.contains_key(id)
    }

    /// Whether the creator has applied to the campaign.
    pub open spec fn has_application(self, id: CampaignId, creator: Seq<char>) -> bool {
        self.storage.applications.contains_key((id, creator))
    }

    /// The contract pays `amount` of the campaign's asset.
    pub open spec fn pays(self, id: CampaignId, to: Seq<char>, amount: int) -> ActionView {
        ActionView::Transfer {
            token: self.campaign(id).asset.token,
            from: self.contract,
            to,
            amount,
        }
    }
}

/// Why `initialize` is refused, if it is.
pub open spec fn initialize_refusal(s: EnvView, fee_bps: int) -> Option<Error> {
    if s.storage.settings is Some {
        Some(Error::AlreadyInitialized)
    } else if !(0 <= fee_bps <= BASIS_POINTS_DENOMINATOR) {
        Some(Error::InvalidAmount)
    } else {
        None
    }
}

/// What `initialize` leaves behind.
pub open spec fn after_initialize(
    s: EnvView,
    admin: Seq<char>,
    dispute_contract: Seq<char>,
    fee_bps: int,
) -> EnvView {
    if initialize_refusal(s, fee_bps) is Some {
        s
    } else {
        let settings = SettingsView { admin, treasury: admin, dispute_contract, fee_bps };
        EnvView {
            storage: StorageView { settings: Some(settings), ..s.storage },
            ..s.asking(seq![ActionView::RequireAuth(admin)])
        }
    }
}

/// Why `create_campaign` is refused, if it is.
pub open spec fn create_refusal(
    s: EnvView,
    total_budget: int,
    max_creators: nat,
    application_deadline: int,
    completion_deadline: int,
) -> Option<Error> {
    if s.storage.settings is None {
        Some(Error::NotInitialized)
    } else if total_budget <= 0 || max_creators == 0 {
        Some(Error::InvalidAmount)
    } else if application_deadline <= s.timestamp || completion_deadline <= s.timestamp {
        Some(Error::DeadlineInPast)
    } else if application_deadline >= completion_deadline {
        Some(Error::InvalidAmount)
    } else {
        None
    }
}

/// A campaign as it is created: a draft that holds nothing.
pub open spec fn draft(
    id: CampaignId,
    business: Seq<char>,
    asset: PayoutAssetView,
    total_budget: int,
    max_creators: nat,
    application_deadline: int,
    completion_deadline: int,
    metadata_uri: Seq<char>,
) -> CampaignView {
    CampaignView {
        id,
        business,
        asset,
        total_budget,
        escrow_balance: 0,
        committed_payouts: 0,
        max_creators: max_creators as int,
        approved_count: 0,
        application_deadline,
        completion_deadline,
        metadata_uri,
        status: CampaignStatus::Draft,
    }
}

/// What `create_campaign` leaves behind.
pub open spec fn after_create(
    s: EnvView,
    business: Seq<char>,
    asset: PayoutAssetView,
    total_budget: int,
    max_creators: nat,
    application_deadline: int,
    completion_deadline: int,
    metadata_uri: Seq<char>,
) -> EnvView {
    if create_refusal(s, total_budget, max_creators, application_deadline, completion_deadline) is Some {
        s
    } else {
        let id = s.storage.next_campaign_id as u64;
        let campaign = draft(
            id,
            business,
            asset,
            total_budget,
            max_creators,
            application_deadline,
            completion_deadline,
            metadata_uri,
        );
        EnvView {
            storage: StorageView {
                next_campaign_id: s.storage.next_campaign_id + 1,
                ..s.storage.with_campaign(campaign)
            },
            ..s.asking(
                seq![
                    ActionView::RequireAuth(business),
                    ActionView::Publish(EventView::CampaignCreated { business, campaign_id: id }),
                ],
            )
        }
    }
}

/// Why `fund_campaign` is refused, if it is.
pub open spec fn fund_refusal(s: EnvView, business: Seq<char>, id: CampaignId) -> Option<Error> {
    if !s.has_campaign(id) {
        Some(Error::CampaignNotFound)
    } else if s.campaign(id).status !is Draft {
        Some(Error::InvalidStatus)
    } else if s.campaign(id).business != business {
        Some(Error::NotCampaignOwner)
    } else {
        None
    }
}

/// What `fund_campaign` leaves behind.
pub open spec fn after_fund(s: EnvView, business: Seq<char>, id: CampaignId) -> EnvView {
    let asked = s.asking(seq![ActionView::RequireAuth(business)]);
    if fund_refusal(s, business, id) is Some {
        asked
    } else {
        let campaign = s.campaign(id);
        EnvView {
            storage: s.storage.with_campaign(
                CampaignView {
                    escrow_balance: campaign.total_budget,
                    status: CampaignStatus::Funded,
                    ..campaign
                },
            ),
            ..asked.asking(
                seq![
                    ActionView::Transfer {
                        token: campaign.asset.token,
                        from: business,
                        to: s.contract,
                        amount: campaign.total_budget,
                    },
                    ActionView::Publish(
                        EventView::CampaignFunded {
                            campaign_id: id,
                            amount: campaign.total_budget,
                        },
                    ),
                ],
            )
        }
    }
}

/// Why `apply_to_campaign` is refused, if it is.
pub open spec fn apply_refusal(s: EnvView, creator: Seq<char>, id: CampaignId) -> Option<Error> {
    if !s.has_campaign(id) {
        Some(Error::CampaignNotFound)
    } else if !s.campaign(id).open() {
        Some(Error::InvalidStatus)
    } else if s.timestamp > s.campaign(id).application_deadline {
        Some(Error::ApplicationDeadlinePassed)
    } else if s.has_application(id, creator) {
        Some(Error::AlreadyApplied)
    } else {
        None
    }
}

/// What `apply_to_campaign` leaves behind.
pub open spec fn after_apply(
    s: EnvView,
    creator: Seq<char>,
    id: CampaignId,
    pitch_uri: Seq<char>,
) -> EnvView {
    let asked = s.asking(seq![ActionView::RequireAuth(creator)]);
    if apply_refusal(s, creator, id) is Some {
        asked
    } else {
        EnvView {
            storage: s.storage.with_application(
                ApplicationView {
                    campaign_id: id,
                    creator,
                    pitch_uri,
                    proof_uri: None,
                    payout_amount: 0,
                    proof_approved: false,
                    status: ApplicationStatus::Pending,
                },
            ),
            ..asked.asking(
                seq![
                    ActionView::Publish(EventView::CreatorApplied { campaign_id: id, creator }),
                ],
            )
        }
    }
}

/// Why `approve_creator` is refused, if it is.
pub open spec fn approve_refusal(
    s: EnvView,
    business: Seq<char>,
    id: CampaignId,
    creator: Seq<char>,
    payout_amount: int,
) -> Option<Error> {
    if !s.has_campaign(id) {
        Some(Error::CampaignNotFound)
    } else if s.campaign(id).business != business {
        Some(Error::NotCampaignOwner)
    } else if !s.campaign(id).open() {
        Some(Error::InvalidStatus)
    } else if payout_amount <= 0 {
        Some(Error::InvalidAmount)
    } else if !s.has_application(id, creator) {
        Some(Error::ApplicationNotFound)
    } else if s.application(id, creator).status !is Pending {
        Some(Error::AlreadySelected)
    } else if s.campaign(id).approved_count >= s.campaign(id).max_creators {
        Some(Error::MaxCreatorsReached)
    } else if payout_amount > s.campaign(id).unallocated() {
        Some(Error::InsufficientEscrowBalance)
    } else {
        None
    }
}

/// What `approve_creator` leaves behind.
pub open spec fn after_approve(
    s: EnvView,
    business: Seq<char>,
    id: CampaignId,
    creator: Seq<char>,
    payout_amount: int,
) -> EnvView {
    let asked = s.asking(seq![ActionView::RequireAuth(business)]);
    if approve_refusal(s, business, id, creator, payout_amount) is Some {
        asked
    } else {
        let campaign = s.campaign(id);
        let application = s.application(id, creator);
        EnvView {
            storage: s.storage.with_application(
                ApplicationView {
                    payout_amount,
                    status: ApplicationStatus::Approved,
                    ..application
                },
            ).with_campaign(
                CampaignView {
                    approved_count: campaign.approved_count + 1,
                    committed_payouts: campaign.committed_payouts + payout_amount,
                    status: CampaignStatus::Active,
                    ..campaign
                },
            ),
            ..asked.asking(
                seq![
                    ActionView::Publish(
                        EventView::CreatorApproved { campaign_id: id, creator, payout_amount },
                    ),
                ],
            )
        }
    }
}

/// Why `submit_proof` is refused, if it is.
pub open spec fn submit_refusal(s: EnvView, creator: Seq<char>, id: CampaignId) -> Option<Error> {
    if !s.has_campaign(id) {
        Some(Error::CampaignNotFound)
    } else if s.timestamp > s.campaign(id).completion_deadline {
        Some(Error::ContentDeadlinePassed)
    } else if !s.has_application(id, creator) {
        Some(Error::ApplicationNotFound)
    } else if s.application(id, creator).status !is Approved {
        Some(Error::InvalidStatus)
    } else {
        None
    }
}

/// What `submit_proof` leaves behind.
pub open spec fn after_submit(
    s: EnvView,
    creator: Seq<char>,
    id: CampaignId,
    proof_uri: Seq<char>,
) -> EnvView {
    let asked = s.asking(seq![ActionView::RequireAuth(creator)]);
    if submit_refusal(s, creator, id) is Some {
        asked
    } else {
        EnvView {
            storage: s.storage.with_application(
                ApplicationView {
                    proof_uri: Some(proof_uri),
                    proof_approved: false,
                    status: ApplicationStatus::ProofSubmitted,
                    ..s.application(id, creator)
                },
            ),
            ..asked.asking(
                seq![
                    ActionView::Publish(EventView::ProofSubmitted { campaign_id: id, creator }),
                ],
            )
        }
    }
}

/// Why `approve_submission` and `reject_submission` are refused, if they are.
pub open spec fn review_refusal(
    s: EnvView,
    business: Seq<char>,
    id: CampaignId,
    creator: Seq<char>,
) -> Option<Error> {
    if !s.has_campaign(id) {
        Some(Error::CampaignNotFound)
    } else if s.campaign(id).business != business {
        Some(Error::NotCampaignOwner)
    } else if !s.has_application(id, creator) {
        Some(Error::ApplicationNotFound)
    } else if s.application(id, creator).status !is ProofSubmitted {
        Some(Error::InvalidStatus)
    } else {
        None
    }
}

/// What `approve_submission` leaves behind.
pub open spec fn after_approve_submission(
    s: EnvView,
    business: Seq<char>,
    id: CampaignId,
    creator: Seq<char>,
) -> EnvView {
    let asked = s.asking(seq![ActionView::RequireAuth(business)]);
    if review_refusal(s, business, id, creator) is Some {
        asked
    } else {
        EnvView {
            storage: s.storage.with_application(
                ApplicationView { proof_approved: true, ..s.application(id, creator) },
            ),
            ..asked
        }
    }
}

/// What `reject_submission` leaves behind.
pub open spec fn after_reject_submission(
    s: EnvView,
    business: Seq<char>,
    id: CampaignId,
    creator: Seq<char>,
) -> EnvView {
    let asked = s.asking(seq![ActionView::RequireAuth(business)]);
    if review_refusal(s, business, id, creator) is Some {
        asked
    } else {
        EnvView {
            storage: s.storage.with_application(
                ApplicationView {
                    proof_uri: None,
                    proof_approved: false,
                    status: ApplicationStatus::Approved,
                    ..s.application(id, creator)
                },
            ),
            ..asked
        }
    }
}

/// Why `claim_payment` is refused, if it is.
pub open spec fn claim_refusal(s: EnvView, creator: Seq<char>, id: CampaignId) -> Option<Error> {
    if !s.has_campaign(id) {
        Some(Error::CampaignNotFound)
    } else if !s.has_application(id, creator) {
        Some(Error::ApplicationNotFound)
    } else if s.application(id, creator).status !is ProofSubmitted {
        Some(Error::SubmissionNotPayable)
    } else if !s.application(id, creator).proof_approved && s.timestamp <= s.campaign(
        id,
    ).completion_deadline {
        Some(Error::SubmissionNotPayable)
    } else if s.storage.settings is None {
        Some(Error::NotInitialized)
    } else if s.application(id, creator).payout_amount * s.storage.settings->0.fee_bps
        > i128::MAX {
        Some(Error::InvalidAmount)
    } else {
        None
    }
}

/// What the contract pays for a claim: the fee, where there is one, and the
/// rest to the creator.
pub open spec fn claim_transfers(s: EnvView, creator: Seq<char>, id: CampaignId) -> Seq<
    ActionView,
> {
    let settings = s.storage.settings->0;
    let payout = s.application(id, creator).payout_amount;
    let fee = fee_of(payout, settings.fee_bps);
    let net = net_of(payout, settings.fee_bps);
    if fee > 0 {
        seq![s.pays(id, settings.admin, fee), s.pays(id, creator, net)]
    } else {
        seq![s.pays(id, creator, net)]
    }
}

/// What `claim_payment` leaves behind.
pub open spec fn after_claim(s: EnvView, creator: Seq<char>, id: CampaignId) -> EnvView {
    let asked = s.asking(seq![ActionView::RequireAuth(creator)]);
    if claim_refusal(s, creator, id) is Some {
        asked
    } else {
        let campaign = s.campaign(id);
        let application = s.application(id, creator);
        let payout = application.payout_amount;
        EnvView {
            storage: s.storage.with_application(
                ApplicationView { status: ApplicationStatus::Paid, ..application },
            ).with_campaign(
                CampaignView {
                    escrow_balance: campaign.escrow_balance - payout,
                    committed_payouts: campaign.committed_payouts - payout,
                    status: if campaign.escrow_balance == payout {
                        CampaignStatus::Completed
                    } else {
                        campaign.status
                    },
                    ..campaign
                },
            ),
            ..asked.asking(claim_transfers(s, creator, id)).asking(
                seq![
                    ActionView::Publish(
                        EventView::PaymentReleased {
                            campaign_id: id,
                            creator,
                            amount: net_of(payout, s.storage.settings->0.fee_bps),
                        },
                    ),
                ],
            )
        }
    }
}

/// Why `cancel_campaign` is refused, if it is.
pub open spec fn cancel_refusal(s: EnvView, business: Seq<char>, id: CampaignId) -> Option<Error> {
    if !s.has_campaign(id) {
        Some(Error::CampaignNotFound)
    } else if s.campaign(id).business != business {
        Some(Error::NotCampaignOwner)
    } else if s.campaign(id).status is Cancelled || s.campaign(id).paid_out() {
        Some(Error::InvalidStatus)
    } else {
        None
    }
}

/// Why `expire_campaign` is refused, if it is.
pub open spec fn expire_refusal(s: EnvView, business: Seq<char>, id: CampaignId) -> Option<Error> {
    if !s.has_campaign(id) {
        Some(Error::CampaignNotFound)
    } else if s.campaign(id).business != business {
        Some(Error::NotCampaignOwner)
    } else if s.timestamp <= s.campaign(id).completion_deadline {
        Some(Error::DeadlineNotReached)
    } else if s.campaign(id).closed() {
        Some(Error::InvalidStatus)
    } else {
        None
    }
}

/// Why `reclaim_surplus` is refused, if it is.
pub open spec fn reclaim_refusal(s: EnvView, business: Seq<char>, id: CampaignId) -> Option<
    Error,
> {
    if !s.has_campaign(id) {
        Some(Error::CampaignNotFound)
    } else if s.campaign(id).business != business {
        Some(Error::NotCampaignOwner)
    } else if s.campaign(id).status is Cancelled {
        Some(Error::InvalidStatus)
    } else {
        None
    }
}

/// The unallocated part of the escrow goes back to the business, and the
/// campaign goes on as `status`, holding what is committed and no more.
pub open spec fn after_refund(
    s: EnvView,
    business: Seq<char>,
    id: CampaignId,
    status: CampaignStatus,
) -> EnvView {
    let campaign = s.campaign(id);
    let refund = campaign.unallocated();
    EnvView {
        storage: s.storage.with_campaign(
            CampaignView { escrow_balance: campaign.committed_payouts, status, ..campaign },
        ),
        ..s.asking(
            if refund > 0 {
                seq![s.pays(id, business, refund)]
            } else {
                seq![]
            },
        ).asking(
            seq![
                ActionView::Publish(
                    EventView::CampaignCancelled { campaign_id: id, refunded_amount: refund },
                ),
            ],
        )
    }
}

/// What `cancel_campaign` leaves behind.
pub open spec fn after_cancel(s: EnvView, business: Seq<char>, id: CampaignId) -> EnvView {
    let asked = s.asking(seq![ActionView::RequireAuth(business)]);
    if cancel_refusal(s, business, id) is Some {
        asked
    } else {
        after_refund(asked, business, id, CampaignStatus::Cancelled)
    }
}

/// What `expire_campaign` leaves behind.
pub open spec fn after_expire(s: EnvView, business: Seq<char>, id: CampaignId) -> EnvView {
    let asked = s.asking(seq![ActionView::RequireAuth(business)]);
    if expire_refusal(s, business, id) is Some {
        asked
    } else {
        after_refund(asked, business, id, CampaignStatus::Cancelled)
    }
}

/// What `reclaim_surplus` leaves behind.
pub open spec fn after_reclaim(s: EnvView, business: Seq<char>, id: CampaignId) -> EnvView {
    let asked = s.asking(seq![ActionView::RequireAuth(business)]);
    if reclaim_refusal(s, business, id) is Some {
        asked
    } else {
        after_refund(asked, business, id, CampaignStatus::Completed)
    }
}

} // verus!
