//! The escrow contract: campaign creation, funding, creator applications,
//! selection, proof submission and review, payout release with the platform
//! fee, cancellation, expiry and surplus reclaim.
use crate::action::{Action, ActionView, Event};
use crate::books::lemma_reserved_within;
use crate::calls::Call;
use crate::env::Env;
use crate::error::Error;
use crate::laws::{law_entries_stay_valid, lemma_fee_within};
use crate::rules::{
    after_apply, after_approve, after_approve_submission, after_cancel, after_claim, after_create,
    after_expire, after_fund, after_initialize, after_reclaim, after_refund,
    after_reject_submission, after_submit, answer, apply_refusal, approve_refusal, cancel_refusal,
    claim_refusal, create_refusal, expire_refusal, fund_refusal,
    initialize_refusal, reclaim_refusal, review_refusal, submit_refusal,
};
use crate::shared::{
    Address, ApplicationStatus, CampaignId, CampaignStatus, PayoutAsset, BASIS_POINTS_DENOMINATOR,
};
use crate::types::{Application, Campaign, ProtocolConfig, ProtocolConfigView, Settings};
use vstd::prelude::*;

verus! {

/// Holds business-funded campaign budgets in escrow and releases them to
/// approved creators.
pub struct CampaignEscrowContract;

impl CampaignEscrowContract {
    /// One-time setup. Must be called before any campaign can be created.
    ///
    /// `dispute_contract` is the only address that may freeze a campaign for a
    /// dispute; it should be the deployed `dispute-resolution` contract's
    /// address. The treasury defaults to the admin.
    pub fn initialize(
        env: &mut Env,
        admin: Address,
        dispute_contract: Address,
        fee_bps: i128,
    ) -> (result: Result<(), Error>)
        requires
            old(env).well_formed(),
        ensures
            final(env).well_formed(),
            result == answer(initialize_refusal(old(env)@, fee_bps as int)),
            final(env)@ == after_initialize(
                old(env)@,
                admin@,
                dispute_contract@,
                fee_bps as int,
            ),
    {
        if env.storage.is_initialized() {
            return Err(Error::AlreadyInitialized);
        }
        if fee_bps < 0 || fee_bps > BASIS_POINTS_DENOMINATOR {
            return Err(Error::InvalidAmount);
        }
        env.ask(Action::RequireAuth(admin.clone()));
        let treasury = admin.clone();
        env.storage.set_settings(Settings { admin, treasury, dispute_contract, fee_bps });
        Ok(())
    }

    /// Tests whether a campaign with these terms can be created now, without
    /// creating it.
    pub fn check_creation(
        env: &Env,
        total_budget: i128,
        max_creators: u32,
        application_deadline: u64,
        completion_deadline: u64,
    ) -> (result: Result<(), Error>)
        ensures
            result == answer(
                create_refusal(
                    env@,
                    total_budget as int,
                    max_creators as nat,
                    application_deadline as int,
                    completion_deadline as int,
                ),
            ),
    {
        if !env.storage.is_initialized() {
            return Err(Error::NotInitialized);
        }
        if total_budget <= 0 || max_creators == 0 {
            return Err(Error::InvalidAmount);
        }
        let now: u64 = env.timestamp;
        if application_deadline <= now || completion_deadline <= now {
            return Err(Error::DeadlineInPast);
        }
        if application_deadline >= completion_deadline {
            return Err(Error::InvalidAmount);
        }
        Ok(())
    }

    /// Create a new draft campaign owned by `business`. Not yet escrowed:
    /// call `fund_campaign` afterwards to deposit `total_budget`.
    ///
    /// Validates `total_budget > 0`, `max_creators > 0`, that both deadlines
    /// are in the future and that `application_deadline < completion_deadline`.
    pub fn create_campaign(
        env: &mut Env,
        business: Address,
        asset: PayoutAsset,
        total_budget: i128,
        max_creators: u32,
        application_deadline: u64,
        completion_deadline: u64,
        metadata_uri: String,
    ) -> (result: Result<CampaignId, Error>)
        requires
            old(env).well_formed(),
            create_refusal(
                old(env)@,
                total_budget as int,
                max_creators as nat,
                application_deadline as int,
                completion_deadline as int,
            ) is None ==> old(env)@.storage.next_campaign_id < u64::MAX,
        ensures
            final(env).well_formed(),
            match create_refusal(
                old(env)@,
                total_budget as int,
                max_creators as nat,
                application_deadline as int,
                completion_deadline as int,
            ) {
                Some(error) => result == Err::<CampaignId, Error>(error),
                None => result == Ok::<CampaignId, Error>(
                    old(env)@.storage.next_campaign_id as u64,
                ),
            },
            final(env)@ == after_create(
                old(env)@,
                business@,
                asset@,
                total_budget as int,
                max_creators as nat,
                application_deadline as int,
                completion_deadline as int,
                metadata_uri@,
            ),
    {
        match Self::check_creation(
            env,
            total_budget,
            max_creators,
            application_deadline,
            completion_deadline,
        ) {
            Ok(()) => {},
            Err(error) => return Err(error),
        }
        proof {
            law_entries_stay_valid(
                env@,
                Call::CreateCampaign {
                    business: business@,
                    asset: asset@,
                    total_budget: total_budget as int,
                    max_creators: max_creators as nat,
                    application_deadline: application_deadline as int,
                    completion_deadline: completion_deadline as int,
                    metadata_uri: metadata_uri@,
                },
            );
        }
        env.ask(Action::RequireAuth(business.clone()));

        let id: CampaignId = env.storage.next_campaign_id();
        let campaign = Campaign {
            id,
            business: business.clone(),
            asset,
            total_budget,
            escrow_balance: 0,
            committed_payouts: 0,
            max_creators,
            approved_count: 0,
            application_deadline,
            completion_deadline,
            metadata_uri,
            status: CampaignStatus::Draft,
        };
        env.storage.set_campaign(campaign);
        env.ask(Action::Publish(Event::CampaignCreated { business, campaign_id: id }));
        Ok(id)
    }

    /// Transfer `campaign.total_budget` of `campaign.asset.token` from
    /// `business` into this contract, moving the campaign from `Draft` to
    /// `Funded`. Funding is strictly all-at-once.
    pub fn fund_campaign(env: &mut Env, business: Address, campaign_id: CampaignId) -> (result:
        Result<(), Error>)
        requires
            old(env).well_formed(),
        ensures
            final(env).well_formed(),
            result == answer(fund_refusal(old(env)@, business@, campaign_id)),
            final(env)@ == after_fund(old(env)@, business@, campaign_id),
    {
        proof {
            law_entries_stay_valid(
                env@,
                Call::FundCampaign { business: business@, id: campaign_id },
            );
        }
        env.ask(Action::RequireAuth(business.clone()));
        let mut campaign = match env.storage.get_campaign(campaign_id) {
            Ok(campaign) => campaign,
            Err(error) => return Err(error),
        };
        if campaign.status != CampaignStatus::Draft {
            return Err(Error::InvalidStatus);
        }
        if !campaign.business.same_as(&business) {
            return Err(Error::NotCampaignOwner);
        }
        let amount: i128 = campaign.total_budget;
        env.ask(
            Action::Transfer {
                token: campaign.asset.token.clone(),
                from: business,
                to: env.contract.clone(),
                amount,
            },
        );
        campaign.escrow_balance = amount;
        campaign.status = CampaignStatus::Funded;
        env.storage.set_campaign(campaign);
        env.ask(Action::Publish(Event::CampaignFunded { campaign_id, amount }));
        Ok(())
    }

    /// Creator applies to a funded (`Funded` or `Active`) campaign before its
    /// application deadline. A creator may apply only once per campaign.
    pub fn apply_to_campaign(
        env: &mut Env,
        creator: Address,
        campaign_id: CampaignId,
        pitch_uri: String,
    ) -> (result: Result<(), Error>)
        requires
            old(env).well_formed(),
        ensures
            final(env).well_formed(),
            result == answer(apply_refusal(old(env)@, creator@, campaign_id)),
            final(env)@ == after_apply(old(env)@, creator@, campaign_id, pitch_uri@),
    {
        proof {
            law_entries_stay_valid(
                env@,
                Call::ApplyToCampaign {
                    creator: creator@,
                    id: campaign_id,
                    pitch_uri: pitch_uri@,
                },
            );
        }
        env.ask(Action::RequireAuth(creator.clone()));
        let campaign = match env.storage.get_campaign(campaign_id) {
            Ok(campaign) => campaign,
            Err(error) => return Err(error),
        };
        if !campaign.is_open() {
            return Err(Error::InvalidStatus);
        }
        if env.timestamp > campaign.application_deadline {
            return Err(Error::ApplicationDeadlinePassed);
        }
        if env.storage.get_application(campaign_id, &creator).is_ok() {
            return Err(Error::AlreadyApplied);
        }
        let application = Application {
            campaign_id,
            creator: creator.clone(),
            pitch_uri,
            proof_uri: None,
            payout_amount: 0,
            proof_approved: false,
            status: ApplicationStatus::Pending,
        };
        env.storage.set_application(application);
        env.ask(Action::Publish(Event::CreatorApplied { campaign_id, creator }));
        Ok(())
    }

    /// Business approves a pending application, selecting the creator and
    /// setting their agreed `payout_amount`. Guards against selecting more
    /// than `max_creators`, double-selection, and over-committing escrow.
    pub fn approve_creator(
        env: &mut Env,
        business: Address,
        campaign_id: CampaignId,
        creator: Address,
        payout_amount: i128,
    ) -> (result: Result<(), Error>)
        requires
            old(env).well_formed(),
        ensures
            final(env).well_formed(),
            result == answer(
                approve_refusal(
                    old(env)@,
                    business@,
                    campaign_id,
                    creator@,
                    payout_amount as int,
                ),
            ),
            final(env)@ == after_approve(
                old(env)@,
                business@,
                campaign_id,
                creator@,
                payout_amount as int,
            ),
    {
        proof {
            law_entries_stay_valid(
                env@,
                Call::ApproveCreator {
                    business: business@,
                    id: campaign_id,
                    creator: creator@,
                    payout_amount: payout_amount as int,
                },
            );
        }
        env.ask(Action::RequireAuth(business.clone()));
        let mut campaign = match env.storage.get_campaign(campaign_id) {
            Ok(campaign) => campaign,
            Err(error) => return Err(error),
        };
        if !campaign.business.same_as(&business) {
            return Err(Error::NotCampaignOwner);
        }
        if !campaign.is_open() {
            return Err(Error::InvalidStatus);
        }
        if payout_amount <= 0 {
            return Err(Error::InvalidAmount);
        }
        let mut application = match env.storage.get_application(campaign_id, &creator) {
            Ok(application) => application,
            Err(error) => return Err(error),
        };
        if application.status != ApplicationStatus::Pending {
            return Err(Error::AlreadySelected);
        }
        if campaign.approved_count >= campaign.max_creators {
            return Err(Error::MaxCreatorsReached);
        }
        // What is committed never exceeds the escrow, and what is left over
        // bounds the new payout, however large it is.
        if payout_amount > campaign.escrow_balance - campaign.committed_payouts {
            return Err(Error::InsufficientEscrowBalance);
        }
        application.payout_amount = payout_amount;
        application.status = ApplicationStatus::Approved;
        env.storage.set_application(application);

        campaign.approved_count = campaign.approved_count + 1;
        campaign.committed_payouts = campaign.committed_payouts + payout_amount;
        if campaign.status == CampaignStatus::Funded {
            campaign.status = CampaignStatus::Active;
        }
        env.storage.set_campaign(campaign);
        env.ask(Action::Publish(Event::CreatorApproved { campaign_id, creator, payout_amount }));
        Ok(())
    }

    /// Approved creator submits proof of completed work. May only be called
    /// before the content deadline.
    pub fn submit_proof(
        env: &mut Env,
        creator: Address,
        campaign_id: CampaignId,
        proof_uri: String,
    ) -> (result: Result<(), Error>)
        requires
            old(env).well_formed(),
        ensures
            final(env).well_formed(),
            result == answer(submit_refusal(old(env)@, creator@, campaign_id)),
            final(env)@ == after_submit(old(env)@, creator@, campaign_id, proof_uri@),
    {
        proof {
            law_entries_stay_valid(
                env@,
                Call::SubmitProof { creator: creator@, id: campaign_id, proof_uri: proof_uri@ },
            );
        }
        env.ask(Action::RequireAuth(creator.clone()));
        let campaign = match env.storage.get_campaign(campaign_id) {
            Ok(campaign) => campaign,
            Err(error) => return Err(error),
        };
        if env.timestamp > campaign.completion_deadline {
            return Err(Error::ContentDeadlinePassed);
        }
        let mut application = match env.storage.get_application(campaign_id, &creator) {
            Ok(application) => application,
            Err(error) => return Err(error),
        };
        if application.status != ApplicationStatus::Approved {
            return Err(Error::InvalidStatus);
        }
        application.proof_uri = Some(proof_uri);
        application.status = ApplicationStatus::ProofSubmitted;
        application.proof_approved = false;
        env.storage.set_application(application);
        env.ask(Action::Publish(Event::ProofSubmitted { campaign_id, creator }));
        Ok(())
    }

    /// Business accepts a submitted proof, marking the submission payable.
    pub fn approve_submission(
        env: &mut Env,
        business: Address,
        campaign_id: CampaignId,
        creator: Address,
    ) -> (result: Result<(), Error>)
        requires
            old(env).well_formed(),
        ensures
            final(env).well_formed(),
            result == answer(review_refusal(old(env)@, business@, campaign_id, creator@)),
            final(env)@ == after_approve_submission(
                old(env)@,
                business@,
                campaign_id,
                creator@,
            ),
    {
        proof {
            law_entries_stay_valid(
                env@,
                Call::ApproveSubmission {
                    business: business@,
                    id: campaign_id,
                    creator: creator@,
                },
            );
        }
        env.ask(Action::RequireAuth(business.clone()));
        let campaign = match env.storage.get_campaign(campaign_id) {
            Ok(campaign) => campaign,
            Err(error) => return Err(error),
        };
        if !campaign.business.same_as(&business) {
            return Err(Error::NotCampaignOwner);
        }
        let mut application = match env.storage.get_application(campaign_id, &creator) {
            Ok(application) => application,
            Err(error) => return Err(error),
        };
        if application.status != ApplicationStatus::ProofSubmitted {
            return Err(Error::InvalidStatus);
        }
        application.proof_approved = true;
        env.storage.set_application(application);
        Ok(())
    }

    /// Business rejects a submitted proof, returning the creator to the
    /// selected state so they may re-submit proof.
    pub fn reject_submission(
        env: &mut Env,
        business: Address,
        campaign_id: CampaignId,
        creator: Address,
    ) -> (result: Result<(), Error>)
        requires
            old(env).well_formed(),
        ensures
            final(env).well_formed(),
            result == answer(review_refusal(old(env)@, business@, campaign_id, creator@)),
            final(env)@ == after_reject_submission(
                old(env)@,
                business@,
                campaign_id,
                creator@,
            ),
    {
        proof {
            law_entries_stay_valid(
                env@,
                Call::RejectSubmission {
                    business: business@,
                    id: campaign_id,
                    creator: creator@,
                },
            );
        }
        env.ask(Action::RequireAuth(business.clone()));
        let campaign = match env.storage.get_campaign(campaign_id) {
            Ok(campaign) => campaign,
            Err(error) => return Err(error),
        };
        if !campaign.business.same_as(&business) {
            return Err(Error::NotCampaignOwner);
        }
        let mut application = match env.storage.get_application(campaign_id, &creator) {
            Ok(application) => application,
            Err(error) => return Err(error),
        };
        if application.status != ApplicationStatus::ProofSubmitted {
            return Err(Error::InvalidStatus);
        }
        application.proof_uri = None;
        application.proof_approved = false;
        application.status = ApplicationStatus::Approved;
        env.storage.set_application(application);
        Ok(())
    }

    /// Release an approved creator's escrowed payout, deducting the platform
    /// fee configured at `initialize`. Callable by the creator once their
    /// submission is approved, or automatically once the content deadline has
    /// passed (auto-approval).
    pub fn claim_payment(env: &mut Env, creator: Address, campaign_id: CampaignId) -> (result:
        Result<(), Error>)
        requires
            old(env).well_formed(),
        ensures
            final(env).well_formed(),
            result == answer(claim_refusal(old(env)@, creator@, campaign_id)),
            final(env)@ == after_claim(old(env)@, creator@, campaign_id),
    {
        proof {
            law_entries_stay_valid(
                env@,
                Call::ClaimPayment { creator: creator@, id: campaign_id },
            );
        }
        env.ask(Action::RequireAuth(creator.clone()));
        let mut campaign = match env.storage.get_campaign(campaign_id) {
            Ok(campaign) => campaign,
            Err(error) => return Err(error),
        };
        let mut application = match env.storage.get_application(campaign_id, &creator) {
            Ok(application) => application,
            Err(error) => return Err(error),
        };
        if application.status != ApplicationStatus::ProofSubmitted {
            return Err(Error::SubmissionNotPayable);
        }
        let auto_approved = env.timestamp > campaign.completion_deadline;
        if !application.proof_approved && !auto_approved {
            return Err(Error::SubmissionNotPayable);
        }
        let settings = match env.storage.get_settings() {
            Ok(settings) => settings,
            Err(error) => return Err(error),
        };
        let payout: i128 = application.payout_amount;
        proof {
            lemma_reserved_within(old(env)@.storage, (campaign_id, creator@));
            lemma_fee_within(payout as int, settings.fee_bps as int);
        }
        let fee: i128 = match payout.checked_mul(settings.fee_bps) {
            Some(product) => product / BASIS_POINTS_DENOMINATOR,
            None => return Err(Error::InvalidAmount),
        };
        let net: i128 = match payout.checked_sub(fee) {
            Some(net) => net,
            None => return Err(Error::InvalidAmount),
        };
        if fee > 0 {
            env.ask(
                Action::Transfer {
                    token: campaign.asset.token.clone(),
                    from: env.contract.clone(),
                    to: settings.admin,
                    amount: fee,
                },
            );
        }
        env.ask(
            Action::Transfer {
                token: campaign.asset.token.clone(),
                from: env.contract.clone(),
                to: creator.clone(),
                amount: net,
            },
        );
        application.status = ApplicationStatus::Paid;
        env.storage.set_application(application);

        campaign.escrow_balance = campaign.escrow_balance - payout;
        campaign.committed_payouts = campaign.committed_payouts - payout;
        if campaign.escrow_balance == 0 {
            campaign.status = CampaignStatus::Completed;
        }
        env.storage.set_campaign(campaign);
        env.ask(Action::Publish(Event::PaymentReleased { campaign_id, creator, amount: net }));
        Ok(())
    }

    /// Sends the unallocated part of the escrow back to the business and moves
    /// the campaign on to `status`. `committed_payouts` stays intact, so that
    /// creators who are still owed payment can `claim_payment` afterward.
    fn release_unallocated(
        env: &mut Env,
        business: Address,
        campaign: Campaign,
        status: CampaignStatus,
    ) -> (result: Result<(), Error>)
        requires
            old(env).well_formed(),
            old(env)@.has_campaign(campaign.id),
            old(env)@.campaign(campaign.id) == campaign@,
        ensures
            result == Ok::<(), Error>(()),
            final(env).storage.well_formed(),
            final(env)@ == after_refund(old(env)@, business@, campaign.id, status),
    {
        let mut campaign = campaign;
        let campaign_id: CampaignId = campaign.id;
        // Never refund more than the unallocated balance.
        let refund: i128 = match campaign.escrow_balance.checked_sub(campaign.committed_payouts) {
            Some(refund) => refund,
            None => return Err(Error::InvalidAmount),
        };
        if refund > 0 {
            env.ask(
                Action::Transfer {
                    token: campaign.asset.token.clone(),
                    from: env.contract.clone(),
                    to: business,
                    amount: refund,
                },
            );
        }
        campaign.escrow_balance = campaign.committed_payouts;
        campaign.status = status;
        env.storage.set_campaign(campaign);
        env.ask(
            Action::Publish(Event::CampaignCancelled { campaign_id, refunded_amount: refund }),
        );
        Ok(())
    }

    /// Cancel a campaign and refund the unallocated (never-committed) portion
    /// of the escrow to the business. Allowed at any point before full payout
    /// completion. Payouts already committed to approved creators remain
    /// reserved and can still be claimed via `claim_payment` afterward.
    pub fn cancel_campaign(env: &mut Env, business: Address, campaign_id: CampaignId) -> (result:
        Result<(), Error>)
        requires
            old(env).well_formed(),
        ensures
            final(env).well_formed(),
            result == answer(cancel_refusal(old(env)@, business@, campaign_id)),
            final(env)@ == after_cancel(old(env)@, business@, campaign_id),
    {
        proof {
            law_entries_stay_valid(
                env@,
                Call::CancelCampaign { business: business@, id: campaign_id },
            );
        }
        env.ask(Action::RequireAuth(business.clone()));
        let campaign = match env.storage.get_campaign(campaign_id) {
            Ok(campaign) => campaign,
            Err(error) => return Err(error),
        };
        if !campaign.business.same_as(&business) {
            return Err(Error::NotCampaignOwner);
        }
        // A campaign whose surplus was reclaimed is not paid out as long as a
        // creator is owed.
        if campaign.status == CampaignStatus::Cancelled || campaign.status
            == CampaignStatus::Completed && campaign.committed_payouts == 0 {
            return Err(Error::InvalidStatus);
        }
        Self::release_unallocated(env, business, campaign, CampaignStatus::Cancelled)
    }

    /// Expire a campaign past its content deadline, refunding the unallocated
    /// (never-committed) portion of the escrow balance to the business. Fails
    /// if called before the content deadline is reached. Any payout already
    /// committed to an approved creator remains reserved and claimable.
    pub fn expire_campaign(env: &mut Env, business: Address, campaign_id: CampaignId) -> (result:
        Result<(), Error>)
        requires
            old(env).well_formed(),
        ensures
            final(env).well_formed(),
            result == answer(expire_refusal(old(env)@, business@, campaign_id)),
            final(env)@ == after_expire(old(env)@, business@, campaign_id),
    {
        proof {
            law_entries_stay_valid(
                env@,
                Call::ExpireCampaign { business: business@, id: campaign_id },
            );
        }
        env.ask(Action::RequireAuth(business.clone()));
        let campaign = match env.storage.get_campaign(campaign_id) {
            Ok(campaign) => campaign,
            Err(error) => return Err(error),
        };
        if !campaign.business.same_as(&business) {
            return Err(Error::NotCampaignOwner);
        }
        if env.timestamp <= campaign.completion_deadline {
            return Err(Error::DeadlineNotReached);
        }
        if campaign.status == CampaignStatus::Cancelled || campaign.status
            == CampaignStatus::Completed {
            return Err(Error::InvalidStatus);
        }
        Self::release_unallocated(env, business, campaign, CampaignStatus::Cancelled)
    }

    /// Reclaim any unallocated (surplus) escrow back to the business. Surplus
    /// is whatever escrow remains once committed payouts are excluded, so it
    /// can be called while approved creators are still owed payment: those
    /// reserved payouts remain claimable afterward.
    pub fn reclaim_surplus(env: &mut Env, business: Address, campaign_id: CampaignId) -> (result:
        Result<(), Error>)
        requires
            old(env).well_formed(),
        ensures
            final(env).well_formed(),
            result == answer(reclaim_refusal(old(env)@, business@, campaign_id)),
            final(env)@ == after_reclaim(old(env)@, business@, campaign_id),
    {
        proof {
            law_entries_stay_valid(
                env@,
                Call::ReclaimSurplus { business: business@, id: campaign_id },
            );
        }
        env.ask(Action::RequireAuth(business.clone()));
        let campaign = match env.storage.get_campaign(campaign_id) {
            Ok(campaign) => campaign,
            Err(error) => return Err(error),
        };
        if !campaign.business.same_as(&business) {
            return Err(Error::NotCampaignOwner);
        }
        if campaign.status == CampaignStatus::Cancelled {
            return Err(Error::InvalidStatus);
        }
        Self::release_unallocated(env, business, campaign, CampaignStatus::Completed)
    }

    /// Read-only lookup of a campaign's current state.
    pub fn get_campaign(env: &Env, campaign_id: CampaignId) -> (campaign: Result<Campaign, Error>)
        requires
            env.well_formed(),
        ensures
            if env@.has_campaign(campaign_id) {
                campaign matches Ok(found) && found@ == env@.campaign(campaign_id)
            } else {
                campaign == Err::<Campaign, Error>(Error::CampaignNotFound)
            },
    {
        env.storage.get_campaign(campaign_id)
    }

    /// Read-only lookup of a creator's application to a campaign.
    pub fn get_application(env: &Env, campaign_id: CampaignId, creator: Address) -> (application:
        Result<Application, Error>)
        requires
            env.well_formed(),
        ensures
            if env@.has_application(campaign_id, creator@) {
                application matches Ok(found) && found@ == env@.application(
                    campaign_id,
                    creator@,
                )
            } else {
                application == Err::<Application, Error>(Error::ApplicationNotFound)
            },
    {
        env.storage.get_application(campaign_id, &creator)
    }

    /// Read-only lookup of protocol-level config (admin, treasury, fee_bps)
    /// so the frontend can compute a fee breakdown before funding a
    /// campaign. Requires no auth. Errors with `Error::NotInitialized` if
    /// called before `initialize`.
    pub fn get_protocol_config(env: &mut Env) -> (config: Result<ProtocolConfig, Error>)
        requires
            old(env).well_formed(),
        ensures
            final(env).well_formed(),
            match old(env)@.storage.settings {
                Some(settings) => {
                    &&& config matches Ok(found) && found@ == (ProtocolConfigView {
                        admin: settings.admin,
                        treasury: settings.treasury,
                        fee_bps: settings.fee_bps,
                    })
                    &&& final(env)@ == old(env)@.asking(seq![ActionView::ExtendInstanceTtl])
                },
                None => {
                    &&& config == Err::<ProtocolConfig, Error>(Error::NotInitialized)
                    &&& final(env)@ == old(env)@
                },
            },
    {
        let settings = match env.storage.get_settings() {
            Ok(settings) => settings,
            Err(error) => return Err(error),
        };
        env.ask(Action::ExtendInstanceTtl);
        Ok(
            ProtocolConfig {
                admin: settings.admin,
                treasury: settings.treasury,
                fee_bps: settings.fee_bps,
            },
        )
    }
}

} // verus!
