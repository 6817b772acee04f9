//! Each rule of the escrow on plain values: answers, entries, and what a call
//! asks for.
use campaign_escrow::action::{Action, Event};
use campaign_escrow::env::Env;
use campaign_escrow::shared::{
    Address, ApplicationStatus, CampaignId, CampaignStatus, PayoutAsset,
};
use campaign_escrow::storage::Storage;
use campaign_escrow::types::Settings;
use campaign_escrow::{Application, Campaign, CampaignEscrowContract, Error, ProtocolConfig};

const START: u64 = 1_000;
const APPLY_BY: u64 = 2_000;
const FINISH_BY: u64 = 3_000;

fn at(name: &str) -> Address {
    Address {
        strkey: name.to_string(),
    }
}

fn usdc() -> PayoutAsset {
    PayoutAsset {
        token: at("token"),
        symbol: "USDC".to_string(),
    }
}

fn deployed() -> Env {
    Env::new(START, at("escrow"), Storage::new())
}

fn initialized(fee_bps: i128) -> Env {
    let mut env = deployed();
    CampaignEscrowContract::initialize(&mut env, at("admin"), at("dispute"), fee_bps).unwrap();
    env
}

fn create(env: &mut Env, budget: i128, max_creators: u32) -> Result<CampaignId, Error> {
    CampaignEscrowContract::create_campaign(
        env,
        at("shop"),
        usdc(),
        budget,
        max_creators,
        APPLY_BY,
        FINISH_BY,
        "brief".to_string(),
    )
}

fn fund(env: &mut Env, id: CampaignId) -> Result<(), Error> {
    CampaignEscrowContract::fund_campaign(env, at("shop"), id)
}

fn funded(fee_bps: i128, budget: i128, max_creators: u32) -> (Env, CampaignId) {
    let mut env = initialized(fee_bps);
    let id = create(&mut env, budget, max_creators).unwrap();
    fund(&mut env, id).unwrap();
    (env, id)
}

fn apply(env: &mut Env, who: &str, id: CampaignId) -> Result<(), Error> {
    CampaignEscrowContract::apply_to_campaign(env, at(who), id, "pitch".to_string())
}

fn select(env: &mut Env, who: &str, id: CampaignId, payout: i128) -> Result<(), Error> {
    CampaignEscrowContract::approve_creator(env, at("shop"), id, at(who), payout)
}

fn submit(env: &mut Env, who: &str, id: CampaignId) -> Result<(), Error> {
    CampaignEscrowContract::submit_proof(env, at(who), id, "work".to_string())
}

fn accept(env: &mut Env, who: &str, id: CampaignId) -> Result<(), Error> {
    CampaignEscrowContract::approve_submission(env, at("shop"), id, at(who))
}

fn reject(env: &mut Env, who: &str, id: CampaignId) -> Result<(), Error> {
    CampaignEscrowContract::reject_submission(env, at("shop"), id, at(who))
}

fn claim(env: &mut Env, who: &str, id: CampaignId) -> Result<(), Error> {
    CampaignEscrowContract::claim_payment(env, at(who), id)
}

fn cancel(env: &mut Env, id: CampaignId) -> Result<(), Error> {
    CampaignEscrowContract::cancel_campaign(env, at("shop"), id)
}

fn expire(env: &mut Env, id: CampaignId) -> Result<(), Error> {
    CampaignEscrowContract::expire_campaign(env, at("shop"), id)
}

fn reclaim(env: &mut Env, id: CampaignId) -> Result<(), Error> {
    CampaignEscrowContract::reclaim_surplus(env, at("shop"), id)
}

fn payable(env: &mut Env, who: &str, id: CampaignId, payout: i128) {
    apply(env, who, id).unwrap();
    select(env, who, id, payout).unwrap();
    submit(env, who, id).unwrap();
    accept(env, who, id).unwrap();
}

fn campaign(env: &Env, id: CampaignId) -> Campaign {
    CampaignEscrowContract::get_campaign(env, id).unwrap()
}

fn application(env: &Env, who: &str, id: CampaignId) -> Application {
    CampaignEscrowContract::get_application(env, id, at(who)).unwrap()
}

fn pays(to: &str, amount: i128) -> Action {
    Action::Transfer {
        token: at("token"),
        from: at("escrow"),
        to: at(to),
        amount,
    }
}

fn auth(who: &str) -> Action {
    Action::RequireAuth(at(who))
}

// What each call asks for and leaves behind

#[test]
fn initialize_writes_the_settings_and_demands_the_admin() {
    let mut env = deployed();
    assert!(!env.storage.is_initialized());
    let answer = CampaignEscrowContract::initialize(&mut env, at("admin"), at("dispute"), 10_000);
    assert_eq!(answer, Ok(()));
    assert_eq!(env.actions, vec![auth("admin")]);
    assert_eq!(
        env.storage.get_settings(),
        Ok(Settings {
            admin: at("admin"),
            treasury: at("admin"),
            dispute_contract: at("dispute"),
            fee_bps: 10_000,
        })
    );
}

#[test]
fn refused_initialize_demands_nobody() {
    let mut env = deployed();
    let answer = CampaignEscrowContract::initialize(&mut env, at("admin"), at("dispute"), -1);
    assert_eq!(answer, Err(Error::InvalidAmount));
    assert!(env.actions.is_empty());
    let mut env = initialized(0);
    env.actions.clear();
    // The range of the fee does not matter any more.
    let answer = CampaignEscrowContract::initialize(&mut env, at("other"), at("dispute"), -1);
    assert_eq!(answer, Err(Error::AlreadyInitialized));
    assert!(env.actions.is_empty());
}

#[test]
fn protocol_config_keeps_the_instance_alive() {
    let mut env = initialized(75);
    env.actions.clear();
    let config = CampaignEscrowContract::get_protocol_config(&mut env);
    assert_eq!(
        config,
        Ok(ProtocolConfig {
            admin: at("admin"),
            treasury: at("admin"),
            fee_bps: 75,
        })
    );
    assert_eq!(env.actions, vec![Action::ExtendInstanceTtl]);
}

#[test]
fn created_campaign_is_a_draft() {
    let mut env = initialized(0);
    env.actions.clear();
    assert_eq!(create(&mut env, 500, 2), Ok(0));
    assert_eq!(
        campaign(&env, 0),
        Campaign {
            id: 0,
            business: at("shop"),
            asset: usdc(),
            total_budget: 500,
            escrow_balance: 0,
            committed_payouts: 0,
            max_creators: 2,
            approved_count: 0,
            application_deadline: APPLY_BY,
            completion_deadline: FINISH_BY,
            metadata_uri: "brief".to_string(),
            status: CampaignStatus::Draft,
        }
    );
    assert_eq!(
        env.actions,
        vec![
            auth("shop"),
            Action::Publish(Event::CampaignCreated {
                business: at("shop"),
                campaign_id: 0,
            }),
        ]
    );
    assert_eq!(create(&mut env, 500, 2), Ok(1));
    assert_eq!(env.storage.peek_campaign_id(), 2);
}

#[test]
fn creation_is_refused_for_each_reason() {
    let mut env = deployed();
    assert_eq!(create(&mut env, 500, 2), Err(Error::NotInitialized));
    let mut env = initialized(0);
    env.actions.clear();
    assert_eq!(create(&mut env, 0, 2), Err(Error::InvalidAmount));
    assert_eq!(create(&mut env, -5, 2), Err(Error::InvalidAmount));
    assert_eq!(create(&mut env, 500, 0), Err(Error::InvalidAmount));
    let mut with_deadlines = |apply_by: u64, finish_by: u64| {
        CampaignEscrowContract::create_campaign(
            &mut env,
            at("shop"),
            usdc(),
            500,
            2,
            apply_by,
            finish_by,
            "brief".to_string(),
        )
    };
    assert_eq!(
        with_deadlines(START, START + 5),
        Err(Error::DeadlineInPast)
    );
    assert_eq!(
        with_deadlines(START + 5, START),
        Err(Error::DeadlineInPast)
    );
    assert_eq!(
        with_deadlines(START + 5, START + 5),
        Err(Error::InvalidAmount)
    );
    assert_eq!(with_deadlines(START + 1, START + 2), Ok(0));
    assert_eq!(env.actions.len(), 2);
}

#[test]
fn terms_can_be_checked_before_creation() {
    let check = |env: &Env, budget: i128, max_creators: u32, apply_by: u64| {
        CampaignEscrowContract::check_creation(env, budget, max_creators, apply_by, FINISH_BY)
    };
    assert_eq!(
        check(&deployed(), 500, 2, APPLY_BY),
        Err(Error::NotInitialized)
    );
    let env = initialized(0);
    assert_eq!(check(&env, 500, 2, APPLY_BY), Ok(()));
    assert_eq!(check(&env, 0, 2, APPLY_BY), Err(Error::InvalidAmount));
    assert_eq!(check(&env, 500, 0, APPLY_BY), Err(Error::InvalidAmount));
    assert_eq!(check(&env, 500, 2, START), Err(Error::DeadlineInPast));
    assert_eq!(check(&env, 500, 2, FINISH_BY), Err(Error::InvalidAmount));
    assert_eq!(env.storage.peek_campaign_id(), 0);
}

#[test]
fn refusals_do_not_wait_for_a_free_number() {
    let settings = initialized(0).storage.get_settings().unwrap();
    let storage = Storage::load(Some(settings), u64::MAX, None, None).unwrap();
    let mut env = Env::new(START, at("escrow"), storage);
    assert_eq!(create(&mut env, 0, 2), Err(Error::InvalidAmount));
    assert_eq!(create(&mut env, 500, 0), Err(Error::InvalidAmount));
    assert!(env.actions.is_empty());
    assert_eq!(env.storage.peek_campaign_id(), u64::MAX);
}

#[test]
fn funding_moves_the_whole_budget() {
    let mut env = initialized(0);
    let id = create(&mut env, 500, 2).unwrap();
    env.actions.clear();
    assert_eq!(fund(&mut env, id), Ok(()));
    assert_eq!(campaign(&env, id).escrow_balance, 500);
    assert_eq!(campaign(&env, id).status, CampaignStatus::Funded);
    assert_eq!(
        env.actions,
        vec![
            auth("shop"),
            Action::Transfer {
                token: at("token"),
                from: at("shop"),
                to: at("escrow"),
                amount: 500,
            },
            Action::Publish(Event::CampaignFunded {
                campaign_id: id,
                amount: 500,
            }),
        ]
    );
}

#[test]
fn funding_is_refused_for_each_reason() {
    let mut env = initialized(0);
    assert_eq!(fund(&mut env, 7), Err(Error::CampaignNotFound));
    let id = create(&mut env, 500, 2).unwrap();
    env.actions.clear();
    assert_eq!(
        CampaignEscrowContract::fund_campaign(&mut env, at("stranger"), id),
        Err(Error::NotCampaignOwner)
    );
    assert_eq!(env.actions, vec![auth("stranger")]);
    fund(&mut env, id).unwrap();
    assert_eq!(fund(&mut env, id), Err(Error::InvalidStatus));
    assert_eq!(
        CampaignEscrowContract::fund_campaign(&mut env, at("stranger"), id),
        Err(Error::InvalidStatus)
    );
    assert_eq!(campaign(&env, id).escrow_balance, 500);
}

#[test]
fn application_waits_for_a_decision() {
    let (mut env, id) = funded(0, 500, 2);
    env.actions.clear();
    env.timestamp = APPLY_BY;
    assert_eq!(apply(&mut env, "ana", id), Ok(()));
    assert_eq!(
        application(&env, "ana", id),
        Application {
            campaign_id: id,
            creator: at("ana"),
            pitch_uri: "pitch".to_string(),
            proof_uri: None,
            payout_amount: 0,
            proof_approved: false,
            status: ApplicationStatus::Pending,
        }
    );
    assert_eq!(
        env.actions,
        vec![
            auth("ana"),
            Action::Publish(Event::CreatorApplied {
                campaign_id: id,
                creator: at("ana"),
            }),
        ]
    );
    env.timestamp = APPLY_BY + 1;
    assert_eq!(
        apply(&mut env, "bea", id),
        Err(Error::ApplicationDeadlinePassed)
    );
}

#[test]
fn applications_need_a_funded_campaign() {
    let mut env = initialized(0);
    assert_eq!(apply(&mut env, "ana", 0), Err(Error::CampaignNotFound));
    let id = create(&mut env, 500, 2).unwrap();
    assert_eq!(apply(&mut env, "ana", id), Err(Error::InvalidStatus));
    fund(&mut env, id).unwrap();
    apply(&mut env, "ana", id).unwrap();
    select(&mut env, "ana", id, 5).unwrap();
    // An active campaign still takes applications.
    assert_eq!(apply(&mut env, "bea", id), Ok(()));
    cancel(&mut env, id).unwrap();
    assert_eq!(apply(&mut env, "cem", id), Err(Error::InvalidStatus));
}

#[test]
fn selection_commits_the_payout() {
    let (mut env, id) = funded(0, 500, 2);
    apply(&mut env, "ana", id).unwrap();
    env.actions.clear();
    assert_eq!(select(&mut env, "ana", id, 300), Ok(()));
    let after = campaign(&env, id);
    assert_eq!(after.status, CampaignStatus::Active);
    assert_eq!(after.approved_count, 1);
    assert_eq!(after.committed_payouts, 300);
    assert_eq!(after.escrow_balance, 500);
    assert_eq!(application(&env, "ana", id).payout_amount, 300);
    assert_eq!(
        application(&env, "ana", id).status,
        ApplicationStatus::Approved
    );
    assert_eq!(
        env.actions,
        vec![
            auth("shop"),
            Action::Publish(Event::CreatorApproved {
                campaign_id: id,
                creator: at("ana"),
                payout_amount: 300,
            }),
        ]
    );
}

#[test]
fn selection_is_refused_for_each_reason() {
    let (mut env, id) = funded(0, 500, 2);
    assert_eq!(
        select(&mut env, "ana", id + 1, 5),
        Err(Error::CampaignNotFound)
    );
    assert_eq!(select(&mut env, "ana", id, 0), Err(Error::InvalidAmount));
    assert_eq!(
        select(&mut env, "ana", id, 5),
        Err(Error::ApplicationNotFound)
    );
    for who in ["ana", "bea", "cem"] {
        apply(&mut env, who, id).unwrap();
    }
    assert_eq!(
        select(&mut env, "ana", id, 501),
        Err(Error::InsufficientEscrowBalance)
    );
    select(&mut env, "ana", id, 300).unwrap();
    assert_eq!(
        select(&mut env, "bea", id, 201),
        Err(Error::InsufficientEscrowBalance)
    );
    assert_eq!(select(&mut env, "bea", id, 200), Ok(()));
    assert_eq!(
        select(&mut env, "cem", id, 1),
        Err(Error::MaxCreatorsReached)
    );
    assert_eq!(campaign(&env, id).committed_payouts, 500);
    reclaim(&mut env, id).unwrap();
    assert_eq!(select(&mut env, "cem", id, 1), Err(Error::InvalidStatus));
}

#[test]
fn a_commitment_never_overflows() {
    let (mut env, id) = funded(0, 500, 3);
    apply(&mut env, "ana", id).unwrap();
    apply(&mut env, "bea", id).unwrap();
    assert_eq!(
        select(&mut env, "bea", id, i128::MAX),
        Err(Error::InsufficientEscrowBalance)
    );
    select(&mut env, "ana", id, 1).unwrap();
    let before = (campaign(&env, id), application(&env, "bea", id));
    assert_eq!(
        select(&mut env, "bea", id, i128::MAX),
        Err(Error::InsufficientEscrowBalance)
    );
    assert_eq!((campaign(&env, id), application(&env, "bea", id)), before);
    assert_eq!(before.1.status, ApplicationStatus::Pending);
    assert_eq!(select(&mut env, "bea", id, 499), Ok(()));
}

#[test]
fn proof_is_handed_in_until_the_deadline() {
    let (mut env, id) = funded(0, 500, 2);
    assert_eq!(
        submit(&mut env, "ana", id + 1),
        Err(Error::CampaignNotFound)
    );
    assert_eq!(
        submit(&mut env, "ana", id),
        Err(Error::ApplicationNotFound)
    );
    apply(&mut env, "ana", id).unwrap();
    assert_eq!(submit(&mut env, "ana", id), Err(Error::InvalidStatus));
    select(&mut env, "ana", id, 5).unwrap();
    env.actions.clear();
    env.timestamp = FINISH_BY;
    assert_eq!(submit(&mut env, "ana", id), Ok(()));
    assert_eq!(
        application(&env, "ana", id).proof_uri,
        Some("work".to_string())
    );
    assert_eq!(
        env.actions,
        vec![
            auth("ana"),
            Action::Publish(Event::ProofSubmitted {
                campaign_id: id,
                creator: at("ana"),
            }),
        ]
    );
    assert_eq!(submit(&mut env, "ana", id), Err(Error::InvalidStatus));
    env.timestamp = FINISH_BY + 1;
    assert_eq!(
        submit(&mut env, "ana", id),
        Err(Error::ContentDeadlinePassed)
    );
}

#[test]
fn reviews_are_refused_for_each_reason() {
    let (mut env, id) = funded(0, 500, 2);
    assert_eq!(
        accept(&mut env, "ana", id + 1),
        Err(Error::CampaignNotFound)
    );
    assert_eq!(
        reject(&mut env, "ana", id + 1),
        Err(Error::CampaignNotFound)
    );
    assert_eq!(
        accept(&mut env, "ana", id),
        Err(Error::ApplicationNotFound)
    );
    assert_eq!(
        reject(&mut env, "ana", id),
        Err(Error::ApplicationNotFound)
    );
    apply(&mut env, "ana", id).unwrap();
    assert_eq!(accept(&mut env, "ana", id), Err(Error::InvalidStatus));
    assert_eq!(reject(&mut env, "ana", id), Err(Error::InvalidStatus));
    assert_eq!(
        CampaignEscrowContract::reject_submission(&mut env, at("ana"), id, at("ana")),
        Err(Error::NotCampaignOwner)
    );
    select(&mut env, "ana", id, 5).unwrap();
    submit(&mut env, "ana", id).unwrap();
    env.actions.clear();
    assert_eq!(accept(&mut env, "ana", id), Ok(()));
    assert_eq!(env.actions, vec![auth("shop")]);
    assert!(application(&env, "ana", id).proof_approved);
}

#[test]
fn claim_pays_fee_and_net_amount() {
    let (mut env, id) = funded(250, 10_000, 2);
    payable(&mut env, "ana", id, 4_001);
    env.actions.clear();
    assert_eq!(claim(&mut env, "ana", id), Ok(()));
    // 4001 * 250 / 10000 = 100.025
    assert_eq!(
        env.actions,
        vec![
            auth("ana"),
            pays("admin", 100),
            pays("ana", 3_901),
            Action::Publish(Event::PaymentReleased {
                campaign_id: id,
                creator: at("ana"),
                amount: 3_901,
            }),
        ]
    );
    let after = campaign(&env, id);
    assert_eq!(after.escrow_balance, 5_999);
    assert_eq!(after.committed_payouts, 0);
    assert_eq!(after.status, CampaignStatus::Active);
    assert_eq!(application(&env, "ana", id).status, ApplicationStatus::Paid);
}

#[test]
fn claim_without_a_whole_unit_of_fee_pays_once() {
    let (mut env, id) = funded(50, 10_000, 2);
    payable(&mut env, "ana", id, 199);
    env.actions.clear();
    assert_eq!(claim(&mut env, "ana", id), Ok(()));
    assert_eq!(env.actions[1], pays("ana", 199));
    assert_eq!(env.actions.len(), 3);
    payable(&mut env, "bea", id, 200);
    env.actions.clear();
    assert_eq!(claim(&mut env, "bea", id), Ok(()));
    assert_eq!(env.actions[1], pays("admin", 1));
    assert_eq!(env.actions[2], pays("bea", 199));
}

#[test]
fn claim_under_a_full_fee_pays_the_creator_nothing() {
    let (mut env, id) = funded(10_000, 700, 2);
    payable(&mut env, "ana", id, 700);
    env.actions.clear();
    assert_eq!(claim(&mut env, "ana", id), Ok(()));
    assert_eq!(env.actions[1], pays("admin", 700));
    assert_eq!(env.actions[2], pays("ana", 0));
    // The escrow is empty, so the campaign is done.
    assert_eq!(campaign(&env, id).escrow_balance, 0);
    assert_eq!(campaign(&env, id).status, CampaignStatus::Completed);
}

#[test]
fn claim_is_refused_for_each_reason() {
    let (mut env, id) = funded(50, 500, 2);
    assert_eq!(claim(&mut env, "ana", id + 1), Err(Error::CampaignNotFound));
    assert_eq!(claim(&mut env, "ana", id), Err(Error::ApplicationNotFound));
    apply(&mut env, "ana", id).unwrap();
    assert_eq!(claim(&mut env, "ana", id), Err(Error::SubmissionNotPayable));
    select(&mut env, "ana", id, 5).unwrap();
    submit(&mut env, "ana", id).unwrap();
    env.timestamp = FINISH_BY;
    assert_eq!(claim(&mut env, "ana", id), Err(Error::SubmissionNotPayable));
    env.timestamp = FINISH_BY + 1;
    assert_eq!(claim(&mut env, "ana", id), Ok(()));
}

#[test]
fn claim_of_a_payout_too_large_for_its_fee_is_refused() {
    let (mut env, id) = funded(10_000, i128::MAX, 2);
    payable(&mut env, "ana", id, i128::MAX / 10_000 + 1);
    assert_eq!(claim(&mut env, "ana", id), Err(Error::InvalidAmount));
    payable(&mut env, "bea", id, i128::MAX / 10_000);
    assert_eq!(claim(&mut env, "bea", id), Ok(()));
}

#[test]
fn cancelling_refunds_the_unallocated_part() {
    let (mut env, id) = funded(0, 500, 2);
    apply(&mut env, "ana", id).unwrap();
    select(&mut env, "ana", id, 120).unwrap();
    env.actions.clear();
    assert_eq!(cancel(&mut env, id), Ok(()));
    assert_eq!(
        env.actions,
        vec![
            auth("shop"),
            pays("shop", 380),
            Action::Publish(Event::CampaignCancelled {
                campaign_id: id,
                refunded_amount: 380,
            }),
        ]
    );
    let after = campaign(&env, id);
    assert_eq!(after.status, CampaignStatus::Cancelled);
    assert_eq!(after.escrow_balance, 120);
    assert_eq!(after.committed_payouts, 120);
    assert_eq!(cancel(&mut env, id), Err(Error::InvalidStatus));
    assert_eq!(reclaim(&mut env, id), Err(Error::InvalidStatus));
    env.timestamp = FINISH_BY + 1;
    assert_eq!(expire(&mut env, id), Err(Error::InvalidStatus));
}

#[test]
fn cancelling_a_draft_moves_nothing() {
    let mut env = initialized(0);
    let id = create(&mut env, 500, 2).unwrap();
    env.actions.clear();
    assert_eq!(cancel(&mut env, id), Ok(()));
    assert_eq!(
        env.actions,
        vec![
            auth("shop"),
            Action::Publish(Event::CampaignCancelled {
                campaign_id: id,
                refunded_amount: 0,
            }),
        ]
    );
    assert_eq!(fund(&mut env, id), Err(Error::InvalidStatus));
}

#[test]
fn expiry_starts_after_the_deadline() {
    let (mut env, id) = funded(0, 500, 2);
    assert_eq!(expire(&mut env, id + 1), Err(Error::CampaignNotFound));
    env.timestamp = FINISH_BY;
    assert_eq!(expire(&mut env, id), Err(Error::DeadlineNotReached));
    env.timestamp = FINISH_BY + 1;
    assert_eq!(
        CampaignEscrowContract::expire_campaign(&mut env, at("stranger"), id),
        Err(Error::NotCampaignOwner)
    );
    env.actions.clear();
    assert_eq!(expire(&mut env, id), Ok(()));
    assert_eq!(env.actions[1], pays("shop", 500));
    assert_eq!(campaign(&env, id).status, CampaignStatus::Cancelled);
}

#[test]
fn reclaiming_completes_the_campaign_and_can_be_repeated() {
    let (mut env, id) = funded(0, 500, 2);
    assert_eq!(reclaim(&mut env, id + 1), Err(Error::CampaignNotFound));
    assert_eq!(
        CampaignEscrowContract::reclaim_surplus(&mut env, at("stranger"), id),
        Err(Error::NotCampaignOwner)
    );
    env.actions.clear();
    assert_eq!(reclaim(&mut env, id), Ok(()));
    assert_eq!(env.actions[1], pays("shop", 500));
    assert_eq!(campaign(&env, id).status, CampaignStatus::Completed);
    env.actions.clear();
    assert_eq!(reclaim(&mut env, id), Ok(()));
    assert_eq!(
        env.actions,
        vec![
            auth("shop"),
            Action::Publish(Event::CampaignCancelled {
                campaign_id: id,
                refunded_amount: 0,
            }),
        ]
    );
    assert_eq!(cancel(&mut env, id), Err(Error::InvalidStatus));
}

#[test]
fn cancelling_after_reclaiming_closes_the_campaign() {
    let (mut env, id) = funded(0, 500, 2);
    payable(&mut env, "ana", id, 200);
    reclaim(&mut env, id).unwrap();
    env.actions.clear();
    assert_eq!(cancel(&mut env, id), Ok(()));
    assert_eq!(
        env.actions,
        vec![
            auth("shop"),
            Action::Publish(Event::CampaignCancelled {
                campaign_id: id,
                refunded_amount: 0,
            }),
        ]
    );
    let closed = campaign(&env, id);
    assert_eq!(closed.status, CampaignStatus::Cancelled);
    assert_eq!(closed.committed_payouts, 200);
    assert_eq!(closed.escrow_balance, 200);
    assert_eq!(claim(&mut env, "ana", id), Ok(()));
}

#[test]
fn cancelling_is_refused_once_payout_is_complete() {
    let (mut env, id) = funded(0, 500, 2);
    payable(&mut env, "ana", id, 200);
    reclaim(&mut env, id).unwrap();
    claim(&mut env, "ana", id).unwrap();
    assert_eq!(campaign(&env, id).status, CampaignStatus::Completed);
    assert_eq!(cancel(&mut env, id), Err(Error::InvalidStatus));
    let (mut env, id) = funded(0, 500, 2);
    cancel(&mut env, id).unwrap();
    assert_eq!(cancel(&mut env, id), Err(Error::InvalidStatus));
}

// The laws, on chosen values

#[test]
fn a_refused_call_leaves_the_entries_alone() {
    let (mut env, id) = funded(0, 500, 2);
    let before = campaign(&env, id);
    env.actions.clear();
    let answer = CampaignEscrowContract::cancel_campaign(&mut env, at("stranger"), id);
    assert_eq!(answer, Err(Error::NotCampaignOwner));
    assert_eq!(campaign(&env, id), before);
    assert_eq!(env.actions, vec![auth("stranger")]);
}

#[test]
fn strangers_are_refused_every_owner_call() {
    let (mut env, id) = funded(0, 500, 2);
    payable(&mut env, "ana", id, 5);
    env.timestamp = FINISH_BY + 1;
    let e = &mut env;
    let who = || at("stranger");
    let refused = Err(Error::NotCampaignOwner);
    type C = CampaignEscrowContract;
    assert_eq!(C::approve_creator(e, who(), id, at("ana"), 1), refused);
    assert_eq!(C::approve_submission(e, who(), id, at("ana")), refused);
    assert_eq!(C::reject_submission(e, who(), id, at("ana")), refused);
    assert_eq!(C::cancel_campaign(e, who(), id), refused);
    assert_eq!(C::expire_campaign(e, who(), id), refused);
    assert_eq!(C::reclaim_surplus(e, who(), id), refused);
}

#[test]
fn rejection_undoes_a_submission() {
    let (mut env, id) = funded(0, 500, 2);
    apply(&mut env, "ana", id).unwrap();
    select(&mut env, "ana", id, 5).unwrap();
    let before = application(&env, "ana", id);
    submit(&mut env, "ana", id).unwrap();
    assert_eq!(reject(&mut env, "ana", id), Ok(()));
    assert_eq!(application(&env, "ana", id), before);
    submit(&mut env, "ana", id).unwrap();
    accept(&mut env, "ana", id).unwrap();
    assert_eq!(reject(&mut env, "ana", id), Ok(()));
    assert_eq!(application(&env, "ana", id), before);
    assert_eq!(submit(&mut env, "ana", id), Ok(()));
}

#[test]
fn a_payout_is_released_once() {
    let (mut env, id) = funded(0, 500, 2);
    payable(&mut env, "ana", id, 5);
    assert_eq!(claim(&mut env, "ana", id), Ok(()));
    let paid = application(&env, "ana", id);
    env.timestamp = FINISH_BY + 1;
    assert_eq!(claim(&mut env, "ana", id), Err(Error::SubmissionNotPayable));
    assert_eq!(accept(&mut env, "ana", id), Err(Error::InvalidStatus));
    assert_eq!(reject(&mut env, "ana", id), Err(Error::InvalidStatus));
    assert_eq!(application(&env, "ana", id), paid);
}

#[test]
fn the_last_claim_completes_a_cancelled_campaign() {
    let (mut env, id) = funded(0, 500, 2);
    payable(&mut env, "ana", id, 200);
    payable(&mut env, "bea", id, 300);
    cancel(&mut env, id).unwrap();
    assert_eq!(campaign(&env, id).escrow_balance, 500);
    assert_eq!(claim(&mut env, "ana", id), Ok(()));
    assert_eq!(campaign(&env, id).status, CampaignStatus::Cancelled);
    assert_eq!(claim(&mut env, "bea", id), Ok(()));
    assert_eq!(campaign(&env, id).status, CampaignStatus::Completed);
    assert_eq!(campaign(&env, id).escrow_balance, 0);
}

#[test]
fn proof_can_be_handed_in_after_cancellation() {
    let (mut env, id) = funded(0, 500, 2);
    apply(&mut env, "ana", id).unwrap();
    select(&mut env, "ana", id, 200).unwrap();
    cancel(&mut env, id).unwrap();
    assert_eq!(submit(&mut env, "ana", id), Ok(()));
    assert_eq!(accept(&mut env, "ana", id), Ok(()));
    env.actions.clear();
    assert_eq!(claim(&mut env, "ana", id), Ok(()));
    assert_eq!(env.actions[1], pays("ana", 200));
}

#[test]
fn a_payable_claim_survives_everything_else() {
    let (mut env, id) = funded(100, 5_000, 3);
    payable(&mut env, "ana", id, 1_000);
    let other = create(&mut env, 70, 1).unwrap();
    fund(&mut env, other).unwrap();
    payable(&mut env, "bea", id, 2_000);
    claim(&mut env, "bea", id).unwrap();
    reclaim(&mut env, id).unwrap();
    env.timestamp = FINISH_BY + 500;
    env.actions.clear();
    assert_eq!(claim(&mut env, "ana", id), Ok(()));
    assert_eq!(env.actions[1], pays("admin", 10));
    assert_eq!(env.actions[2], pays("ana", 990));
}

#[test]
fn commitments_equal_what_creators_are_owed() {
    let (mut env, id) = funded(0, 1_000, 5);
    for (who, payout) in [("ana", 100), ("bea", 200), ("cem", 300)] {
        apply(&mut env, who, id).unwrap();
        select(&mut env, who, id, payout).unwrap();
    }
    submit(&mut env, "bea", id).unwrap();
    accept(&mut env, "bea", id).unwrap();
    claim(&mut env, "bea", id).unwrap();
    let owed = application(&env, "ana", id).reserved()
        + application(&env, "bea", id).reserved()
        + application(&env, "cem", id).reserved();
    assert_eq!(owed, 400);
    assert_eq!(campaign(&env, id).committed_payouts, owed);
    assert_eq!(campaign(&env, id).approved_count, 3);
}

// Working sets

#[test]
fn a_funded_budget_adds_up() {
    let (mut env, id) = funded(125, 10_000, 3);
    payable(&mut env, "ana", id, 4_000);
    payable(&mut env, "bea", id, 1_000);
    claim(&mut env, "ana", id).unwrap();
    reclaim(&mut env, id).unwrap();
    cancel(&mut env, id).unwrap();
    let (mut deposited, mut refunded) = (0, 0);
    for action in &env.actions {
        match action {
            Action::Publish(Event::CampaignFunded { amount, .. }) => deposited += amount,
            Action::Publish(Event::CampaignCancelled {
                refunded_amount, ..
            }) => refunded += refunded_amount,
            _ => {}
        }
    }
    let paid = application(&env, "ana", id).payout_amount;
    let ended = campaign(&env, id);
    assert_eq!(deposited, 10_000);
    assert_eq!(refunded, 5_000);
    assert_eq!(ended.escrow_balance, 1_000);
    assert_eq!(ended.total_budget, ended.escrow_balance + paid + refunded);
}

#[test]
fn a_call_on_its_working_set_gives_the_same() {
    let (mut env, id) = funded(250, 10_000, 3);
    payable(&mut env, "ana", id, 4_000);
    payable(&mut env, "bea", id, 2_000);
    let few = Storage::load(
        env.storage.get_settings().ok(),
        env.storage.peek_campaign_id(),
        env.storage.get_campaign(id).ok(),
        env.storage.get_application(id, &at("ana")).ok(),
    )
    .unwrap();
    let mut small = Env::new(env.timestamp, at("escrow"), few);
    env.actions.clear();
    assert_eq!(claim(&mut small, "ana", id), claim(&mut env, "ana", id));
    assert_eq!(small.actions, env.actions);
    assert_eq!(campaign(&small, id), campaign(&env, id));
    assert_eq!(application(&small, "ana", id), application(&env, "ana", id));
}

#[test]
fn entries_that_do_not_belong_together_are_not_loaded() {
    let (mut env, id) = funded(250, 10_000, 3);
    payable(&mut env, "ana", id, 4_000);
    let settings = || env.storage.get_settings().ok();
    let c = || campaign(&env, id);
    let a = || application(&env, "ana", id);
    assert!(Storage::load(None, 0, None, None).is_some());
    assert!(Storage::load(settings(), 1, Some(c()), Some(a())).is_some());
    // The number of the campaign was never handed out.
    assert!(Storage::load(settings(), 0, Some(c()), None).is_none());
    // The application is to no campaign at hand.
    assert!(Storage::load(settings(), 1, None, Some(a())).is_none());
    // More is reserved than committed.
    let mut short = c();
    short.committed_payouts = 3_999;
    assert!(Storage::load(settings(), 1, Some(short), Some(a())).is_none());
    // More is committed than held.
    let mut over = c();
    over.escrow_balance = 3_999;
    assert!(Storage::load(settings(), 1, Some(over), None).is_none());
    // A payout is missing.
    let mut unpaid = a();
    unpaid.payout_amount = 0;
    assert!(Storage::load(settings(), 1, Some(c()), Some(unpaid)).is_none());
    // The treasury is not the admin.
    let mut diverted = settings().unwrap();
    diverted.treasury = at("elsewhere");
    assert!(Storage::load(Some(diverted), 1, None, None).is_none());
}

#[test]
fn error_codes_are_those_of_the_interface() {
    let errors = [
        Error::NotInitialized,
        Error::AlreadyInitialized,
        Error::Unauthorized,
        Error::CampaignNotFound,
        Error::ApplicationNotFound,
        Error::InvalidStatus,
        Error::InvalidAmount,
        Error::DeadlinePassed,
        Error::MaxCreatorsReached,
        Error::InsufficientEscrowBalance,
        Error::NotCampaignOwner,
        Error::SubmissionNotPayable,
        Error::AlreadyApplied,
        Error::AlreadySelected,
        Error::ApplicationDeadlinePassed,
        Error::ContentDeadlinePassed,
        Error::DeadlineInPast,
        Error::DeadlineNotReached,
    ];
    for (i, error) in errors.iter().enumerate() {
        assert_eq!(error.code(), i as u32 + 1);
    }
}
