//! The escrow's lifecycle, run against a token contract on a Soroban test
//! ledger: every call happens at the ledger's time, and the transfers that it asks
//! for are made on the token contract.
use campaign_escrow::action::Action;
use campaign_escrow::env::Env;
use campaign_escrow::shared::{
    ApplicationStatus, CampaignId, CampaignStatus, PayoutAsset, BASIS_POINTS_DENOMINATOR,
};
use campaign_escrow::storage::Storage;
use campaign_escrow::{Application, Campaign, CampaignEscrowContract, Error, ProtocolConfig};
use soroban_sdk::testutils::{Address as _, EnvTestConfig, Ledger as _};
use soroban_sdk::token::{Client as TokenClient, StellarAssetClient};
use soroban_sdk::Address;

/// Base ledger timestamp all tests start from (so deadlines are relative and
/// controllable via `advance_time`).
const BASE_TIME: u64 = 1_000_000;
/// Amount minted to the business so it can fund campaigns.
const BUSINESS_FUNDS: i128 = 1_000_000_000;

fn party(address: &Address) -> campaign_escrow::shared::Address {
    campaign_escrow::shared::Address {
        strkey: address.to_string().to_string(),
    }
}

/// A deployed contract on a test ledger.
struct World {
    host: soroban_sdk::Env,
    contract_id: Address,
    storage: Storage,
}

impl World {
    fn new() -> World {
        let host = soroban_sdk::Env::new_with_config(EnvTestConfig {
            capture_snapshot_at_drop: false,
        });
        host.mock_all_auths();
        host.ledger().with_mut(|l| l.timestamp = BASE_TIME);
        let contract_id = Address::generate(&host);
        World {
            host,
            contract_id,
            storage: Storage::new(),
        }
    }

    fn address(&self) -> Address {
        Address::generate(&self.host)
    }

    fn on_ledger(&self, address: &campaign_escrow::shared::Address) -> Address {
        Address::from_str(&self.host, &address.strkey)
    }

    fn now(&self) -> u64 {
        self.host.ledger().timestamp()
    }

    fn advance_time(&self, seconds: u64) {
        self.host.ledger().with_mut(|l| l.timestamp += seconds);
    }

    fn balance(&self, token: &Address, holder: &Address) -> i128 {
        TokenClient::new(&self.host, token).balance(holder)
    }

    /// Register a Stellar Asset Contract and mint `amount` to `mint_to`.
    fn setup_token(&self, mint_to: &Address, amount: i128) -> Address {
        let token = self.host.register_stellar_asset_contract_v2(self.address());
        StellarAssetClient::new(&self.host, &token.address()).mint(mint_to, &amount);
        token.address()
    }

    /// The surroundings of a call that happens now.
    fn env(&self, storage: Storage) -> Env {
        Env::new(self.now(), party(&self.contract_id), storage)
    }

    /// Makes a call now, and carries out what it asks for where it succeeds.
    fn call<T>(
        &mut self,
        body: impl FnOnce(&mut Env) -> Result<T, Error>,
    ) -> Result<T, Error> {
        let storage = std::mem::replace(&mut self.storage, Storage::new());
        let mut env = self.env(storage);
        let result = body(&mut env);
        if result.is_ok() {
            for action in &env.actions {
                if let Action::Transfer {
                    token,
                    from,
                    to,
                    amount,
                } = action
                {
                    TokenClient::new(&self.host, &self.on_ledger(token)).transfer(
                        &self.on_ledger(from),
                        &self.on_ledger(to),
                        amount,
                    );
                }
            }
        }
        self.storage = env.storage;
        result
    }

    fn initialize(
        &mut self,
        admin: &Address,
        dispute_contract: &Address,
        fee_bps: i128,
    ) -> Result<(), Error> {
        let (admin, dispute_contract) = (party(admin), party(dispute_contract));
        self.call(|env| CampaignEscrowContract::initialize(env, admin, dispute_contract, fee_bps))
    }

    #[allow(clippy::too_many_arguments)]
    fn create_campaign(
        &mut self,
        business: &Address,
        token: &Address,
        total_budget: i128,
        max_creators: u32,
        application_deadline: u64,
        completion_deadline: u64,
    ) -> Result<CampaignId, Error> {
        let business = party(business);
        let asset = PayoutAsset {
            token: party(token),
            symbol: "USDC".to_string(),
        };
        self.call(|env| {
            CampaignEscrowContract::create_campaign(
                env,
                business,
                asset,
                total_budget,
                max_creators,
                application_deadline,
                completion_deadline,
                "ipfs://brief".to_string(),
            )
        })
    }

    fn fund_campaign(&mut self, business: &Address, id: CampaignId) -> Result<(), Error> {
        let business = party(business);
        self.call(|env| CampaignEscrowContract::fund_campaign(env, business, id))
    }

    fn apply_to_campaign(
        &mut self,
        creator: &Address,
        id: CampaignId,
        pitch: &str,
    ) -> Result<(), Error> {
        let creator = party(creator);
        self.call(|env| {
            CampaignEscrowContract::apply_to_campaign(env, creator, id, pitch.to_string())
        })
    }

    fn approve_creator(
        &mut self,
        business: &Address,
        id: CampaignId,
        creator: &Address,
        payout: i128,
    ) -> Result<(), Error> {
        let (business, creator) = (party(business), party(creator));
        self.call(|env| {
            CampaignEscrowContract::approve_creator(env, business, id, creator, payout)
        })
    }

    fn submit_proof(
        &mut self,
        creator: &Address,
        id: CampaignId,
        uri: &str,
    ) -> Result<(), Error> {
        let creator = party(creator);
        self.call(|env| CampaignEscrowContract::submit_proof(env, creator, id, uri.to_string()))
    }

    fn approve_submission(
        &mut self,
        business: &Address,
        id: CampaignId,
        creator: &Address,
    ) -> Result<(), Error> {
        let (business, creator) = (party(business), party(creator));
        self.call(|env| CampaignEscrowContract::approve_submission(env, business, id, creator))
    }

    fn reject_submission(
        &mut self,
        business: &Address,
        id: CampaignId,
        creator: &Address,
    ) -> Result<(), Error> {
        let (business, creator) = (party(business), party(creator));
        self.call(|env| CampaignEscrowContract::reject_submission(env, business, id, creator))
    }

    fn claim_payment(&mut self, creator: &Address, id: CampaignId) -> Result<(), Error> {
        let creator = party(creator);
        self.call(|env| CampaignEscrowContract::claim_payment(env, creator, id))
    }

    fn cancel_campaign(&mut self, business: &Address, id: CampaignId) -> Result<(), Error> {
        let business = party(business);
        self.call(|env| CampaignEscrowContract::cancel_campaign(env, business, id))
    }

    fn expire_campaign(&mut self, business: &Address, id: CampaignId) -> Result<(), Error> {
        let business = party(business);
        self.call(|env| CampaignEscrowContract::expire_campaign(env, business, id))
    }

    fn reclaim_surplus(&mut self, business: &Address, id: CampaignId) -> Result<(), Error> {
        let business = party(business);
        self.call(|env| CampaignEscrowContract::reclaim_surplus(env, business, id))
    }

    fn get_campaign(&mut self, id: CampaignId) -> Result<Campaign, Error> {
        self.call(|env| CampaignEscrowContract::get_campaign(env, id))
    }

    fn get_application(
        &mut self,
        id: CampaignId,
        creator: &Address,
    ) -> Result<Application, Error> {
        let creator = party(creator);
        self.call(|env| CampaignEscrowContract::get_application(env, id, creator))
    }

    fn get_protocol_config(&mut self) -> Result<ProtocolConfig, Error> {
        self.call(|env| CampaignEscrowContract::get_protocol_config(env))
    }

    /// Initialize the contract and mint `BUSINESS_FUNDS` to a fresh business.
    /// Returns the admin, the business and the token.
    fn bootstrap(&mut self, fee_bps: i128) -> (Address, Address, Address) {
        let admin = self.address();
        let dispute = self.address();
        let business = self.address();
        assert_eq!(self.initialize(&admin, &dispute, fee_bps), Ok(()));
        let token = self.setup_token(&business, BUSINESS_FUNDS);
        (admin, business, token)
    }

    /// Create a campaign and immediately fund it (Draft to Funded).
    fn create_funded_campaign(
        &mut self,
        business: &Address,
        token: &Address,
        total_budget: i128,
        max_creators: u32,
    ) -> CampaignId {
        let now = self.now();
        let id = self
            .create_campaign(
                business,
                token,
                total_budget,
                max_creators,
                now + 86_400,
                now + 604_800,
            )
            .unwrap();
        assert_eq!(self.fund_campaign(business, id), Ok(()));
        id
    }

    /// Drive a campaign to the point where `creator` has an approved, payable
    /// submission: applied, selected, proof submitted, approved.
    fn run_to_payable(
        &mut self,
        business: &Address,
        creator: &Address,
        id: CampaignId,
        payout: i128,
    ) {
        self.apply_to_campaign(creator, id, "pitch").unwrap();
        self.approve_creator(business, id, creator, payout).unwrap();
        self.submit_proof(creator, id, "proof").unwrap();
        self.approve_submission(business, id, creator).unwrap();
    }
}

// Setup

#[test]
fn initialize_sets_admin_and_fee() {
    let mut world = World::new();
    let admin = world.address();
    let dispute = world.address();
    assert_eq!(world.initialize(&admin, &dispute, 250), Ok(()));
    let config = world.get_protocol_config().unwrap();
    assert_eq!(config.admin, party(&admin));
    assert_eq!(config.fee_bps, 250);
}

#[test]
fn initialize_twice_fails() {
    let mut world = World::new();
    let admin = world.address();
    let dispute = world.address();
    world.initialize(&admin, &dispute, 250).unwrap();
    let result = world.initialize(&admin, &dispute, 250);
    assert_eq!(result, Err(Error::AlreadyInitialized));
}

#[test]
fn initialize_rejects_out_of_range_fee() {
    let mut world = World::new();
    let admin = world.address();
    let dispute = world.address();
    let result = world.initialize(&admin, &dispute, BASIS_POINTS_DENOMINATOR + 1);
    assert_eq!(result, Err(Error::InvalidAmount));
}

#[test]
fn get_campaign_not_found_before_creation() {
    let mut world = World::new();
    let admin = world.address();
    let dispute = world.address();
    world.initialize(&admin, &dispute, 250).unwrap();
    let result = world.get_campaign(0);
    assert_eq!(result, Err(Error::CampaignNotFound));
}

// Happy path

#[test]
fn full_lifecycle() {
    let mut world = World::new();
    let (admin, business, token) = world.bootstrap(50);

    let creator = world.address();
    let gross: i128 = 1_000_000;
    let id = world.create_funded_campaign(&business, &token, 10_000_000, 5);

    world.run_to_payable(&business, &creator, id, gross);

    let creator_before = world.balance(&token, &creator);
    let treasury_before = world.balance(&token, &admin);

    world.claim_payment(&creator, id).unwrap();

    let fee = gross * 50 / BASIS_POINTS_DENOMINATOR;
    let net = gross - fee;
    assert_eq!(world.balance(&token, &creator), creator_before + net);
    assert_eq!(world.balance(&token, &admin), treasury_before + fee);
}

#[test]
fn fee_calculation_50bps() {
    let mut world = World::new();
    let (admin, business, token) = world.bootstrap(50);

    let creator = world.address();
    let gross: i128 = 2_000_000;
    let id = world.create_funded_campaign(&business, &token, 10_000_000, 5);

    world.run_to_payable(&business, &creator, id, gross);
    world.claim_payment(&creator, id).unwrap();

    let fee = gross * 50 / BASIS_POINTS_DENOMINATOR;
    let net = gross - fee;
    // creator_net == gross * 0.995
    assert_eq!(net, gross * 995 / 1_000);
    // treasury == gross * 0.005
    assert_eq!(fee, gross * 5 / 1_000);
    assert_eq!(world.balance(&token, &creator), net);
    assert_eq!(world.balance(&token, &admin), fee);
}

#[test]
fn auto_approve_past_deadline() {
    let mut world = World::new();
    let (_admin, business, token) = world.bootstrap(50);

    let creator = world.address();
    let gross: i128 = 1_000_000;
    let id = world.create_funded_campaign(&business, &token, 10_000_000, 5);

    world.apply_to_campaign(&creator, id, "pitch").unwrap();
    world.approve_creator(&business, id, &creator, gross).unwrap();
    // submit before the deadline (still pending business approval)...
    world.submit_proof(&creator, id, "proof").unwrap();
    // ...then move past the content deadline so it auto-approves.
    world.advance_time(604_800 + 10);

    let creator_before = world.balance(&token, &creator);
    // Claim without an explicit approve_submission call.
    world.claim_payment(&creator, id).unwrap();
    let fee = gross * 50 / BASIS_POINTS_DENOMINATOR;
    assert_eq!(
        world.balance(&token, &creator),
        creator_before + gross - fee
    );
}

#[test]
fn cancel_open_campaign() {
    let mut world = World::new();
    let (_admin, business, token) = world.bootstrap(50);

    let business_before = world.balance(&token, &business);
    let id = world.create_funded_campaign(&business, &token, 10_000_000, 5);

    world.cancel_campaign(&business, id).unwrap();
    // Business balance is fully restored (no commitments outstanding).
    assert_eq!(world.balance(&token, &business), business_before);
    assert_eq!(world.balance(&token, &world.contract_id), 0);
}

#[test]
fn reclaim_surplus_after_payouts() {
    let mut world = World::new();
    let (_admin, business, token) = world.bootstrap(0);

    let payout: i128 = 1_000_000;
    // max 5, budget covers 5 payouts of `payout`.
    let id = world.create_funded_campaign(&business, &token, payout * 5, 5);

    let c1 = world.address();
    let c2 = world.address();
    for c in [&c1, &c2] {
        world.apply_to_campaign(c, id, "pitch").unwrap();
        world.approve_creator(&business, id, c, payout).unwrap();
        world.submit_proof(c, id, "proof").unwrap();
        world.approve_submission(&business, id, c).unwrap();
        world.claim_payment(c, id).unwrap();
    }

    let business_before = world.balance(&token, &business);
    world.reclaim_surplus(&business, id).unwrap();
    // Surplus == (5 - 2) * payout == 3 * payout_per_creator.
    assert_eq!(
        world.balance(&token, &business),
        business_before + payout * 3
    );
    assert_eq!(world.balance(&token, &world.contract_id), 0);
}

#[test]
fn reject_and_resubmit() {
    let mut world = World::new();
    let (_admin, business, token) = world.bootstrap(0);

    let creator = world.address();
    let gross: i128 = 1_000_000;
    let id = world.create_funded_campaign(&business, &token, 10_000_000, 5);

    world.apply_to_campaign(&creator, id, "pitch").unwrap();
    world.approve_creator(&business, id, &creator, gross).unwrap();
    world.submit_proof(&creator, id, "proof-v1").unwrap();
    // Business rejects the proof.
    world.reject_submission(&business, id, &creator).unwrap();
    // Creator resubmits.
    world.submit_proof(&creator, id, "proof-v2").unwrap();
    assert_eq!(
        world.get_application(id, &creator).unwrap().proof_uri,
        Some("proof-v2".to_string())
    );
    world.approve_submission(&business, id, &creator).unwrap();

    let creator_before = world.balance(&token, &creator);
    world.claim_payment(&creator, id).unwrap();
    assert_eq!(world.balance(&token, &creator), creator_before + gross);
}

#[test]
fn expire_no_submissions() {
    let mut world = World::new();
    let (_admin, business, token) = world.bootstrap(50);

    let budget: i128 = 10_000_000;
    let id = world.create_funded_campaign(&business, &token, budget, 5);

    let c1 = world.address();
    let c2 = world.address();
    // Two creators are selected (committing 1_000_000 each) but never submit
    // proof: their payouts stay reserved against escrow.
    for c in [&c1, &c2] {
        world.apply_to_campaign(c, id, "pitch").unwrap();
        world.approve_creator(&business, id, c, 1_000_000).unwrap();
    }

    // Advance past the content deadline.
    world.advance_time(604_800 + 10);

    let business_before = world.balance(&token, &business);
    world.expire_campaign(&business, id).unwrap();
    // Only the unallocated balance (budget - committed) is refunded.
    let committed = 1_000_000 * 2;
    assert_eq!(
        world.balance(&token, &business),
        business_before + budget - committed
    );
    // Reserved funds remain in the contract for the selected creators.
    assert_eq!(world.balance(&token, &world.contract_id), committed);
}

// Committed payouts must survive cancel / expire / reclaim and remain
// claimable by the creator.

#[test]
fn cancel_preserves_committed_payout() {
    let mut world = World::new();
    let (_admin, business, token) = world.bootstrap(0);

    let payout: i128 = 1_000_000;
    let budget: i128 = payout * 5;
    let id = world.create_funded_campaign(&business, &token, budget, 5);

    let creator = world.address();
    world.run_to_payable(&business, &creator, id, payout);

    // Business cancels before the creator claims.
    let business_before = world.balance(&token, &business);
    world.cancel_campaign(&business, id).unwrap();
    // Business recovers only the unallocated (budget - payout) portion.
    assert_eq!(
        world.balance(&token, &business),
        business_before + budget - payout
    );
    // The committed payout is still held by the contract.
    assert_eq!(world.balance(&token, &world.contract_id), payout);

    // The approved creator can still claim their payout after cancellation.
    let creator_before = world.balance(&token, &creator);
    world.claim_payment(&creator, id).unwrap();
    assert_eq!(world.balance(&token, &creator), creator_before + payout);
    assert_eq!(world.balance(&token, &world.contract_id), 0);
}

#[test]
fn expire_preserves_committed_payout() {
    let mut world = World::new();
    let (_admin, business, token) = world.bootstrap(0);

    let payout: i128 = 1_000_000;
    let budget: i128 = payout * 5;
    let id = world.create_funded_campaign(&business, &token, budget, 5);

    let creator = world.address();
    world.run_to_payable(&business, &creator, id, payout);

    // Advance past the content deadline, then expire.
    world.advance_time(604_800 + 10);
    let business_before = world.balance(&token, &business);
    world.expire_campaign(&business, id).unwrap();
    assert_eq!(
        world.balance(&token, &business),
        business_before + budget - payout
    );
    assert_eq!(world.balance(&token, &world.contract_id), payout);

    // Creator still gets paid after expiry.
    let creator_before = world.balance(&token, &creator);
    world.claim_payment(&creator, id).unwrap();
    assert_eq!(world.balance(&token, &creator), creator_before + payout);
    assert_eq!(world.balance(&token, &world.contract_id), 0);
}

#[test]
fn reclaim_preserves_committed_payout() {
    let mut world = World::new();
    let (_admin, business, token) = world.bootstrap(0);

    let payout: i128 = 1_000_000;
    let budget: i128 = payout * 5;
    let id = world.create_funded_campaign(&business, &token, budget, 5);

    let creator = world.address();
    world.run_to_payable(&business, &creator, id, payout);

    // Business reclaims surplus before the creator claims.
    let business_before = world.balance(&token, &business);
    world.reclaim_surplus(&business, id).unwrap();
    assert_eq!(
        world.balance(&token, &business),
        business_before + budget - payout
    );
    assert_eq!(world.balance(&token, &world.contract_id), payout);

    // Creator still gets paid after the reclaim.
    let creator_before = world.balance(&token, &creator);
    world.claim_payment(&creator, id).unwrap();
    assert_eq!(world.balance(&token, &creator), creator_before + payout);
    assert_eq!(world.balance(&token, &world.contract_id), 0);
}

// Protocol config

#[test]
fn get_protocol_config_returns_current_fee_bps() {
    let mut world = World::new();
    let admin = world.address();
    let dispute_contract = world.address();
    world.initialize(&admin, &dispute_contract, 150).unwrap();

    let config = world.get_protocol_config().unwrap();
    assert_eq!(config.fee_bps, 150);
    assert_eq!(config.admin, party(&admin));
    // treasury defaults to admin: see the comment on `initialize`
    assert_eq!(config.treasury, party(&admin));
}

#[test]
fn get_protocol_config_fails_before_initialization() {
    let mut world = World::new();
    let result = world.get_protocol_config();
    assert_eq!(result, Err(Error::NotInitialized));
}

// Calls by somebody who may not make them

#[test]
fn non_owner_cancel() {
    let mut world = World::new();
    let (_admin, business, token) = world.bootstrap(50);
    let id = world.create_funded_campaign(&business, &token, 10_000_000, 5);

    let stranger = world.address();
    let result = world.cancel_campaign(&stranger, id);
    assert_eq!(result, Err(Error::NotCampaignOwner));
}

#[test]
fn non_owner_select_creator() {
    let mut world = World::new();
    let (_admin, business, token) = world.bootstrap(50);
    let id = world.create_funded_campaign(&business, &token, 10_000_000, 5);

    let creator = world.address();
    let stranger = world.address();
    let result = world.approve_creator(&stranger, id, &creator, 1_000_000);
    assert_eq!(result, Err(Error::NotCampaignOwner));
}

#[test]
fn non_owner_approve_submission() {
    let mut world = World::new();
    let (_admin, business, token) = world.bootstrap(50);
    let id = world.create_funded_campaign(&business, &token, 10_000_000, 5);

    let creator = world.address();
    world.apply_to_campaign(&creator, id, "pitch").unwrap();
    world.approve_creator(&business, id, &creator, 1_000_000).unwrap();
    world.submit_proof(&creator, id, "proof").unwrap();

    let stranger = world.address();
    let result = world.approve_submission(&stranger, id, &creator);
    assert_eq!(result, Err(Error::NotCampaignOwner));
}

#[test]
fn creator_claim_before_approval() {
    let mut world = World::new();
    let (_admin, business, token) = world.bootstrap(50);
    let id = world.create_funded_campaign(&business, &token, 10_000_000, 5);

    let creator = world.address();
    world.apply_to_campaign(&creator, id, "pitch").unwrap();
    world.approve_creator(&business, id, &creator, 1_000_000).unwrap();
    world.submit_proof(&creator, id, "proof").unwrap();

    // Proof is submitted but not yet approved by the business.
    let result = world.claim_payment(&creator, id);
    assert_eq!(result, Err(Error::SubmissionNotPayable));
}

#[test]
fn double_apply_same_creator() {
    let mut world = World::new();
    let (_admin, business, token) = world.bootstrap(50);
    let id = world.create_funded_campaign(&business, &token, 10_000_000, 5);

    let creator = world.address();
    world.apply_to_campaign(&creator, id, "pitch").unwrap();
    let result = world.apply_to_campaign(&creator, id, "pitch2");
    assert_eq!(result, Err(Error::AlreadyApplied));
}

#[test]
fn double_select_same_creator() {
    let mut world = World::new();
    let (_admin, business, token) = world.bootstrap(50);
    let id = world.create_funded_campaign(&business, &token, 10_000_000, 5);

    let creator = world.address();
    world.apply_to_campaign(&creator, id, "pitch").unwrap();
    world.approve_creator(&business, id, &creator, 1_000_000).unwrap();
    let result = world.approve_creator(&business, id, &creator, 1_000_000);
    assert_eq!(result, Err(Error::AlreadySelected));
}

// Deadlines

#[test]
fn apply_after_application_deadline() {
    let mut world = World::new();
    let (_admin, business, token) = world.bootstrap(50);

    let now = world.now();
    let id = world
        .create_campaign(
            &business,
            &token,
            10_000_000,
            5,
            now + 86_400,
            now + 604_800,
        )
        .unwrap();
    world.fund_campaign(&business, id).unwrap();

    // Move past the application deadline.
    world.advance_time(86_400 + 10);

    let creator = world.address();
    let result = world.apply_to_campaign(&creator, id, "pitch");
    assert_eq!(result, Err(Error::ApplicationDeadlinePassed));
}

#[test]
fn submit_after_content_deadline() {
    let mut world = World::new();
    let (_admin, business, token) = world.bootstrap(50);
    let id = world.create_funded_campaign(&business, &token, 10_000_000, 5);

    let creator = world.address();
    world.apply_to_campaign(&creator, id, "pitch").unwrap();
    world.approve_creator(&business, id, &creator, 1_000_000).unwrap();

    // Move past the content deadline.
    world.advance_time(604_800 + 10);

    let result = world.submit_proof(&creator, id, "proof");
    assert_eq!(result, Err(Error::ContentDeadlinePassed));
}

#[test]
fn create_with_past_deadline() {
    let mut world = World::new();
    let (_admin, business, token) = world.bootstrap(50);

    let now = world.now();
    let result = world.create_campaign(
        &business,
        &token,
        10_000_000,
        5,
        now - 100,
        now + 604_800,
    );
    assert_eq!(result, Err(Error::DeadlineInPast));
}

#[test]
fn expire_before_deadline() {
    let mut world = World::new();
    let (_admin, business, token) = world.bootstrap(50);
    let id = world.create_funded_campaign(&business, &token, 10_000_000, 5);

    // Still before the content deadline.
    let result = world.expire_campaign(&business, id);
    assert_eq!(result, Err(Error::DeadlineNotReached));
}

// The clock and the books

#[test]
fn a_call_happens_at_the_ledgers_time() {
    let world = World::new();
    let env = world.env(Storage::new());
    assert_eq!(env.timestamp, BASE_TIME);
    world.advance_time(4321);
    let env = world.env(Storage::new());
    assert_eq!(env.timestamp, BASE_TIME + 4321);
    assert_eq!(env.contract, party(&world.contract_id));
    assert!(env.actions.is_empty());
}

#[test]
fn the_contract_holds_what_its_campaigns_hold() {
    let mut world = World::new();
    let (_admin, business, token) = world.bootstrap(125);
    let first = world.create_funded_campaign(&business, &token, 3_000_000, 2);
    let second = world.create_funded_campaign(&business, &token, 5_000_001, 3);
    let creator = world.address();
    world.run_to_payable(&business, &creator, first, 1_999_999);
    world.run_to_payable(&business, &creator, second, 7);
    world.claim_payment(&creator, first).unwrap();
    world.cancel_campaign(&business, second).unwrap();

    let held = world.get_campaign(first).unwrap().escrow_balance
        + world.get_campaign(second).unwrap().escrow_balance;
    assert_eq!(held, 1_000_001 + 7);
    assert_eq!(world.balance(&token, &world.contract_id), held);
}

#[test]
fn cancel_after_reclaim_keeps_what_is_committed() {
    let mut world = World::new();
    let (_admin, business, token) = world.bootstrap(0);
    let id = world.create_funded_campaign(&business, &token, 5_000_000, 5);
    let creator = world.address();
    world.apply_to_campaign(&creator, id, "pitch").unwrap();
    world.approve_creator(&business, id, &creator, 1_000_000).unwrap();
    assert_eq!(world.reclaim_surplus(&business, id), Ok(()));
    let after_reclaim = world.balance(&token, &business);
    assert_eq!(after_reclaim, BUSINESS_FUNDS - 1_000_000);

    assert_eq!(world.cancel_campaign(&business, id), Ok(()));
    assert_eq!(world.balance(&token, &business), after_reclaim);
    assert_eq!(world.balance(&token, &world.contract_id), 1_000_000);
    let campaign = world.get_campaign(id).unwrap();
    assert_eq!(campaign.committed_payouts, 1_000_000);
    assert_eq!(campaign.status, CampaignStatus::Cancelled);
}

#[test]
fn a_payout_beyond_all_bounds_is_an_insufficient_balance() {
    let mut world = World::new();
    let (_admin, business, token) = world.bootstrap(50);
    let id = world.create_funded_campaign(&business, &token, 10_000_000, 5);
    let (first, second) = (world.address(), world.address());
    world.apply_to_campaign(&first, id, "pitch").unwrap();
    world.apply_to_campaign(&second, id, "pitch").unwrap();
    world.approve_creator(&business, id, &first, 1_000_000).unwrap();
    let result = world.approve_creator(&business, id, &second, i128::MAX);
    assert_eq!(result, Err(Error::InsufficientEscrowBalance));
    assert_eq!(world.get_campaign(id).unwrap().committed_payouts, 1_000_000);
    let application = world.get_application(id, &second).unwrap();
    assert_eq!(application.status, ApplicationStatus::Pending);
}
