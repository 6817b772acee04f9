use crate::shared::{
    Address, ApplicationStatus, CampaignId, CampaignStatus, PayoutAsset, PayoutAssetView,
    BASIS_POINTS_DENOMINATOR,
};
use vstd::prelude::*;

verus! {

/// A creator campaign funded and escrowed by a single business.
///
/// `escrow_balance` is tracked separately from `total_budget` so releases can
/// be reconciled against what is actually still held by the contract,
/// independent of what was originally deposited.
#[derive(Debug, PartialEq, Eq)]
pub struct Campaign {
    pub id: CampaignId,
    pub business: Address,
    pub asset: PayoutAsset,
    pub total_budget: i128,
    pub escrow_balance: i128,
    /// Sum of payout amounts committed to selected (not-yet-paid) creators.
    /// Reserved against `escrow_balance` so total commitments never exceed funds.
    pub committed_payouts: i128,
    pub max_creators: u32,
    pub approved_count: u32,
    /// Ledger timestamp (unix seconds) after which new applications are rejected.
    pub application_deadline: u64,
    /// Ledger timestamp (unix seconds) by which approved creators must submit proof.
    pub completion_deadline: u64,
    /// Off-chain pointer (IPFS/HTTPS URI) to the full campaign brief.
    pub metadata_uri: String,
    pub status: CampaignStatus,
}

#[verifier::ext_equal]
pub struct CampaignView {
    pub id: CampaignId,
    pub business: Seq<char>,
    pub asset: PayoutAssetView,
    pub total_budget: int,
    pub escrow_balance: int,
    pub committed_payouts: int,
    pub max_creators: int,
    pub approved_count: int,
    pub application_deadline: int,
    pub completion_deadline: int,
    pub metadata_uri: Seq<char>,
    pub status: CampaignStatus,
}

impl View for Campaign {
    type V = CampaignView;

    open spec fn view(&self) -> CampaignView {
        CampaignView {
            id: self.id,
            business: self.business@,
            asset: self.asset@,
            total_budget: self.total_budget as int,
            escrow_balance: self.escrow_balance as int,
            committed_payouts: self.committed_payouts as int,
            max_creators: self.max_creators as int,
            approved_count: self.approved_count as int,
            application_deadline: self.application_deadline as int,
            completion_deadline: self.completion_deadline as int,
            metadata_uri: self.metadata_uri@,
            status: self.status,
        }
    }
}

impl CampaignView {
    /// What every campaign keeps to from its creation on.
    pub open spec fn valid(self) -> bool {
        &&& self.total_budget > 0
        &&& self.max_creators > 0
        &&& self.application_deadline < self.completion_deadline
        &&& 0 <= self.approved_count <= self.max_creators
        &&& 0 <= self.committed_payouts <= self.escrow_balance <= self.total_budget
        &&& self.status is Draft ==> self.escrow_balance == 0 && self.approved_count == 0
        &&& self.closed() ==> self.escrow_balance == self.committed_payouts
    }

    /// Whether creators can apply and be selected.
    pub open spec fn open(self) -> bool {
        self.status is Funded || self.status is Active
    }

    /// Whether the campaign has ended.
    pub open spec fn closed(self) -> bool {
        self.status is Completed || self.status is Cancelled
    }

    /// Whether payout is complete: nothing is left to refund, and no creator
    /// is owed anything.
    pub open spec fn paid_out(self) -> bool {
        self.status is Completed && self.committed_payouts == 0
    }

    /// The part of the escrow that is reserved for nobody.
    pub open spec fn unallocated(self) -> int {
        self.escrow_balance - self.committed_payouts
    }
}

impl Clone for Campaign {
    fn clone(&self) -> (copy: Self)
        ensures
            copy@ == self@,
    {
        Campaign {
            id: self.id,
            business: self.business.clone(),
            asset: self.asset.clone(),
            total_budget: self.total_budget,
            escrow_balance: self.escrow_balance,
            committed_payouts: self.committed_payouts,
            max_creators: self.max_creators,
            approved_count: self.approved_count,
            application_deadline: self.application_deadline,
            completion_deadline: self.completion_deadline,
            metadata_uri: self.metadata_uri.clone(),
            status: self.status,
        }
    }
}

impl Campaign {
    /// Tests what every campaign keeps to.
    pub fn is_valid(&self) -> (valid: bool)
        ensures
            valid == self@.valid(),
    {
        let closed = self.status == CampaignStatus::Completed || self.status
            == CampaignStatus::Cancelled;
        self.total_budget > 0 && self.max_creators > 0 && self.application_deadline
            < self.completion_deadline && self.approved_count <= self.max_creators && 0
            <= self.committed_payouts && self.committed_payouts <= self.escrow_balance
            && self.escrow_balance <= self.total_budget && (self.status != CampaignStatus::Draft
            || self.escrow_balance == 0 && self.approved_count == 0) && (!closed
            || self.escrow_balance == self.committed_payouts)
    }

    /// Whether creators can apply and be selected.
    pub fn is_open(&self) -> (open: bool)
        ensures
            open == self@.open(),
    {
        self.status == CampaignStatus::Funded || self.status == CampaignStatus::Active
    }
}

/// A single creator's application to a campaign.
///
/// `payout_amount` is set when the business approves the application.
#[derive(Debug, PartialEq, Eq)]
pub struct Application {
    pub campaign_id: CampaignId,
    pub creator: Address,
    pub pitch_uri: String,
    pub proof_uri: Option<String>,
    pub payout_amount: i128,
    /// Whether the business has accepted the submitted proof (making it payable).
    pub proof_approved: bool,
    pub status: ApplicationStatus,
}

#[verifier::ext_equal]
pub struct ApplicationView {
    pub campaign_id: CampaignId,
    pub creator: Seq<char>,
    pub pitch_uri: Seq<char>,
    pub proof_uri: Option<Seq<char>>,
    pub payout_amount: int,
    pub proof_approved: bool,
    pub status: ApplicationStatus,
}

/// The text of an optional string.
pub open spec fn text_of(uri: Option<String>) -> Option<Seq<char>> {
    match uri {
        Some(text) => Some(text@),
        None => None,
    }
}

impl View for Application {
    type V = ApplicationView;

    open spec fn view(&self) -> ApplicationView {
        ApplicationView {
            campaign_id: self.campaign_id,
            creator: self.creator@,
            pitch_uri: self.pitch_uri@,
            proof_uri: text_of(self.proof_uri),
            payout_amount: self.payout_amount as int,
            proof_approved: self.proof_approved,
            status: self.status,
        }
    }
}

impl ApplicationView {
    /// What every application keeps to from its arrival on.
    pub open spec fn valid(self) -> bool {
        match self.status {
            ApplicationStatus::Pending => {
                &&& self.payout_amount == 0
                &&& self.proof_uri is None
                &&& !self.proof_approved
            },
            ApplicationStatus::Approved => {
                &&& self.payout_amount > 0
                &&& self.proof_uri is None
                &&& !self.proof_approved
            },
            ApplicationStatus::ProofSubmitted | ApplicationStatus::Paid => {
                &&& self.payout_amount > 0
                &&& self.proof_uri is Some
            },
        }
    }

    /// Whether the creator was selected and is still owed the payout.
    pub open spec fn owed(self) -> bool {
        self.status is Approved || self.status is ProofSubmitted
    }

    /// What is reserved for the creator.
    pub open spec fn reserved(self) -> int {
        if self.owed() {
            self.payout_amount
        } else {
            0
        }
    }
}

impl Clone for Application {
    fn clone(&self) -> (copy: Self)
        ensures
            copy@ == self@,
    {
        let proof_uri = match &self.proof_uri {
            Some(uri) => Some(uri.clone()),
            None => None,
        };
        Application {
            campaign_id: self.campaign_id,
            creator: self.creator.clone(),
            pitch_uri: self.pitch_uri.clone(),
            proof_uri,
            payout_amount: self.payout_amount,
            proof_approved: self.proof_approved,
            status: self.status,
        }
    }
}

impl Application {
    /// Tests what every application keeps to.
    pub fn is_valid(&self) -> (valid: bool)
        ensures
            valid == self@.valid(),
    {
        match self.status {
            ApplicationStatus::Pending => self.payout_amount == 0 && self.proof_uri.is_none()
                && !self.proof_approved,
            ApplicationStatus::Approved => self.payout_amount > 0 && self.proof_uri.is_none()
                && !self.proof_approved,
            ApplicationStatus::ProofSubmitted => self.payout_amount > 0
                && self.proof_uri.is_some(),
            ApplicationStatus::Paid => self.payout_amount > 0 && self.proof_uri.is_some(),
        }
    }

    /// What is reserved for the creator.
    pub fn reserved(&self) -> (amount: i128)
        ensures
            amount == self@.reserved(),
    {
        if self.status == ApplicationStatus::Approved || self.status
            == ApplicationStatus::ProofSubmitted {
            self.payout_amount
        } else {
            0
        }
    }
}

/// What `initialize` writes down for the contract's whole life.
#[derive(Debug, PartialEq, Eq)]
pub struct Settings {
    pub admin: Address,
    /// Destination of collected fees. Defaults to `admin` at `initialize`.
    pub treasury: Address,
    /// The one address that may freeze a campaign for a dispute.
    pub dispute_contract: Address,
    pub fee_bps: i128,
}

#[verifier::ext_equal]
pub struct SettingsView {
    pub admin: Seq<char>,
    pub treasury: Seq<char>,
    pub dispute_contract: Seq<char>,
    pub fee_bps: int,
}

impl View for Settings {
    type V = SettingsView;

    open spec fn view(&self) -> SettingsView {
        SettingsView {
            admin: self.admin@,
            treasury: self.treasury@,
            dispute_contract: self.dispute_contract@,
            fee_bps: self.fee_bps as int,
        }
    }
}

impl SettingsView {
    /// A fee is a part of the whole, and the treasury is the admin.
    pub open spec fn valid(self) -> bool {
        &&& 0 <= self.fee_bps <= BASIS_POINTS_DENOMINATOR
        &&& self.treasury == self.admin
    }
}

impl Clone for Settings {
    fn clone(&self) -> (copy: Self)
        ensures
            copy@ == self@,
    {
        Settings {
            admin: self.admin.clone(),
            treasury: self.treasury.clone(),
            dispute_contract: self.dispute_contract.clone(),
            fee_bps: self.fee_bps,
        }
    }
}

impl Settings {
    /// Tests what all settings keep to.
    pub fn is_valid(&self) -> (valid: bool)
        ensures
            valid == self@.valid(),
    {
        0 <= self.fee_bps && self.fee_bps <= BASIS_POINTS_DENOMINATOR && self.treasury.same_as(
            &self.admin,
        )
    }
}

/// Snapshot of protocol-level configuration, returned by
/// `get_protocol_config` so the frontend can compute fee breakdowns before a
/// business funds a campaign.
///
/// `treasury` defaults to `admin` at `initialize` time: there is no separate
/// fee-collection destination yet.
#[derive(Debug, PartialEq, Eq)]
pub struct ProtocolConfig {
    pub admin: Address,
    pub treasury: Address,
    pub fee_bps: i128,
}

#[verifier::ext_equal]
pub struct ProtocolConfigView {
    pub admin: Seq<char>,
    pub treasury: Seq<char>,
    pub fee_bps: int,
}

impl View for ProtocolConfig {
    type V = ProtocolConfigView;

    open spec fn view(&self) -> ProtocolConfigView {
        ProtocolConfigView {
            admin: self.admin@,
            treasury: self.treasury@,
            fee_bps: self.fee_bps as int,
        }
    }
}

impl Clone for ProtocolConfig {
    fn clone(&self) -> (copy: Self)
        ensures
            copy@ == self@,
    {
        ProtocolConfig {
            admin: self.admin.clone(),
            treasury: self.treasury.clone(),
            fee_bps: self.fee_bps,
        }
    }
}

} // verus!
