//! Vocabulary that the protocol's contracts share.
use vstd::prelude::*;

verus! {

/// Number that identifies a campaign.
pub type CampaignId = u64;

/// Fees are counted in basis points: hundredths of a percent.
pub const BASIS_POINTS_DENOMINATOR: i128 = 10_000;

/// Where a campaign stands in its life.
#[derive(Copy, Clone, Debug, PartialEq, Eq, Structural)]
pub enum CampaignStatus {
    /// Created, nothing deposited yet.
    Draft,
    /// The whole budget is in escrow; no creator is selected.
    Funded,
    /// The budget is in escrow and at least one creator was selected.
    Active,
    /// The escrow was emptied or its surplus taken back; committed payouts can
    /// still be claimed.
    Completed,
    /// Closed early or expired; committed payouts can still be claimed.
    Cancelled,
}

/// Where a creator's application stands.
#[derive(Copy, Clone, Debug, PartialEq, Eq, Structural)]
pub enum ApplicationStatus {
    /// Waiting for the business to decide.
    Pending,
    /// The creator is selected and owes proof of work.
    Approved,
    /// Proof of work was handed in.
    ProofSubmitted,
    /// The payout was released.
    Paid,
}

/// An account or a contract on the ledger, named by its strkey (`G...` or
/// `C...`). A strkey spells exactly one address, so two addresses are the same
/// when their strkeys are.
#[derive(Debug, PartialEq, Eq)]
pub struct Address {
    pub strkey: String,
}

impl View for Address {
    type V = Seq<char>;

    open spec fn view(&self) -> Seq<char> {
        self.strkey@
    }
}

impl Address {
    /// Whether both name the same account or contract.
    pub fn same_as(&self, other: &Address) -> (same: bool)
        ensures
            same == (self@ == other@),
    {
        self.strkey == other.strkey
    }
}

impl Clone for Address {
    fn clone(&self) -> (copy: Self)
        ensures
            copy@ == self@,
    {
        Address { strkey: self.strkey.clone() }
    }
}

/// The token that a campaign pays in.
#[derive(Debug, PartialEq, Eq)]
pub struct PayoutAsset {
    /// The token contract.
    pub token: Address,
    /// How the asset is shown to people.
    pub symbol: String,
}

#[verifier::ext_equal]
pub struct PayoutAssetView {
    pub token: Seq<char>,
    pub symbol: Seq<char>,
}

impl View for PayoutAsset {
    type V = PayoutAssetView;

    open spec fn view(&self) -> PayoutAssetView {
        PayoutAssetView { token: self.token@, symbol: self.symbol@ }
    }
}

impl Clone for PayoutAsset {
    fn clone(&self) -> (copy: Self)
        ensures
            copy@ == self@,
    {
        PayoutAsset { token: self.token.clone(), symbol: self.symbol.clone() }
    }
}

} // verus!
