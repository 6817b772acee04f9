//! What a call asks of the ledger around the contract.
use crate::shared::{Address, CampaignId};
use vstd::prelude::*;

verus! {

/// What the contract tells the outside world.
#[derive(Debug, PartialEq, Eq)]
pub enum Event {
    CampaignCreated { business: Address, campaign_id: CampaignId },
    CampaignFunded { campaign_id: CampaignId, amount: i128 },
    CreatorApplied { campaign_id: CampaignId, creator: Address },
    CreatorApproved { campaign_id: CampaignId, creator: Address, payout_amount: i128 },
    ProofSubmitted { campaign_id: CampaignId, creator: Address },
    PaymentReleased { campaign_id: CampaignId, creator: Address, amount: i128 },
    CampaignCancelled { campaign_id: CampaignId, refunded_amount: i128 },
}

#[verifier::ext_equal]
pub enum EventView {
    CampaignCreated { business: Seq<char>, campaign_id: CampaignId },
    CampaignFunded { campaign_id: CampaignId, amount: int },
    CreatorApplied { campaign_id: CampaignId, creator: Seq<char> },
    CreatorApproved { campaign_id: CampaignId, creator: Seq<char>, payout_amount: int },
    ProofSubmitted { campaign_id: CampaignId, creator: Seq<char> },
    PaymentReleased { campaign_id: CampaignId, creator: Seq<char>, amount: int },
    CampaignCancelled { campaign_id: CampaignId, refunded_amount: int },
}

impl View for Event {
    type V = EventView;

    open spec fn view(&self) -> EventView {
        match *self {
            Event::CampaignCreated { business, campaign_id } => EventView::CampaignCreated {
                business: business@,
                campaign_id,
            },
            Event::CampaignFunded { campaign_id, amount } => EventView::CampaignFunded {
                campaign_id,
                amount: amount as int,
            },
            Event::CreatorApplied { campaign_id, creator } => EventView::CreatorApplied {
                campaign_id,
                creator: creator@,
            },
            Event::CreatorApproved { campaign_id, creator, payout_amount } => {
                EventView::CreatorApproved {
                    campaign_id,
                    creator: creator@,
                    payout_amount: payout_amount as int,
                }
            },
            Event::ProofSubmitted { campaign_id, creator } => EventView::ProofSubmitted {
                campaign_id,
                creator: creator@,
            },
            Event::PaymentReleased { campaign_id, creator, amount } => EventView::PaymentReleased {
                campaign_id,
                creator: creator@,
                amount: amount as int,
            },
            Event::CampaignCancelled { campaign_id, refunded_amount } => {
                EventView::CampaignCancelled {
                    campaign_id,
                    refunded_amount: refunded_amount as int,
                }
            },
        }
    }
}

/// One thing that a call asks for. Whoever carries the call out does these in
/// the order in which they stand; where one of them fails, the call fails as a
/// whole and leaves no trace.
#[derive(Debug, PartialEq, Eq)]
pub enum Action {
    /// This address must have authorized the call.
    RequireAuth(Address),
    /// The token contract moves `amount` from one holder to another.
    Transfer { token: Address, from: Address, to: Address, amount: i128 },
    /// The event is published.
    Publish(Event),
    /// The contract's own entries are kept alive for longer.
    ExtendInstanceTtl,
}

#[verifier::ext_equal]
pub enum ActionView {
    RequireAuth(Seq<char>),
    Transfer { token: Seq<char>, from: Seq<char>, to: Seq<char>, amount: int },
    Publish(EventView),
    ExtendInstanceTtl,
}

impl View for Action {
    type V = ActionView;

    open spec fn view(&self) -> ActionView {
        match *self {
            Action::RequireAuth(address) => ActionView::RequireAuth(address@),
            Action::Transfer { token, from, to, amount } => ActionView::Transfer {
                token: token@,
                from: from@,
                to: to@,
                amount: amount as int,
            },
            Action::Publish(event) => ActionView::Publish(event@),
            Action::ExtendInstanceTtl => ActionView::ExtendInstanceTtl,
        }
    }
}

impl ActionView {
    /// What the action adds to `holder`'s balance of `token`; what it takes
    /// away counts as negative.
    pub open spec fn flow(self, holder: Seq<char>, token: Seq<char>) -> int {
        match self {
            ActionView::Transfer { token: moved, from, to, amount } => if moved == token {
                (if to == holder {
                    amount
                } else {
                    0
                }) - (if from == holder {
                    amount
                } else {
                    0
                })
            } else {
                0
            },
            _ => 0,
        }
    }
}

/// The sum of what `weigh` makes of each action.
pub open spec fn tally(actions: Seq<ActionView>, weigh: spec_fn(ActionView) -> int) -> int
    decreases actions.len(),
{
    if actions.len() == 0 {
        0
    } else {
        tally(actions.drop_last(), weigh) + weigh(actions.last())
    }
}

/// What an action adds to `holder`'s balance of `token`.
pub open spec fn flow_of(holder: Seq<char>, token: Seq<char>) -> spec_fn(ActionView) -> int {
    |a: ActionView| a.flow(holder, token)
}

/// What an action deposits for campaign `id`, as it is announced.
pub open spec fn deposit_for(id: CampaignId) -> spec_fn(ActionView) -> int {
    |a: ActionView|
        match a {
            ActionView::Publish(EventView::CampaignFunded { campaign_id, amount }) if campaign_id
                == id => amount,
            _ => 0,
        }
}

/// What an action refunds of campaign `id`, as it is announced.
pub open spec fn refund_of(id: CampaignId) -> spec_fn(ActionView) -> int {
    |a: ActionView|
        match a {
            ActionView::Publish(
                EventView::CampaignCancelled { campaign_id, refunded_amount },
            ) if campaign_id == id => refunded_amount,
            _ => 0,
        }
}

/// What the actions together add to `holder`'s balance of `token`.
pub open spec fn net_flow(actions: Seq<ActionView>, holder: Seq<char>, token: Seq<char>) -> int {
    tally(actions, flow_of(holder, token))
}

/// One more action adds its own weight.
pub proof fn lemma_tally_push(
    actions: Seq<ActionView>,
    action: ActionView,
    weigh: spec_fn(ActionView) -> int,
)
    ensures
        tally(actions.push(action), weigh) == tally(actions, weigh) + weigh(action),
{
    assert(actions.push(action).drop_last() =~= actions);
}

/// Two stretches of actions add up.
pub proof fn lemma_tally_concat(
    first: Seq<ActionView>,
    second: Seq<ActionView>,
    weigh: spec_fn(ActionView) -> int,
)
    ensures
        tally(first + second, weigh) == tally(first, weigh) + tally(second, weigh),
    decreases second.len(),
{
    if second.len() == 0 {
        assert(first + second =~= first);
    } else {
        assert((first + second).drop_last() =~= first + second.drop_last());
        lemma_tally_concat(first, second.drop_last(), weigh);
    }
}

/// Where no action weighs anything, neither do they together.
pub proof fn lemma_tally_zero(actions: Seq<ActionView>, weigh: spec_fn(ActionView) -> int)
    requires
        forall|i: int| 0 <= i < actions.len() ==> weigh(#[trigger] actions[i]) == 0,
    ensures
        tally(actions, weigh) == 0,
    decreases actions.len(),
{
    if actions.len() > 0 {
        lemma_tally_zero(actions.drop_last(), weigh);
    }
}

/// One more action adds its own flow.
pub proof fn lemma_net_flow_push(
    actions: Seq<ActionView>,
    action: ActionView,
    holder: Seq<char>,
    token: Seq<char>,
)
    ensures
        net_flow(actions.push(action), holder, token) == net_flow(actions, holder, token)
            + action.flow(holder, token),
{
    lemma_tally_push(actions, action, flow_of(holder, token));
}

} // verus!
