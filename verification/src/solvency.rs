//! What holds of the money over the contract's whole life, and why a call can
//! be worked out from the few entries that it touches.
use crate::action::{
    deposit_for, lemma_net_flow_push, lemma_tally_concat, lemma_tally_push, lemma_tally_zero,
    net_flow, refund_of, tally, ActionView, EventView,
};
use crate::books::{lemma_application_sums, lemma_campaign_escrow};
use crate::calls::Call;
use crate::env::EnvView;
use crate::error::Error;
use crate::laws::{
    closes, law_applications_are_final, law_books_stay_reconciled, law_entries_stay_valid,
    law_payable_stays_payable, law_refusal_changes_nothing, law_settings_are_final,
    lemma_creation_kept, lemma_fee_within,
};
use crate::rules::{claim_refusal, claim_transfers, fee_of, initialize_refusal, net_of};
use crate::shared::CampaignId;
use crate::storage::{escrow_in, reserved_on, ApplicationKey, StorageView};
use crate::sums::{lemma_total_insert, lemma_total_zero};
use crate::types::ApplicationView;
use vstd::prelude::*;

verus! {

impl EnvView {
    /// What the actions asked for so far add to the contract's balance.
    pub open spec fn holdings(self, token: Seq<char>) -> int {
        net_flow(self.actions, self.contract, token)
    }

    /// What was deposited for campaign `id`, by the events so far.
    pub open spec fn deposited(self, id: CampaignId) -> int {
        tally(self.actions, deposit_for(id))
    }

    /// What was refunded of campaign `id`, by the events so far.
    pub open spec fn refunded(self, id: CampaignId) -> int {
        tally(self.actions, refund_of(id))
    }

    /// The deposit of campaign `id` is accounted for: it is still in escrow, was
    /// paid to a creator, or was refunded. It is the whole budget or nothing:
    /// nothing for a draft, the budget where creators can apply, and one of the
    /// two for a campaign that has ended.
    pub open spec fn deposit_accounted(self, id: CampaignId) -> bool {
        let campaign = self.campaign(id);
        &&& self.deposited(id) == campaign.escrow_balance + self.storage.paid(id) + self.refunded(
            id,
        )
        &&& self.deposited(id) == 0 || self.deposited(id) == campaign.total_budget
        &&& campaign.status is Draft ==> self.deposited(id) == 0
        &&& campaign.open() ==> self.deposited(id) == campaign.total_budget
    }

    /// Every deposit is accounted for, and none is on record for a campaign
    /// that does not exist.
    pub open spec fn accounted(self) -> bool {
        &&& forall|id: CampaignId| #[trigger]
            self.storage.campaigns.contains_key(id) ==> self.deposit_accounted(id)
        &&& forall|id: CampaignId|
            !self.storage.campaigns.contains_key(id) ==> #[trigger] self.deposited(id) == 0
                && self.refunded(id) == 0
    }

    /// Nobody who deals with the contract is the contract itself.
    pub open spec fn at_arms_length(self) -> bool {
        &&& self.storage.settings matches Some(settings) ==> settings.admin != self.contract
        &&& forall|id: CampaignId| #[trigger]
            self.storage.campaigns.contains_key(id) ==> self.campaign(id).business
                != self.contract
        &&& forall|key: ApplicationKey| #[trigger]
            self.storage.applications.contains_key(key) ==> self.storage.applications[key].creator
                != self.contract
    }
}

/// Actions that a call adds one by one.
proof fn lemma_flows_of_three(
    before: Seq<ActionView>,
    a: ActionView,
    b: ActionView,
    c: ActionView,
    holder: Seq<char>,
    token: Seq<char>,
)
    ensures
        net_flow(before.push(a), holder, token) == net_flow(before, holder, token) + a.flow(
            holder,
            token,
        ),
        net_flow(before.push(a).push(b), holder, token) == net_flow(before, holder, token) + a.flow(
            holder,
            token,
        ) + b.flow(holder, token),
        net_flow(before.push(a).push(b).push(c), holder, token) == net_flow(before, holder, token)
            + a.flow(holder, token) + b.flow(holder, token) + c.flow(holder, token),
{
    lemma_net_flow_push(before, a, holder, token);
    lemma_net_flow_push(before.push(a), b, holder, token);
    lemma_net_flow_push(before.push(a).push(b), c, holder, token);
}

/// Every unit that a call moves into or out of the contract is booked: the
/// escrow of all campaigns in a token changes by exactly what the call's
/// transfers add to the contract's balance of it.
pub proof fn law_escrow_follows_the_money(s: EnvView, call: Call, token: Seq<char>)
    requires
        s.storage.valid(),
        s.at_arms_length(),
        call.caller() != s.contract,
        call is CreateCampaign && call.refusal(s) is None ==> s.storage.next_campaign_id < u64::MAX,
    ensures
        call.after(s).holdings(token) - s.holdings(token) == call.after(s).storage.escrow(token)
            - s.storage.escrow(token),
        call.after(s).at_arms_length(),
{
    let t = call.after(s);
    let auth = ActionView::RequireAuth(call.caller());
    let me = s.contract;
    if call.refusal(s) is Some {
        law_refusal_changes_nothing(s, call);
        lemma_flows_of_three(s.actions, auth, auth, auth, me, token);
        assert(s.actions + seq![auth] =~= s.actions.push(auth));
    } else {
        match call {
            Call::Initialize { .. } => {
                lemma_flows_of_three(s.actions, auth, auth, auth, me, token);
                assert(t.actions =~= s.actions.push(auth));
                assert(t.storage.campaigns == s.storage.campaigns);
            },
            Call::CreateCampaign { .. } => {
                let id = s.storage.next_campaign_id as u64;
                let event = t.actions.last();
                lemma_flows_of_three(s.actions, auth, event, event, me, token);
                assert(t.actions =~= s.actions.push(auth).push(event));
                lemma_campaign_escrow(s.storage, t.campaign(id), token);
                assert(t.storage.campaigns == s.storage.with_campaign(t.campaign(id)).campaigns);
            },
            Call::FundCampaign { id, .. } => {
                let transfer = t.actions[s.actions.len() as int + 1];
                let event = t.actions.last();
                lemma_flows_of_three(s.actions, auth, transfer, event, me, token);
                assert(t.actions =~= s.actions.push(auth).push(transfer).push(event));
                lemma_campaign_escrow(s.storage, t.campaign(id), token);
            },
            Call::ApplyToCampaign { .. } | Call::SubmitProof { .. } => {
                let event = t.actions.last();
                lemma_flows_of_three(s.actions, auth, event, event, me, token);
                assert(t.actions =~= s.actions.push(auth).push(event));
                assert(t.storage.campaigns == s.storage.campaigns);
            },
            Call::ApproveCreator { id, .. } => {
                let event = t.actions.last();
                lemma_flows_of_three(s.actions, auth, event, event, me, token);
                assert(t.actions =~= s.actions.push(auth).push(event));
                lemma_campaign_escrow(s.storage, t.campaign(id), token);
                assert(t.storage.campaigns == s.storage.with_campaign(t.campaign(id)).campaigns);
            },
            Call::ApproveSubmission { .. } | Call::RejectSubmission { .. } => {
                lemma_flows_of_three(s.actions, auth, auth, auth, me, token);
                assert(t.actions =~= s.actions.push(auth));
                assert(t.storage.campaigns == s.storage.campaigns);
            },
            Call::ClaimPayment { id, creator } => {
                lemma_claim_flow(s, creator, id, token);
                lemma_campaign_escrow(s.storage, t.campaign(id), token);
                assert(t.storage.campaigns == s.storage.with_campaign(t.campaign(id)).campaigns);
            },
            Call::CancelCampaign { id, .. } => {
                lemma_refund_flow(s, call, id, token);
                lemma_campaign_escrow(s.storage, t.campaign(id), token);
            },
            Call::ExpireCampaign { id, .. } => {
                lemma_refund_flow(s, call, id, token);
                lemma_campaign_escrow(s.storage, t.campaign(id), token);
            },
            Call::ReclaimSurplus { id, .. } => {
                lemma_refund_flow(s, call, id, token);
                lemma_campaign_escrow(s.storage, t.campaign(id), token);
            },
        }
    }
}

/// A claim moves the whole payout out of the contract, in one transfer or two.
proof fn lemma_claim_flow(s: EnvView, creator: Seq<char>, id: CampaignId, token: Seq<char>)
    requires
        s.storage.valid(),
        s.at_arms_length(),
        creator != s.contract,
        claim_refusal(s, creator, id) is None,
    ensures
        ({
            let call = Call::ClaimPayment { creator, id };
            call.after(s).holdings(token) == s.holdings(token) - (if s.campaign(id).asset.token
                == token {
                s.application(id, creator).payout_amount
            } else {
                0
            })
        }),
{
    let call = Call::ClaimPayment { creator, id };
    let t = call.after(s);
    let me = s.contract;
    let settings = s.storage.settings->0;
    let payout = s.application(id, creator).payout_amount;
    let fee = fee_of(payout, settings.fee_bps);
    let net = net_of(payout, settings.fee_bps);
    assert(s.application(id, creator).valid());
    lemma_fee_within(payout, settings.fee_bps);
    let auth = ActionView::RequireAuth(creator);
    let to_admin = s.pays(id, settings.admin, fee);
    let to_creator = s.pays(id, creator, net);
    let event = t.actions.last();
    assert(event is Publish);
    lemma_flows_of_three(s.actions, auth, to_admin, to_creator, me, token);
    lemma_flows_of_three(s.actions, auth, to_creator, event, me, token);
    lemma_flows_of_three(
        s.actions.push(auth).push(to_admin).push(to_creator),
        event,
        event,
        event,
        me,
        token,
    );
    if fee > 0 {
        assert(t.actions =~= s.actions.push(auth).push(to_admin).push(to_creator).push(event));
    } else {
        assert(t.actions =~= s.actions.push(auth).push(to_creator).push(event));
    }
}

/// A refund moves the unallocated part out of the contract.
proof fn lemma_refund_flow(s: EnvView, call: Call, id: CampaignId, token: Seq<char>)
    requires
        s.storage.valid(),
        closes(call, id),
        call.refusal(s) is None,
        call.caller() != s.contract,
    ensures
        call.after(s).holdings(token) == s.holdings(token) - (if s.campaign(id).asset.token
            == token {
            s.campaign(id).unallocated()
        } else {
            0
        }),
{
    let t = call.after(s);
    let me = s.contract;
    let refund = s.campaign(id).unallocated();
    let auth = ActionView::RequireAuth(call.caller());
    let transfer = s.pays(id, call.caller(), refund);
    let event = ActionView::Publish(
        EventView::CampaignCancelled { campaign_id: id, refunded_amount: refund },
    );
    assert(s.campaign(id).valid());
    lemma_flows_of_three(s.actions, auth, transfer, event, me, token);
    lemma_flows_of_three(s.actions, auth, event, event, me, token);
    if refund > 0 {
        assert(t.actions =~= s.actions.push(auth).push(transfer).push(event));
    } else {
        assert(t.actions =~= s.actions.push(auth).push(event));
    }
}

/// What a call's own actions say of deposits and refunds: a funding deposits
/// the budget, a closing refunds the unallocated part, and nothing else does
/// either.
proof fn lemma_announced(s: EnvView, call: Call, id: CampaignId)
    requires
        s.storage.valid(),
    ensures
        ({
            let t = call.after(s);
            let goes = call.refusal(s) is None;
            let funds = call matches Call::FundCampaign { id: on, .. } && on == id;
            &&& t.deposited(id) == s.deposited(id) + (if goes && funds {
                s.campaign(id).total_budget
            } else {
                0
            })
            &&& t.refunded(id) == s.refunded(id) + (if goes && closes(call, id) {
                s.campaign(id).unallocated()
            } else {
                0
            })
        }),
{
    let t = call.after(s);
    if call.refusal(s) is Some {
        law_refusal_changes_nothing(s, call);
        assert(t.actions == s.actions || t.actions == s.actions.push(
            ActionView::RequireAuth(call.caller()),
        ));
        lemma_tally_push(s.actions, ActionView::RequireAuth(call.caller()), deposit_for(id));
        lemma_tally_push(s.actions, ActionView::RequireAuth(call.caller()), refund_of(id));
    } else {
        lemma_announcement_is_last(s, call);
        lemma_tally_step(s.actions, t.actions, deposit_for(id));
        lemma_tally_step(s.actions, t.actions, refund_of(id));
    }
}

/// The actions of a call that is carried out follow those before it, and only
/// the last of them can be an event: for a funding the deposit, for a closing
/// the refund, for any other call neither.
proof fn lemma_announcement_is_last(s: EnvView, call: Call)
    requires
        s.storage.valid(),
        call.refusal(s) is None,
    ensures
        ({
            let t = call.after(s);
            &&& s.actions.len() < t.actions.len()
            &&& s.actions =~= t.actions.take(s.actions.len() as int)
            &&& forall|i: int|
                s.actions.len() <= i < t.actions.len() - 1 ==> #[trigger] t.actions[i] !is Publish
            &&& match call {
                Call::FundCampaign { id, .. } => t.actions.last() == ActionView::Publish(
                    EventView::CampaignFunded {
                        campaign_id: id,
                        amount: s.campaign(id).total_budget,
                    },
                ),
                Call::CancelCampaign { id, .. }
                | Call::ExpireCampaign { id, .. }
                | Call::ReclaimSurplus { id, .. } => t.actions.last() == ActionView::Publish(
                    EventView::CampaignCancelled {
                        campaign_id: id,
                        refunded_amount: s.campaign(id).unallocated(),
                    },
                ),
                _ => t.actions.last() matches ActionView::Publish(event) ==> event
                    !is CampaignFunded && event !is CampaignCancelled,
            }
        }),
{
}

/// Where only the last of the new actions weighs anything, they add its weight.
proof fn lemma_tally_step(
    before: Seq<ActionView>,
    after: Seq<ActionView>,
    weigh: spec_fn(ActionView) -> int,
)
    requires
        before.len() < after.len(),
        before == after.take(before.len() as int),
        forall|i: int| before.len() <= i < after.len() - 1 ==> weigh(#[trigger] after[i]) == 0,
    ensures
        tally(after, weigh) == tally(before, weigh) + weigh(after.last()),
{
    let more = after.drop_last().skip(before.len() as int);
    assert(after.drop_last() =~= before + more);
    lemma_tally_concat(before, more, weigh);
    assert forall|i: int| 0 <= i < more.len() implies weigh(#[trigger] more[i]) == 0 by {
        assert(more[i] == after[before.len() + i]);
    }
    lemma_tally_zero(more, weigh);
}

/// A call leaves the payouts that campaign `id` has released as they are, but
/// for a claim on it, which adds the payout.
proof fn lemma_paid_moves(s: EnvView, call: Call, id: CampaignId)
    requires
        s.storage.valid(),
    ensures
        ({
            let claims = call.refusal(s) is None && (call matches Call::ClaimPayment { id: on, .. }
                && on == id);
            call.after(s).storage.paid(id) == s.storage.paid(id) + (if claims {
                s.application(id, call.caller()).payout_amount
            } else {
                0
            })
        }),
{
    let t = call.after(s);
    if call.refusal(s) is Some {
        law_refusal_changes_nothing(s, call);
    } else {
        match call {
            Call::ApplyToCampaign { id: on, creator, .. } => {
                lemma_application_sums(s.storage, t.application(on, creator), id);
            },
            Call::ApproveCreator { id: on, creator, .. } => {
                lemma_application_sums(s.storage, t.application(on, creator), id);
                assert(t.storage.applications == s.storage.with_application(
                    t.application(on, creator),
                ).applications);
            },
            Call::SubmitProof { id: on, creator, .. } => {
                lemma_application_sums(s.storage, t.application(on, creator), id);
            },
            Call::ApproveSubmission { id: on, creator, .. } => {
                lemma_application_sums(s.storage, t.application(on, creator), id);
            },
            Call::RejectSubmission { id: on, creator, .. } => {
                lemma_application_sums(s.storage, t.application(on, creator), id);
            },
            Call::ClaimPayment { id: on, creator } => {
                lemma_application_sums(s.storage, t.application(on, creator), id);
                assert(t.storage.applications == s.storage.with_application(
                    t.application(on, creator),
                ).applications);
            },
            _ => {
                assert(t.storage.applications == s.storage.applications);
            },
        }
    }
}

/// A call leaves a campaign's budget and escrow as they are, but for a funding
/// of it, which takes the budget in, a claim on it, which takes the payout out,
/// and a closing of it, which takes the unallocated part out. Only a funding
/// opens a draft, and nothing becomes a draft again.
proof fn lemma_escrow_moves(s: EnvView, call: Call, id: CampaignId)
    requires
        s.storage.valid(),
        s.has_campaign(id),
    ensures
        ({
            let t = call.after(s);
            let goes = call.refusal(s) is None;
            let old_campaign = s.campaign(id);
            let new_campaign = t.campaign(id);
            let funds = goes && (call matches Call::FundCampaign { id: on, .. } && on == id);
            let claims = goes && (call matches Call::ClaimPayment { id: on, .. } && on == id);
            let refunds = goes && closes(call, id);
            &&& t.has_campaign(id)
            &&& new_campaign.total_budget == old_campaign.total_budget
            &&& new_campaign.escrow_balance == old_campaign.escrow_balance + (if funds {
                old_campaign.total_budget
            } else {
                0
            }) - (if claims {
                s.application(id, call.caller()).payout_amount
            } else {
                0
            }) - (if refunds {
                old_campaign.unallocated()
            } else {
                0
            })
            &&& funds ==> old_campaign.status is Draft && new_campaign.status !is Draft
            &&& new_campaign.status is Draft ==> old_campaign.status is Draft
            &&& new_campaign.open() ==> funds || old_campaign.open()
        }),
{
    assert(s.campaign(id).valid());
    if call.refusal(s) is Some {
        law_refusal_changes_nothing(s, call);
    } else {
        match call {
            Call::CreateCampaign { .. } => {
                assert(id != s.storage.next_campaign_id);
            },
            Call::ClaimPayment { id: on, creator } => {
                assert(s.application(on, creator).valid());
            },
            _ => {},
        }
    }
}

/// Every call keeps the deposits accounted for.
pub proof fn law_deposits_stay_accounted(s: EnvView, call: Call)
    requires
        s.storage.valid(),
        s.accounted(),
        call is CreateCampaign && call.refusal(s) is None ==> s.storage.next_campaign_id < u64::MAX,
    ensures
        call.after(s).accounted(),
{
    let t = call.after(s);
    assert forall|id: CampaignId| #[trigger]
        t.storage.campaigns.contains_key(id) implies t.deposit_accounted(id) by {
        lemma_announced(s, call, id);
        if s.storage.campaigns.contains_key(id) {
            assert(s.deposit_accounted(id));
            lemma_escrow_moves(s, call, id);
            lemma_paid_moves(s, call, id);
        } else {
            lemma_new_campaign(s, call, id);
            assert(s.deposited(id) == 0);
        }
    }
    assert forall|id: CampaignId| !t.storage.campaigns.contains_key(id) implies #[trigger]
        t.deposited(id) == 0 && t.refunded(id) == 0 by {
        lemma_announced(s, call, id);
        if s.storage.campaigns.contains_key(id) {
            lemma_escrow_moves(s, call, id);
        }
        assert(s.deposited(id) == 0);
    }
}

/// A campaign that a call brings about is a draft that holds nothing and has
/// paid nothing.
proof fn lemma_new_campaign(s: EnvView, call: Call, id: CampaignId)
    requires
        s.storage.valid(),
        !s.has_campaign(id),
        call.after(s).has_campaign(id),
        call is CreateCampaign && call.refusal(s) is None ==> s.storage.next_campaign_id < u64::MAX,
    ensures
        call is CreateCampaign,
        call.after(s).campaign(id).status is Draft,
        call.after(s).campaign(id).escrow_balance == 0,
        call.after(s).storage.paid(id) == 0,
{
    if call.refusal(s) is Some {
        law_refusal_changes_nothing(s, call);
    } else if call is CreateCampaign {
        lemma_creation_kept(s.storage, call.after(s).campaign(id));
    }
}

/// Whatever calls were made since the contract was deployed, what was deposited
/// for a campaign is the sum of what it still holds, what it has paid to
/// creators (fees included) and what it has refunded; and the deposit is its
/// whole budget once it is funded.
pub proof fn law_budget_is_accounted_for_life(
    contract: Seq<char>,
    start: int,
    calls: Seq<(int, Call)>,
)
    requires
        calls.len() <= u64::MAX,
    ensures
        EnvView::deployed(contract, start).history(calls).accounted(),
    decreases calls.len(),
{
    let deployed = EnvView::deployed(contract, start);
    if calls.len() > 0 {
        law_budget_is_accounted_for_life(contract, start, calls.drop_last());
        law_books_hold_for_life(contract, start, calls.drop_last());
        let last = deployed.history(calls.drop_last());
        let before = last.at(calls.last().0);
        assert forall|id: CampaignId| #[trigger] before.deposited(id) == last.deposited(id)
            && before.refunded(id) == last.refunded(id) by {}
        law_deposits_stay_accounted(before, calls.last().1);
    }
}

/// From the moment that a campaign is funded, and whatever calls follow, its
/// budget is the sum of what it still holds, what it has paid to creators (fees
/// included) and what it has refunded.
pub proof fn law_funded_budget_adds_up(
    contract: Seq<char>,
    start: int,
    earlier: Seq<(int, Call)>,
    later: Seq<(int, Call)>,
    id: CampaignId,
)
    requires
        earlier.len() + later.len() <= u64::MAX,
        EnvView::deployed(contract, start).history(earlier).deposited(id) > 0,
    ensures
        ({
            let t = EnvView::deployed(contract, start).history(earlier + later);
            &&& t.has_campaign(id)
            &&& t.campaign(id).total_budget == t.campaign(id).escrow_balance + t.storage.paid(id)
                + t.refunded(id)
        }),
{
    lemma_deposits_stay(contract, start, earlier, later, id);
    law_budget_is_accounted_for_life(contract, start, earlier + later);
}

/// A deposit stays on record.
proof fn lemma_deposits_stay(
    contract: Seq<char>,
    start: int,
    earlier: Seq<(int, Call)>,
    later: Seq<(int, Call)>,
    id: CampaignId,
)
    requires
        earlier.len() + later.len() <= u64::MAX,
    ensures
        EnvView::deployed(contract, start).history(earlier + later).deposited(id)
            >= EnvView::deployed(contract, start).history(earlier).deposited(id),
    decreases later.len(),
{
    if later.len() == 0 {
        assert(earlier + later =~= earlier);
    } else {
        let calls = earlier + later.drop_last();
        assert((earlier + later).drop_last() =~= calls);
        lemma_deposits_stay(contract, start, earlier, later.drop_last(), id);
        law_books_hold_for_life(contract, start, calls);
        let before = EnvView::deployed(contract, start).history(calls).at(later.last().0);
        let call = later.last().1;
        lemma_announced(before, call, id);
        if call.refusal(before) is None && call is FundCampaign && call->FundCampaign_id == id {
            assert(before.campaign(id).valid());
        }
    }
}

/// How many campaigns a call creates at most.
proof fn lemma_numbers_used(s: EnvView, call: Call)
    ensures
        s.storage.next_campaign_id <= call.after(s).storage.next_campaign_id
            <= s.storage.next_campaign_id + 1,
        call.after(s).contract == s.contract,
{
}

/// Whatever calls were made since the contract was deployed, its entries are
/// valid and its books reconciled: no campaign ever commits more than it
/// holds, what is committed is exactly what selected creators are owed, and no
/// campaign ever pays out more than was deposited.
pub proof fn law_books_hold_for_life(contract: Seq<char>, start: int, calls: Seq<(int, Call)>)
    requires
        calls.len() <= u64::MAX,
    ensures
        ({
            let s = EnvView::deployed(contract, start).history(calls);
            &&& s.storage.valid()
            &&& s.storage.reconciled()
            &&& s.storage.next_campaign_id <= calls.len()
            &&& s.contract == contract
        }),
    decreases calls.len(),
{
    let deployed = EnvView::deployed(contract, start);
    if calls.len() == 0 {
        assert(deployed.storage.campaigns.dom() =~= Set::<CampaignId>::empty());
    } else {
        law_books_hold_for_life(contract, start, calls.drop_last());
        let before = deployed.history(calls.drop_last()).at(calls.last().0);
        law_entries_stay_valid(before, calls.last().1);
        law_books_stay_reconciled(before, calls.last().1);
        lemma_numbers_used(before, calls.last().1);
    }
}

/// Whatever calls were made since the contract was deployed, what came into it
/// and has not left it is, token by token, exactly what the campaigns hold in
/// escrow: every escrow is covered, and nothing is stuck.
pub proof fn law_contract_stays_solvent(
    contract: Seq<char>,
    start: int,
    calls: Seq<(int, Call)>,
    token: Seq<char>,
)
    requires
        calls.len() <= u64::MAX,
        forall|i: int| 0 <= i < calls.len() ==> (#[trigger] calls[i]).1.caller() != contract,
    ensures
        ({
            let s = EnvView::deployed(contract, start).history(calls);
            &&& s.holdings(token) == s.storage.escrow(token)
            &&& s.at_arms_length()
        }),
    decreases calls.len(),
{
    let deployed = EnvView::deployed(contract, start);
    if calls.len() == 0 {
        lemma_total_zero(deployed.storage.campaigns, escrow_in(token));
    } else {
        let front = calls.drop_last();
        assert forall|i: int| 0 <= i < front.len() implies (#[trigger] front[i]).1.caller()
            != contract by {
            assert(front[i] == calls[i]);
        }
        law_contract_stays_solvent(contract, start, front, token);
        law_books_hold_for_life(contract, start, front);
        let before = deployed.history(front).at(calls.last().0);
        assert(calls[calls.len() - 1].1.caller() != contract);
        law_escrow_follows_the_money(before, calls.last().1, token);
    }
}

/// Once a creator is paid, no sequence of calls makes the payout claimable
/// again.
pub proof fn law_paid_for_life(
    s: EnvView,
    calls: Seq<(int, Call)>,
    id: CampaignId,
    creator: Seq<char>,
    later: int,
)
    requires
        s.storage.valid(),
        s.storage.next_campaign_id + calls.len() <= u64::MAX,
        s.has_application(id, creator),
        s.application(id, creator).status is Paid,
    ensures
        ({
            let t = s.history(calls);
            &&& t.storage.valid()
            &&& t.storage.next_campaign_id <= s.storage.next_campaign_id + calls.len()
            &&& t.has_application(id, creator)
            &&& t.application(id, creator) == s.application(id, creator)
            &&& claim_refusal(t.at(later), creator, id) == Some(Error::SubmissionNotPayable)
        }),
    decreases calls.len(),
{
    if calls.len() > 0 {
        law_paid_for_life(s, calls.drop_last(), id, creator, later);
        let before = s.history(calls.drop_last()).at(calls.last().0);
        law_entries_stay_valid(before, calls.last().1);
        law_applications_are_final(before, calls.last().1, id, creator);
        lemma_numbers_used(before, calls.last().1);
    }
    let t = s.history(calls);
    assert(t.storage.campaigns.contains_key((id, creator).0));
}

/// Whether the call ends the wait of `creator` for the payout of campaign
/// `id`: it is claimed, or the proof for it is rejected.
pub open spec fn settles(call: Call, id: CampaignId, creator: Seq<char>) -> bool {
    match call {
        Call::ClaimPayment { id: on, creator: whose } => on == id && whose == creator,
        Call::RejectSubmission { id: on, creator: whose, .. } => on == id && whose == creator,
        _ => false,
    }
}

/// A payout that can be claimed stays claimable, for the same money, through
/// any sequence of later calls of which none claims it or rejects its proof.
pub proof fn law_payable_for_life(
    s: EnvView,
    calls: Seq<(int, Call)>,
    id: CampaignId,
    creator: Seq<char>,
    later: int,
)
    requires
        s.storage.valid(),
        s.storage.next_campaign_id + calls.len() <= u64::MAX,
        claim_refusal(s, creator, id) is None,
        forall|i: int|
            0 <= i < calls.len() ==> s.timestamp <= (#[trigger] calls[i]).0 <= later && !settles(
                calls[i].1,
                id,
                creator,
            ),
        forall|i: int, j: int|
            0 <= i <= j < calls.len() ==> (#[trigger] calls[i]).0 <= (#[trigger] calls[j]).0,
        s.timestamp <= later,
    ensures
        ({
            let t = s.history(calls);
            &&& t.storage.valid()
            &&& t.storage.next_campaign_id <= s.storage.next_campaign_id + calls.len()
            &&& claim_refusal(t.at(later), creator, id) is None
            &&& claim_transfers(t.at(later), creator, id) == claim_transfers(s, creator, id)
        }),
    decreases calls.len(),
{
    if calls.len() == 0 {
        assert(claim_transfers(s.at(later), creator, id) =~= claim_transfers(s, creator, id));
    } else {
        let front = calls.drop_last();
        let (when, call) = calls.last();
        assert(calls[calls.len() - 1] == (when, call));
        assert forall|i: int| 0 <= i < front.len() implies s.timestamp <= (#[trigger] front[i]).0
            <= when && !settles(front[i].1, id, creator) by {
            assert(front[i] == calls[i]);
        }
        assert forall|i: int, j: int| 0 <= i <= j < front.len() implies (#[trigger] front[i]).0
            <= (#[trigger] front[j]).0 by {
            assert(front[i] == calls[i] && front[j] == calls[j]);
        }
        law_payable_for_life(s, front, id, creator, when);
        let before = s.history(front).at(when);
        law_entries_stay_valid(before, call);
        lemma_numbers_used(before, call);
        law_payable_stays_payable(before, call, id, creator, later);
    }
}

/// Once the contract is initialized, no sequence of calls changes its
/// settings, and none initializes it again.
pub proof fn law_initialized_for_life(s: EnvView, calls: Seq<(int, Call)>, fee_bps: int)
    requires
        s.storage.settings is Some,
    ensures
        s.history(calls).storage.settings == s.storage.settings,
        initialize_refusal(s.history(calls), fee_bps) == Some(Error::AlreadyInitialized),
    decreases calls.len(),
{
    if calls.len() > 0 {
        law_initialized_for_life(s, calls.drop_last(), fee_bps);
        law_settings_are_final(
            s.history(calls.drop_last()).at(calls.last().0),
            calls.last().1,
        );
    }
}

/// Whether the call is about no campaign but `id` and no application but that
/// of `creator` to it.
pub open spec fn concerns(
    call: Call,
    s: EnvView,
    id: Option<CampaignId>,
    creator: Option<Seq<char>>,
) -> bool {
    match call {
        Call::Initialize { .. } => true,
        Call::CreateCampaign { .. } => id == Some(s.storage.next_campaign_id as u64),
        Call::FundCampaign { id: on, .. } => id == Some(on),
        Call::ApplyToCampaign { id: on, creator: whose, .. } => id == Some(on) && creator == Some(
            whose,
        ),
        Call::ApproveCreator { id: on, creator: whose, .. } => id == Some(on) && creator == Some(
            whose,
        ),
        Call::SubmitProof { id: on, creator: whose, .. } => id == Some(on) && creator == Some(
            whose,
        ),
        Call::ApproveSubmission { id: on, creator: whose, .. } => id == Some(on) && creator
            == Some(whose),
        Call::RejectSubmission { id: on, creator: whose, .. } => id == Some(on) && creator == Some(
            whose,
        ),
        Call::ClaimPayment { id: on, creator: whose } => id == Some(on) && creator == Some(whose),
        Call::CancelCampaign { id: on, .. } => id == Some(on),
        Call::ExpireCampaign { id: on, .. } => id == Some(on),
        Call::ReclaimSurplus { id: on, .. } => id == Some(on),
    }
}

/// The entries of a working set are valid whenever all entries are, so that
/// they can be loaded.
pub proof fn law_working_set_is_valid(
    s: StorageView,
    id: Option<CampaignId>,
    creator: Option<Seq<char>>,
)
    requires
        s.valid(),
    ensures
        s.working_set(id, creator).valid(),
{
    let w = s.working_set(id, creator);
    assert forall|k: ApplicationKey| #[trigger] w.applications.contains_key(k) implies {
        &&& w.campaigns.contains_key(k.0)
        &&& w.applications[k].campaign_id == k.0
        &&& w.applications[k].creator == k.1
        &&& w.applications[k].valid()
    } by {
        assert(s.applications.contains_key((id->0, creator->0)));
        assert(s.campaigns.contains_key(id->0));
    }
    assert forall|on: CampaignId| #[trigger] w.campaigns.contains_key(on) implies {
        &&& w.campaigns[on].id == on
        &&& on < w.next_campaign_id
        &&& w.campaigns[on].valid()
        &&& w.reserved(on) <= w.campaigns[on].committed_payouts
    } by {
        assert(s.campaigns.contains_key(on));
        if s.application_at(id, creator) is Some {
            let key = (id->0, creator->0);
            crate::books::lemma_reserved_within(s, key);
            let none = Map::<ApplicationKey, ApplicationView>::empty();
            assert(w.applications =~= none.insert(key, s.applications[key]));
            lemma_total_insert(none, reserved_on(on), key, s.applications[key]);
        } else {
            lemma_total_zero(w.applications, reserved_on(on));
        }
    }
}

/// A call can be worked out on its working set alone: it gets the same answer
/// and asks for the same things, and what it leaves there is what it leaves in
/// place of those entries among all the others.
pub proof fn law_working_set_suffices(
    s: EnvView,
    call: Call,
    id: Option<CampaignId>,
    creator: Option<Seq<char>>,
)
    requires
        s.storage.valid(),
        concerns(call, s, id, creator),
    ensures
        ({
            let w = EnvView { storage: s.storage.working_set(id, creator), ..s };
            let all = call.after(s);
            let few = call.after(w);
            &&& call.refusal(w) == call.refusal(s)
            &&& few.actions == all.actions
            &&& few.storage.settings == all.storage.settings
            &&& few.storage.next_campaign_id == all.storage.next_campaign_id
            &&& all.storage.campaigns == s.storage.campaigns.union_prefer_right(
                few.storage.campaigns,
            )
            &&& all.storage.applications == s.storage.applications.union_prefer_right(
                few.storage.applications,
            )
        }),
{
    let w = EnvView { storage: s.storage.working_set(id, creator), ..s };
    let all = call.after(s);
    let few = call.after(w);
    if id is Some {
        let on = id->0;
        assert(w.has_campaign(on) == s.has_campaign(on));
        assert(w.has_campaign(on) ==> w.campaign(on) == s.campaign(on));
        if creator is Some {
            let whose = creator->0;
            assert(w.has_application(on, whose) == s.has_application(on, whose));
            assert(w.has_application(on, whose) ==> w.application(on, whose) == s.application(
                on,
                whose,
            ));
        }
    }
    assert(call.refusal(w) == call.refusal(s));
    assert(all.storage.campaigns =~= s.storage.campaigns.union_prefer_right(
        few.storage.campaigns,
    ));
    assert(all.storage.applications =~= s.storage.applications.union_prefer_right(
        few.storage.applications,
    ));
    assert(few.actions =~= all.actions);
}

} // verus!
