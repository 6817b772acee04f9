//! Who is paid what by each call, and what the outside world is told of it.
use crate::action::{
    flow_of, lemma_net_flow_push, lemma_tally_concat, net_flow, ActionView, EventView,
};
use crate::calls::Call;
use crate::env::EnvView;
use crate::laws::{
    closes, law_commitments_survive_closing, law_entries_stay_valid, law_refusal_changes_nothing,
    lemma_fee_within,
};
use crate::rules::{
    after_cancel, after_claim, after_fund, cancel_refusal, claim_refusal, claim_transfers,
    fund_refusal,
};
use crate::shared::CampaignId;
use crate::solvency::{law_payable_for_life, settles};
use vstd::prelude::*;

verus! {

/// What `holder` has of `amount` where `whose` it is.
pub open spec fn share(holder: Seq<char>, whose: Seq<char>, amount: int) -> int {
    if holder == whose {
        amount
    } else {
        0
    }
}

/// Refused or not, a call other than a funding, a claim, a closing or a reclaim
/// moves no money.
pub proof fn law_other_calls_move_no_money(s: EnvView, call: Call, i: int)
    requires
        !(call is FundCampaign),
        !(call is ClaimPayment),
        !(call is CancelCampaign),
        !(call is ExpireCampaign),
        !(call is ReclaimSurplus),
        s.actions.len() <= i < call.after(s).actions.len(),
    ensures
        !(call.after(s).actions[i] is Transfer),
{
}

/// A refused setup or creation asks for nothing; any other refused call has
/// demanded the caller's authorization and asks for nothing else.
pub proof fn law_refused_calls_ask_for_nothing_more(s: EnvView, call: Call)
    requires
        call.refusal(s) is Some,
    ensures
        call is Initialize || call is CreateCampaign ==> call.after(s).actions == s.actions,
        !(call is Initialize || call is CreateCampaign) ==> call.after(s).actions
            == s.actions.push(ActionView::RequireAuth(call.caller())),
{
    law_refusal_changes_nothing(s, call);
    assert(s.asking(seq![ActionView::RequireAuth(call.caller())]).actions =~= s.actions.push(
        ActionView::RequireAuth(call.caller()),
    ));
}

/// A funding takes the whole budget from the business into the contract, in one
/// transfer of the campaign's token, and moves nothing else.
pub proof fn law_funding_pays_in(
    s: EnvView,
    business: Seq<char>,
    id: CampaignId,
    holder: Seq<char>,
    token: Seq<char>,
)
    requires
        fund_refusal(s, business, id) is None,
    ensures
        ({
            let t = after_fund(s, business, id);
            let campaign = s.storage.campaigns[id];
            let paid = if token == campaign.asset.token {
                campaign.total_budget
            } else {
                0
            };
            &&& net_flow(t.actions, holder, token) == net_flow(s.actions, holder, token) + share(
                holder,
                s.contract,
                paid,
            ) - share(holder, business, paid)
            &&& t.actions.len() == s.actions.len() + 3
            &&& t.actions[s.actions.len() as int + 1] is Transfer
        }),
{
    let t = after_fund(s, business, id);
    let n = s.actions.len() as int;
    let (a, b, c) = (t.actions[n], t.actions[n + 1], t.actions[n + 2]);
    assert(t.actions =~= s.actions.push(a).push(b).push(c));
    lemma_net_flow_push(s.actions, a, holder, token);
    lemma_net_flow_push(s.actions.push(a), b, holder, token);
    lemma_net_flow_push(s.actions.push(a).push(b), c, holder, token);
}

/// A claim takes the payout out of the contract, whatever has become of the
/// campaign, and splits it: the admin gets the fee, which is the payout times
/// the fee rate in parts of ten thousand, rounded down to a whole unit, and the
/// creator gets all the rest. Nobody else gets or loses anything.
pub proof fn law_claim_pays_fee_and_rest(
    s: EnvView,
    creator: Seq<char>,
    id: CampaignId,
    fee: int,
    holder: Seq<char>,
    token: Seq<char>,
)
    requires
        s.storage.valid(),
        claim_refusal(s, creator, id) is None,
        ({
            let exact = s.storage.applications[(id, creator)].payout_amount
                * s.storage.settings->0.fee_bps;
            fee * 10_000 <= exact && exact < (fee + 1) * 10_000
        }),
    ensures
        ({
            let t = after_claim(s, creator, id);
            let payout = s.storage.applications[(id, creator)].payout_amount;
            let admin = s.storage.settings->0.admin;
            let before = net_flow(s.actions, holder, token);
            let after = net_flow(t.actions, holder, token);
            &&& 0 <= fee <= payout
            &&& token == s.storage.campaigns[id].asset.token ==> after == before + share(
                holder,
                admin,
                fee,
            ) + share(holder, creator, payout - fee) - share(holder, s.contract, payout)
            &&& token != s.storage.campaigns[id].asset.token ==> after == before
        }),
{
    law_claim_transfers(s, creator, id, fee);
    let t = after_claim(s, creator, id);
    let n = s.actions.len() as int;
    let (a, b, c) = (t.actions[n], t.actions[n + 1], t.actions[n + 2]);
    lemma_net_flow_push(s.actions, a, holder, token);
    lemma_net_flow_push(s.actions.push(a), b, holder, token);
    lemma_net_flow_push(s.actions.push(a).push(b), c, holder, token);
    if fee > 0 {
        let d = t.actions[n + 3];
        lemma_net_flow_push(s.actions.push(a).push(b).push(c), d, holder, token);
        assert(t.actions =~= s.actions.push(a).push(b).push(c).push(d));
    } else {
        assert(t.actions =~= s.actions.push(a).push(b).push(c));
    }
}

/// A claim asks for the creator's authorization first, then for the transfer of
/// the fee, if there is any, then for the transfer of the rest to the creator,
/// and then announces the rest as paid.
pub proof fn law_claim_transfers(s: EnvView, creator: Seq<char>, id: CampaignId, fee: int)
    requires
        s.storage.valid(),
        claim_refusal(s, creator, id) is None,
        ({
            let exact = s.storage.applications[(id, creator)].payout_amount
                * s.storage.settings->0.fee_bps;
            fee * 10_000 <= exact && exact < (fee + 1) * 10_000
        }),
    ensures
        ({
            let t = after_claim(s, creator, id);
            let n = s.actions.len() as int;
            let m = t.actions.len() as int;
            let payout = s.storage.applications[(id, creator)].payout_amount;
            let token = s.storage.campaigns[id].asset.token;
            &&& 0 <= fee <= payout
            &&& m == n + (if fee > 0 {
                4int
            } else {
                3int
            })
            &&& t.actions.take(n) == s.actions
            &&& t.actions[n] == ActionView::RequireAuth(creator)
            &&& fee > 0 ==> t.actions[n + 1] == (ActionView::Transfer {
                token,
                from: s.contract,
                to: s.storage.settings->0.admin,
                amount: fee,
            })
            &&& t.actions[m - 2] == (ActionView::Transfer {
                token,
                from: s.contract,
                to: creator,
                amount: payout - fee,
            })
            &&& t.actions[m - 1] == ActionView::Publish(
                EventView::PaymentReleased { campaign_id: id, creator, amount: payout - fee },
            )
        }),
{
    let t = after_claim(s, creator, id);
    let payout = s.storage.applications[(id, creator)].payout_amount;
    let fee_bps = s.storage.settings->0.fee_bps;
    assert(s.storage.applications[(id, creator)].valid());
    assert(0 <= payout * fee_bps <= payout * 10_000) by (nonlinear_arith)
        requires
            0 <= payout,
            0 <= fee_bps <= 10_000,
    ;
    assert(fee == payout * fee_bps / 10_000);
    assert(t.actions.take(s.actions.len() as int) =~= s.actions);
}

/// What a claim moves is what its transfers add up to.
pub proof fn law_claim_carries_out_its_transfers(
    s: EnvView,
    creator: Seq<char>,
    id: CampaignId,
    holder: Seq<char>,
    token: Seq<char>,
)
    requires
        claim_refusal(s, creator, id) is None,
    ensures
        net_flow(after_claim(s, creator, id).actions, holder, token) == net_flow(
            s.actions,
            holder,
            token,
        ) + net_flow(claim_transfers(s, creator, id), holder, token),
{
    let t = after_claim(s, creator, id);
    let auth = ActionView::RequireAuth(creator);
    let transfers = claim_transfers(s, creator, id);
    let event = t.actions.last();
    assert(t.actions =~= (s.actions.push(auth) + transfers).push(event));
    lemma_net_flow_push(s.actions, auth, holder, token);
    lemma_tally_concat(s.actions.push(auth), transfers, flow_of(holder, token));
    lemma_net_flow_push(s.actions.push(auth) + transfers, event, holder, token);
}

/// Cancelling, expiring and reclaiming pay back to the business what is in
/// escrow and not committed, in one transfer of the campaign's token where it
/// is anything, and move nothing else.
pub proof fn law_closing_pays_back(
    s: EnvView,
    call: Call,
    id: CampaignId,
    holder: Seq<char>,
    token: Seq<char>,
)
    requires
        s.storage.valid(),
        closes(call, id),
        call.refusal(s) is None,
    ensures
        ({
            let t = call.after(s);
            let campaign = s.storage.campaigns[id];
            let surplus = campaign.escrow_balance - campaign.committed_payouts;
            let paid = if token == campaign.asset.token {
                surplus
            } else {
                0
            };
            &&& 0 <= surplus
            &&& net_flow(t.actions, holder, token) == net_flow(s.actions, holder, token) + share(
                holder,
                campaign.business,
                paid,
            ) - share(holder, s.contract, paid)
            &&& t.actions.len() == s.actions.len() + (if surplus > 0 {
                3int
            } else {
                2int
            })
        }),
{
    assert(s.storage.campaigns[id].valid());
    let t = call.after(s);
    let n = s.actions.len() as int;
    let (a, b) = (t.actions[n], t.actions[n + 1]);
    lemma_net_flow_push(s.actions, a, holder, token);
    lemma_net_flow_push(s.actions.push(a), b, holder, token);
    if t.actions.len() == n + 3 {
        let c = t.actions[n + 2];
        lemma_net_flow_push(s.actions.push(a).push(b), c, holder, token);
        assert(t.actions =~= s.actions.push(a).push(b).push(c));
    } else {
        assert(t.actions =~= s.actions.push(a).push(b));
    }
}

/// A campaign that is funded and then cancelled before anybody is selected has
/// cost the business nothing, and has left nothing in the contract.
pub proof fn law_unused_budget_comes_back(
    s: EnvView,
    business: Seq<char>,
    id: CampaignId,
    later: int,
    holder: Seq<char>,
    token: Seq<char>,
)
    requires
        s.storage.valid(),
        fund_refusal(s, business, id) is None,
    ensures
        ({
            let funded = after_fund(s, business, id).at(later);
            let t = after_cancel(funded, business, id);
            &&& cancel_refusal(funded, business, id) is None
            &&& net_flow(t.actions, holder, token) == net_flow(s.actions, holder, token)
            &&& t.storage.campaigns[id].escrow_balance == 0
        }),
{
    let funded = after_fund(s, business, id).at(later);
    let call = Call::CancelCampaign { business, id };
    assert(s.storage.campaigns[id].id == id);
    assert(s.storage.campaigns[id].valid());
    assert(s.storage.applications == funded.storage.applications);
    law_entries_stay_valid(s, Call::FundCampaign { business, id });
    assert(s.storage.campaigns[id].committed_payouts == 0);
    law_funding_pays_in(s, business, id, holder, token);
    law_closing_pays_back(funded, call, id, holder, token);
}

/// The closing of a campaign costs no creator anything: a claim after it moves
/// the same money between the same holders as the claim would have without it.
pub proof fn law_closing_costs_no_creator(
    s: EnvView,
    call: Call,
    id: CampaignId,
    creator: Seq<char>,
    later: int,
    holder: Seq<char>,
    token: Seq<char>,
)
    requires
        s.storage.valid(),
        closes(call, id),
        claim_refusal(s.at(later), creator, id) is None,
    ensures
        ({
            let before = s.at(later);
            let after = call.after(s).at(later);
            &&& claim_refusal(after, creator, id) is None
            &&& net_flow(after_claim(after, creator, id).actions, holder, token) - net_flow(
                after.actions,
                holder,
                token,
            ) == net_flow(after_claim(before, creator, id).actions, holder, token) - net_flow(
                before.actions,
                holder,
                token,
            )
        }),
{
    law_commitments_survive_closing(s, call, id, creator, later);
    law_claim_carries_out_its_transfers(s.at(later), creator, id, holder, token);
    law_claim_carries_out_its_transfers(call.after(s).at(later), creator, id, holder, token);
}

/// A payout that can be claimed is worth the same to everybody through any
/// sequence of later calls of which none claims it or rejects its proof.
pub proof fn law_payable_keeps_its_worth(
    s: EnvView,
    calls: Seq<(int, Call)>,
    id: CampaignId,
    creator: Seq<char>,
    later: int,
    holder: Seq<char>,
    token: Seq<char>,
)
    requires
        s.storage.valid(),
        s.storage.next_campaign_id + calls.len() <= u64::MAX,
        claim_refusal(s, creator, id) is None,
        forall|i: int|
            0 <= i < calls.len() ==> s.timestamp <= (#[trigger] calls[i]).0 <= later && !settles(
                calls[i].1,
                id,
                creator,
            ),
        forall|i: int, j: int|
            0 <= i <= j < calls.len() ==> (#[trigger] calls[i]).0 <= (#[trigger] calls[j]).0,
        s.timestamp <= later,
    ensures
        ({
            let t = s.history(calls).at(later);
            &&& claim_refusal(t, creator, id) is None
            &&& net_flow(after_claim(t, creator, id).actions, holder, token) - net_flow(
                t.actions,
                holder,
                token,
            ) == net_flow(after_claim(s, creator, id).actions, holder, token) - net_flow(
                s.actions,
                holder,
                token,
            )
        }),
{
    law_payable_for_life(s, calls, id, creator, later);
    law_claim_carries_out_its_transfers(s, creator, id, holder, token);
    law_claim_carries_out_its_transfers(s.history(calls).at(later), creator, id, holder, token);
}

/// Everything that happens is announced once, as the last thing that the call
/// asks for, and as it happened: the amounts are those by which the books have
/// moved. The setup and the reviews are not announced.
pub proof fn law_announcements_tell_what_happened(s: EnvView, call: Call)
    requires
        s.storage.valid(),
        call.refusal(s) is None,
        call is CreateCampaign ==> s.storage.next_campaign_id < u64::MAX,
    ensures
        ({
            let t = call.after(s);
            let n = s.actions.len() as int;
            let told = t.actions.last();
            &&& forall|i: int|
                n <= i < t.actions.len() - 1 ==> !((#[trigger] t.actions[i]) is Publish)
            &&& match call {
                Call::Initialize { .. }
                | Call::ApproveSubmission { .. }
                | Call::RejectSubmission { .. } => t.actions.len() == n + 1 && !(told is Publish),
                Call::CreateCampaign { business, .. } => {
                    &&& t.actions.len() == n + 2
                    &&& told matches ActionView::Publish(
                        EventView::CampaignCreated { business: owner, campaign_id },
                    ) && owner == business && !s.storage.campaigns.contains_key(campaign_id)
                        && t.storage.campaigns.contains_key(campaign_id)
                },
                Call::FundCampaign { id, .. } => {
                    told matches ActionView::Publish(
                        EventView::CampaignFunded { campaign_id, amount },
                    ) && campaign_id == id && amount == t.storage.campaigns[id].escrow_balance
                        - s.storage.campaigns[id].escrow_balance
                },
                Call::ApplyToCampaign { id, creator, .. } => {
                    &&& t.actions.len() == n + 2
                    &&& told == ActionView::Publish(
                        EventView::CreatorApplied { campaign_id: id, creator },
                    )
                },
                Call::ApproveCreator { id, creator, .. } => {
                    &&& t.actions.len() == n + 2
                    &&& told matches ActionView::Publish(
                        EventView::CreatorApproved { campaign_id, creator: whom, payout_amount },
                    ) && campaign_id == id && whom == creator && payout_amount
                        == t.storage.applications[(id, creator)].payout_amount && payout_amount
                        == t.storage.campaigns[id].committed_payouts
                        - s.storage.campaigns[id].committed_payouts
                },
                Call::SubmitProof { id, creator, .. } => {
                    &&& t.actions.len() == n + 2
                    &&& told == ActionView::Publish(
                        EventView::ProofSubmitted { campaign_id: id, creator },
                    )
                },
                Call::ClaimPayment { id, creator } => {
                    told matches ActionView::Publish(
                        EventView::PaymentReleased { campaign_id, creator: whom, amount },
                    ) && campaign_id == id && whom == creator && 0 <= amount
                        <= s.storage.campaigns[id].escrow_balance
                        - t.storage.campaigns[id].escrow_balance
                },
                Call::CancelCampaign { id, .. }
                | Call::ExpireCampaign { id, .. }
                | Call::ReclaimSurplus { id, .. } => {
                    told matches ActionView::Publish(
                        EventView::CampaignCancelled { campaign_id, refunded_amount },
                    ) && campaign_id == id && refunded_amount
                        == s.storage.campaigns[id].escrow_balance
                        - t.storage.campaigns[id].escrow_balance
                },
            }
        }),
{
    match call {
        Call::FundCampaign { id, .. } => {
            assert(s.storage.campaigns[id].valid());
        },
        Call::ClaimPayment { id, creator } => {
            let payout = s.storage.applications[(id, creator)].payout_amount;
            let fee_bps = s.storage.settings->0.fee_bps;
            assert(s.storage.applications[(id, creator)].valid());
            lemma_fee_within(payout, fee_bps);
        },
        _ => {},
    }
}

} // verus!
