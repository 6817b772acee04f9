//! What holds of the escrow as a whole.
use crate::books::{
    lemma_campaign_reconciled, lemma_campaign_valid, lemma_pair_reconciled, lemma_pair_valid,
    lemma_reserved_within,
};
use crate::action::{lemma_net_flow_push, net_flow, ActionView, EventView};
use crate::calls::Call;
use crate::env::EnvView;
use crate::error::Error;
use crate::rules::{
    after_apply, after_approve, after_approve_submission, after_claim, after_fund,
    after_reject_submission, after_submit, apply_refusal, approve_refusal, cancel_refusal,
    claim_refusal, claim_transfers, fee_of, fund_refusal, net_of,
    review_refusal, submit_refusal,
};
use crate::shared::{CampaignId, BASIS_POINTS_DENOMINATOR};
use crate::storage::{paid_on, reserved_on, selected_on, ApplicationKey, StorageView};
use crate::sums::{lemma_total_bounds, lemma_total_zero};
use crate::types::{ApplicationView, CampaignView};
use vstd::prelude::*;

verus! {

/// The fee is part of the payout, and the two parts make up the whole.
pub proof fn lemma_fee_within(payout: int, fee_bps: int)
    requires
        0 <= payout,
        0 <= fee_bps <= BASIS_POINTS_DENOMINATOR,
    ensures
        0 <= payout * fee_bps,
        0 <= fee_of(payout, fee_bps) <= payout,
        0 <= net_of(payout, fee_bps) <= payout,
        fee_of(payout, fee_bps) + net_of(payout, fee_bps) == payout,
{
    assert(0 <= payout * fee_bps <= payout * 10_000) by (nonlinear_arith)
        requires
            0 <= payout,
            0 <= fee_bps <= 10_000,
    ;
}

/// Entries stay valid when an application is written that reserves no more
/// than the one before it.
proof fn lemma_application_kept(s: StorageView, a: ApplicationView)
    requires
        s.valid(),
        s.campaigns.contains_key(a.campaign_id),
        a.valid(),
        a.reserved() == s.weight_at((a.campaign_id, a.creator), reserved_on(a.campaign_id)),
    ensures
        s.with_application(a).valid(),
{
    let c = s.campaigns[a.campaign_id];
    lemma_pair_valid(s, a, c);
    let t = s.with_application(a);
    assert(t.with_campaign(c) == t) by {
        assert(t.campaigns.insert(c.id, c) =~= t.campaigns);
    }
}

/// A new campaign under the next number keeps the entries valid.
pub proof fn lemma_creation_kept(s: StorageView, c: CampaignView)
    requires
        s.valid(),
        s.next_campaign_id < u64::MAX,
        c.id == s.next_campaign_id,
        c.valid(),
        c.committed_payouts == 0,
    ensures
        (StorageView { next_campaign_id: s.next_campaign_id + 1, ..s.with_campaign(c) }).valid(),
        !s.campaigns.contains_key(c.id),
        s.reserved(c.id) == 0,
        s.paid(c.id) == 0,
        s.selected(c.id) == 0,
{
    let t = StorageView { next_campaign_id: s.next_campaign_id + 1, ..s.with_campaign(c) };
    assert(!s.campaigns.contains_key(c.id));
    assert forall|key: ApplicationKey| #[trigger] s.applications.contains_key(key) implies
        s.applications[key].campaign_id != c.id by {
        assert(s.campaigns.contains_key(key.0));
    }
    lemma_total_zero(s.applications, reserved_on(c.id));
    lemma_total_zero(s.applications, paid_on(c.id));
    lemma_total_zero(s.applications, selected_on(c.id));
    assert forall|id: CampaignId| #[trigger] t.campaigns.contains_key(id) implies {
        &&& t.campaigns[id].id == id
        &&& id < t.next_campaign_id
        &&& t.campaigns[id].valid()
        &&& t.reserved(id) <= t.campaigns[id].committed_payouts
    } by {
        assert(t.reserved(id) == s.reserved(id));
        if id != c.id {
            assert(s.campaigns.contains_key(id));
        }
    }
}

/// Every call, refused or not, leaves valid entries behind: in particular no
/// campaign commits more than it holds in escrow, holds more than was
/// deposited, or selects more than `max_creators`.
pub proof fn law_entries_stay_valid(s: EnvView, call: Call)
    requires
        s.storage.valid(),
        call is CreateCampaign && call.refusal(s) is None ==> s.storage.next_campaign_id < u64::MAX,
    ensures
        call.after(s).storage.valid(),
{
    let t = call.after(s);
    if call.refusal(s) is None {
        match call {
            Call::Initialize { .. } => {},
            Call::CreateCampaign { .. } => {
                let c = t.campaign(s.storage.next_campaign_id as u64);
                lemma_creation_kept(s.storage, c);
            },
            Call::FundCampaign { id, .. } => {
                lemma_campaign_valid(s.storage, t.campaign(id));
            },
            Call::ApplyToCampaign { id, creator, .. } => {
                lemma_application_kept(s.storage, t.application(id, creator));
            },
            Call::ApproveCreator { id, creator, .. } => {
                lemma_pair_valid(s.storage, t.application(id, creator), t.campaign(id));
            },
            Call::SubmitProof { id, creator, .. } => {
                lemma_application_kept(s.storage, t.application(id, creator));
            },
            Call::ApproveSubmission { id, creator, .. } => {
                lemma_application_kept(s.storage, t.application(id, creator));
            },
            Call::RejectSubmission { id, creator, .. } => {
                lemma_application_kept(s.storage, t.application(id, creator));
            },
            Call::ClaimPayment { id, creator } => {
                lemma_reserved_within(s.storage, (id, creator));
                lemma_pair_valid(s.storage, t.application(id, creator), t.campaign(id));
            },
            Call::CancelCampaign { id, .. } => {
                lemma_campaign_valid(s.storage, t.campaign(id));
            },
            Call::ExpireCampaign { id, .. } => {
                lemma_campaign_valid(s.storage, t.campaign(id));
            },
            Call::ReclaimSurplus { id, .. } => {
                lemma_campaign_valid(s.storage, t.campaign(id));
            },
        }
    }
}

/// An application is written that counts for as much as the one before it.
proof fn lemma_application_reconciled(s: StorageView, a: ApplicationView)
    requires
        s.valid(),
        s.reconciled(),
        s.campaigns.contains_key(a.campaign_id),
        ({
            let id = a.campaign_id;
            let key = (id, a.creator);
            &&& a.reserved() == s.weight_at(key, reserved_on(id))
            &&& selected_on(id)(a) == s.weight_at(key, selected_on(id))
            &&& paid_on(id)(a) == s.weight_at(key, paid_on(id))
        }),
    ensures
        s.with_application(a).reconciled(),
{
    let c = s.campaigns[a.campaign_id];
    lemma_pair_reconciled(s, a, c);
    let t = s.with_application(a);
    assert(t.with_campaign(c) == t) by {
        assert(t.campaigns.insert(c.id, c) =~= t.campaigns);
    }
}

/// Every call keeps the books: what a campaign has committed is exactly the
/// sum that its selected creators are still owed, its count is exactly the
/// number of creators selected, and what it has paid and still holds never
/// exceeds its budget.
pub proof fn law_books_stay_reconciled(s: EnvView, call: Call)
    requires
        s.storage.valid(),
        s.storage.reconciled(),
        call is CreateCampaign && call.refusal(s) is None ==> s.storage.next_campaign_id < u64::MAX,
    ensures
        call.after(s).storage.reconciled(),
{
    let t = call.after(s);
    if call.refusal(s) is None {
        match call {
            Call::Initialize { .. } => {
                assert(t.storage.applications == s.storage.applications);
                assert(forall|id: CampaignId|
                    s.storage.campaigns.contains_key(id) ==> #[trigger] t.storage.reserved(id)
                        == s.storage.reserved(id));
            },
            Call::CreateCampaign { .. } => {
                let c = t.campaign(s.storage.next_campaign_id as u64);
                lemma_creation_kept(s.storage, c);
                assert forall|id: CampaignId| #[trigger]
                    t.storage.campaigns.contains_key(id) implies {
                    &&& t.storage.reserved(id) == t.campaign(id).committed_payouts
                    &&& t.storage.selected(id) == t.campaign(id).approved_count
                    &&& t.storage.paid(id) + t.campaign(id).escrow_balance <= t.campaign(
                        id,
                    ).total_budget
                } by {
                    if id != c.id {
                        assert(s.storage.campaigns.contains_key(id));
                    }
                }
            },
            Call::FundCampaign { id, .. } => {
                lemma_draft_untouched(s.storage, id);
                lemma_campaign_reconciled(s.storage, t.campaign(id));
            },
            Call::ApplyToCampaign { id, creator, .. } => {
                lemma_application_reconciled(s.storage, t.application(id, creator));
            },
            Call::ApproveCreator { id, creator, .. } => {
                lemma_pair_reconciled(s.storage, t.application(id, creator), t.campaign(id));
            },
            Call::SubmitProof { id, creator, .. } => {
                lemma_application_reconciled(s.storage, t.application(id, creator));
            },
            Call::ApproveSubmission { id, creator, .. } => {
                lemma_application_reconciled(s.storage, t.application(id, creator));
            },
            Call::RejectSubmission { id, creator, .. } => {
                lemma_application_reconciled(s.storage, t.application(id, creator));
            },
            Call::ClaimPayment { id, creator } => {
                lemma_pair_reconciled(s.storage, t.application(id, creator), t.campaign(id));
            },
            Call::CancelCampaign { id, .. } => {
                lemma_campaign_reconciled(s.storage, t.campaign(id));
            },
            Call::ExpireCampaign { id, .. } => {
                lemma_campaign_reconciled(s.storage, t.campaign(id));
            },
            Call::ReclaimSurplus { id, .. } => {
                lemma_campaign_reconciled(s.storage, t.campaign(id));
            },
        }
    }
}

/// A draft has selected nobody, so nobody was paid out of it.
proof fn lemma_draft_untouched(s: StorageView, id: CampaignId)
    requires
        s.valid(),
        s.reconciled(),
        s.campaigns.contains_key(id),
        s.campaigns[id].status is Draft,
    ensures
        s.paid(id) == 0,
{
    let count = selected_on(id);
    assert forall|key: ApplicationKey| s.applications.contains_key(key) implies count(
        #[trigger] s.applications[key],
    ) >= 0 by {}
    lemma_total_bounds(s.applications, count);
    assert forall|key: ApplicationKey| s.applications.contains_key(key) implies paid_on(id)(
        #[trigger] s.applications[key],
    ) == 0 by {
        assert(count(s.applications[key]) <= s.selected(id));
    }
    lemma_total_zero(s.applications, paid_on(id));
}

/// A refused call leaves every entry as it was and moves nothing: at most it
/// has demanded the caller's authorization.
pub proof fn law_refusal_changes_nothing(s: EnvView, call: Call)
    requires
        call.refusal(s) is Some,
    ensures
        call.after(s) == s || call.after(s) == s.asking(
            seq![ActionView::RequireAuth(call.caller())],
        ),
        call.after(s).storage == s.storage,
{
}

/// A call that succeeds demands its caller's authorization before it asks for
/// anything else.
pub proof fn law_success_needs_authorization(s: EnvView, call: Call)
    requires
        call.refusal(s) is None,
    ensures
        call.after(s).actions.len() > s.actions.len(),
        call.after(s).actions.subrange(0, s.actions.len() as int) == s.actions,
        call.after(s).actions[s.actions.len() as int] == ActionView::RequireAuth(call.caller()),
{
    assert(call.after(s).actions.subrange(0, s.actions.len() as int) =~= s.actions);
}

/// `initialize` works once: the settings that it wrote stay, and it is refused
/// from then on.
pub proof fn law_settings_are_final(s: EnvView, call: Call)
    requires
        s.storage.settings is Some,
    ensures
        call.after(s).storage.settings == s.storage.settings,
        call is Initialize ==> call.refusal(s) == Some(Error::AlreadyInitialized),
{
}

/// A campaign never vanishes, and what it was created with never changes. Once
/// it is no draft, it is none for good; its count of selected creators never
/// falls.
pub proof fn law_campaign_terms_are_final(s: EnvView, call: Call, id: CampaignId)
    requires
        s.storage.valid(),
        s.has_campaign(id),
        call is CreateCampaign && call.refusal(s) is None ==> s.storage.next_campaign_id < u64::MAX,
    ensures
        call.after(s).has_campaign(id),
        ({
            let before = s.campaign(id);
            let after = call.after(s).campaign(id);
            &&& after == CampaignView {
                escrow_balance: after.escrow_balance,
                committed_payouts: after.committed_payouts,
                approved_count: after.approved_count,
                status: after.status,
                ..before
            }
            &&& before.status !is Draft ==> after.status !is Draft
            &&& before.approved_count <= after.approved_count
        }),
{
    let t = call.after(s);
    if call.refusal(s) is Some {
        law_refusal_changes_nothing(s, call);
    } else {
        match call {
            Call::Initialize { .. } => {
                assert(t.storage.campaigns == s.storage.campaigns);
            },
            Call::CreateCampaign { .. } => {
                assert(id < s.storage.next_campaign_id);
                assert(t.campaign(id) == s.campaign(id));
            },
            Call::ApplyToCampaign { .. }
            | Call::SubmitProof { .. }
            | Call::ApproveSubmission { .. }
            | Call::RejectSubmission { .. } => {
                assert(t.storage.campaigns == s.storage.campaigns);
            },
            Call::FundCampaign { id: on, .. } => {
                assert(on != id ==> t.campaign(id) == s.campaign(id));
            },
            Call::ApproveCreator { id: on, .. } => {
                assert(on != id ==> t.campaign(id) == s.campaign(id));
            },
            Call::ClaimPayment { id: on, .. } => {
                assert(on != id ==> t.campaign(id) == s.campaign(id));
            },
            Call::CancelCampaign { id: on, .. } => {
                assert(on != id ==> t.campaign(id) == s.campaign(id));
            },
            Call::ExpireCampaign { id: on, .. } => {
                assert(on != id ==> t.campaign(id) == s.campaign(id));
            },
            Call::ReclaimSurplus { id: on, .. } => {
                assert(on != id ==> t.campaign(id) == s.campaign(id));
            },
        }
    }
}

/// An application never vanishes, and its creator and pitch never change. Once
/// the creator is selected the payout is fixed; once it is paid nothing about
/// the application changes any more.
pub proof fn law_applications_are_final(
    s: EnvView,
    call: Call,
    id: CampaignId,
    creator: Seq<char>,
)
    requires
        s.storage.valid(),
        s.has_application(id, creator),
    ensures
        call.after(s).has_application(id, creator),
        ({
            let before = s.application(id, creator);
            let after = call.after(s).application(id, creator);
            &&& after.campaign_id == before.campaign_id
            &&& after.creator == before.creator
            &&& after.pitch_uri == before.pitch_uri
            &&& before.status !is Pending ==> after.status !is Pending && after.payout_amount
                == before.payout_amount
            &&& before.status is Paid ==> after == before
        }),
{
}

/// A creator applies to a campaign only once: a second application is never
/// accepted, and where nothing else stands in the way this is the reason.
pub proof fn law_one_application_each(s: EnvView, creator: Seq<char>, id: CampaignId)
    requires
        s.has_application(id, creator),
    ensures
        apply_refusal(s, creator, id) is Some,
        s.has_campaign(id) && s.campaign(id).open() && s.timestamp <= s.campaign(
            id,
        ).application_deadline ==> apply_refusal(s, creator, id) == Some(Error::AlreadyApplied),
{
}

/// After a creator has applied, the creator cannot apply again.
pub proof fn law_applying_twice_fails(
    s: EnvView,
    creator: Seq<char>,
    id: CampaignId,
    pitch_uri: Seq<char>,
)
    requires
        apply_refusal(s, creator, id) is None,
    ensures
        apply_refusal(after_apply(s, creator, id, pitch_uri), creator, id) == Some(
            Error::AlreadyApplied,
        ),
{
}

/// A creator is selected only once: after the selection it is refused to the
/// same business, whatever the amount.
pub proof fn law_selecting_twice_fails(
    s: EnvView,
    business: Seq<char>,
    id: CampaignId,
    creator: Seq<char>,
    payout_amount: int,
    again: int,
)
    requires
        s.storage.valid(),
        approve_refusal(s, business, id, creator, payout_amount) is None,
        again > 0,
    ensures
        approve_refusal(
            after_approve(s, business, id, creator, payout_amount),
            business,
            id,
            creator,
            again,
        ) == Some(Error::AlreadySelected),
{
}

/// A campaign is funded only once, and all at once: afterwards it holds its
/// whole budget and cannot be funded again by anyone.
pub proof fn law_funded_all_at_once(s: EnvView, business: Seq<char>, id: CampaignId, other: Seq<char>)
    requires
        s.storage.valid(),
        fund_refusal(s, business, id) is None,
    ensures
        ({
            let t = after_fund(s, business, id);
            &&& t.campaign(id).escrow_balance == s.campaign(id).total_budget
            &&& t.campaign(id).unallocated() == s.campaign(id).total_budget
            &&& fund_refusal(t, other, id) == Some(Error::InvalidStatus)
        }),
{
}

/// Only the business that created a campaign can fund it, select creators,
/// review proofs, or close it: from anybody else such a call is refused.
pub proof fn law_only_the_owner_acts(s: EnvView, call: Call, id: CampaignId)
    requires
        s.has_campaign(id),
        s.campaign(id).business != call.caller(),
        match call {
            Call::FundCampaign { id: on, .. } => on == id,
            Call::ApproveCreator { id: on, .. } => on == id,
            Call::ApproveSubmission { id: on, .. } => on == id,
            Call::RejectSubmission { id: on, .. } => on == id,
            Call::CancelCampaign { id: on, .. } => on == id,
            Call::ExpireCampaign { id: on, .. } => on == id,
            Call::ReclaimSurplus { id: on, .. } => on == id,
            _ => false,
        },
    ensures
        call.refusal(s) == Some(Error::NotCampaignOwner) || call is FundCampaign && call.refusal(s)
            == Some(Error::InvalidStatus),
{
}

/// A submitted proof is payable exactly when the business has accepted it or
/// the content deadline has passed, as long as the contract is initialized and
/// the fee can be worked out.
pub proof fn law_payable_when_accepted_or_overdue(s: EnvView, creator: Seq<char>, id: CampaignId)
    requires
        s.has_campaign(id),
        s.has_application(id, creator),
        s.application(id, creator).status is ProofSubmitted,
        s.storage.settings is Some,
        s.application(id, creator).payout_amount * s.storage.settings->0.fee_bps <= i128::MAX,
    ensures
        claim_refusal(s, creator, id) is None <==> s.application(id, creator).proof_approved
            || s.timestamp > s.campaign(id).completion_deadline,
{
}

/// The platform fee is the payout times the fee rate, rounded down; fee and
/// net amount are not negative and make up the payout exactly.
pub proof fn law_fee_splits_payout(payout: int, fee_bps: int)
    requires
        0 <= payout,
        0 <= fee_bps <= BASIS_POINTS_DENOMINATOR,
    ensures
        0 <= fee_of(payout, fee_bps),
        0 <= net_of(payout, fee_bps),
        fee_of(payout, fee_bps) + net_of(payout, fee_bps) == payout,
        fee_of(payout, fee_bps) * BASIS_POINTS_DENOMINATOR <= payout * fee_bps,
        payout * fee_bps < (fee_of(payout, fee_bps) + 1) * BASIS_POINTS_DENOMINATOR,
{
    lemma_fee_within(payout, fee_bps);
}

/// Rejecting a submission undoes it, whether or not it was accepted before:
/// the entries are again what they were before the proof was handed in, so the
/// creator can hand in another.
pub proof fn law_rejection_undoes_submission(
    s: EnvView,
    creator: Seq<char>,
    id: CampaignId,
    proof_uri: Seq<char>,
    accepted_at: int,
    rejected_at: int,
)
    requires
        s.storage.valid(),
        submit_refusal(s, creator, id) is None,
    ensures
        ({
            let business = s.campaign(id).business;
            let submitted = after_submit(s, creator, id, proof_uri);
            let accepted = after_approve_submission(
                submitted.at(accepted_at),
                business,
                id,
                creator,
            );
            let t = submitted.at(rejected_at);
            let u = accepted.at(rejected_at);
            &&& review_refusal(submitted.at(accepted_at), business, id, creator) is None
            &&& review_refusal(t, business, id, creator) is None
            &&& review_refusal(u, business, id, creator) is None
            &&& after_reject_submission(t, business, id, creator).storage == s.storage
            &&& after_reject_submission(u, business, id, creator).storage == s.storage
        }),
{
    let business = s.campaign(id).business;
    let submitted = after_submit(s, creator, id, proof_uri);
    let accepted = after_approve_submission(submitted.at(accepted_at), business, id, creator);
    let t = after_reject_submission(submitted.at(rejected_at), business, id, creator);
    let u = after_reject_submission(accepted.at(rejected_at), business, id, creator);
    assert(s.application(id, creator).valid());
    assert(t.application(id, creator) == s.application(id, creator));
    assert(t.storage.applications =~= s.storage.applications);
    assert(u.application(id, creator) == s.application(id, creator));
    assert(u.storage.applications =~= s.storage.applications);
}

/// The business can cancel its campaign at any point before payout is
/// complete, also after it took the surplus back: only a campaign that is
/// cancelled already, or that holds nothing and owes nothing, is refused.
pub proof fn law_cancellable_until_paid_out(s: EnvView, id: CampaignId)
    requires
        s.storage.valid(),
        s.has_campaign(id),
        s.campaign(id).status !is Cancelled,
    ensures
        cancel_refusal(s, s.campaign(id).business, id) is None <==> !s.campaign(id).paid_out(),
        s.campaign(id).paid_out() ==> s.campaign(id).escrow_balance == 0,
{
}

/// Closing a campaign, be it by `cancel_campaign`, `expire_campaign` or
/// `reclaim_surplus`, takes only what is reserved for nobody. Every
/// application stays as it is, the commitments stay, and what is left in
/// escrow is exactly what is committed.
pub proof fn law_closing_takes_only_the_surplus(s: EnvView, call: Call, id: CampaignId)
    requires
        s.storage.valid(),
        closes(call, id),
        call.refusal(s) is None,
    ensures
        ({
            let t = call.after(s);
            &&& t.storage.applications == s.storage.applications
            &&& t.campaign(id).committed_payouts == s.campaign(id).committed_payouts
            &&& t.campaign(id).escrow_balance == s.campaign(id).committed_payouts
            &&& t.campaign(id).unallocated() == 0
            &&& net_flow(t.actions, s.campaign(id).business, s.campaign(id).asset.token)
                == net_flow(s.actions, s.campaign(id).business, s.campaign(id).asset.token) + (
            if s.campaign(id).business == s.contract {
                0
            } else {
                s.campaign(id).unallocated()
            })
        }),
{
    let t = call.after(s);
    let business = s.campaign(id).business;
    let token = s.campaign(id).asset.token;
    let refund = s.campaign(id).unallocated();
    let event = ActionView::Publish(
        EventView::CampaignCancelled { campaign_id: id, refunded_amount: refund },
    );
    let auth = ActionView::RequireAuth(business);
    let transfer = s.pays(id, business, refund);
    lemma_net_flow_push(s.actions, auth, business, token);
    lemma_net_flow_push(s.actions.push(auth), event, business, token);
    lemma_net_flow_push(s.actions.push(auth), transfer, business, token);
    lemma_net_flow_push(s.actions.push(auth).push(transfer), event, business, token);
    if refund > 0 {
        assert(t.actions =~= s.actions.push(auth).push(transfer).push(event));
    } else {
        assert(s.campaign(id).valid());
        assert(t.actions =~= s.actions.push(auth).push(event));
    }
}

/// Whether the call closes campaign `id` or takes back its surplus.
pub open spec fn closes(call: Call, id: CampaignId) -> bool {
    match call {
        Call::CancelCampaign { id: on, .. } => on == id,
        Call::ExpireCampaign { id: on, .. } => on == id,
        Call::ReclaimSurplus { id: on, .. } => on == id,
        _ => false,
    }
}

/// Committed payouts survive the closing of a campaign: whatever a creator
/// could do before, submit proof or claim, the creator can do afterwards, with
/// the same answer and for the same money.
pub proof fn law_commitments_survive_closing(
    s: EnvView,
    call: Call,
    id: CampaignId,
    creator: Seq<char>,
    later: int,
)
    requires
        s.storage.valid(),
        closes(call, id),
    ensures
        ({
            let t = call.after(s).at(later);
            &&& submit_refusal(t, creator, id) == submit_refusal(s.at(later), creator, id)
            &&& claim_refusal(t, creator, id) == claim_refusal(s.at(later), creator, id)
            &&& claim_refusal(t, creator, id) is None ==> claim_transfers(t, creator, id)
                == claim_transfers(s.at(later), creator, id)
        }),
{
    let t = call.after(s).at(later);
    if claim_refusal(t, creator, id) is None {
        assert(t.campaign(id).asset == s.campaign(id).asset);
        assert(claim_transfers(t, creator, id) =~= claim_transfers(s.at(later), creator, id));
    }
}

/// A payout that can be claimed stays claimable, for the same money, whatever
/// call comes in between and however much later, until the creator claims it
/// or the business rejects the proof.
pub proof fn law_payable_stays_payable(
    s: EnvView,
    call: Call,
    id: CampaignId,
    creator: Seq<char>,
    later: int,
)
    requires
        s.storage.valid(),
        call is CreateCampaign && call.refusal(s) is None ==> s.storage.next_campaign_id < u64::MAX,
        claim_refusal(s, creator, id) is None,
        s.timestamp <= later,
        call != (Call::ClaimPayment { creator, id }),
        !(call matches Call::RejectSubmission { id: on, creator: whose, .. } && on == id && whose
            == creator),
    ensures
        ({
            let t = call.after(s).at(later);
            &&& claim_refusal(t, creator, id) is None
            &&& claim_transfers(t, creator, id) == claim_transfers(s, creator, id)
        }),
{
    law_campaign_terms_are_final(s, call, id);
    law_applications_are_final(s, call, id, creator);
    law_settings_are_final(s, call);
    let t = call.after(s).at(later);
    assert(t.application(id, creator).status is ProofSubmitted);
    assert(claim_transfers(t, creator, id) =~= claim_transfers(s, creator, id));
}

/// A payout is released only once: after the claim the same creator's claim is
/// refused.
pub proof fn law_claiming_twice_fails(s: EnvView, creator: Seq<char>, id: CampaignId, later: int)
    requires
        s.storage.valid(),
        claim_refusal(s, creator, id) is None,
    ensures
        claim_refusal(after_claim(s, creator, id).at(later), creator, id) == Some(
            Error::SubmissionNotPayable,
        ),
{
}

} // verus!
