//! How the sums over the contract's entries move when entries are written.
use crate::shared::CampaignId;
use crate::storage::{
    escrow_in, paid_on, reserved_on, selected_on, ApplicationKey, StorageView,
};
use crate::sums::{lemma_total_bounds, lemma_total_insert, total};
use crate::types::{ApplicationView, CampaignView};
use vstd::prelude::*;

verus! {

impl StorageView {
    /// What `weigh` makes of the application under this key, if there is one.
    pub open spec fn weight_at(
        self,
        key: ApplicationKey,
        weigh: spec_fn(ApplicationView) -> int,
    ) -> int {
        if self.applications.contains_key(key) {
            weigh(self.applications[key])
        } else {
            0
        }
    }
}

/// Writing an application moves the sums of its campaign, and of no other, by
/// the difference to what stood there before.
pub proof fn lemma_application_sums(s: StorageView, a: ApplicationView, id: CampaignId)
    requires
        s.valid(),
    ensures
        ({
            let key = (a.campaign_id, a.creator);
            let t = s.with_application(a);
            &&& t.applications.dom().finite()
            &&& t.reserved(id) == s.reserved(id) + reserved_on(id)(a) - s.weight_at(
                key,
                reserved_on(id),
            )
            &&& t.paid(id) == s.paid(id) + paid_on(id)(a) - s.weight_at(key, paid_on(id))
            &&& t.selected(id) == s.selected(id) + selected_on(id)(a) - s.weight_at(
                key,
                selected_on(id),
            )
        }),
{
    let key = (a.campaign_id, a.creator);
    lemma_total_insert(s.applications, reserved_on(id), key, a);
    lemma_total_insert(s.applications, paid_on(id), key, a);
    lemma_total_insert(s.applications, selected_on(id), key, a);
}

/// Writing a campaign that was there moves the escrow of its token, and of no
/// other, by the difference; a new one adds its own.
pub proof fn lemma_campaign_escrow(s: StorageView, c: CampaignView, token: Seq<char>)
    requires
        s.valid(),
    ensures
        s.with_campaign(c).escrow(token) == s.escrow(token) + escrow_in(token)(c) - (
        if s.campaigns.contains_key(c.id) {
            escrow_in(token)(s.campaigns[c.id])
        } else {
            0
        }),
{
    lemma_total_insert(s.campaigns, escrow_in(token), c.id, c);
}

/// No application has more reserved than its campaign has committed.
pub proof fn lemma_reserved_within(s: StorageView, key: ApplicationKey)
    requires
        s.valid(),
        s.applications.contains_key(key),
    ensures
        0 <= s.applications[key].reserved() <= s.reserved(key.0),
        s.reserved(key.0) <= s.campaigns[key.0].committed_payouts,
        s.campaigns[key.0].committed_payouts <= s.campaigns[key.0].escrow_balance,
{
    let weigh = reserved_on(key.0);
    assert forall|k: ApplicationKey| s.applications.contains_key(k) implies weigh(
        #[trigger] s.applications[k],
    ) >= 0 by {
        assert(s.applications[k].valid());
    }
    lemma_total_bounds(s.applications, weigh);
    assert(weigh(s.applications[key]) == s.applications[key].reserved());
    assert(s.campaigns.contains_key(key.0));
}

/// Entries stay valid when an application and its campaign are written such
/// that the campaign has committed what the application reserves on top of the
/// others.
pub proof fn lemma_pair_valid(s: StorageView, a: ApplicationView, c: CampaignView)
    requires
        s.valid(),
        s.campaigns.contains_key(c.id),
        a.campaign_id == c.id,
        a.valid(),
        c.valid(),
        s.reserved(c.id) + a.reserved() - s.weight_at((c.id, a.creator), reserved_on(c.id))
            <= c.committed_payouts,
    ensures
        s.with_application(a).with_campaign(c).valid(),
{
    let t = s.with_application(a).with_campaign(c);
    assert forall|id: CampaignId| #[trigger] t.campaigns.contains_key(id) implies {
        &&& t.campaigns[id].id == id
        &&& id < t.next_campaign_id
        &&& t.campaigns[id].valid()
        &&& t.reserved(id) <= t.campaigns[id].committed_payouts
    } by {
        assert(s.campaigns.contains_key(id));
        lemma_application_sums(s, a, id);
        assert(t.applications == s.with_application(a).applications);
        let key = (a.campaign_id, a.creator);
        if id != c.id && s.applications.contains_key(key) {
            assert(s.applications[key].campaign_id == c.id);
        }
    }
    assert(s.campaigns.contains_key(c.id));
    lemma_application_sums(s, a, c.id);
}

/// Entries stay valid when a campaign is written that commits no less than is
/// reserved.
pub proof fn lemma_campaign_valid(s: StorageView, c: CampaignView)
    requires
        s.valid(),
        s.campaigns.contains_key(c.id),
        c.valid(),
        s.reserved(c.id) <= c.committed_payouts,
    ensures
        s.with_campaign(c).valid(),
{
    let t = s.with_campaign(c);
    assert forall|id: CampaignId| #[trigger] t.campaigns.contains_key(id) implies {
        &&& t.campaigns[id].id == id
        &&& id < t.next_campaign_id
        &&& t.campaigns[id].valid()
        &&& t.reserved(id) <= t.campaigns[id].committed_payouts
    } by {
        assert(s.campaigns.contains_key(id));
        assert(t.reserved(id) == s.reserved(id));
    }
}

/// The books stay reconciled when an application and its campaign are written
/// such that the campaign's own figures move with the sums.
pub proof fn lemma_pair_reconciled(s: StorageView, a: ApplicationView, c: CampaignView)
    requires
        s.valid(),
        s.reconciled(),
        s.campaigns.contains_key(c.id),
        a.campaign_id == c.id,
        ({
            let key = (c.id, a.creator);
            &&& s.reserved(c.id) + a.reserved() - s.weight_at(key, reserved_on(c.id))
                == c.committed_payouts
            &&& s.selected(c.id) + selected_on(c.id)(a) - s.weight_at(key, selected_on(c.id))
                == c.approved_count
            &&& s.paid(c.id) + paid_on(c.id)(a) - s.weight_at(key, paid_on(c.id))
                + c.escrow_balance <= c.total_budget
        }),
    ensures
        s.with_application(a).with_campaign(c).reconciled(),
{
    let t = s.with_application(a).with_campaign(c);
    let key = (a.campaign_id, a.creator);
    assert forall|id: CampaignId| #[trigger] t.campaigns.contains_key(id) implies {
        &&& t.reserved(id) == t.campaigns[id].committed_payouts
        &&& t.selected(id) == t.campaigns[id].approved_count
        &&& t.paid(id) + t.campaigns[id].escrow_balance <= t.campaigns[id].total_budget
    } by {
        assert(s.campaigns.contains_key(id));
        lemma_application_sums(s, a, id);
        assert(t.applications == s.with_application(a).applications);
        if id != c.id && s.applications.contains_key(key) {
            assert(s.applications[key].campaign_id == c.id);
        }
    }
    if s.settings is None {
        assert(s.campaigns.dom().contains(c.id));
    }
}

/// The books stay reconciled when a campaign is written with the commitments
/// and the count that it had and an escrow that the budget still covers.
pub proof fn lemma_campaign_reconciled(s: StorageView, c: CampaignView)
    requires
        s.valid(),
        s.reconciled(),
        s.campaigns.contains_key(c.id),
        c.committed_payouts == s.campaigns[c.id].committed_payouts,
        c.approved_count == s.campaigns[c.id].approved_count,
        s.paid(c.id) + c.escrow_balance <= c.total_budget,
    ensures
        s.with_campaign(c).reconciled(),
{
    let t = s.with_campaign(c);
    assert forall|id: CampaignId| #[trigger] t.campaigns.contains_key(id) implies {
        &&& t.reserved(id) == t.campaigns[id].committed_payouts
        &&& t.selected(id) == t.campaigns[id].approved_count
        &&& t.paid(id) + t.campaigns[id].escrow_balance <= t.campaigns[id].total_budget
    } by {
        assert(s.campaigns.contains_key(id));
        assert(t.applications == s.applications);
    }
    if s.settings is None {
        assert(s.campaigns.dom().contains(c.id));
    }
}

} // verus!
