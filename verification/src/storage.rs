//! What the contract keeps on the ledger between calls.
use crate::error::Error;
use crate::shared::{Address, CampaignId};
use crate::sums::{distinct_keys, table, total};
use crate::types::{
    Application, ApplicationView, Campaign, CampaignView, Settings, SettingsView,
};
use vstd::prelude::*;

verus! {

/// What tells one application from another: its campaign and its creator.
pub type ApplicationKey = (CampaignId, Seq<char>);

/// The contract's entries: settings, the number for the next campaign, and the
/// campaigns and applications by their keys.
#[verifier::ext_equal]
pub struct StorageView {
    pub settings: Option<SettingsView>,
    pub next_campaign_id: int,
    pub campaigns: Map<CampaignId, CampaignView>,
    pub applications: Map<ApplicationKey, ApplicationView>,
}

/// What an application has reserved of the escrow of campaign `id`.
pub open spec fn reserved_on(id: CampaignId) -> spec_fn(ApplicationView) -> int {
    |a: ApplicationView|
        if a.campaign_id == id {
            a.reserved()
        } else {
            0
        }
}

/// What an application was paid out of the escrow of campaign `id`.
pub open spec fn paid_on(id: CampaignId) -> spec_fn(ApplicationView) -> int {
    |a: ApplicationView|
        if a.campaign_id == id && a.status is Paid {
            a.payout_amount
        } else {
            0
        }
}

/// One for each application that was ever selected for campaign `id`.
pub open spec fn selected_on(id: CampaignId) -> spec_fn(ApplicationView) -> int {
    |a: ApplicationView|
        if a.campaign_id == id && !(a.status is Pending) {
            1
        } else {
            0
        }
}

/// What a campaign holds in escrow of `token`.
pub open spec fn escrow_in(token: Seq<char>) -> spec_fn(CampaignView) -> int {
    |c: CampaignView|
        if c.asset.token == token {
            c.escrow_balance
        } else {
            0
        }
}

impl StorageView {
    /// The entries of a contract that nobody has called yet.
    pub open spec fn empty() -> StorageView {
        StorageView {
            settings: None,
            next_campaign_id: 0,
            campaigns: Map::empty(),
            applications: Map::empty(),
        }
    }

    /// The entries with this campaign written under its number.
    pub open spec fn with_campaign(self, campaign: CampaignView) -> StorageView {
        StorageView { campaigns: self.campaigns.insert(campaign.id, campaign), ..self }
    }

    /// The entries with this application written under its key.
    pub open spec fn with_application(self, application: ApplicationView) -> StorageView {
        StorageView {
            applications: self.applications.insert(
                (application.campaign_id, application.creator),
                application,
            ),
            ..self
        }
    }

    /// The sum of the payouts that selected creators of campaign `id` are
    /// still owed.
    pub open spec fn reserved(self, id: CampaignId) -> int {
        total(self.applications, reserved_on(id))
    }

    /// The sum of the payouts that campaign `id` has released.
    pub open spec fn paid(self, id: CampaignId) -> int {
        total(self.applications, paid_on(id))
    }

    /// How many creators were ever selected for campaign `id`.
    pub open spec fn selected(self, id: CampaignId) -> int {
        total(self.applications, selected_on(id))
    }

    /// The sum of what all campaigns hold in escrow of `token`.
    pub open spec fn escrow(self, token: Seq<char>) -> int {
        total(self.campaigns, escrow_in(token))
    }

    /// What any part of the contract's entries keeps to that takes in the
    /// settings and, with an application, its campaign: each entry is valid
    /// and stands under its key, and no campaign has less committed than the
    /// applications at hand have reserved.
    pub open spec fn valid(self) -> bool {
        &&& self.settings matches Some(settings) ==> settings.valid()
        &&& 0 <= self.next_campaign_id <= u64::MAX
        &&& self.campaigns.dom().finite()
        &&& self.applications.dom().finite()
        &&& forall|id: CampaignId| #[trigger]
            self.campaigns.contains_key(id) ==> {
                &&& self.campaigns[id].id == id
                &&& id < self.next_campaign_id
                &&& self.campaigns[id].valid()
                &&& self.reserved(id) <= self.campaigns[id].committed_payouts
            }
        &&& forall|key: ApplicationKey| #[trigger]
            self.applications.contains_key(key) ==> {
                &&& self.campaigns.contains_key(key.0)
                &&& self.applications[key].campaign_id == key.0
                &&& self.applications[key].creator == key.1
                &&& self.applications[key].valid()
            }
    }

    /// What the whole of the contract's entries keeps to besides: each
    /// campaign has committed exactly what its selected creators are owed, has
    /// counted exactly the creators that were selected, and has never paid and
    /// kept more than was deposited. There is no campaign before `initialize`.
    pub open spec fn reconciled(self) -> bool {
        &&& self.settings is None ==> self.campaigns.dom() == Set::<CampaignId>::empty()
        &&& forall|id: CampaignId| #[trigger]
            self.campaigns.contains_key(id) ==> {
                &&& self.reserved(id) == self.campaigns[id].committed_payouts
                &&& self.selected(id) == self.campaigns[id].approved_count
                &&& self.paid(id) + self.campaigns[id].escrow_balance
                    <= self.campaigns[id].total_budget
            }
    }

    /// The campaign under this number, if there is one.
    pub open spec fn campaign_at(self, id: Option<CampaignId>) -> Option<CampaignView> {
        match id {
            Some(id) if self.campaigns.contains_key(id) => Some(self.campaigns[id]),
            _ => None,
        }
    }

    /// The creator's application to the campaign, if there is one.
    pub open spec fn application_at(
        self,
        id: Option<CampaignId>,
        creator: Option<Seq<char>>,
    ) -> Option<ApplicationView> {
        match (id, creator) {
            (Some(id), Some(creator)) if self.applications.contains_key((id, creator)) => Some(
                self.applications[(id, creator)],
            ),
            _ => None,
        }
    }

    /// The entries that a call can see that is about campaign `id` and the
    /// application of `creator` to it, as far as it is about either.
    pub open spec fn working_set(
        self,
        id: Option<CampaignId>,
        creator: Option<Seq<char>>,
    ) -> StorageView {
        StorageView::of_entries(
            self.settings,
            self.next_campaign_id,
            self.campaign_at(id),
            self.application_at(id, creator),
        )
    }

    /// The entries that these four spell out.
    pub open spec fn of_entries(
        settings: Option<SettingsView>,
        next_campaign_id: int,
        campaign: Option<CampaignView>,
        application: Option<ApplicationView>,
    ) -> StorageView {
        StorageView {
            settings,
            next_campaign_id,
            campaigns: match campaign {
                Some(c) => map![c.id => c],
                None => Map::empty(),
            },
            applications: match application {
                Some(a) => map![(a.campaign_id, a.creator) => a],
                None => Map::empty(),
            },
        }
    }
}

/// The contract's entries in memory: all of them, or those that one call
/// works on.
#[derive(Debug, PartialEq, Eq)]
pub struct Storage {
    settings: Option<Settings>,
    next_campaign_id: u64,
    campaigns: Vec<Campaign>,
    applications: Vec<Application>,
}

spec fn campaign_rows(campaigns: Seq<Campaign>) -> Seq<(CampaignId, CampaignView)> {
    campaigns.map_values(|c: Campaign| (c.id, c@))
}

spec fn application_rows(applications: Seq<Application>) -> Seq<(ApplicationKey, ApplicationView)> {
    applications.map_values(|a: Application| ((a.campaign_id, a.creator@), a@))
}

/// The settings, as far as there are any.
pub open spec fn settings_view(settings: Option<Settings>) -> Option<SettingsView> {
    match settings {
        Some(s) => Some(s@),
        None => None,
    }
}

/// The campaign, if there is one.
pub open spec fn campaign_view(campaign: Option<Campaign>) -> Option<CampaignView> {
    match campaign {
        Some(c) => Some(c@),
        None => None,
    }
}

/// The application, if there is one.
pub open spec fn application_view(application: Option<Application>) -> Option<ApplicationView> {
    match application {
        Some(a) => Some(a@),
        None => None,
    }
}

impl View for Storage {
    type V = StorageView;

    closed spec fn view(&self) -> StorageView {
        StorageView {
            settings: settings_view(self.settings),
            next_campaign_id: self.next_campaign_id as int,
            campaigns: table(campaign_rows(self.campaigns@)),
            applications: table(application_rows(self.applications@)),
        }
    }
}

impl Storage {
    /// No two entries stand under one key.
    pub closed spec fn well_formed(self) -> bool {
        &&& distinct_keys(campaign_rows(self.campaigns@))
        &&& distinct_keys(application_rows(self.applications@))
    }

    /// The entries of a contract that nobody has called yet.
    pub fn new() -> (storage: Storage)
        ensures
            storage.well_formed(),
            storage@ == StorageView::empty(),
            storage@.valid(),
            storage@.reconciled(),
    {
        let storage = Storage {
            settings: None,
            next_campaign_id: 0,
            campaigns: Vec::new(),
            applications: Vec::new(),
        };
        proof {
            assert(campaign_rows(storage.campaigns@) =~= Seq::empty());
            assert(application_rows(storage.applications@) =~= Seq::empty());
            assert(storage@.campaigns.dom() =~= Set::<CampaignId>::empty());
        }
        storage
    }

    /// Puts together the entries that a call works on. There is nothing where
    /// they do not belong together.
    pub fn load(
        settings: Option<Settings>,
        next_campaign_id: u64,
        campaign: Option<Campaign>,
        application: Option<Application>,
    ) -> (storage: Option<Storage>)
        ensures
            storage is Some <==> StorageView::of_entries(
                settings_view(settings),
                next_campaign_id as int,
                campaign_view(campaign),
                application_view(application),
            ).valid(),
            storage matches Some(found) ==> found.well_formed() && found@
                == StorageView::of_entries(
                settings_view(settings),
                next_campaign_id as int,
                campaign_view(campaign),
                application_view(application),
            ),
    {
        let ghost entries = StorageView::of_entries(
            settings_view(settings),
            next_campaign_id as int,
            campaign_view(campaign),
            application_view(application),
        );
        let mut storage = Storage {
            settings: None,
            next_campaign_id,
            campaigns: Vec::new(),
            applications: Vec::new(),
        };
        proof {
            assert(campaign_rows(storage.campaigns@) =~= Seq::empty());
            assert(application_rows(storage.applications@) =~= Seq::empty());
        }
        if let Some(s) = settings {
            if !s.is_valid() {
                return None;
            }
            storage.set_settings(s);
        }
        let mut committed: Option<i128> = None;
        if let Some(c) = campaign {
            proof {
                assert(entries.campaigns.contains_key(c.id));
            }
            if c.id >= next_campaign_id || !c.is_valid() {
                return None;
            }
            committed = Some(c.committed_payouts);
            storage.set_campaign(c);
        }
        if let Some(a) = application {
            proof {
                assert(entries.applications.contains_key((a.campaign_id, a.creator@)));
            }
            if !a.is_valid() || storage.get_campaign(a.campaign_id).is_err() {
                return None;
            }
            proof {
                Self::lemma_one_reservation(entries, a@);
            }
            match committed {
                Some(amount) => {
                    if a.reserved() > amount {
                        return None;
                    }
                },
                None => {},
            }
            storage.set_application(a);
        } else {
            proof {
                assert forall|id: CampaignId| #[trigger] entries.reserved(id) == 0 by {
                    crate::sums::lemma_total_zero(entries.applications, reserved_on(id));
                }
            }
        }
        proof {
            assert(storage@ =~= entries);
        }
        Some(storage)
    }

    /// Where there is one application, what it reserves is all that is reserved.
    proof fn lemma_one_reservation(entries: StorageView, a: ApplicationView)
        requires
            entries.applications == map![(a.campaign_id, a.creator) => a],
        ensures
            entries.applications.dom().finite(),
            forall|id: CampaignId| #[trigger]
                entries.reserved(id) == (if id == a.campaign_id {
                    a.reserved()
                } else {
                    0
                }),
    {
        let none = Map::<ApplicationKey, ApplicationView>::empty();
        assert(entries.applications =~= none.insert((a.campaign_id, a.creator), a));
        assert forall|id: CampaignId| #[trigger]
            entries.reserved(id) == (if id == a.campaign_id {
                a.reserved()
            } else {
                0
            }) by {
            crate::sums::lemma_total_insert(
                none,
                reserved_on(id),
                (a.campaign_id, a.creator),
                a,
            );
        }
    }

    /// Where the campaign under this number stands.
    fn campaign_index(&self, campaign_id: CampaignId) -> (index: Option<usize>)
        requires
            self.well_formed(),
        ensures
            match index {
                Some(i) => i < self.campaigns@.len() && self.campaigns@[i as int].id == campaign_id
                    && self@.campaigns.contains_key(campaign_id)
                    && self@.campaigns[campaign_id] == self.campaigns@[i as int]@,
                None => !self@.campaigns.contains_key(campaign_id),
            },
    {
        let ghost rows = campaign_rows(self.campaigns@);
        proof {
            crate::sums::lemma_table(rows);
        }
        let mut i: usize = 0;
        while i < self.campaigns.len()
            invariant
                i <= self.campaigns@.len(),
                rows == campaign_rows(self.campaigns@),
                self@.campaigns == table(rows),
                forall|k: int|
                    0 <= k < rows.len() ==> table(rows).contains_key((#[trigger] rows[k]).0)
                        && table(rows)[rows[k].0] == rows[k].1,
                forall|k: int| 0 <= k < i ==> (#[trigger] rows[k]).0 != campaign_id,
            decreases self.campaigns@.len() - i,
        {
            assert(rows[i as int] == (self.campaigns@[i as int].id, self.campaigns@[i as int]@));
            if self.campaigns[i].id == campaign_id {
                return Some(i);
            }
            i = i + 1;
        }
        None
    }

    /// Where this creator's application stands.
    fn application_index(&self, campaign_id: CampaignId, creator: &Address) -> (index: Option<
        usize,
    >)
        requires
            self.well_formed(),
        ensures
            match index {
                Some(i) => i < self.applications@.len() && self.applications@[i as int].campaign_id
                    == campaign_id && self.applications@[i as int].creator@ == creator@
                    && self@.applications.contains_key((campaign_id, creator@))
                    && self@.applications[(campaign_id, creator@)]
                    == self.applications@[i as int]@,
                None => !self@.applications.contains_key((campaign_id, creator@)),
            },
    {
        let ghost rows = application_rows(self.applications@);
        proof {
            crate::sums::lemma_table(rows);
        }
        let mut i: usize = 0;
        while i < self.applications.len()
            invariant
                i <= self.applications@.len(),
                rows == application_rows(self.applications@),
                self@.applications == table(rows),
                forall|k: int|
                    0 <= k < rows.len() ==> table(rows).contains_key((#[trigger] rows[k]).0)
                        && table(rows)[rows[k].0] == rows[k].1,
                forall|k: int| 0 <= k < i ==> (#[trigger] rows[k]).0 != (campaign_id, creator@),
            decreases self.applications@.len() - i,
        {
            assert(rows[i as int].0 == (
                self.applications@[i as int].campaign_id,
                self.applications@[i as int].creator@,
            ));
            assert(rows[i as int].1 == self.applications@[i as int]@);
            if self.applications[i].campaign_id == campaign_id
                && self.applications[i].creator.same_as(creator) {
                return Some(i);
            }
            i = i + 1;
        }
        None
    }

    /// Whether `initialize` has succeeded.
    pub fn is_initialized(&self) -> (initialized: bool)
        ensures
            initialized == (self@.settings is Some),
    {
        self.settings.is_some()
    }

    /// The settings.
    pub fn get_settings(&self) -> (settings: Result<Settings, Error>)
        ensures
            match self@.settings {
                Some(s) => settings matches Ok(found) && found@ == s,
                None => settings == Err::<Settings, Error>(Error::NotInitialized),
            },
    {
        match &self.settings {
            Some(settings) => Ok(settings.clone()),
            None => Err(Error::NotInitialized),
        }
    }

    /// Writes the settings.
    pub(crate) fn set_settings(&mut self, settings: Settings)
        requires
            old(self).well_formed(),
        ensures
            final(self).well_formed(),
            final(self)@ == (StorageView { settings: Some(settings@), ..old(self)@ }),
    {
        self.settings = Some(settings);
    }

    /// The number that the next campaign gets.
    pub fn peek_campaign_id(&self) -> (id: CampaignId)
        ensures
            id == self@.next_campaign_id,
    {
        self.next_campaign_id
    }

    /// Takes the next campaign number: each number is handed out once.
    pub(crate) fn next_campaign_id(&mut self) -> (id: CampaignId)
        requires
            old(self).well_formed(),
            old(self)@.next_campaign_id < u64::MAX,
        ensures
            final(self).well_formed(),
            id == old(self)@.next_campaign_id,
            final(self)@ == (StorageView { next_campaign_id: id + 1, ..old(self)@ }),
    {
        let id: CampaignId = self.next_campaign_id;
        self.next_campaign_id = id + 1;
        id
    }

    /// A copy of the campaign under this number.
    pub fn get_campaign(&self, campaign_id: CampaignId) -> (campaign: Result<Campaign, Error>)
        requires
            self.well_formed(),
        ensures
            if self@.campaigns.contains_key(campaign_id) {
                campaign matches Ok(found) && found@ == self@.campaigns[campaign_id]
            } else {
                campaign == Err::<Campaign, Error>(Error::CampaignNotFound)
            },
    {
        match self.campaign_index(campaign_id) {
            Some(i) => Ok(self.campaigns[i].clone()),
            None => Err(Error::CampaignNotFound),
        }
    }

    /// Writes the campaign under its number.
    pub(crate) fn set_campaign(&mut self, campaign: Campaign)
        requires
            old(self).well_formed(),
        ensures
            final(self).well_formed(),
            final(self)@ == old(self)@.with_campaign(campaign@),
    {
        let ghost rows = campaign_rows(self.campaigns@);
        let ghost key = campaign.id;
        let ghost value = campaign@;
        match self.campaign_index(campaign.id) {
            Some(i) => {
                self.campaigns.set(i, campaign);
                proof {
                    assert(rows[i as int].0 == key);
                    crate::sums::lemma_table_update(rows, i as int, value);
                    assert(campaign_rows(self.campaigns@) =~= rows.update(i as int, (key, value)));
                }
            },
            None => {
                self.campaigns.push(campaign);
                proof {
                    crate::sums::lemma_table_push(rows, key, value);
                    assert(campaign_rows(self.campaigns@) =~= rows.push((key, value)));
                }
            },
        }
    }

    /// A copy of this creator's application to the campaign.
    pub fn get_application(&self, campaign_id: CampaignId, creator: &Address) -> (application:
        Result<Application, Error>)
        requires
            self.well_formed(),
        ensures
            if self@.applications.contains_key((campaign_id, creator@)) {
                application matches Ok(found) && found@ == self@.applications[(
                    campaign_id,
                    creator@,
                )]
            } else {
                application == Err::<Application, Error>(Error::ApplicationNotFound)
            },
    {
        match self.application_index(campaign_id, creator) {
            Some(i) => Ok(self.applications[i].clone()),
            None => Err(Error::ApplicationNotFound),
        }
    }

    /// Writes the application under its campaign and creator.
    pub(crate) fn set_application(&mut self, application: Application)
        requires
            old(self).well_formed(),
        ensures
            final(self).well_formed(),
            final(self)@ == old(self)@.with_application(application@),
    {
        let ghost rows = application_rows(self.applications@);
        let ghost key = (application.campaign_id, application.creator@);
        let ghost value = application@;
        match self.application_index(application.campaign_id, &application.creator) {
            Some(i) => {
                self.applications.set(i, application);
                proof {
                    assert(rows[i as int].0 == key);
                    crate::sums::lemma_table_update(rows, i as int, value);
                    assert(application_rows(self.applications@) =~= rows.update(
                        i as int,
                        (key, value),
                    ));
                }
            },
            None => {
                self.applications.push(application);
                proof {
                    crate::sums::lemma_table_push(rows, key, value);
                    assert(application_rows(self.applications@) =~= rows.push((key, value)));
                }
            },
        }
    }
}

} // verus!
