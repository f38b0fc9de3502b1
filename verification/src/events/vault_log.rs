//! Vault actions: requests that wait for approval and updates that change the vault.
use vstd::prelude::*;
use crate::collections::{KeyEq, ViewClone, VecSet, views_of};
use crate::error::CoreError;
use crate::model::meta_pass::MetaPasswordId;
use crate::model::user::{UserData, UserDataMember, UserMembership, UserDataView, UserMembershipView};
use crate::model::vault::VaultName;

verus! {

/// A vault is created with its owner as the first member.
#[derive(Debug)]
pub struct CreateVaultEvent {
    pub owner: UserDataMember,
}

impl Clone for CreateVaultEvent {
    fn clone(&self) -> (r: Self)
        ensures
            r == *self,
    {
        CreateVaultEvent { owner: self.owner.clone() }
    }
}

/// A device asks to join the vault.
#[derive(Debug)]
pub struct JoinClusterEvent {
    pub candidate: UserData,
}

impl View for JoinClusterEvent {
    type V = UserDataView;

    open spec fn view(&self) -> UserDataView {
        self.candidate@
    }
}

impl Clone for JoinClusterEvent {
    fn clone(&self) -> (r: Self)
        ensures
            r == *self,
    {
        JoinClusterEvent { candidate: self.candidate.clone() }
    }
}

impl PartialEq for JoinClusterEvent {
    fn eq(&self, other: &Self) -> (r: bool) {
        self.candidate == other.candidate
    }
}

impl vstd::std_specs::cmp::PartialEqSpecImpl for JoinClusterEvent {
    open spec fn obeys_eq_spec() -> bool {
        true
    }

    open spec fn eq_spec(&self, other: &Self) -> bool {
        self@ == other@
    }
}

impl JoinClusterEvent {
    pub fn from(candidate: UserData) -> (r: Self)
        ensures
            r.candidate == candidate,
    {
        JoinClusterEvent { candidate }
    }
}

/// A member adds a password to the vault.
#[derive(Debug)]
pub struct AddMetaPassEvent {
    pub sender: UserDataMember,
    pub meta_pass_id: MetaPasswordId,
}

impl View for AddMetaPassEvent {
    type V = (UserDataView, (Seq<char>, Seq<char>));

    open spec fn view(&self) -> (UserDataView, (Seq<char>, Seq<char>)) {
        (self.sender@, self.meta_pass_id@)
    }
}

impl Clone for AddMetaPassEvent {
    fn clone(&self) -> (r: Self)
        ensures
            r == *self,
    {
        AddMetaPassEvent { sender: self.sender.clone(), meta_pass_id: self.meta_pass_id.clone() }
    }
}

impl PartialEq for AddMetaPassEvent {
    fn eq(&self, other: &Self) -> (r: bool) {
        self.sender == other.sender && self.meta_pass_id == other.meta_pass_id
    }
}

impl vstd::std_specs::cmp::PartialEqSpecImpl for AddMetaPassEvent {
    open spec fn obeys_eq_spec() -> bool {
        true
    }

    open spec fn eq_spec(&self, other: &Self) -> bool {
        self@ == other@
    }
}

/// A member changes the membership of a user who asked to join.
#[derive(Debug)]
pub struct UpdateMembershipEvent {
    pub request: JoinClusterEvent,
    pub sender: UserDataMember,
    pub update: UserMembership,
}

impl Clone for UpdateMembershipEvent {
    fn clone(&self) -> (r: Self)
        ensures
            r == *self,
    {
        UpdateMembershipEvent {
            request: self.request.clone(),
            sender: self.sender.clone(),
            update: self.update.clone(),
        }
    }
}

impl PartialEq for UpdateMembershipEvent {
    fn eq(&self, other: &Self) -> (r: bool) {
        self.request == other.request && self.sender == other.sender && self.update == other.update
    }
}

impl vstd::std_specs::cmp::PartialEqSpecImpl for UpdateMembershipEvent {
    open spec fn obeys_eq_spec() -> bool {
        true
    }

    open spec fn eq_spec(&self, other: &Self) -> bool {
        self.request@ == other.request@ && self.sender@ == other.sender@ && self.update@ == other.update@
    }
}

#[derive(Debug)]
pub enum VaultActionInitEvent {
    CreateVault(CreateVaultEvent),
}

impl Clone for VaultActionInitEvent {
    fn clone(&self) -> (r: Self)
        ensures
            r == *self,
    {
        match self {
            VaultActionInitEvent::CreateVault(e) => VaultActionInitEvent::CreateVault(e.clone()),
        }
    }
}

pub enum RequestView {
    JoinCluster(UserDataView),
    AddMetaPass(UserDataView, (Seq<char>, Seq<char>)),
}

/// A request that waits for a member's approval.
#[derive(Debug)]
pub enum VaultActionRequestEvent {
    JoinCluster(JoinClusterEvent),
    AddMetaPass(AddMetaPassEvent),
}

impl View for VaultActionRequestEvent {
    type V = RequestView;

    open spec fn view(&self) -> RequestView {
        match self {
            VaultActionRequestEvent::JoinCluster(e) => RequestView::JoinCluster(e.candidate@),
            VaultActionRequestEvent::AddMetaPass(e) => RequestView::AddMetaPass(e.sender@, e.meta_pass_id@),
        }
    }
}

impl Clone for VaultActionRequestEvent {
    fn clone(&self) -> (r: Self)
        ensures
            r == *self,
    {
        match self {
            VaultActionRequestEvent::JoinCluster(e) => VaultActionRequestEvent::JoinCluster(e.clone()),
            VaultActionRequestEvent::AddMetaPass(e) => VaultActionRequestEvent::AddMetaPass(e.clone()),
        }
    }
}

impl ViewClone for VaultActionRequestEvent {
    fn view_clone(&self) -> (r: Self) {
        self.clone()
    }
}

impl PartialEq for VaultActionRequestEvent {
    fn eq(&self, other: &Self) -> (r: bool) {
        match (self, other) {
            (VaultActionRequestEvent::JoinCluster(a), VaultActionRequestEvent::JoinCluster(b)) => a == b,
            (VaultActionRequestEvent::AddMetaPass(a), VaultActionRequestEvent::AddMetaPass(b)) => a == b,
            _ => false,
        }
    }
}

impl vstd::std_specs::cmp::PartialEqSpecImpl for VaultActionRequestEvent {
    open spec fn obeys_eq_spec() -> bool {
        true
    }

    open spec fn eq_spec(&self, other: &Self) -> bool {
        self@ == other@
    }
}

impl KeyEq for VaultActionRequestEvent {
    fn key_eq(&self, other: &Self) -> (r: bool) {
        *self == *other
    }
}

impl VaultActionRequestEvent {
    pub fn name(&self) -> (r: String)
        ensures
            self is JoinCluster ==> r@ == "JoinRequest"@,
            self is AddMetaPass ==> r@ == "AddMetaPasswordRequest"@,
    {
        match self {
            VaultActionRequestEvent::JoinCluster(_) => String::from_str("JoinRequest"),
            VaultActionRequestEvent::AddMetaPass(_) => String::from_str("AddMetaPasswordRequest"),
        }
    }

    pub fn vault_name(&self) -> (r: VaultName)
        ensures
            r@ == request_user(self@).vault_name,
    {
        match self {
            VaultActionRequestEvent::JoinCluster(request) => request.candidate.vault_name(),
            VaultActionRequestEvent::AddMetaPass(request) => request.sender.user_data.vault_name(),
        }
    }
}

pub open spec fn request_user(r: RequestView) -> UserDataView {
    match r {
        RequestView::JoinCluster(u) => u,
        RequestView::AddMetaPass(u, _) => u,
    }
}

pub enum UpdateView {
    AddToPending(UserDataView),
    UpdateMembership(UserDataView, UserDataView, UserMembershipView),
    AddMetaPass(UserDataView, (Seq<char>, Seq<char>)),
}

/// An update of the vault.
#[derive(Debug)]
pub enum VaultActionUpdateEvent {
    /// There is no corresponding request for this event (server prematurely adds candidate to pending list)
    AddToPending { candidate: UserData },
    /// When the device becomes a member of the vault, it can change membership of other members
    UpdateMembership(UpdateMembershipEvent),
    /// A member can add a new meta password into the vault
    AddMetaPass(AddMetaPassEvent),
}

impl View for VaultActionUpdateEvent {
    type V = UpdateView;

    open spec fn view(&self) -> UpdateView {
        match self {
            VaultActionUpdateEvent::AddToPending { candidate } => UpdateView::AddToPending(candidate@),
            VaultActionUpdateEvent::UpdateMembership(e) => UpdateView::UpdateMembership(
                e.request@,
                e.sender@,
                e.update@,
            ),
            VaultActionUpdateEvent::AddMetaPass(e) => UpdateView::AddMetaPass(e.sender@, e.meta_pass_id@),
        }
    }
}

impl Clone for VaultActionUpdateEvent {
    fn clone(&self) -> (r: Self)
        ensures
            r == *self,
    {
        match self {
            VaultActionUpdateEvent::AddToPending { candidate } => VaultActionUpdateEvent::AddToPending {
                candidate: candidate.clone(),
            },
            VaultActionUpdateEvent::UpdateMembership(e) => VaultActionUpdateEvent::UpdateMembership(e.clone()),
            VaultActionUpdateEvent::AddMetaPass(e) => VaultActionUpdateEvent::AddMetaPass(e.clone()),
        }
    }
}

impl ViewClone for VaultActionUpdateEvent {
    fn view_clone(&self) -> (r: Self) {
        self.clone()
    }
}

impl PartialEq for VaultActionUpdateEvent {
    fn eq(&self, other: &Self) -> (r: bool) {
        match (self, other) {
            (
                VaultActionUpdateEvent::AddToPending { candidate: a },
                VaultActionUpdateEvent::AddToPending { candidate: b },
            ) => a == b,
            (VaultActionUpdateEvent::UpdateMembership(a), VaultActionUpdateEvent::UpdateMembership(b)) => a == b,
            (VaultActionUpdateEvent::AddMetaPass(a), VaultActionUpdateEvent::AddMetaPass(b)) => a == b,
            _ => false,
        }
    }
}

impl vstd::std_specs::cmp::PartialEqSpecImpl for VaultActionUpdateEvent {
    open spec fn obeys_eq_spec() -> bool {
        true
    }

    open spec fn eq_spec(&self, other: &Self) -> bool {
        self@ == other@
    }
}

impl KeyEq for VaultActionUpdateEvent {
    fn key_eq(&self, other: &Self) -> (r: bool) {
        *self == *other
    }
}

/// The user whose vault an update belongs to.
pub open spec fn update_user(u: UpdateView) -> UserDataView {
    match u {
        UpdateView::AddToPending(c) => c,
        UpdateView::UpdateMembership(_, _, m) => m.user(),
        UpdateView::AddMetaPass(s, _) => s,
    }
}

impl VaultActionUpdateEvent {
    pub fn vault_name(&self) -> (r: VaultName)
        ensures
            r@ == update_user(self@).vault_name,
    {
        match self {
            VaultActionUpdateEvent::UpdateMembership(update) => update.update.user_data().vault_name(),
            VaultActionUpdateEvent::AddMetaPass(AddMetaPassEvent { sender, .. }) => sender.user_data.vault_name(),
            VaultActionUpdateEvent::AddToPending { candidate } => candidate.vault_name(),
        }
    }

    pub fn name(&self) -> (r: String)
        ensures
            self is UpdateMembership ==> r@ == "UpdateMembership"@,
            self is AddMetaPass ==> r@ == "AddMetaPassword"@,
            self is AddToPending ==> r@ == "AddToPending"@,
    {
        match self {
            VaultActionUpdateEvent::UpdateMembership(_) => String::from_str("UpdateMembership"),
            VaultActionUpdateEvent::AddMetaPass(_) => String::from_str("AddMetaPassword"),
            VaultActionUpdateEvent::AddToPending { .. } => String::from_str("AddToPending"),
        }
    }
}

/// An event of the vault log.
#[derive(Debug)]
pub enum VaultActionEvent {
    Init(VaultActionInitEvent),
    Request(VaultActionRequestEvent),
    Update(VaultActionUpdateEvent),
}

impl Clone for VaultActionEvent {
    fn clone(&self) -> (r: Self)
        ensures
            r == *self,
    {
        match self {
            VaultActionEvent::Init(e) => VaultActionEvent::Init(e.clone()),
            VaultActionEvent::Request(e) => VaultActionEvent::Request(e.clone()),
            VaultActionEvent::Update(e) => VaultActionEvent::Update(e.clone()),
        }
    }
}

impl VaultActionEvent {
    /// The name of the event, as it is displayed.
    pub fn name(&self) -> (r: String)
        ensures
            self matches VaultActionEvent::Request(q) ==> (q is JoinCluster ==> r@ == "JoinRequest"@) && (
            q is AddMetaPass ==> r@ == "AddMetaPasswordRequest"@),
            self matches VaultActionEvent::Update(u) ==> (u is UpdateMembership ==> r@ == "UpdateMembership"@)
                && (u is AddMetaPass ==> r@ == "AddMetaPassword"@) && (u is AddToPending ==> r@
                == "AddToPending"@),
            self is Init ==> r@ == "CreateVaultInit"@,
    {
        match self {
            VaultActionEvent::Request(request) => request.name(),
            VaultActionEvent::Update(update) => update.name(),
            VaultActionEvent::Init(_) => String::from_str("CreateVaultInit"),
        }
    }

    /// The candidate of a join request; fails for any other event.
    pub fn get_join_request(self) -> (r: Result<UserData, CoreError>)
        ensures
            self matches VaultActionEvent::Request(VaultActionRequestEvent::JoinCluster(e)) ==> r
                == Ok::<UserData, CoreError>(e.candidate),
            !(self matches VaultActionEvent::Request(VaultActionRequestEvent::JoinCluster(_))) ==> r
                == Err::<UserData, CoreError>(CoreError::WrongVaultAction),
    {
        if let VaultActionEvent::Request(VaultActionRequestEvent::JoinCluster(join_event)) = self {
            Ok(join_event.candidate)
        } else {
            Err(CoreError::WrongVaultAction)
        }
    }

    /// The vault the event is about.
    pub open spec fn vault_name_of(&self) -> Seq<char> {
        match self {
            VaultActionEvent::Request(q) => request_user(q@).vault_name,
            VaultActionEvent::Update(u) => update_user(u@).vault_name,
            VaultActionEvent::Init(VaultActionInitEvent::CreateVault(e)) => e.owner.user_data.vault_name@,
        }
    }

    pub fn vault_name(&self) -> (r: VaultName)
        ensures
            r@ == self.vault_name_of(),
            self matches VaultActionEvent::Request(q) ==> r@ == request_user(q@).vault_name,
            self matches VaultActionEvent::Update(u) ==> r@ == update_user(u@).vault_name,
            self matches VaultActionEvent::Init(VaultActionInitEvent::CreateVault(e)) ==> r@
                == e.owner.user_data.vault_name@,
    {
        match self {
            VaultActionEvent::Request(request) => request.vault_name(),
            VaultActionEvent::Update(update) => update.vault_name(),
            VaultActionEvent::Init(VaultActionInitEvent::CreateVault(event)) => event.owner.user_data.vault_name(),
        }
    }
}

pub struct VaultActionEventsView {
    pub requests: Set<RequestView>,
    pub updates: Set<UpdateView>,
}

/// The request that an update answers, when it answers one.
pub open spec fn answered_request(u: UpdateView) -> Option<RequestView> {
    match u {
        UpdateView::AddToPending(_) => None,
        UpdateView::UpdateMembership(candidate, _, _) => Some(RequestView::JoinCluster(candidate)),
        UpdateView::AddMetaPass(sender, pass) => Some(RequestView::AddMetaPass(sender, pass)),
    }
}

/// Applying an update: it is kept only when it answers a pending request (which it then
/// removes), or when it answers none.
pub open spec fn apply_update(e: VaultActionEventsView, u: UpdateView) -> VaultActionEventsView {
    match answered_request(u) {
        None => VaultActionEventsView { requests: e.requests, updates: e.updates.insert(u) },
        Some(q) => if e.requests.contains(q) {
            VaultActionEventsView { requests: e.requests.remove(q), updates: e.updates.insert(u) }
        } else {
            e
        },
    }
}

/// All pending events to apply to the vault.
#[derive(Debug)]
pub struct VaultActionEvents {
    pub requests: VecSet<VaultActionRequestEvent>,
    pub updates: VecSet<VaultActionUpdateEvent>,
}

impl View for VaultActionEvents {
    type V = VaultActionEventsView;

    open spec fn view(&self) -> VaultActionEventsView {
        VaultActionEventsView { requests: self.requests@, updates: self.updates@ }
    }
}

impl ViewClone for VaultActionEvents {
    fn view_clone(&self) -> (r: Self) {
        VaultActionEvents { requests: self.requests.view_clone(), updates: self.updates.view_clone() }
    }
}

impl Clone for VaultActionEvents {
    fn clone(&self) -> (r: Self)
        ensures
            r@ == self@,
    {
        self.view_clone()
    }
}

impl Default for VaultActionEvents {
    fn default() -> (r: Self)
        ensures
            r@.requests == Set::<RequestView>::empty(),
            r@.updates == Set::<UpdateView>::empty(),
    {
        VaultActionEvents { requests: VecSet::new(), updates: VecSet::new() }
    }
}

impl VaultActionEvents {
    /// Record a request.
    pub fn request(self, request: VaultActionRequestEvent) -> (r: Self)
        ensures
            r@.requests == self@.requests.insert(request@),
            r@.updates == self@.updates,
    {
        VaultActionEvents { requests: self.requests.insert(request), updates: self.updates }
    }

    /// Record an update: an update answering a request is kept only if that request is pending.
    pub fn apply(self, upd_event: VaultActionUpdateEvent) -> (r: Self)
        ensures
            r@ == apply_update(self@, upd_event@),
    {
        let VaultActionEvents { requests, updates } = self;
        match &upd_event {
            VaultActionUpdateEvent::UpdateMembership(update) => {
                let request = VaultActionRequestEvent::JoinCluster(update.request.clone());
                let (requests, removed) = requests.remove(&request);
                if removed {
                    VaultActionEvents { requests, updates: updates.insert(upd_event) }
                } else {
                    proof {
                        assert(requests@ =~= self@.requests);
                    }
                    VaultActionEvents { requests, updates }
                }
            },
            VaultActionUpdateEvent::AddMetaPass(event) => {
                let request = VaultActionRequestEvent::AddMetaPass(event.clone());
                let (requests, removed) = requests.remove(&request);
                if removed {
                    VaultActionEvents { requests, updates: updates.insert(upd_event) }
                } else {
                    proof {
                        assert(requests@ =~= self@.requests);
                    }
                    VaultActionEvents { requests, updates }
                }
            },
            VaultActionUpdateEvent::AddToPending { .. } => {
                VaultActionEvents { requests, updates: updates.insert(upd_event) }
            },
        }
    }

    /// Record any event of the vault log; creation events change nothing here.
    pub fn apply_event(self, event: VaultActionEvent) -> (r: Self)
        ensures
            event matches VaultActionEvent::Request(q) ==> r@.requests == self@.requests.insert(q@)
                && r@.updates == self@.updates,
            event matches VaultActionEvent::Update(u) ==> r@ == apply_update(self@, u@),
            event is Init ==> r@ == self@,
    {
        match event {
            VaultActionEvent::Request(request) => self.request(request),
            VaultActionEvent::Update(update) => self.apply(update),
            VaultActionEvent::Init(_) => self,
        }
    }

    /// Apply every recorded update once more: each update removes the request it answers, if
    /// that request is pending again; the updates stay.
    pub fn synchronize(self) -> (r: Self)
        ensures
            r@.updates == self@.updates,
            r@.requests == self@.requests.filter(
                |q: RequestView| !(exists|u: UpdateView| #[trigger] self@.updates.contains(u) && answered_request(u) == Some(q)),
            ),
    {
        let updates = self.updates.view_clone();
        proof {
            use_type_invariant(&updates);
            updates.lemma_items();
        }
        let items = updates.as_vec();
        let ghost orig = self@;
        let mut current = self;
        let mut i: usize = 0;
        while i < items.len()
            invariant
                items@ == updates.item_seq(),
                updates@ == orig.updates,
                i <= items.len(),
                current@.updates == orig.updates,
                current@.requests == orig.requests.filter(
                    |q: RequestView| !(exists|j: int| 0 <= j < i && answered_request((#[trigger] items@[j])@) == Some(q)),
                ),
                forall|j: int| 0 <= j < items@.len() ==> orig.updates.contains((#[trigger] items@[j])@),
            decreases items.len() - i,
        {
            let ghost before = current@;
            let u = items[i].view_clone();
            current = current.apply_event(VaultActionEvent::Update(u));
            proof {
                assert(current@.updates =~= orig.updates);
                assert(current@.requests =~= orig.requests.filter(
                    |q: RequestView| !(exists|j: int| 0 <= j < i + 1 && answered_request((#[trigger] items@[j])@) == Some(q)),
                )) by {
                    assert forall|q: RequestView| #[trigger] current@.requests.contains(q) == orig.requests.filter(
                        |q: RequestView| !(exists|j: int| 0 <= j < i + 1 && answered_request((#[trigger] items@[j])@) == Some(q)),
                    ).contains(q) by {
                        if exists|j: int| 0 <= j < i + 1 && answered_request((#[trigger] items@[j])@) == Some(q) {
                            let j = choose|j: int| 0 <= j < i + 1 && answered_request((#[trigger] items@[j])@) == Some(q);
                            if j < i {
                                assert(!before.requests.contains(q));
                            }
                        }
                    }
                }
            }
            i = i + 1;
        }
        proof {
            assert(current@.requests =~= orig.requests.filter(
                |q: RequestView| !(exists|u: UpdateView| #[trigger] orig.updates.contains(u) && answered_request(u) == Some(q)),
            )) by {
                assert forall|q: RequestView| #[trigger] current@.requests.contains(q) == orig.requests.filter(
                    |q: RequestView| !(exists|u: UpdateView| #[trigger] orig.updates.contains(u) && answered_request(u) == Some(q)),
                ).contains(q) by {
                    if exists|u: UpdateView| #[trigger] orig.updates.contains(u) && answered_request(u) == Some(q) {
                        let u = choose|u: UpdateView| #[trigger] orig.updates.contains(u) && answered_request(u) == Some(q);
                        let j = choose|j: int| 0 <= j < items@.len() && (#[trigger] updates.item_seq()[j])@ == u;
                        assert(answered_request(items@[j]@) == Some(q));
                    }
                    if exists|j: int| 0 <= j < items@.len() && answered_request((#[trigger] items@[j])@) == Some(q) {
                        let j = choose|j: int| 0 <= j < items@.len() && answered_request((#[trigger] items@[j])@) == Some(q);
                        assert(orig.updates.contains(items@[j]@));
                    }
                }
            }
        }
        current
    }

    /// The updates have been applied to the vault: forget them.
    pub fn complete(self) -> (r: Self)
        ensures
            r@.requests == self@.requests,
            r@.updates == Set::<UpdateView>::empty(),
    {
        VaultActionEvents { requests: self.requests, updates: self.updates.clear() }
    }
}

/// An update that answers no request is always kept.
pub proof fn law_unanswered_update_is_kept(e: VaultActionEventsView, u: UpdateView)
    requires
        answered_request(u) is None,
    ensures
        apply_update(e, u).updates.contains(u),
        apply_update(e, u).requests == e.requests,
{
}

/// An update whose request is not pending changes nothing.
pub proof fn law_update_without_request_is_ignored(e: VaultActionEventsView, u: UpdateView)
    requires
        answered_request(u) matches Some(q) && !e.requests.contains(q),
    ensures
        apply_update(e, u) == e,
{
}

/// A request followed by the update that answers it leaves the request answered and the
/// update recorded.
pub proof fn law_request_then_update(e: VaultActionEventsView, q: RequestView, u: UpdateView)
    requires
        answered_request(u) == Some(q),
    ensures
        ({
            let requested = VaultActionEventsView { requests: e.requests.insert(q), updates: e.updates };
            &&& apply_update(requested, u).requests == e.requests.remove(q)
            &&& apply_update(requested, u).updates == e.updates.insert(u)
        }),
{
    let requested = VaultActionEventsView { requests: e.requests.insert(q), updates: e.updates };
    assert(requested.requests.insert(q).remove(q) =~= e.requests.remove(q));
    assert(requested.requests.remove(q) =~= e.requests.remove(q));
}

} // verus!
