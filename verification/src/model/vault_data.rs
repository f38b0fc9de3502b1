//! The content of a vault: its users and the ids of its passwords, and the
//! aggregate that folds the pending updates of the vault log into it.
use vstd::prelude::*;
use crate::collections::{count_entries, count_values, views_of, KeyEq, VecMap, VecSet, ViewClone};
use crate::error::CoreError;
use crate::events::vault_log::{UpdateView, VaultActionEvents, VaultActionUpdateEvent};
use crate::model::device::DeviceId;
use crate::model::keys::device_id_of;
use crate::model::meta_pass::MetaPasswordId;
use crate::model::shared_secret::{threshold_for, SharedSecretConfig};
use crate::model::user::{
    UserData, UserDataMember, UserDataOutsider, UserDataOutsiderStatus, UserDataView, UserMembership,
    UserMembershipView, WasmUserMembership,
};
use crate::model::vault::{VaultMember, VaultName, VaultStatus};

verus! {

pub struct VaultDataView {
    pub vault_name: Seq<char>,
    pub users: Map<Seq<char>, UserMembershipView>,
    pub secrets: Set<(Seq<char>, Seq<char>)>,
}

pub open spec fn is_member_view(m: UserMembershipView) -> bool {
    m is Member
}

pub open spec fn is_outsider_view(m: UserMembershipView) -> bool {
    m is Outsider
}

pub open spec fn member_pred() -> spec_fn(UserMembershipView) -> bool {
    |m: UserMembershipView| is_member_view(m)
}

pub open spec fn outsider_pred() -> spec_fn(UserMembershipView) -> bool {
    |m: UserMembershipView| is_outsider_view(m)
}

/// The device is registered under its own id, as a member.
pub open spec fn member_in(users: Map<Seq<char>, UserMembershipView>, device_id: Seq<char>) -> bool {
    &&& users.contains_key(device_id)
    &&& users[device_id] matches UserMembershipView::Member(u)
    &&& u.device.device_id == device_id
}

/// The members among the entries, in order.
pub open spec fn member_users<K>(s: Seq<(K, UserMembership)>) -> Seq<UserDataView>
    decreases s.len(),
{
    if s.len() == 0 {
        Seq::empty()
    } else {
        let rest = member_users(s.drop_last());
        match s.last().1@ {
            UserMembershipView::Member(u) => rest.push(u),
            UserMembershipView::Outsider(..) => rest,
        }
    }
}

/// The outsiders among the entries, in order.
pub open spec fn outsider_users<K>(s: Seq<(K, UserMembership)>) -> Seq<(UserDataView, UserDataOutsiderStatus)>
    decreases s.len(),
{
    if s.len() == 0 {
        Seq::empty()
    } else {
        let rest = outsider_users(s.drop_last());
        match s.last().1@ {
            UserMembershipView::Outsider(u, st) => rest.push((u, st)),
            UserMembershipView::Member(_) => rest,
        }
    }
}

proof fn lemma_member_users_len<K>(s: Seq<(K, UserMembership)>)
    ensures
        member_users(s).len() == count_entries(s, member_pred()),
        outsider_users(s).len() == count_entries(s, outsider_pred()),
    decreases s.len(),
{
    if s.len() > 0 {
        lemma_member_users_len(s.drop_last());
    }
}

/// The users of a vault, keyed by device id, and the ids of its passwords.
#[derive(Debug)]
pub struct VaultData {
    pub vault_name: VaultName,
    pub users: VecMap<DeviceId, UserMembership>,
    pub secrets: VecSet<MetaPasswordId>,
}

impl View for VaultData {
    type V = VaultDataView;

    open spec fn view(&self) -> VaultDataView {
        VaultDataView { vault_name: self.vault_name@, users: self.users@, secrets: self.secrets@ }
    }
}

impl ViewClone for VaultData {
    fn view_clone(&self) -> (r: Self) {
        VaultData {
            vault_name: self.vault_name.clone(),
            users: self.users.view_clone(),
            secrets: self.secrets.view_clone(),
        }
    }
}

impl Clone for VaultData {
    fn clone(&self) -> (r: Self)
        ensures
            r@ == self@,
    {
        self.view_clone()
    }
}

impl VaultData {
    /// A vault with a single member, registered under the id of its keys.
    pub fn from(member: UserDataMember) -> (r: Self)
        ensures
            r@.vault_name == member.user_data.vault_name@,
            r@.users == map![device_id_of(member.user_data.device.keys.transport_pk@)
                => UserMembershipView::Member(member.user_data@)],
            r@.secrets == Set::<(Seq<char>, Seq<char>)>::empty(),
    {
        let vault_name = member.user_data.vault_name();
        let device_id = DeviceId::from_open_box(&member.user_data.device.keys);
        let users = VecMap::new().insert(device_id, UserMembership::Member(member));
        let r = VaultData { vault_name, users, secrets: VecSet::new() };
        proof {
            assert(r@.users =~= map![device_id_of(member.user_data.device.keys.transport_pk@)
                => UserMembershipView::Member(member.user_data@)]);
        }
        r
    }

    /// The members, in the order the vault lists its users.
    pub fn members(&self) -> (r: Vec<UserDataMember>)
        ensures
            views_of(r@) == member_users(self.users.entry_seq()),
            r.len() == count_values(self@.users, member_pred()),
    {
        proof {
            use_type_invariant(&self.users);
            self.users.lemma_count(member_pred());
            lemma_member_users_len(self.users.entry_seq());
        }
        let entries = self.users.as_vec();
        let mut members: Vec<UserDataMember> = Vec::new();
        let mut i: usize = 0;
        while i < entries.len()
            invariant
                entries@ == self.users.entry_seq(),
                i <= entries.len(),
                views_of(members@) == member_users(entries@.take(i as int)),
            decreases entries.len() - i,
        {
            proof {
                assert(entries@.take(i + 1).drop_last() =~= entries@.take(i as int));
            }
            match &entries[i].1 {
                UserMembership::Member(m) => {
                    members.push(m.clone());
                    proof {
                        assert(views_of(members@) =~= member_users(entries@.take(i as int)).push(m@));
                    }
                },
                UserMembership::Outsider(_) => {},
            }
            i = i + 1;
        }
        proof {
            assert(entries@.take(i as int) =~= entries@);
        }
        members
    }

    /// The outsiders, in the order the vault lists its users.
    pub fn outsiders(&self) -> (r: Vec<UserDataOutsider>)
        ensures
            r@.map_values(|o: UserDataOutsider| (o.user_data@, o.status)) == outsider_users(
                self.users.entry_seq(),
            ),
            r.len() == count_values(self@.users, outsider_pred()),
    {
        proof {
            use_type_invariant(&self.users);
            self.users.lemma_count(outsider_pred());
            lemma_member_users_len(self.users.entry_seq());
        }
        let entries = self.users.as_vec();
        let mut outsiders: Vec<UserDataOutsider> = Vec::new();
        let mut i: usize = 0;
        while i < entries.len()
            invariant
                entries@ == self.users.entry_seq(),
                i <= entries.len(),
                outsiders@.map_values(|o: UserDataOutsider| (o.user_data@, o.status)) == outsider_users(
                    entries@.take(i as int),
                ),
            decreases entries.len() - i,
        {
            proof {
                assert(entries@.take(i + 1).drop_last() =~= entries@.take(i as int));
            }
            match &entries[i].1 {
                UserMembership::Outsider(o) => {
                    outsiders.push(o.clone());
                    proof {
                        assert(outsiders@.map_values(|o: UserDataOutsider| (o.user_data@, o.status))
                            =~= outsider_users(entries@.take(i as int)).push((o.user_data@, o.status)));
                    }
                },
                UserMembership::Member(_) => {},
            }
            i = i + 1;
        }
        proof {
            assert(entries@.take(i as int) =~= entries@);
        }
        outsiders
    }

    /// How the passwords of this vault are split: one share per member.
    pub fn sss_cfg(&self) -> (r: SharedSecretConfig)
        ensures
            r.number_of_shares == count_values(self@.users, member_pred()),
            r.threshold == threshold_for(count_values(self@.users, member_pred())),
    {
        let members_num = self.members().len();
        SharedSecretConfig::calculate(members_num)
    }

    pub fn add_secret(self, meta_password_id: MetaPasswordId) -> (r: Self)
        ensures
            r@ == (VaultDataView { secrets: self@.secrets.insert(meta_password_id@), ..self@ }),
    {
        let VaultData { vault_name, users, secrets } = self;
        VaultData { vault_name, users, secrets: secrets.insert(meta_password_id) }
    }

    /// Put the membership in place of what the vault knew about its device.
    pub fn update_membership(self, membership: UserMembership) -> (r: Self)
        ensures
            r@ == (VaultDataView {
                users: self@.users.insert(membership@.user().device.device_id, membership@),
                ..self@
            }),
    {
        let VaultData { vault_name, users, secrets } = self;
        let device_id = membership.device_id();
        VaultData { vault_name, users: users.insert(device_id, membership), secrets }
    }

    pub fn is_member(&self, device_id: &DeviceId) -> (r: bool)
        ensures
            r == member_in(self@.users, device_id@),
    {
        match self.users.get(device_id) {
            Some(UserMembership::Member(UserDataMember { user_data })) => user_data.device.device_id.key_eq(
                device_id,
            ),
            _ => false,
        }
    }

    pub fn is_not_member(&self, device_id: &DeviceId) -> (r: bool)
        ensures
            r == !member_in(self@.users, device_id@),
    {
        !self.is_member(device_id)
    }

    /// What the vault knows of the user's device, or that it is not a member.
    pub fn membership(&self, for_user: UserData) -> (r: UserMembership)
        ensures
            self@.users.contains_key(for_user.device.device_id@) ==> r@ == self@.users[for_user.device.device_id@],
            !self@.users.contains_key(for_user.device.device_id@) ==> r == UserMembership::Outsider(
                UserDataOutsider { user_data: for_user, status: UserDataOutsiderStatus::NonMember },
            ),
    {
        match self.users.get(&for_user.device.device_id) {
            Some(membership) => membership.view_clone(),
            None => UserMembership::Outsider(UserDataOutsider::non_member(for_user)),
        }
    }

    pub fn status(&self, user: UserData) -> (r: VaultStatus)
        ensures
            self@.users.contains_key(user.device.device_id@) ==> (match self@.users[user.device.device_id@] {
                UserMembershipView::Member(u) => r@ == crate::model::vault::VaultStatusView::Member(u),
                UserMembershipView::Outsider(u, s) => r@ == crate::model::vault::VaultStatusView::Outsider(u, s),
            }),
            !self@.users.contains_key(user.device.device_id@) ==> r == VaultStatus::Outsider(
                UserDataOutsider { user_data: user, status: UserDataOutsiderStatus::NonMember },
            ),
    {
        let membership = self.membership(user);
        VaultStatus::from_membership(membership)
    }

    pub fn find_user(&self, device_id: &DeviceId) -> (r: Option<&UserMembership>)
        ensures
            r matches Some(m) ==> self@.users.contains_key(device_id@) && m@ == self@.users[device_id@],
            r is None ==> !self@.users.contains_key(device_id@),
    {
        self.users.get(device_id)
    }

    /// The member together with the vault, when the vault counts it as a member.
    pub fn to_vault_member(self, member: UserDataMember) -> (r: Result<VaultMember, CoreError>)
        ensures
            member_in(self@.users, member.user_data.device.device_id@) ==> (r matches Ok(vm) && vm.member
                == member && vm.vault@ == self@),
            !member_in(self@.users, member.user_data.device.device_id@) ==> r == Err::<VaultMember, CoreError>(
                CoreError::NotAVaultMember,
            ),
    {
        let is_member = self.is_member(&member.user_data.device.device_id);
        if is_member {
            Ok(VaultMember { member, vault: self })
        } else {
            Err(CoreError::NotAVaultMember)
        }
    }
}

/// What one update of the vault log does to the vault: a member may change a
/// membership or add a password; a candidate is put on the pending list. Updates
/// sent by a device that is not a member change nothing.
pub open spec fn apply_vault_update(v: VaultDataView, u: UpdateView) -> VaultDataView {
    match u {
        UpdateView::UpdateMembership(_, sender, update) => if member_in(v.users, sender.device.device_id) {
            VaultDataView { users: v.users.insert(update.user().device.device_id, update), ..v }
        } else {
            v
        },
        UpdateView::AddMetaPass(sender, pass_id) => if member_in(v.users, sender.device.device_id) {
            VaultDataView { secrets: v.secrets.insert(pass_id), ..v }
        } else {
            v
        },
        UpdateView::AddToPending(candidate) => VaultDataView {
            users: v.users.insert(
                candidate.device.device_id,
                UserMembershipView::Outsider(candidate, UserDataOutsiderStatus::Pending),
            ),
            ..v
        },
    }
}

/// The updates applied one after the other.
pub open spec fn apply_vault_updates(v: VaultDataView, s: Seq<UpdateView>) -> VaultDataView
    decreases s.len(),
{
    if s.len() == 0 {
        v
    } else {
        apply_vault_update(apply_vault_updates(v, s.drop_last()), s.last())
    }
}

/// A vault that does not exist yet.
pub struct EmptyVaultState;

/// The vault together with the events of its log that are still to be applied.
#[derive(Debug)]
pub struct VaultAggregate {
    pub events: VaultActionEvents,
    pub vault: VaultData,
}

impl VaultAggregate {
    /// Apply the pending updates to the vault and mark them done.
    pub fn build_from(events: VaultActionEvents, vault: VaultData) -> (r: Self)
        ensures
            r.vault@ == apply_vault_updates(vault@, views_of(events.updates.item_seq())),
            r.events@.requests == events@.requests,
            r.events@.updates == Set::<UpdateView>::empty(),
    {
        let current_state = VaultAggregate { events, vault };
        current_state.synchronize()
    }

    fn synchronize(self) -> (r: Self)
        ensures
            r.vault@ == apply_vault_updates(self.vault@, views_of(self.events.updates.item_seq())),
            r.events@.requests == self.events@.requests,
            r.events@.updates == Set::<UpdateView>::empty(),
    {
        let VaultAggregate { events, vault } = self;
        let ghost start = vault@;
        let mut vault = vault;
        let items = events.updates.as_vec();
        let mut i: usize = 0;
        while i < items.len()
            invariant
                items@ == events.updates.item_seq(),
                i <= items.len(),
                vault@ == apply_vault_updates(start, views_of(items@).take(i as int)),
            decreases items.len() - i,
        {
            proof {
                assert(views_of(items@).take(i + 1).drop_last() =~= views_of(items@).take(i as int));
            }
            match &items[i] {
                VaultActionUpdateEvent::UpdateMembership(membership) => {
                    if vault.is_member(&membership.sender.user().device.device_id) {
                        vault = vault.update_membership(membership.update.view_clone());
                    }
                },
                VaultActionUpdateEvent::AddMetaPass(event) => {
                    if vault.is_member(&event.sender.user().device.device_id) {
                        vault = vault.add_secret(event.meta_pass_id.clone());
                    }
                },
                VaultActionUpdateEvent::AddToPending { candidate } => {
                    let pending = UserMembership::Outsider(UserDataOutsider::pending(candidate.clone()));
                    vault = vault.update_membership(pending);
                },
            }
            i = i + 1;
        }
        proof {
            assert(views_of(items@).take(i as int) =~= views_of(items@));
        }
        VaultAggregate { events, vault }.complete()
    }

    fn complete(self) -> (r: Self)
        ensures
            r.vault@ == self.vault@,
            r.events@.requests == self.events@.requests,
            r.events@.updates == Set::<UpdateView>::empty(),
    {
        let VaultAggregate { events, vault } = self;
        VaultAggregate { events: events.complete(), vault }
    }
}

proof fn lemma_users_split<K>(s: Seq<(K, UserMembership)>)
    ensures
        member_users(s).len() + outsider_users(s).len() == s.len(),
        forall|u: UserDataView| #[trigger] member_users(s).contains(u) <==> exists|i: int|
            0 <= i < s.len() && (#[trigger] s[i]).1@ == UserMembershipView::Member(u),
        forall|u: UserDataView, st: UserDataOutsiderStatus| #[trigger] outsider_users(s).contains((u, st)) <==> exists|i: int|
            0 <= i < s.len() && (#[trigger] s[i]).1@ == UserMembershipView::Outsider(u, st),
    decreases s.len(),
{
    if s.len() > 0 {
        let t = s.drop_last();
        let n = s.len() - 1;
        lemma_users_split(t);
        assert(s[n] == s.last());
        assert forall|i: int| 0 <= i < n implies #[trigger] s[i] == t[i] by {}
        match s.last().1@ {
            UserMembershipView::Member(x) => {
                assert(member_users(s) == member_users(t).push(x));
                assert(outsider_users(s) == outsider_users(t));
            },
            UserMembershipView::Outsider(x, st) => {
                assert(member_users(s) == member_users(t));
                assert(outsider_users(s) == outsider_users(t).push((x, st)));
            },
        }
        assert forall|j: int| 0 <= j < member_users(t).len() implies #[trigger] member_users(s)[j] == member_users(t)[j] by {
            match s.last().1@ {
                UserMembershipView::Member(x) => {
                    assert(member_users(s) == member_users(t).push(x));
                },
                UserMembershipView::Outsider(x, st) => {
                    assert(member_users(s) == member_users(t));
                },
            }
        }
        assert forall|j: int| 0 <= j < outsider_users(t).len() implies #[trigger] outsider_users(s)[j] == outsider_users(t)[j] by {
            match s.last().1@ {
                UserMembershipView::Member(x) => {
                    assert(outsider_users(s) == outsider_users(t));
                },
                UserMembershipView::Outsider(x, st) => {
                    assert(outsider_users(s) == outsider_users(t).push((x, st)));
                },
            }
        }
        assert forall|u: UserDataView| #[trigger] member_users(s).contains(u) <==> exists|i: int|
            0 <= i < s.len() && (#[trigger] s[i]).1@ == UserMembershipView::Member(u) by {
            if member_users(s).contains(u) {
                if member_users(t).contains(u) {
                    let i = choose|i: int| 0 <= i < t.len() && (#[trigger] t[i]).1@ == UserMembershipView::Member(u);
                    assert(s[i] == t[i]);
                } else {
                    let j = choose|j: int| 0 <= j < member_users(s).len() && member_users(s)[j] == u;
                    if j < member_users(t).len() {
                        assert(member_users(t)[j] == u);
                    }
                    assert(s[n].1@ == UserMembershipView::Member(u));
                }
            }
            if exists|i: int| 0 <= i < s.len() && (#[trigger] s[i]).1@ == UserMembershipView::Member(u) {
                let i = choose|i: int| 0 <= i < s.len() && (#[trigger] s[i]).1@ == UserMembershipView::Member(u);
                if i < n {
                    assert(t[i].1@ == UserMembershipView::Member(u));
                    assert(member_users(t).contains(u));
                    let j = choose|j: int| 0 <= j < member_users(t).len() && member_users(t)[j] == u;
                    assert(member_users(s)[j] == u);
                } else {
                    assert(member_users(s)[member_users(t).len() as int] == u);
                }
            }
        }
        assert forall|u: UserDataView, st: UserDataOutsiderStatus| #[trigger] outsider_users(s).contains((u, st)) <==> exists|i: int|
            0 <= i < s.len() && (#[trigger] s[i]).1@ == UserMembershipView::Outsider(u, st) by {
            if outsider_users(s).contains((u, st)) {
                if outsider_users(t).contains((u, st)) {
                    let i = choose|i: int| 0 <= i < t.len() && (#[trigger] t[i]).1@ == UserMembershipView::Outsider(u, st);
                    assert(s[i] == t[i]);
                } else {
                    let j = choose|j: int| 0 <= j < outsider_users(s).len() && outsider_users(s)[j] == (u, st);
                    if j < outsider_users(t).len() {
                        assert(outsider_users(t)[j] == (u, st));
                    }
                    assert(s[n].1@ == UserMembershipView::Outsider(u, st));
                }
            }
            if exists|i: int| 0 <= i < s.len() && (#[trigger] s[i]).1@ == UserMembershipView::Outsider(u, st) {
                let i = choose|i: int| 0 <= i < s.len() && (#[trigger] s[i]).1@ == UserMembershipView::Outsider(u, st);
                if i < n {
                    assert(t[i].1@ == UserMembershipView::Outsider(u, st));
                    assert(outsider_users(t).contains((u, st)));
                    let j = choose|j: int| 0 <= j < outsider_users(t).len() && outsider_users(t)[j] == (u, st);
                    assert(outsider_users(s)[j] == (u, st));
                } else {
                    assert(outsider_users(s)[outsider_users(t).len() as int] == (u, st));
                }
            }
        }
    }
}

/// The members and the outsiders of a vault split its users: together they are as many
/// as the users, every member listed is a user that is a member, every outsider listed a
/// user that is an outsider, and each such user is listed.
pub proof fn law_members_and_outsiders_partition_users(v: VaultData)
    requires
        v.users.wf(),
    ensures
        member_users(v.users.entry_seq()).len() + outsider_users(v.users.entry_seq()).len() == v@.users.len(),
        forall|u: UserDataView| #[trigger] member_users(v.users.entry_seq()).contains(u) <==> exists|d: Seq<char>|
            #[trigger] v@.users.contains_key(d) && v@.users[d] == UserMembershipView::Member(u),
        forall|u: UserDataView, st: UserDataOutsiderStatus| #[trigger] outsider_users(v.users.entry_seq()).contains((u, st))
            <==> exists|d: Seq<char>| #[trigger] v@.users.contains_key(d) && v@.users[d] == UserMembershipView::Outsider(u, st),
{
    let s = v.users.entry_seq();
    v.users.lemma_entries();
    lemma_users_split(s);
    assert forall|u: UserDataView| #[trigger] member_users(s).contains(u) <==> exists|d: Seq<char>|
        #[trigger] v@.users.contains_key(d) && v@.users[d] == UserMembershipView::Member(u) by {
        if member_users(s).contains(u) {
            let i = choose|i: int| 0 <= i < s.len() && (#[trigger] s[i]).1@ == UserMembershipView::Member(u);
            assert(v@.users.contains_key(s[i].0@));
        }
        if exists|d: Seq<char>| #[trigger] v@.users.contains_key(d) && v@.users[d] == UserMembershipView::Member(u) {
            let d = choose|d: Seq<char>| #[trigger] v@.users.contains_key(d) && v@.users[d] == UserMembershipView::Member(u);
            let i = choose|i: int| 0 <= i < s.len() && (#[trigger] s[i]).0@ == d;
            assert(s[i].1@ == UserMembershipView::Member(u));
        }
    }
    assert forall|u: UserDataView, st: UserDataOutsiderStatus| #[trigger] outsider_users(s).contains((u, st)) <==> exists|d: Seq<char>|
        #[trigger] v@.users.contains_key(d) && v@.users[d] == UserMembershipView::Outsider(u, st) by {
        if outsider_users(s).contains((u, st)) {
            let i = choose|i: int| 0 <= i < s.len() && (#[trigger] s[i]).1@ == UserMembershipView::Outsider(u, st);
            assert(v@.users.contains_key(s[i].0@));
        }
        if exists|d: Seq<char>| #[trigger] v@.users.contains_key(d) && v@.users[d] == UserMembershipView::Outsider(u, st) {
            let d = choose|d: Seq<char>| #[trigger] v@.users.contains_key(d) && v@.users[d] == UserMembershipView::Outsider(u, st);
            let i = choose|i: int| 0 <= i < s.len() && (#[trigger] s[i]).0@ == d;
            assert(s[i].1@ == UserMembershipView::Outsider(u, st));
        }
    }
}

/// The membership that makes `u` a member.
pub open spec fn is_member_as(u: UserDataView) -> spec_fn(UserMembershipView) -> bool {
    |m: UserMembershipView| m == UserMembershipView::Member(u)
}

/// The membership that makes `u` an outsider with the status.
pub open spec fn is_outsider_as(u: UserDataView, st: UserDataOutsiderStatus) -> spec_fn(UserMembershipView) -> bool {
    |m: UserMembershipView| m == UserMembershipView::Outsider(u, st)
}

proof fn lemma_users_multisets<K>(s: Seq<(K, UserMembership)>, u: UserDataView, st: UserDataOutsiderStatus)
    ensures
        member_users(s).to_multiset().count(u) == count_entries(s, is_member_as(u)),
        outsider_users(s).to_multiset().count((u, st)) == count_entries(s, is_outsider_as(u, st)),
    decreases s.len(),
{
    broadcast use vstd::seq_lib::group_to_multiset_ensures;
    broadcast use vstd::multiset::group_multiset_axioms;

    if s.len() == 0 {
        assert(member_users(s).to_multiset() =~= vstd::multiset::Multiset::empty());
        assert(outsider_users(s).to_multiset() =~= vstd::multiset::Multiset::empty());
    } else {
        let t = s.drop_last();
        lemma_users_multisets(t, u, st);
        match s.last().1@ {
            UserMembershipView::Member(x) => {
                assert(member_users(s) == member_users(t).push(x));
                assert(outsider_users(s) == outsider_users(t));
                assert(member_users(t).push(x).to_multiset() =~= member_users(t).to_multiset().insert(x));
            },
            UserMembershipView::Outsider(x, xs) => {
                assert(member_users(s) == member_users(t));
                assert(outsider_users(s) == outsider_users(t).push((x, xs)));
                assert(outsider_users(t).push((x, xs)).to_multiset() =~= outsider_users(t).to_multiset().insert((x, xs)));
            },
        }
    }
}

/// Counted with multiplicity, the members of a vault (in the order `members` gives them)
/// are the users whose membership is a member one, and the outsiders (as `outsiders`
/// gives them) the users whose membership is an outsider one.
pub proof fn law_members_and_outsiders_as_multisets(v: VaultData)
    requires
        v.users.wf(),
    ensures
        forall|u: UserDataView| #[trigger] member_users(v.users.entry_seq()).to_multiset().count(u) == count_values(
            v@.users,
            is_member_as(u),
        ),
        forall|u: UserDataView, st: UserDataOutsiderStatus| #[trigger] outsider_users(v.users.entry_seq()).to_multiset().count(
            (u, st),
        ) == count_values(v@.users, is_outsider_as(u, st)),
{
    assert forall|u: UserDataView| #[trigger] member_users(v.users.entry_seq()).to_multiset().count(u) == count_values(
        v@.users,
        is_member_as(u),
    ) by {
        lemma_users_multisets(v.users.entry_seq(), u, UserDataOutsiderStatus::NonMember);
        v.users.lemma_count(is_member_as(u));
    }
    assert forall|u: UserDataView, st: UserDataOutsiderStatus| #[trigger] outsider_users(v.users.entry_seq()).to_multiset().count(
        (u, st),
    ) == count_values(v@.users, is_outsider_as(u, st)) by {
        lemma_users_multisets(v.users.entry_seq(), u, st);
        v.users.lemma_count(is_outsider_as(u, st));
    }
}

/// An update sent by a device that is not a member leaves the vault as it was.
pub proof fn law_update_from_non_member_is_ignored(v: VaultDataView, u: UpdateView)
    requires
        u matches UpdateView::UpdateMembership(_, sender, _) ==> !member_in(v.users, sender.device.device_id),
        u matches UpdateView::AddMetaPass(sender, _) ==> !member_in(v.users, sender.device.device_id),
        !(u is AddToPending),
    ensures
        apply_vault_update(v, u) == v,
{
}

/// A password added by a member is in the vault afterwards.
pub proof fn law_member_adds_password(v: VaultDataView, sender: UserDataView, pass_id: (Seq<char>, Seq<char>))
    requires
        member_in(v.users, sender.device.device_id),
    ensures
        apply_vault_update(v, UpdateView::AddMetaPass(sender, pass_id)).secrets.contains(pass_id),
{
}

/// Applying updates never removes a password nor renames the vault.
pub proof fn law_updates_keep_passwords_and_name(v: VaultDataView, s: Seq<UpdateView>)
    ensures
        v.secrets.subset_of(apply_vault_updates(v, s).secrets),
        apply_vault_updates(v, s).vault_name == v.vault_name,
    decreases s.len(),
{
    if s.len() > 0 {
        law_updates_keep_passwords_and_name(v, s.drop_last());
    }
}

/// A membership update sent by a member of the vault puts the membership it carries,
/// whatever it is (a member, or an outsider of any status), under that user's device, and
/// leaves every other device, the passwords and the name as they were.
pub proof fn law_member_sets_any_membership(
    v: VaultDataView,
    request: UserDataView,
    sender: UserDataView,
    m: UserMembershipView,
)
    requires
        member_in(v.users, sender.device.device_id),
    ensures
        ({
            let r = apply_vault_update(v, UpdateView::UpdateMembership(request, sender, m));
            let k = m.user().device.device_id;
            &&& r.users.contains_key(k)
            &&& r.users[k] == m
            &&& forall|d: Seq<char>| d != k ==> (#[trigger] r.users.contains_key(d) == v.users.contains_key(d) && (
                v.users.contains_key(d) ==> r.users[d] == v.users[d]))
            &&& r.secrets == v.secrets
            &&& r.vault_name == v.vault_name
        }),
{
}

/// A join request puts the candidate under its device as a pending outsider, and leaves
/// every other device, the passwords and the name as they were.
pub proof fn law_join_request_makes_candidate_pending(v: VaultDataView, candidate: UserDataView)
    ensures
        ({
            let r = apply_vault_update(v, UpdateView::AddToPending(candidate));
            let k = candidate.device.device_id;
            &&& r.users.contains_key(k)
            &&& r.users[k] == UserMembershipView::Outsider(candidate, UserDataOutsiderStatus::Pending)
            &&& forall|d: Seq<char>| d != k ==> (#[trigger] r.users.contains_key(d) == v.users.contains_key(d) && (
                v.users.contains_key(d) ==> r.users[d] == v.users[d]))
            &&& r.secrets == v.secrets
            &&& r.vault_name == v.vault_name
        }),
{
}

/// A password added by a member is added to the vault's passwords and nothing else
/// changes.
pub proof fn law_member_adds_only_the_password(v: VaultDataView, sender: UserDataView, pass_id: (Seq<char>, Seq<char>))
    requires
        member_in(v.users, sender.device.device_id),
    ensures
        apply_vault_update(v, UpdateView::AddMetaPass(sender, pass_id)).secrets == v.secrets.insert(pass_id),
        apply_vault_update(v, UpdateView::AddMetaPass(sender, pass_id)).users == v.users,
        apply_vault_update(v, UpdateView::AddMetaPass(sender, pass_id)).vault_name == v.vault_name,
{
}

/// Updates apply in their order: of two membership updates for the same device, sent by a
/// member whose own membership they do not touch, the later one stands.
pub proof fn law_later_membership_update_wins(
    v: VaultDataView,
    request: UserDataView,
    sender: UserDataView,
    first: UserMembershipView,
    second: UserMembershipView,
)
    requires
        member_in(v.users, sender.device.device_id),
        first.user().device.device_id == second.user().device.device_id,
        first.user().device.device_id != sender.device.device_id,
    ensures
        ({
            let r = apply_vault_updates(
                v,
                seq![
                    UpdateView::UpdateMembership(request, sender, first),
                    UpdateView::UpdateMembership(request, sender, second),
                ],
            );
            r.users[second.user().device.device_id] == second
        }),
{
    let s = seq![
        UpdateView::UpdateMembership(request, sender, first),
        UpdateView::UpdateMembership(request, sender, second),
    ];
    assert(s.drop_last() =~= seq![UpdateView::UpdateMembership(request, sender, first)]);
    assert(s.drop_last().drop_last() =~= Seq::<UpdateView>::empty());
    let mid = apply_vault_update(v, UpdateView::UpdateMembership(request, sender, first));
    assert(apply_vault_updates(v, s.drop_last().drop_last()) == v);
    assert(apply_vault_updates(v, s.drop_last()) == mid);
    assert(apply_vault_updates(v, s) == apply_vault_update(mid, s.last()));
    law_member_sets_any_membership(v, request, sender, first);
    assert(member_in(mid.users, sender.device.device_id));
    law_member_sets_any_membership(mid, request, sender, second);
}

/// A membership update puts the membership under its device: a member update
/// makes the device a member.
pub proof fn law_member_update_makes_member(v: VaultDataView, m: UserDataView)
    ensures
        member_in(
            v.users.insert(m.device.device_id, UserMembershipView::Member(m)),
            m.device.device_id,
        ),
{
}

pub open spec fn wasm_membership_view() -> spec_fn(WasmUserMembership) -> UserMembershipView {
    |w: WasmUserMembership| w.0@
}

pub open spec fn entry_membership_view() -> spec_fn((DeviceId, UserMembership)) -> UserMembershipView {
    |e: (DeviceId, UserMembership)| e.1@
}

/// The vault data, in the shape the user interface reads it.
#[derive(Debug)]
pub struct WasmVaultData(pub VaultData);

impl WasmVaultData {
    pub fn from(vault_data: VaultData) -> (r: Self)
        ensures
            r.0 == vault_data,
    {
        WasmVaultData(vault_data)
    }

    pub fn vault_name(&self) -> (r: VaultName)
        ensures
            r@ == self.0@.vault_name,
    {
        self.0.vault_name.clone()
    }

    /// Every user, in the order the vault lists them.
    pub fn users(&self) -> (r: Vec<WasmUserMembership>)
        ensures
            r@.map_values(wasm_membership_view()) == self.0.users.entry_seq().map_values(entry_membership_view()),
    {
        let entries = self.0.users.as_vec();
        let mut users: Vec<WasmUserMembership> = Vec::new();
        let mut i: usize = 0;
        while i < entries.len()
            invariant
                entries@ == self.0.users.entry_seq(),
                i <= entries.len(),
                users.len() == i,
                users@.map_values(wasm_membership_view()) == entries@.take(i as int).map_values(entry_membership_view()),
            decreases entries.len() - i,
        {
            let w = WasmUserMembership::from(entries[i].1.view_clone());
            let ghost before = users@;
            users.push(w);
            proof {
                let f = wasm_membership_view();
                let g = entry_membership_view();
                assert(users@ == before.push(w));
                assert(w.0@ == entries@[i as int].1@);
                assert forall|j: int| 0 <= j < i + 1 implies users@.map_values(f)[j] == entries@.take(i + 1).map_values(
                    g,
                )[j] by {
                    if j < i {
                        assert(before.map_values(f)[j] == entries@.take(i as int).map_values(g)[j]);
                        assert(users@[j] == before[j]);
                    }
                }
                assert(users@.map_values(f) =~= entries@.take(i + 1).map_values(g));
            }
            i = i + 1;
        }
        proof {
            assert(entries@.take(i as int) =~= entries@);
        }
        users
    }

    pub fn members(&self) -> (r: Vec<UserDataMember>)
        ensures
            views_of(r@) == member_users(self.0.users.entry_seq()),
    {
        self.0.members()
    }

    pub fn outsiders(&self) -> (r: Vec<UserDataOutsider>)
        ensures
            r@.map_values(|o: UserDataOutsider| (o.user_data@, o.status)) == outsider_users(
                self.0.users.entry_seq(),
            ),
    {
        self.0.outsiders()
    }

    /// The ids of the passwords, each once.
    pub fn secrets(&self) -> (r: Vec<MetaPasswordId>)
        ensures
            views_of(r@).to_set() == self.0@.secrets,
            views_of(r@).no_duplicates(),
    {
        proof {
            use_type_invariant(&self.0.secrets);
            self.0.secrets.lemma_items();
        }
        let items = self.0.secrets.as_vec();
        let mut out: Vec<MetaPasswordId> = Vec::new();
        let mut i: usize = 0;
        while i < items.len()
            invariant
                items@ == self.0.secrets.item_seq(),
                i <= items.len(),
                out@ == items@.take(i as int),
            decreases items.len() - i,
        {
            out.push(items[i].clone());
            i = i + 1;
            proof {
                assert(out@ =~= items@.take(i as int));
            }
        }
        proof {
            assert(out@ =~= items@);
            assert(views_of(out@).to_set() =~= self.0@.secrets) by {
                assert forall|x: (Seq<char>, Seq<char>)| views_of(out@).to_set().contains(x) == self.0@.secrets.contains(
                    x,
                ) by {
                    if views_of(out@).contains(x) {
                        let j = choose|j: int| 0 <= j < views_of(out@).len() && views_of(out@)[j] == x;
                        assert(self.0.secrets.item_seq()[j]@ == x);
                    }
                    if self.0@.secrets.contains(x) {
                        let j = choose|j: int| 0 <= j < self.0.secrets.item_seq().len() && (#[trigger] self.0.secrets.item_seq()[j])@ == x;
                        assert(views_of(out@)[j] == x);
                    }
                }
            }
        }
        out
    }
}

} // verus!
