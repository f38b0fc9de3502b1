//! Vault names, the status of a user in a vault, and vault members.
use vstd::prelude::*;
use crate::collections::{KeyEq, ViewClone};
use crate::ids::Id48bit;
use crate::collections::views_of;
use crate::model::device::DeviceId;
use crate::model::meta_pass::MetaPasswordId;
use crate::model::secret::{
    ClaimId, SecretDistributionType, SsClaim, SsClaimId, SsDistributionCompositeStatus, SsDistributionStatus,
    WasmSsLogData,
};
use crate::model::vault_data::{member_users, VaultData, WasmVaultData};
use crate::model::user::{UserData, UserDataMember, UserDataOutsider, UserDataView, UserDataOutsiderStatus, UserMembership};

verus! {

#[derive(Debug)]
pub struct VaultName(pub String);

impl View for VaultName {
    type V = Seq<char>;

    open spec fn view(&self) -> Seq<char> {
        self.0@
    }
}

impl Clone for VaultName {
    fn clone(&self) -> (r: Self)
        ensures
            r == *self,
    {
        VaultName(self.0.clone())
    }
}

impl ViewClone for VaultName {
    fn view_clone(&self) -> (r: Self) {
        self.clone()
    }
}

impl PartialEq for VaultName {
    fn eq(&self, other: &Self) -> (r: bool) {
        self.0 == other.0
    }
}

impl vstd::std_specs::cmp::PartialEqSpecImpl for VaultName {
    open spec fn obeys_eq_spec() -> bool {
        true
    }

    open spec fn eq_spec(&self, other: &Self) -> bool {
        self@ == other@
    }
}

impl KeyEq for VaultName {
    fn key_eq(&self, other: &Self) -> (r: bool) {
        self.0 == other.0
    }
}

impl VaultName {
    pub fn from(vault_name: &str) -> (r: Self)
        ensures
            r@ == vault_name@,
    {
        VaultName(String::from_str(vault_name))
    }

    pub fn from_string(vault_name: String) -> (r: Self)
        ensures
            r@ == vault_name@,
    {
        VaultName(vault_name)
    }

    /// A random name: a random 48-bit id in base64.
    pub fn generate() -> (r: Self)
        ensures
            exists|b: Seq<u8>| b.len() == 6 && r@ == crate::ids::base64_url(b),
    {
        VaultName(Id48bit::generate().text)
    }

    pub fn test() -> (r: VaultName)
        ensures
            r@ == "q"@,
    {
        VaultName::from("q")
    }

    /// The name as text, as it is displayed.
    pub fn to_string(&self) -> (r: String)
        ensures
            r@ == self@,
    {
        self.0.clone()
    }
}

pub enum VaultStatusView {
    NotExists(UserDataView),
    Outsider(UserDataView, UserDataOutsiderStatus),
    Member(UserDataView),
}

/// What a user is to a vault.
#[derive(Debug)]
pub enum VaultStatus {
    NotExists(UserData),
    Outsider(UserDataOutsider),
    Member(UserDataMember),
}

impl View for VaultStatus {
    type V = VaultStatusView;

    open spec fn view(&self) -> VaultStatusView {
        match self {
            VaultStatus::NotExists(u) => VaultStatusView::NotExists(u@),
            VaultStatus::Outsider(o) => VaultStatusView::Outsider(o.user_data@, o.status),
            VaultStatus::Member(m) => VaultStatusView::Member(m.user_data@),
        }
    }
}

impl Clone for VaultStatus {
    fn clone(&self) -> (r: Self)
        ensures
            r == *self,
    {
        match self {
            VaultStatus::NotExists(u) => VaultStatus::NotExists(u.clone()),
            VaultStatus::Outsider(o) => VaultStatus::Outsider(o.clone()),
            VaultStatus::Member(m) => VaultStatus::Member(m.clone()),
        }
    }
}

impl PartialEq for VaultStatus {
    fn eq(&self, other: &Self) -> (r: bool) {
        match (self, other) {
            (VaultStatus::NotExists(a), VaultStatus::NotExists(b)) => a == b,
            (VaultStatus::Outsider(a), VaultStatus::Outsider(b)) => a == b,
            (VaultStatus::Member(a), VaultStatus::Member(b)) => a == b,
            _ => false,
        }
    }
}

impl vstd::std_specs::cmp::PartialEqSpecImpl for VaultStatus {
    open spec fn obeys_eq_spec() -> bool {
        true
    }

    open spec fn eq_spec(&self, other: &Self) -> bool {
        self@ == other@
    }
}

impl VaultStatusView {
    pub open spec fn user(self) -> UserDataView {
        match self {
            VaultStatusView::NotExists(u) => u,
            VaultStatusView::Outsider(u, _) => u,
            VaultStatusView::Member(u) => u,
        }
    }
}

impl VaultStatus {
    /// The status of a user the vault knows nothing about.
    pub fn unknown(user: UserData) -> (r: Self)
        ensures
            r == VaultStatus::Outsider(UserDataOutsider { user_data: user, status: UserDataOutsiderStatus::NonMember }),
    {
        VaultStatus::Outsider(UserDataOutsider::non_member(user))
    }

    /// The status that a membership gives.
    pub fn from_membership(membership: UserMembership) -> (r: Self)
        ensures
            membership matches UserMembership::Outsider(o) ==> r == VaultStatus::Outsider(o),
            membership matches UserMembership::Member(m) ==> r == VaultStatus::Member(m),
    {
        match membership {
            UserMembership::Outsider(o) => VaultStatus::Outsider(o),
            UserMembership::Member(m) => VaultStatus::Member(m),
        }
    }

    pub fn user(&self) -> (r: UserData)
        ensures
            r@ == self@.user(),
    {
        match self {
            VaultStatus::NotExists(user) => user.clone(),
            VaultStatus::Outsider(UserDataOutsider { user_data, .. }) => user_data.clone(),
            VaultStatus::Member(member) => member.user().clone(),
        }
    }
}

/// The vault status, in the shape the user interface reads it.
#[derive(Debug)]
pub struct WasmVaultStatus(pub VaultStatus);

impl WasmVaultStatus {
    pub fn from(status: VaultStatus) -> (r: Self)
        ensures
            r.0 == status,
    {
        WasmVaultStatus(status)
    }

    pub fn is_not_exists(&self) -> (r: bool)
        ensures
            r == (self.0 is NotExists),
    {
        match &self.0 {
            VaultStatus::NotExists(_) => true,
            _ => false,
        }
    }

    pub fn is_outsider(&self) -> (r: bool)
        ensures
            r == (self.0 is Outsider),
    {
        match &self.0 {
            VaultStatus::Outsider(_) => true,
            _ => false,
        }
    }

    pub fn is_member(&self) -> (r: bool)
        ensures
            r == (self.0 is Member),
    {
        match &self.0 {
            VaultStatus::Member(_) => true,
            _ => false,
        }
    }

    pub fn as_no_exists(&self) -> (r: UserData)
        requires
            self.0 is NotExists,
        ensures
            self.0 == VaultStatus::NotExists(r),
    {
        match &self.0 {
            VaultStatus::NotExists(user_data) => user_data.clone(),
            _ => vstd::pervasive::unreached(),
        }
    }

    pub fn as_outsider(&self) -> (r: UserDataOutsider)
        requires
            self.0 is Outsider,
        ensures
            self.0 == VaultStatus::Outsider(r),
    {
        match &self.0 {
            VaultStatus::Outsider(outsider) => outsider.clone(),
            _ => vstd::pervasive::unreached(),
        }
    }

    pub fn as_member(&self) -> (r: UserDataMember)
        requires
            self.0 is Member,
        ensures
            self.0 == VaultStatus::Member(r),
    {
        match &self.0 {
            VaultStatus::Member(member) => member.clone(),
            _ => vstd::pervasive::unreached(),
        }
    }
}

/// A member of a vault, with the vault as it knows it.
#[derive(Debug)]
pub struct VaultMember {
    pub member: UserDataMember,
    pub vault: VaultData,
}

impl Clone for VaultMember {
    fn clone(&self) -> (r: Self)
        ensures
            r.member == self.member,
            r.vault@ == self.vault@,
    {
        VaultMember { member: self.member.clone(), vault: self.vault.view_clone() }
    }
}

/// The devices of the members other than `me`, in order.
pub open spec fn other_devices(members: Seq<UserDataView>, me: UserDataView) -> Seq<Seq<char>>
    decreases members.len(),
{
    if members.len() == 0 {
        Seq::empty()
    } else {
        let rest = other_devices(members.drop_last(), me);
        if members.last() == me {
            rest
        } else {
            rest.push(members.last().device.device_id)
        }
    }
}

/// The devices of the members other than `me` are those of the listed members that are
/// not `me`, one for each of them.
proof fn lemma_other_devices_contains(members: Seq<UserDataView>, me: UserDataView, d: Seq<char>)
    ensures
        other_devices(members, me).contains(d) <==> exists|i: int|
            0 <= i < members.len() && #[trigger] members[i] != me && members[i].device.device_id == d,
    decreases members.len(),
{
    if members.len() > 0 {
        let rest = members.drop_last();
        let n = members.len() - 1;
        let last = members[n];
        lemma_other_devices_contains(rest, me, d);
        let od = other_devices(members, me);
        let orest = other_devices(rest, me);
        let in_rest = exists|i: int| 0 <= i < rest.len() && #[trigger] rest[i] != me && rest[i].device.device_id == d;
        let in_all = exists|i: int| 0 <= i < members.len() && #[trigger] members[i] != me && members[i].device.device_id == d;
        assert(in_all <==> (in_rest || (last != me && last.device.device_id == d))) by {
            if in_rest {
                let i = choose|i: int| 0 <= i < rest.len() && #[trigger] rest[i] != me && rest[i].device.device_id == d;
                assert(members[i] == rest[i]);
            }
            if last != me && last.device.device_id == d {
                assert(members[n] != me && members[n].device.device_id == d);
            }
            if in_all {
                let i = choose|i: int| 0 <= i < members.len() && #[trigger] members[i] != me && members[i].device.device_id == d;
                if i < n {
                    assert(rest[i] == members[i]);
                }
            }
        }
        if last == me {
            assert(od == orest);
        } else {
            assert(od == orest.push(last.device.device_id));
            assert(od.contains(d) <==> (orest.contains(d) || last.device.device_id == d)) by {
                if od.contains(d) {
                    let k = choose|k: int| 0 <= k < od.len() && od[k] == d;
                    if k < orest.len() {
                        assert(orest[k] == d);
                    }
                }
                if orest.contains(d) {
                    let k = choose|k: int| 0 <= k < orest.len() && orest[k] == d;
                    assert(od[k] == d);
                }
                if last.device.device_id == d {
                    assert(od[orest.len() as int] == d);
                }
            }
        }
    }
}

/// A new claim is addressed to every other member of the vault: a device is among its
/// receivers exactly when a member of the vault other than the sender has that device,
/// each receiver starts pending, and the sender's own device is not asked when no other
/// member shares it.
pub proof fn law_claim_goes_to_the_other_members(
    vm: VaultMember,
    r: SsClaim,
    pass_id: (Seq<char>, Seq<char>),
    distribution_type: SecretDistributionType,
)
    requires
        vm.seeds(r, pass_id, distribution_type),
    ensures
        ({
            let members = member_users(vm.vault.users.entry_seq());
            &&& forall|d: Seq<char>| #[trigger] r@.receivers.contains(d) <==> exists|i: int|
                0 <= i < members.len() && #[trigger] members[i] != vm.member@ && members[i].device.device_id == d
            &&& forall|i: int| 0 <= i < members.len() && #[trigger] members[i] != vm.member@ ==> r@.receivers.contains(
                members[i].device.device_id,
            ) && r@.status[members[i].device.device_id] == SsDistributionStatus::Pending
            &&& (forall|i: int| 0 <= i < members.len() && #[trigger] members[i].device.device_id
                == vm.member.user_data.device.device_id@ ==> members[i] == vm.member@) ==> !r@.receivers.contains(
                vm.member.user_data.device.device_id@,
            )
            &&& r@.sender == vm.member.user_data.device.device_id@
        }),
{
    let members = member_users(vm.vault.users.entry_seq());
    assert forall|d: Seq<char>| #[trigger] r@.receivers.contains(d) <==> exists|i: int|
        0 <= i < members.len() && #[trigger] members[i] != vm.member@ && members[i].device.device_id == d by {
        lemma_other_devices_contains(members, vm.member@, d);
    }
    assert forall|i: int| 0 <= i < members.len() && #[trigger] members[i] != vm.member@ implies r@.receivers.contains(
        members[i].device.device_id,
    ) && r@.status[members[i].device.device_id] == SsDistributionStatus::Pending by {
        lemma_other_devices_contains(members, vm.member@, members[i].device.device_id);
        assert(r@.receivers.to_set().contains(members[i].device.device_id));
    }
    lemma_other_devices_contains(members, vm.member@, vm.member.user_data.device.device_id@);
}

impl VaultMember {
    /// A new claim to split the password among the other members.
    pub fn create_split_claim(&self, pass_id: MetaPasswordId) -> (r: SsClaim)
        ensures
            self.seeds(r, pass_id@, SecretDistributionType::Split),
    {
        self.create_distribution_claim(pass_id, SecretDistributionType::Split)
    }

    /// A new claim to collect the shares of the password from the other members.
    pub fn create_recovery_claim(&self, pass_id: MetaPasswordId) -> (r: SsClaim)
        ensures
            self.seeds(r, pass_id@, SecretDistributionType::Recover),
    {
        self.create_distribution_claim(pass_id, SecretDistributionType::Recover)
    }

    /// The claim is a fresh one about the password, sent by this member to every other
    /// member of the vault, none of which has answered yet.
    pub open spec fn seeds(
        self,
        r: SsClaim,
        pass_id: (Seq<char>, Seq<char>),
        distribution_type: SecretDistributionType,
    ) -> bool {
        &&& exists|b: Seq<u8>| b.len() == 6 && r@.id == crate::ids::base64_url(b)
        &&& r@.dist_claim_id == (r@.id, pass_id)
        &&& r@.vault_name == self.vault@.vault_name
        &&& r@.sender == self.member.user_data.device.device_id@
        &&& r@.distribution_type == distribution_type
        &&& r@.receivers == other_devices(member_users(self.vault.users.entry_seq()), self.member@)
        &&& r@.status.dom() == r@.receivers.to_set()
        &&& forall|d: Seq<char>| #[trigger] r@.status.contains_key(d) ==> r@.status[d] == SsDistributionStatus::Pending
        &&& r@.client_status is None
    }

    fn create_distribution_claim(&self, pass_id: MetaPasswordId, distribution_type: SecretDistributionType) -> (r: SsClaim)
        ensures
            self.seeds(r, pass_id@, distribution_type),
    {
        let members = self.vault.members();
        let mut receivers: Vec<DeviceId> = Vec::new();
        let mut i: usize = 0;
        while i < members.len()
            invariant
                views_of(members@) == member_users(self.vault.users.entry_seq()),
                i <= members.len(),
                views_of(receivers@) == other_devices(views_of(members@).take(i as int), self.member@),
            decreases members.len() - i,
        {
            proof {
                assert(views_of(members@).take(i + 1).drop_last() =~= views_of(members@).take(i as int));
                assert(views_of(members@).take(i + 1).last() == members@[i as int]@);
            }
            if !(members[i] == self.member) {
                receivers.push(members[i].user_data.device.device_id.clone());
                proof {
                    assert(views_of(receivers@) =~= other_devices(views_of(members@).take(i as int), self.member@).push(
                        members@[i as int].user_data.device.device_id@,
                    ));
                }
            }
            i = i + 1;
        }
        proof {
            assert(views_of(members@).take(i as int) =~= views_of(members@));
        }
        let id = ClaimId::generate();
        let status = SsDistributionCompositeStatus::from(crate::model::secret::clone_device_ids(&receivers));
        SsClaim {
            id: id.clone(),
            dist_claim_id: SsClaimId { id, pass_id },
            vault_name: self.vault.vault_name.clone(),
            sender: self.user_device(),
            distribution_type,
            receivers,
            status,
            client_status: None,
        }
    }

    fn user_device(&self) -> (r: DeviceId)
        ensures
            r == self.member.user_data.device.device_id,
    {
        self.member.user().device.device_id.clone()
    }
}

/// A vault member with its recovery claims, in the shape the user interface reads it.
#[derive(Debug)]
pub struct WasmVaultMember(pub VaultMember, pub WasmSsLogData);

impl WasmVaultMember {
    pub fn from(member_and_ss: (VaultMember, WasmSsLogData)) -> (r: Self)
        ensures
            r.0 == member_and_ss.0,
            r.1 == member_and_ss.1,
    {
        WasmVaultMember(member_and_ss.0, member_and_ss.1)
    }

    pub fn vault_data(&self) -> (r: WasmVaultData)
        ensures
            r.0@ == self.0.vault@,
    {
        WasmVaultData::from(self.0.vault.view_clone())
    }
}

} // verus!
