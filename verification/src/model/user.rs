//! Users: a device in a vault, and its membership in that vault.
use vstd::prelude::*;
use crate::collections::ViewClone;
use crate::model::device::{DeviceData, DeviceDataView, DeviceId};
use crate::model::vault::VaultName;

verus! {

#[derive(Debug)]
pub struct UserId {
    pub vault_name: VaultName,
    pub device_id: DeviceId,
}

impl View for UserId {
    type V = (Seq<char>, Seq<char>);

    open spec fn view(&self) -> (Seq<char>, Seq<char>) {
        (self.vault_name@, self.device_id@)
    }
}

impl Clone for UserId {
    fn clone(&self) -> (r: Self)
        ensures
            r == *self,
    {
        UserId { vault_name: self.vault_name.clone(), device_id: self.device_id.clone() }
    }
}

impl PartialEq for UserId {
    fn eq(&self, other: &Self) -> (r: bool) {
        self.vault_name == other.vault_name && self.device_id == other.device_id
    }
}

impl vstd::std_specs::cmp::PartialEqSpecImpl for UserId {
    open spec fn obeys_eq_spec() -> bool {
        true
    }

    open spec fn eq_spec(&self, other: &Self) -> bool {
        self@ == other@
    }
}

pub struct UserDataView {
    pub vault_name: Seq<char>,
    pub device: DeviceDataView,
}

/// A device that belongs (or asks to belong) to a vault.
#[derive(Debug)]
pub struct UserData {
    pub vault_name: VaultName,
    pub device: DeviceData,
}

impl View for UserData {
    type V = UserDataView;

    open spec fn view(&self) -> UserDataView {
        UserDataView { vault_name: self.vault_name@, device: self.device@ }
    }
}

impl Clone for UserData {
    fn clone(&self) -> (r: Self)
        ensures
            r == *self,
    {
        UserData { vault_name: self.vault_name.clone(), device: self.device.clone() }
    }
}

impl ViewClone for UserData {
    fn view_clone(&self) -> (r: Self) {
        self.clone()
    }
}

impl PartialEq for UserData {
    fn eq(&self, other: &Self) -> (r: bool) {
        self.vault_name == other.vault_name && self.device == other.device
    }
}

impl vstd::std_specs::cmp::PartialEqSpecImpl for UserData {
    open spec fn obeys_eq_spec() -> bool {
        true
    }

    open spec fn eq_spec(&self, other: &Self) -> bool {
        self@ == other@
    }
}

impl UserData {
    pub fn vault_name(&self) -> (r: VaultName)
        ensures
            r == self.vault_name,
    {
        self.vault_name.clone()
    }

    pub fn user_id(&self) -> (r: UserId)
        ensures
            r.vault_name == self.vault_name,
            r.device_id == self.device.device_id,
    {
        UserId { vault_name: self.vault_name.clone(), device_id: self.device.device_id.clone() }
    }
}

#[derive(Debug, Clone, Copy, PartialEq, Eq, Structural)]
pub enum UserDataOutsiderStatus {
    /// Unknown status (the user is not a member of the vault), but the vault exists
    NonMember,
    Pending,
    Declined,
}

/// A user that is not a member of the vault.
#[derive(Debug)]
pub struct UserDataOutsider {
    pub user_data: UserData,
    pub status: UserDataOutsiderStatus,
}

impl View for UserDataOutsider {
    type V = (UserDataView, UserDataOutsiderStatus);

    open spec fn view(&self) -> (UserDataView, UserDataOutsiderStatus) {
        (self.user_data@, self.status)
    }
}

impl Clone for UserDataOutsider {
    fn clone(&self) -> (r: Self)
        ensures
            r == *self,
    {
        UserDataOutsider { user_data: self.user_data.clone(), status: self.status }
    }
}

impl PartialEq for UserDataOutsider {
    fn eq(&self, other: &Self) -> (r: bool) {
        self.user_data == other.user_data && self.status == other.status
    }
}

impl vstd::std_specs::cmp::PartialEqSpecImpl for UserDataOutsider {
    open spec fn obeys_eq_spec() -> bool {
        true
    }

    open spec fn eq_spec(&self, other: &Self) -> bool {
        self@ == other@
    }
}

impl UserDataOutsider {
    pub fn pending(user_data: UserData) -> (r: Self)
        ensures
            r.user_data == user_data,
            r.status == UserDataOutsiderStatus::Pending,
    {
        UserDataOutsider { user_data, status: UserDataOutsiderStatus::Pending }
    }

    pub fn non_member(user_data: UserData) -> (r: Self)
        ensures
            r.user_data == user_data,
            r.status == UserDataOutsiderStatus::NonMember,
    {
        UserDataOutsider { user_data, status: UserDataOutsiderStatus::NonMember }
    }

    pub fn is_non_member(&self) -> (r: bool)
        ensures
            r == (self.status == UserDataOutsiderStatus::NonMember),
    {
        self.status == UserDataOutsiderStatus::NonMember
    }
}

/// A user that is a member of the vault.
#[derive(Debug)]
pub struct UserDataMember {
    pub user_data: UserData,
}

impl View for UserDataMember {
    type V = UserDataView;

    open spec fn view(&self) -> UserDataView {
        self.user_data@
    }
}

impl Clone for UserDataMember {
    fn clone(&self) -> (r: Self)
        ensures
            r == *self,
    {
        UserDataMember { user_data: self.user_data.clone() }
    }
}

impl ViewClone for UserDataMember {
    fn view_clone(&self) -> (r: Self) {
        self.clone()
    }
}

impl PartialEq for UserDataMember {
    fn eq(&self, other: &Self) -> (r: bool) {
        self.user_data == other.user_data
    }
}

impl vstd::std_specs::cmp::PartialEqSpecImpl for UserDataMember {
    open spec fn obeys_eq_spec() -> bool {
        true
    }

    open spec fn eq_spec(&self, other: &Self) -> bool {
        self@ == other@
    }
}

impl UserDataMember {
    pub fn user(&self) -> (r: &UserData)
        ensures
            *r == self.user_data,
    {
        &self.user_data
    }

    /// A member with the data of a user.
    pub fn from(user_data: UserData) -> (r: Self)
        ensures
            r.user_data == user_data,
    {
        UserDataMember { user_data }
    }

    /// The outsider, now a member.
    pub fn from_outsider(outsider: UserDataOutsider) -> (r: Self)
        ensures
            r.user_data == outsider.user_data,
    {
        UserDataMember { user_data: outsider.user_data }
    }
}

pub enum UserMembershipView {
    Outsider(UserDataView, UserDataOutsiderStatus),
    Member(UserDataView),
}

impl UserMembershipView {
    pub open spec fn user(self) -> UserDataView {
        match self {
            UserMembershipView::Outsider(u, _) => u,
            UserMembershipView::Member(u) => u,
        }
    }
}

#[derive(Debug)]
pub enum UserMembership {
    Outsider(UserDataOutsider),
    Member(UserDataMember),
}

impl View for UserMembership {
    type V = UserMembershipView;

    open spec fn view(&self) -> UserMembershipView {
        match self {
            UserMembership::Outsider(o) => UserMembershipView::Outsider(o.user_data@, o.status),
            UserMembership::Member(m) => UserMembershipView::Member(m.user_data@),
        }
    }
}

impl Clone for UserMembership {
    fn clone(&self) -> (r: Self)
        ensures
            r == *self,
    {
        match self {
            UserMembership::Outsider(o) => UserMembership::Outsider(o.clone()),
            UserMembership::Member(m) => UserMembership::Member(m.clone()),
        }
    }
}

impl ViewClone for UserMembership {
    fn view_clone(&self) -> (r: Self) {
        self.clone()
    }
}

impl PartialEq for UserMembership {
    fn eq(&self, other: &Self) -> (r: bool) {
        match (self, other) {
            (UserMembership::Outsider(a), UserMembership::Outsider(b)) => a == b,
            (UserMembership::Member(a), UserMembership::Member(b)) => a == b,
            _ => false,
        }
    }
}

impl vstd::std_specs::cmp::PartialEqSpecImpl for UserMembership {
    open spec fn obeys_eq_spec() -> bool {
        true
    }

    open spec fn eq_spec(&self, other: &Self) -> bool {
        self@ == other@
    }
}

impl UserMembership {
    pub fn user_data_member(&self) -> (r: UserDataMember)
        ensures
            r.user_data@ == self@.user(),
    {
        UserDataMember { user_data: self.user_data() }
    }

    pub fn user_data(&self) -> (r: UserData)
        ensures
            r@ == self@.user(),
    {
        match self {
            UserMembership::Outsider(UserDataOutsider { user_data, .. }) => user_data.clone(),
            UserMembership::Member(UserDataMember { user_data }) => user_data.clone(),
        }
    }

    pub fn device_id(&self) -> (r: DeviceId)
        ensures
            r@ == self@.user().device.device_id,
    {
        self.user_data().device.device_id
    }

    pub fn is_member(&self) -> (r: bool)
        ensures
            r == (self is Member),
    {
        match self {
            UserMembership::Member(_) => true,
            UserMembership::Outsider(_) => false,
        }
    }
}

/// The membership of a user, in the shape the user interface reads it.
#[derive(Debug)]
pub struct WasmUserMembership(pub UserMembership);

impl WasmUserMembership {
    pub fn from(membership: UserMembership) -> (r: Self)
        ensures
            r.0 == membership,
    {
        WasmUserMembership(membership)
    }

    pub fn is_outsider(&self) -> (r: bool)
        ensures
            r == (self.0 is Outsider),
    {
        match &self.0 {
            UserMembership::Outsider(_) => true,
            UserMembership::Member(_) => false,
        }
    }

    pub fn is_member(&self) -> (r: bool)
        ensures
            r == (self.0 is Member),
    {
        match &self.0 {
            UserMembership::Outsider(_) => false,
            UserMembership::Member(_) => true,
        }
    }

    pub fn as_outsider(&self) -> (r: UserDataOutsider)
        requires
            self.0 is Outsider,
        ensures
            self.0 == UserMembership::Outsider(r),
    {
        match &self.0 {
            UserMembership::Outsider(data) => data.clone(),
            UserMembership::Member(_) => {
                vstd::pervasive::unreached()
            },
        }
    }

    pub fn as_member(&self) -> (r: UserDataMember)
        requires
            self.0 is Member,
        ensures
            self.0 == UserMembership::Member(r),
    {
        match &self.0 {
            UserMembership::Member(data) => data.clone(),
            UserMembership::Outsider(_) => {
                vstd::pervasive::unreached()
            },
        }
    }

    pub fn user_data(&self) -> (r: UserData)
        ensures
            r@ == self.0@.user(),
    {
        self.0.user_data()
    }
}

} // verus!
