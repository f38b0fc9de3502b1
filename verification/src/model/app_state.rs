//! What the client application shows (a device without a vault, or its place in a
//! vault), how it is read from the local store, and the steps the client service takes
//! for a request.
use vstd::prelude::*;
use crate::collections::ViewClone;
use crate::error::CoreError;
use crate::events::vault_log::VaultActionEvents;
use crate::model::device::DeviceData;
use crate::model::meta_pass::{MetaPasswordId, PassInfo};
use crate::model::secret::{first_active_recovery_id, ClaimId, SsLogData};
use crate::model::creds::UserCreds;
use crate::model::user::{UserData, UserDataMember, UserDataOutsider, UserDataOutsiderStatus};
use crate::model::vault::{VaultMember, VaultName, VaultStatus};
use crate::model::vault_data::{VaultData, WasmVaultData};
use crate::db::generic_db::KvLogEventRepo;
use crate::db::objects::persistent_shared_secret::{is_ss_log, ss_log_first, stored_claims, PersistentSharedSecret};
use crate::db::objects::persistent_vault::{
    as_vault, as_vault_log, found_status, ill_typed, is_vault, is_vault_log, vault_first, vault_log_first, PersistentVault,
};
use crate::db::store::{tail_event, PersistentObject};

verus! {

#[derive(Debug, Clone, Copy, PartialEq, Eq, Structural)]
pub enum ApplicationStateInfo {
    Local,
    Member,
    Outsider,
    VaultNotExists,
}

/// A member with its vault, the claims of the vault and its pending vault events.
#[derive(Debug)]
pub struct UserMemberFullInfo {
    pub member: VaultMember,
    pub ss_claims: SsLogData,
    pub vault_events: VaultActionEvents,
}

impl Clone for UserMemberFullInfo {
    fn clone(&self) -> (r: Self)
        ensures
            r.member.member == self.member.member,
            r.member.vault@ == self.member.vault@,
            r.ss_claims@ == self.ss_claims@,
            r.vault_events@ == self.vault_events@,
    {
        UserMemberFullInfo {
            member: self.member.clone(),
            ss_claims: self.ss_claims.view_clone(),
            vault_events: self.vault_events.view_clone(),
        }
    }
}

/// Where the user stands with respect to its vault.
#[derive(Debug)]
pub enum VaultFullInfo {
    NotExists(UserData),
    Outsider(UserDataOutsider),
    Member(UserMemberFullInfo),
}

impl Clone for VaultFullInfo {
    fn clone(&self) -> (r: Self)
        ensures
            self matches VaultFullInfo::NotExists(u) ==> r == VaultFullInfo::NotExists(*u),
            self matches VaultFullInfo::Outsider(o) ==> r == VaultFullInfo::Outsider(*o),
            self matches VaultFullInfo::Member(m) ==> (r matches VaultFullInfo::Member(c) && c.member.member
                == m.member.member && c.member.vault@ == m.member.vault@ && c.ss_claims@ == m.ss_claims@
                && c.vault_events@ == m.vault_events@),
    {
        match self {
            VaultFullInfo::NotExists(u) => VaultFullInfo::NotExists(u.clone()),
            VaultFullInfo::Outsider(o) => VaultFullInfo::Outsider(o.clone()),
            VaultFullInfo::Member(m) => VaultFullInfo::Member(m.clone()),
        }
    }
}

/// The state of the client application.
#[derive(Debug)]
pub enum ApplicationState {
    Local(DeviceData),
    Vault(VaultFullInfo),
}

/// A request of the user interface to the client service.
#[derive(Debug)]
pub enum GenericAppStateRequest {
    GetState,
    GenerateUserCreds(VaultName),
    SignUp(VaultName),
    ClusterDistribution(PassInfo),
    Recover(MetaPasswordId),
}

/// The answer of the client service.
#[derive(Debug)]
pub enum GenericAppStateResponse {
    AppState(ApplicationState),
}

/// The vault to sign up to: allowed when the vault does not exist yet or the device is
/// not a member of it; refused, with an error that names the state, in a local state, to
/// a member, or while a request is pending or after it was declined.
pub fn resolve_signup_vault_name(state: &ApplicationState) -> (r: Result<VaultName, CoreError>)
    ensures
        r == match state {
            ApplicationState::Local(_) => Err::<VaultName, CoreError>(CoreError::SignUpInLocalState),
            ApplicationState::Vault(VaultFullInfo::NotExists(user)) => Ok(user.vault_name),
            ApplicationState::Vault(VaultFullInfo::Outsider(o)) => match o.status {
                UserDataOutsiderStatus::NonMember => Ok(o.user_data.vault_name),
                UserDataOutsiderStatus::Pending => Err(CoreError::SignUpInPendingState),
                UserDataOutsiderStatus::Declined => Err(CoreError::SignUpInDeclinedState),
            },
            ApplicationState::Vault(VaultFullInfo::Member(_)) => Err(CoreError::SignUpInVaultState),
        },
{
    match state {
        ApplicationState::Local(_) => Err(CoreError::SignUpInLocalState),
        ApplicationState::Vault(vault_info) => match vault_info {
            VaultFullInfo::NotExists(user) => Ok(user.vault_name.clone()),
            VaultFullInfo::Outsider(outsider) => match outsider.status {
                UserDataOutsiderStatus::NonMember => Ok(outsider.user_data.vault_name.clone()),
                UserDataOutsiderStatus::Pending => Err(CoreError::SignUpInPendingState),
                UserDataOutsiderStatus::Declined => Err(CoreError::SignUpInDeclinedState),
            },
            VaultFullInfo::Member(_) => Err(CoreError::SignUpInVaultState),
        },
    }
}

/// The active recovery claim for the password, when the user is a member.
pub fn find_recovery_claim_id_from_state(state: &ApplicationState, pass_id: &MetaPasswordId) -> (r: Option<
    ClaimId,
>)
    ensures
        !(state matches ApplicationState::Vault(VaultFullInfo::Member(_))) ==> r is None,
        state matches ApplicationState::Vault(VaultFullInfo::Member(m)) ==> match first_active_recovery_id(
            m.ss_claims.claims.entry_seq(),
            pass_id@,
        ) {
            Some(x) => r matches Some(id) && id@ == x,
            None => r is None,
        },
{
    match state {
        ApplicationState::Vault(VaultFullInfo::Member(member)) => member.ss_claims.find_recovery_claim_id(pass_id),
        _ => None,
    }
}

/// What a user of the service may do in the current state: a request that needs a
/// vault member is refused otherwise.
pub fn require_member(state: &ApplicationState) -> (r: Result<(), CoreError>)
    ensures
        r is Ok <==> state matches ApplicationState::Vault(VaultFullInfo::Member(_)),
        r is Err ==> r == Err::<(), CoreError>(CoreError::NotAVaultMember),
{
    match state {
        ApplicationState::Vault(VaultFullInfo::Member(_)) => Ok(()),
        _ => Err(CoreError::NotAVaultMember),
    }
}

/// What a sign up request in the state comes to.
pub open spec fn sign_up_outcome(state: ApplicationState) -> Result<(), CoreError> {
    match state {
        ApplicationState::Local(_) => Ok(()),
        ApplicationState::Vault(VaultFullInfo::NotExists(_)) => Ok(()),
        ApplicationState::Vault(VaultFullInfo::Member(_)) => Err(CoreError::AlreadyMember),
        ApplicationState::Vault(VaultFullInfo::Outsider(o)) => match o.status {
            UserDataOutsiderStatus::NonMember => Ok(()),
            UserDataOutsiderStatus::Pending => Err(CoreError::SignUpNotAllowed),
            UserDataOutsiderStatus::Declined => Err(CoreError::JoinRequestDeclined),
        },
    }
}

/// A sign up goes on exactly when the device is not a member of the vault and has no join
/// request pending or declined; a member is told it is one, a declined device that it was
/// declined.
pub proof fn law_sign_up_goes_on_for_newcomers(state: ApplicationState)
    ensures
        sign_up_outcome(state) is Ok <==> !(state matches ApplicationState::Vault(VaultFullInfo::Member(_))) && !(
        state matches ApplicationState::Vault(VaultFullInfo::Outsider(o)) && o.status != UserDataOutsiderStatus::NonMember),
        state matches ApplicationState::Vault(VaultFullInfo::Member(_)) ==> sign_up_outcome(state) == Err::<(), CoreError>(
            CoreError::AlreadyMember,
        ),
        (state matches ApplicationState::Vault(VaultFullInfo::Outsider(o)) && o.status == UserDataOutsiderStatus::Declined)
            ==> sign_up_outcome(state) == Err::<(), CoreError>(CoreError::JoinRequestDeclined),
{
}

/// Whether the client service goes on with a sign up: a device without a vault, a vault
/// that does not exist yet and a non-member sign up; a member is refused, and so is a
/// device whose join request is pending or was declined.
pub fn sign_up_check(state: &ApplicationState) -> (r: Result<(), CoreError>)
    ensures
        r == sign_up_outcome(*state),
{
    match state {
        ApplicationState::Local(_) => Ok(()),
        ApplicationState::Vault(vault_info) => match vault_info {
            VaultFullInfo::NotExists(_) => Ok(()),
            VaultFullInfo::Member(_) => Err(CoreError::AlreadyMember),
            VaultFullInfo::Outsider(outsider) => match outsider.status {
                UserDataOutsiderStatus::NonMember => Ok(()),
                UserDataOutsiderStatus::Pending => Err(CoreError::SignUpNotAllowed),
                UserDataOutsiderStatus::Declined => Err(CoreError::JoinRequestDeclined),
            },
        },
    }
}

/// Where the client service takes the user credentials for a request from.
#[derive(Debug)]
pub enum UserCredsSource {
    /// The stored credentials of the vault, made when there are none yet.
    GetOrGenerate(VaultName),
    /// The credentials already stored.
    Existing,
}

/// The user credentials a request acts with: creating credentials and signing up take
/// or make those of the named vault; a distribution and a recovery take the stored ones;
/// a request for the state alone has none.
pub fn user_creds_source(request: &GenericAppStateRequest) -> (r: Result<UserCredsSource, CoreError>)
    ensures
        request is GetState ==> r == Err::<UserCredsSource, CoreError>(CoreError::InvalidRequest),
        request matches GenericAppStateRequest::GenerateUserCreds(v) ==> r == Ok::<UserCredsSource, CoreError>(
            UserCredsSource::GetOrGenerate(*v),
        ),
        request matches GenericAppStateRequest::SignUp(v) ==> r == Ok::<UserCredsSource, CoreError>(
            UserCredsSource::GetOrGenerate(*v),
        ),
        (request is ClusterDistribution || request is Recover) ==> r == Ok::<UserCredsSource, CoreError>(
            UserCredsSource::Existing,
        ),
{
    match request {
        GenericAppStateRequest::GetState => Err(CoreError::InvalidRequest),
        GenericAppStateRequest::GenerateUserCreds(vault_name) => Ok(UserCredsSource::GetOrGenerate(vault_name.clone())),
        GenericAppStateRequest::SignUp(vault_name) => Ok(UserCredsSource::GetOrGenerate(vault_name.clone())),
        GenericAppStateRequest::ClusterDistribution(_) => Ok(UserCredsSource::Existing),
        GenericAppStateRequest::Recover(_) => Ok(UserCredsSource::Existing),
    }
}

/// The stored user credentials, which a request that needs them cannot go without.
pub fn require_user_creds(maybe_creds: Option<UserCreds>) -> (r: Result<UserCreds, CoreError>)
    ensures
        maybe_creds matches Some(c) ==> r == Ok::<UserCreds, CoreError>(c),
        maybe_creds is None ==> r == Err::<UserCreds, CoreError>(CoreError::UserCredsMissing),
{
    match maybe_creds {
        Some(creds) => Ok(creds),
        None => Err(CoreError::UserCredsMissing),
    }
}

/// The application state from the user's status in its vault, or the member whose vault,
/// claims and vault events are still to be read.
#[derive(Debug)]
pub enum StatusState {
    Ready(ApplicationState),
    NeedsVault(UserDataMember),
}

/// The application state of the device: without user credentials the device is local;
/// with them, a vault that does not exist and an outsider are shown as they are, and a
/// member needs its vault read first.
pub fn state_of_status(device: DeviceData, status: Option<VaultStatus>) -> (r: StatusState)
    ensures
        status is None ==> r == StatusState::Ready(ApplicationState::Local(device)),
        status matches Some(VaultStatus::NotExists(u)) ==> r == StatusState::Ready(
            ApplicationState::Vault(VaultFullInfo::NotExists(u)),
        ),
        status matches Some(VaultStatus::Outsider(o)) ==> r == StatusState::Ready(
            ApplicationState::Vault(VaultFullInfo::Outsider(o)),
        ),
        status matches Some(VaultStatus::Member(m)) ==> r == StatusState::NeedsVault(m),
{
    match status {
        None => StatusState::Ready(ApplicationState::Local(device)),
        Some(VaultStatus::NotExists(user)) => StatusState::Ready(ApplicationState::Vault(VaultFullInfo::NotExists(user))),
        Some(VaultStatus::Outsider(outsider)) => StatusState::Ready(
            ApplicationState::Vault(VaultFullInfo::Outsider(outsider)),
        ),
        Some(VaultStatus::Member(member)) => StatusState::NeedsVault(member),
    }
}

/// The state of a member: the member with its vault, the claims of the vault and the
/// pending vault events, none when the vault has no log yet.
pub fn member_state(
    member: UserDataMember,
    vault: VaultData,
    ss_claims: SsLogData,
    vault_log: Option<VaultActionEvents>,
) -> (r: ApplicationState)
    ensures
        r matches ApplicationState::Vault(VaultFullInfo::Member(info)) && info.member.member == member
            && info.member.vault@ == vault@ && info.ss_claims@ == ss_claims@ && (match vault_log {
            Some(e) => info.vault_events@ == e@,
            None => info.vault_events@.requests.is_empty() && info.vault_events@.updates.is_empty(),
        }),
{
    let vault_events = match vault_log {
        Some(events) => events,
        None => VaultActionEvents::default(),
    };
    ApplicationState::Vault(
        VaultFullInfo::Member(UserMemberFullInfo { member: VaultMember { member, vault }, ss_claims, vault_events }),
    )
}

/// One step of the client service's handling of a request, which the service performs in
/// order, stopping at the first step that fails.
#[derive(Debug)]
pub enum ClientAction {
    /// Take or make the user credentials.
    GetUserCreds(UserCredsSource),
    /// Synchronise the store with the server.
    Sync,
    /// Send the sign up request of the user.
    SignUp,
    /// Split the password among the members; only a member of the vault can.
    Distribute(PassInfo),
    /// Ask the members for their shares of the password.
    RequestRecovery(MetaPasswordId),
    /// Read the application state again and answer with it.
    RefreshState,
    /// Stop with the error.
    Fail(CoreError),
}

/// The steps of a request: the work a request needs happens between two double
/// synchronisations; a sign up is decided on the state the request came with.
pub open spec fn client_plan(state: ApplicationState, request: GenericAppStateRequest) -> Seq<ClientAction> {
    match request {
        GenericAppStateRequest::GetState => seq![ClientAction::RefreshState],
        GenericAppStateRequest::GenerateUserCreds(v) => seq![
            ClientAction::GetUserCreds(UserCredsSource::GetOrGenerate(v)),
            ClientAction::RefreshState,
        ],
        GenericAppStateRequest::SignUp(v) => match sign_up_outcome(state) {
            Ok(()) => seq![
                ClientAction::GetUserCreds(UserCredsSource::GetOrGenerate(v)),
                ClientAction::Sync,
                ClientAction::Sync,
                ClientAction::SignUp,
                ClientAction::Sync,
                ClientAction::Sync,
                ClientAction::RefreshState,
            ],
            Err(e) => seq![
                ClientAction::GetUserCreds(UserCredsSource::GetOrGenerate(v)),
                ClientAction::Sync,
                ClientAction::Sync,
                ClientAction::Fail(e),
            ],
        },
        GenericAppStateRequest::ClusterDistribution(p) => seq![
            ClientAction::GetUserCreds(UserCredsSource::Existing),
            ClientAction::Sync,
            ClientAction::Sync,
            ClientAction::Distribute(p),
            ClientAction::Sync,
            ClientAction::Sync,
            ClientAction::RefreshState,
        ],
        GenericAppStateRequest::Recover(id) => seq![
            ClientAction::GetUserCreds(UserCredsSource::Existing),
            ClientAction::Sync,
            ClientAction::Sync,
            ClientAction::RequestRecovery(id),
            ClientAction::Sync,
            ClientAction::Sync,
            ClientAction::RefreshState,
        ],
    }
}

/// Each request's plan does what the request is for: it starts with the user credentials
/// and two synchronisations, carries the request's own action (distributing the password,
/// asking for the shares of a password, or, when allowed, signing up) after them, and ends
/// by reading the application state again; a refused sign up ends with its error instead.
pub proof fn law_plan_carries_the_request(state: ApplicationState, p: PassInfo, id: MetaPasswordId, v: VaultName)
    ensures
        ({
            let s = client_plan(state, GenericAppStateRequest::ClusterDistribution(p));
            &&& s.len() > 4
            &&& s[0] == ClientAction::GetUserCreds(UserCredsSource::Existing)
            &&& s[1] == ClientAction::Sync && s[2] == ClientAction::Sync
            &&& exists|i: int| 3 <= i < s.len() - 1 && #[trigger] s[i] == ClientAction::Distribute(p)
            &&& s.last() == ClientAction::RefreshState
        }),
        ({
            let s = client_plan(state, GenericAppStateRequest::Recover(id));
            &&& s.len() > 4
            &&& s[0] == ClientAction::GetUserCreds(UserCredsSource::Existing)
            &&& s[1] == ClientAction::Sync && s[2] == ClientAction::Sync
            &&& exists|i: int| 3 <= i < s.len() - 1 && #[trigger] s[i] == ClientAction::RequestRecovery(id)
            &&& s.last() == ClientAction::RefreshState
        }),
        ({
            let s = client_plan(state, GenericAppStateRequest::SignUp(v));
            &&& s.len() > 3
            &&& s[0] == ClientAction::GetUserCreds(UserCredsSource::GetOrGenerate(v))
            &&& s[1] == ClientAction::Sync && s[2] == ClientAction::Sync
            &&& sign_up_outcome(state) is Ok ==> (exists|i: int| 3 <= i < s.len() - 1 && #[trigger] s[i] == ClientAction::SignUp)
                && s.last() == ClientAction::RefreshState
            &&& sign_up_outcome(state) matches Err(e) ==> s.last() == ClientAction::Fail(e) && forall|i: int|
                0 <= i < s.len() ==> #[trigger] s[i] != ClientAction::SignUp
        }),
{
    let s = client_plan(state, GenericAppStateRequest::ClusterDistribution(p));
    assert(s[3] == ClientAction::Distribute(p));
    let s = client_plan(state, GenericAppStateRequest::Recover(id));
    assert(s[3] == ClientAction::RequestRecovery(id));
    let s = client_plan(state, GenericAppStateRequest::SignUp(v));
    if sign_up_outcome(state) is Ok {
        assert(s[3] == ClientAction::SignUp);
    }
}

/// Only the request that asks for an action plans it: distributing a password only for
/// that password's distribution, asking for shares only for that password's recovery, and
/// signing up only for an allowed sign up. Reading the state plans no synchronisation.
pub proof fn law_plan_actions_belong_to_their_request(state: ApplicationState, request: GenericAppStateRequest)
    ensures
        ({
            let s = client_plan(state, request);
            &&& forall|i: int| 0 <= i < s.len() ==> (#[trigger] s[i] matches ClientAction::Distribute(x) ==> request
                == GenericAppStateRequest::ClusterDistribution(x))
            &&& forall|i: int| 0 <= i < s.len() ==> (#[trigger] s[i] matches ClientAction::RequestRecovery(x) ==> request
                == GenericAppStateRequest::Recover(x))
            &&& forall|i: int| 0 <= i < s.len() ==> (#[trigger] s[i] == ClientAction::SignUp ==> request is SignUp
                && sign_up_outcome(state) is Ok)
            &&& request is GetState ==> forall|i: int| 0 <= i < s.len() ==> #[trigger] s[i] != ClientAction::Sync
            &&& s.len() > 0
        }),
{
}

/// What the client service does for a request, in the state the request came with.
pub fn client_request_plan(state: &ApplicationState, request: GenericAppStateRequest) -> (r: Vec<ClientAction>)
    ensures
        r@ == client_plan(*state, request),
{
    let mut plan: Vec<ClientAction> = Vec::new();
    match request {
        GenericAppStateRequest::GetState => {},
        GenericAppStateRequest::GenerateUserCreds(v) => {
            plan.push(ClientAction::GetUserCreds(UserCredsSource::GetOrGenerate(v)));
        },
        GenericAppStateRequest::SignUp(v) => {
            plan.push(ClientAction::GetUserCreds(UserCredsSource::GetOrGenerate(v)));
            plan.push(ClientAction::Sync);
            plan.push(ClientAction::Sync);
            match sign_up_check(state) {
                Ok(()) => {
                    plan.push(ClientAction::SignUp);
                    plan.push(ClientAction::Sync);
                    plan.push(ClientAction::Sync);
                },
                Err(e) => {
                    plan.push(ClientAction::Fail(e));
                    proof {
                        assert(plan@ =~= client_plan(*state, request));
                    }
                    return plan;
                },
            }
        },
        GenericAppStateRequest::ClusterDistribution(p) => {
            plan.push(ClientAction::GetUserCreds(UserCredsSource::Existing));
            plan.push(ClientAction::Sync);
            plan.push(ClientAction::Sync);
            plan.push(ClientAction::Distribute(p));
            plan.push(ClientAction::Sync);
            plan.push(ClientAction::Sync);
        },
        GenericAppStateRequest::Recover(id) => {
            plan.push(ClientAction::GetUserCreds(UserCredsSource::Existing));
            plan.push(ClientAction::Sync);
            plan.push(ClientAction::Sync);
            plan.push(ClientAction::RequestRecovery(id));
            plan.push(ClientAction::Sync);
            plan.push(ClientAction::Sync);
        },
    }
    plan.push(ClientAction::RefreshState);
    proof {
        assert(plan@ =~= client_plan(*state, request));
    }
    plan
}

/// The application state a member's store shows: the member with the stored vault, the
/// stored claims and the pending events of the stored vault log; an error when one of
/// them has another type than expected or the vault is missing.
pub open spec fn member_state_in(
    events: Map<crate::db::store::IdView, crate::db::events::GenericKvLogEvent>,
    m: UserDataMember,
    name: Seq<char>,
    r: Result<ApplicationState, CoreError>,
) -> bool {
    let vt = tail_event(events, vault_first(m.user_data.vault_name@));
    let lt = tail_event(events, vault_log_first(m.user_data.vault_name@));
    if ill_typed(vt, |e| is_vault(e)) {
        r == Err::<ApplicationState, CoreError>(CoreError::WrongEventType)
    } else if vt is None {
        r == Err::<ApplicationState, CoreError>(CoreError::ObjectNotFound)
    } else if ill_typed(tail_event(events, ss_log_first(name)), |e| is_ss_log(e)) {
        r == Err::<ApplicationState, CoreError>(CoreError::WrongEventType)
    } else if ill_typed(lt, |e| is_vault_log(e)) {
        r == Err::<ApplicationState, CoreError>(CoreError::WrongEventType)
    } else {
        r matches Ok(ApplicationState::Vault(VaultFullInfo::Member(info))) && info.member.member == m && (as_vault(
            vt.unwrap(),
        ) matches Some(o) && info.member.vault@ == o.0.value@) && info.ss_claims@ == stored_claims(events, name) && match lt {
            Some(e) => as_vault_log(e) matches Some(lo) && info.vault_events@ == lo.0.value@,
            None => info.vault_events@.requests.is_empty() && info.vault_events@.updates.is_empty(),
        }
    }
}

/// The application state the local store shows, once synchronised: a device without user
/// credentials is local; otherwise the user's status in its vault decides, and a member
/// sees its vault, the vault's claims and the pending vault events.
pub fn read_app_state<Repo: KvLogEventRepo>(
    p_obj: &mut PersistentObject<Repo>,
    device: DeviceData,
    maybe_creds: Option<UserCreds>,
) -> (r: Result<ApplicationState, CoreError>)
    ensures
        *final(p_obj) == *old(p_obj),
        maybe_creds is None ==> r == Ok::<ApplicationState, CoreError>(ApplicationState::Local(device)),
        maybe_creds matches Some(c) ==> ({
            let events = old(p_obj).repo.events();
            let user = UserData { vault_name: c.vault_name, device: c.device_creds.device };
            exists|sr: Result<VaultStatus, CoreError>| #[trigger] found_status(events, user, sr) && match sr {
                Err(e) => r == Err::<ApplicationState, CoreError>(e),
                Ok(VaultStatus::NotExists(u)) => r == Ok::<ApplicationState, CoreError>(
                    ApplicationState::Vault(VaultFullInfo::NotExists(u)),
                ),
                Ok(VaultStatus::Outsider(o)) => r == Ok::<ApplicationState, CoreError>(
                    ApplicationState::Vault(VaultFullInfo::Outsider(o)),
                ),
                Ok(VaultStatus::Member(m)) => member_state_in(events, m, c.vault_name@, r),
            }
        }),
{
    let creds = match maybe_creds {
        None => return Ok(ApplicationState::Local(device)),
        Some(c) => c,
    };
    let ghost events = p_obj.repo.events();
    let status = match (PersistentVault { p_obj: &mut *p_obj }).find(creds.user()) {
        Ok(st) => st,
        Err(e) => {
            proof {
                let user = UserData { vault_name: creds.vault_name, device: creds.device_creds.device };
                assert(found_status(events, user, Err::<VaultStatus, CoreError>(e)));
            }
            return Err(e);
        },
    };
    let ghost found = status;
    proof {
        let user = UserData { vault_name: creds.vault_name, device: creds.device_creds.device };
        assert(found_status(events, user, Ok::<VaultStatus, CoreError>(found)));
    }
    let member = match state_of_status(device, Some(status)) {
        StatusState::Ready(state) => return Ok(state),
        StatusState::NeedsVault(m) => m,
    };
    let vault = match (PersistentVault { p_obj: &mut *p_obj }).get_vault(member.user_data.vault_name()) {
        Ok(v) => v,
        Err(e) => return Err(e),
    };
    let ss_claims = match (PersistentSharedSecret { p_obj: &mut *p_obj }).get_ss_log_obj(creds.vault_name.clone()) {
        Ok(d) => d,
        Err(e) => return Err(e),
    };
    let vault_log = match (PersistentVault { p_obj: &mut *p_obj }).vault_log(member.user_data.vault_name()) {
        Ok(l) => l,
        Err(e) => return Err(e),
    };
    let events_of_log = match vault_log {
        Some(obj) => Some(obj.0.value),
        None => None,
    };
    Ok(member_state(member, vault.to_data(), ss_claims, events_of_log))
}

/// The application state, in the shape the user interface reads it.
#[derive(Debug)]
pub struct WasmApplicationState(pub ApplicationState);

impl WasmApplicationState {
    pub fn from(state: ApplicationState) -> (r: Self)
        ensures
            r.0 == state,
    {
        WasmApplicationState(state)
    }

    pub fn as_info(&self) -> (r: ApplicationStateInfo)
        ensures
            self.0 is Local ==> r == ApplicationStateInfo::Local,
            self.0 matches ApplicationState::Vault(VaultFullInfo::NotExists(_)) ==> r
                == ApplicationStateInfo::VaultNotExists,
            self.0 matches ApplicationState::Vault(VaultFullInfo::Outsider(_)) ==> r == ApplicationStateInfo::Outsider,
            self.0 matches ApplicationState::Vault(VaultFullInfo::Member(_)) ==> r == ApplicationStateInfo::Member,
    {
        match &self.0 {
            ApplicationState::Local(_) => ApplicationStateInfo::Local,
            ApplicationState::Vault(vault_info) => match vault_info {
                VaultFullInfo::NotExists(_) => ApplicationStateInfo::VaultNotExists,
                VaultFullInfo::Outsider(_) => ApplicationStateInfo::Outsider,
                VaultFullInfo::Member(_) => ApplicationStateInfo::Member,
            },
        }
    }

    pub fn is_local(&self) -> (r: bool)
        ensures
            r == (self.0 is Local),
    {
        match &self.0 {
            ApplicationState::Local(_) => true,
            ApplicationState::Vault(_) => false,
        }
    }

    pub fn is_vault(&self) -> (r: bool)
        ensures
            r == (self.0 is Vault),
    {
        match &self.0 {
            ApplicationState::Local(_) => false,
            ApplicationState::Vault(_) => true,
        }
    }

    pub fn as_local(&self) -> (r: DeviceData)
        requires
            self.0 is Local,
        ensures
            self.0 == ApplicationState::Local(r),
    {
        match &self.0 {
            ApplicationState::Local(device) => device.clone(),
            ApplicationState::Vault(_) => vstd::pervasive::unreached(),
        }
    }

    pub fn as_vault(&self) -> (r: WasmVaultFullInfo)
        requires
            self.0 is Vault,
        ensures
            self.0 matches ApplicationState::Vault(VaultFullInfo::NotExists(u)) ==> r.0 == VaultFullInfo::NotExists(u),
            self.0 matches ApplicationState::Vault(VaultFullInfo::Outsider(o)) ==> r.0 == VaultFullInfo::Outsider(o),
            self.0 matches ApplicationState::Vault(VaultFullInfo::Member(m)) ==> (r.0 matches VaultFullInfo::Member(c)
                && c.member.member == m.member.member && c.member.vault@ == m.member.vault@ && c.ss_claims@
                == m.ss_claims@ && c.vault_events@ == m.vault_events@),
    {
        match &self.0 {
            ApplicationState::Vault(full_info) => WasmVaultFullInfo(full_info.clone()),
            ApplicationState::Local(_) => vstd::pervasive::unreached(),
        }
    }
}

/// The vault part of the state, in the shape the user interface reads it.
#[derive(Debug)]
pub struct WasmVaultFullInfo(pub VaultFullInfo);

impl WasmVaultFullInfo {
    pub fn is_member(&self) -> (r: bool)
        ensures
            r == (self.0 is Member),
    {
        match &self.0 {
            VaultFullInfo::Member(_) => true,
            _ => false,
        }
    }

    pub fn is_outsider(&self) -> (r: bool)
        ensures
            r == (self.0 is Outsider),
    {
        match &self.0 {
            VaultFullInfo::Outsider(_) => true,
            _ => false,
        }
    }

    pub fn is_vault_not_exists(&self) -> (r: bool)
        ensures
            r == (self.0 is NotExists),
    {
        match &self.0 {
            VaultFullInfo::NotExists(_) => true,
            _ => false,
        }
    }

    pub fn as_outsider(&self) -> (r: UserDataOutsider)
        requires
            self.0 is Outsider,
        ensures
            self.0 == VaultFullInfo::Outsider(r),
    {
        match &self.0 {
            VaultFullInfo::Outsider(outsider) => outsider.clone(),
            _ => vstd::pervasive::unreached(),
        }
    }

    pub fn as_not_exists(&self) -> (r: UserData)
        requires
            self.0 is NotExists,
        ensures
            self.0 == VaultFullInfo::NotExists(r),
    {
        match &self.0 {
            VaultFullInfo::NotExists(user_data) => user_data.clone(),
            _ => vstd::pervasive::unreached(),
        }
    }

    pub fn as_member(&self) -> (r: WasmUserMemberFullInfo)
        requires
            self.0 is Member,
        ensures
            self.0 matches VaultFullInfo::Member(m) && r.0.member.member == m.member.member && r.0.member.vault@
                == m.member.vault@ && r.0.ss_claims@ == m.ss_claims@ && r.0.vault_events@ == m.vault_events@,
    {
        match &self.0 {
            VaultFullInfo::Member(member) => WasmUserMemberFullInfo(member.clone()),
            _ => vstd::pervasive::unreached(),
        }
    }

    /// The name of the vault the state is about.
    pub fn vault_name(&self) -> (r: String)
        ensures
            self.0 matches VaultFullInfo::Member(m) ==> r@ == m.member.vault@.vault_name,
            self.0 matches VaultFullInfo::Outsider(o) ==> r@ == o.user_data.vault_name@,
            self.0 matches VaultFullInfo::NotExists(u) ==> r@ == u.vault_name@,
    {
        let vault_name = match &self.0 {
            VaultFullInfo::Member(member) => &member.member.vault.vault_name,
            VaultFullInfo::Outsider(outsider) => &outsider.user_data.vault_name,
            VaultFullInfo::NotExists(user_data) => &user_data.vault_name,
        };
        vault_name.0.clone()
    }
}

/// A member's full information, in the shape the user interface reads it.
#[derive(Debug)]
pub struct WasmUserMemberFullInfo(pub UserMemberFullInfo);

impl WasmUserMemberFullInfo {
    pub fn vault_data(&self) -> (r: WasmVaultData)
        ensures
            r.0@ == self.0.member.vault@,
    {
        WasmVaultData::from(self.0.member.vault.view_clone())
    }
}

} // verus!
