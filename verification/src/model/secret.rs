//! Claims to distribute shares of a secret (split) or to collect them back (recover),
//! the status of each receiver, and the log of all claims of a vault.
use vstd::prelude::*;
use crate::collections::{KeyEq, ViewClone, VecMap, count_entries, count_values, views_of};
use crate::ids::{Id48bit, IdString};
use crate::model::aead::EncryptedMessage;
use crate::model::device::DeviceId;
use crate::model::meta_pass::MetaPasswordId;
use crate::model::vault::VaultName;
use crate::text::concat3;

verus! {

/// The key of a claim in the log.
#[derive(Debug)]
pub struct ClaimId(pub Id48bit);

impl View for ClaimId {
    type V = Seq<char>;

    open spec fn view(&self) -> Seq<char> {
        self.0@
    }
}

impl Clone for ClaimId {
    fn clone(&self) -> (r: Self)
        ensures
            r == *self,
    {
        ClaimId(self.0.clone())
    }
}

impl ViewClone for ClaimId {
    fn view_clone(&self) -> (r: Self) {
        self.clone()
    }
}

impl PartialEq for ClaimId {
    fn eq(&self, other: &Self) -> (r: bool) {
        self.0 == other.0
    }
}

impl vstd::std_specs::cmp::PartialEqSpecImpl for ClaimId {
    open spec fn obeys_eq_spec() -> bool {
        true
    }

    open spec fn eq_spec(&self, other: &Self) -> bool {
        self@ == other@
    }
}

impl KeyEq for ClaimId {
    fn key_eq(&self, other: &Self) -> (r: bool) {
        self.0 == other.0
    }
}

impl ClaimId {
    pub fn from(id: Id48bit) -> (r: Self)
        ensures
            r.0 == id,
    {
        ClaimId(id)
    }

    /// A fresh random claim id.
    pub fn generate() -> (r: Self)
        ensures
            exists|b: Seq<u8>| b.len() == 6 && r@ == crate::ids::base64_url(b),
    {
        ClaimId(Id48bit::generate())
    }
}

/// The share of a password that one receiver keeps.
#[derive(Debug)]
pub struct SsDistributionId {
    pub pass_id: MetaPasswordId,
    pub receiver: DeviceId,
}

impl View for SsDistributionId {
    type V = ((Seq<char>, Seq<char>), Seq<char>);

    open spec fn view(&self) -> ((Seq<char>, Seq<char>), Seq<char>) {
        (self.pass_id@, self.receiver@)
    }
}

impl Clone for SsDistributionId {
    fn clone(&self) -> (r: Self)
        ensures
            r == *self,
    {
        SsDistributionId { pass_id: self.pass_id.clone(), receiver: self.receiver.clone() }
    }
}

impl PartialEq for SsDistributionId {
    fn eq(&self, other: &Self) -> (r: bool) {
        self.pass_id == other.pass_id && self.receiver == other.receiver
    }
}

impl vstd::std_specs::cmp::PartialEqSpecImpl for SsDistributionId {
    open spec fn obeys_eq_spec() -> bool {
        true
    }

    open spec fn eq_spec(&self, other: &Self) -> bool {
        self@ == other@
    }
}

impl IdString for SsDistributionId {
    open spec fn id_view(&self) -> Seq<char> {
        self.receiver@ + "|"@ + self.pass_id.id@
    }

    fn id_str(self) -> (r: String) {
        concat3(self.receiver.0.text.0.as_str(), "|", self.pass_id.id.text.0.as_str())
    }
}

/// A claim id together with the password it is about.
#[derive(Debug)]
pub struct SsClaimId {
    pub id: ClaimId,
    pub pass_id: MetaPasswordId,
}

impl View for SsClaimId {
    type V = (Seq<char>, (Seq<char>, Seq<char>));

    open spec fn view(&self) -> (Seq<char>, (Seq<char>, Seq<char>)) {
        (self.id@, self.pass_id@)
    }
}

impl Clone for SsClaimId {
    fn clone(&self) -> (r: Self)
        ensures
            r == *self,
    {
        SsClaimId { id: self.id.clone(), pass_id: self.pass_id.clone() }
    }
}

impl PartialEq for SsClaimId {
    fn eq(&self, other: &Self) -> (r: bool) {
        self.id == other.id && self.pass_id == other.pass_id
    }
}

impl vstd::std_specs::cmp::PartialEqSpecImpl for SsClaimId {
    open spec fn obeys_eq_spec() -> bool {
        true
    }

    open spec fn eq_spec(&self, other: &Self) -> bool {
        self@ == other@
    }
}

impl IdString for SsClaimId {
    open spec fn id_view(&self) -> Seq<char> {
        self.id@ + "|"@ + self.pass_id.id@
    }

    fn id_str(self) -> (r: String) {
        concat3(self.id.0.text.as_str(), "|", self.pass_id.id.text.0.as_str())
    }
}

/// The share that a receiver sends back to the sender of a recovery claim.
#[derive(Debug)]
pub struct SsRecoveryId {
    pub claim_id: SsClaimId,
    pub sender: DeviceId,
    pub distribution_id: SsDistributionId,
}

impl Clone for SsRecoveryId {
    fn clone(&self) -> (r: Self)
        ensures
            r == *self,
    {
        SsRecoveryId {
            claim_id: self.claim_id.clone(),
            sender: self.sender.clone(),
            distribution_id: self.distribution_id.clone(),
        }
    }
}

impl PartialEq for SsRecoveryId {
    fn eq(&self, other: &Self) -> (r: bool) {
        self.claim_id == other.claim_id && self.sender == other.sender && self.distribution_id
            == other.distribution_id
    }
}

impl vstd::std_specs::cmp::PartialEqSpecImpl for SsRecoveryId {
    open spec fn obeys_eq_spec() -> bool {
        true
    }

    open spec fn eq_spec(&self, other: &Self) -> bool {
        self.claim_id@ == other.claim_id@ && self.sender@ == other.sender@ && self.distribution_id@
            == other.distribution_id@
    }
}

impl IdString for SsRecoveryId {
    open spec fn id_view(&self) -> Seq<char> {
        self.sender@ + "|"@ + self.distribution_id.id_view() + "|"@ + self.claim_id.id_view()
    }

    fn id_str(self) -> (r: String) {
        let dist = self.distribution_id.id_str();
        let claim = self.claim_id.id_str();
        let mut s = concat3(self.sender.0.text.0.as_str(), "|", dist.as_str());
        s.append("|");
        s.append(claim.as_str());
        s
    }
}

#[derive(Debug, Clone, Copy, PartialEq, Eq, Structural)]
pub enum SsDistributionStatus {
    /// Server is waiting for distributions to arrive, to send them to target devices
    Pending,
    /// The distribution is on the server
    Sent,
    /// The receiver device has received the secret
    Delivered,
    /// The receiver device has declined the recovery request
    Declined,
}

impl View for SsDistributionStatus {
    type V = SsDistributionStatus;

    open spec fn view(&self) -> SsDistributionStatus {
        *self
    }
}

impl ViewClone for SsDistributionStatus {
    fn view_clone(&self) -> (r: Self) {
        *self
    }
}

#[derive(Debug, Clone, Copy, PartialEq, Eq, Structural)]
pub enum RecoveryClientStatus {
    /// sender: waiting for receivers (show loader)
    Pending,
    /// receiver: show 'Allow recovery?' alert
    NeedApprove,
    /// sender: call showRecovered()
    Accepted,
    /// sender: show 'recovery declined' notification
    Declined,
    /// sender: secret retrieved (Delivered); receiver: dismiss alerts/loaders
    Done,
}

#[derive(Debug, Clone, Copy, PartialEq, Eq, Structural)]
pub enum SecretDistributionType {
    Split,
    Recover,
}

/// Whether some device has the status `s`.
pub open spec fn has_status(m: Map<Seq<char>, SsDistributionStatus>, s: SsDistributionStatus) -> bool {
    exists|d: Seq<char>| #[trigger] m.contains_key(d) && m[d] == s
}

pub open spec fn is_status(s: SsDistributionStatus) -> spec_fn(SsDistributionStatus) -> bool {
    |x: SsDistributionStatus| x == s
}

/// How many devices have the status `s`.
pub open spec fn count_status(m: Map<Seq<char>, SsDistributionStatus>, s: SsDistributionStatus) -> nat {
    count_values(m, is_status(s))
}

/// The status of the whole distribution: sent once any receiver is sent, else
/// pending while any is pending, else declined if any declined, else delivered.
pub open spec fn overall_status(m: Map<Seq<char>, SsDistributionStatus>) -> SsDistributionStatus {
    if has_status(m, SsDistributionStatus::Sent) {
        SsDistributionStatus::Sent
    } else if has_status(m, SsDistributionStatus::Pending) {
        SsDistributionStatus::Pending
    } else if has_status(m, SsDistributionStatus::Declined) {
        SsDistributionStatus::Declined
    } else {
        SsDistributionStatus::Delivered
    }
}

/// The overall status of a claim, receiver by receiver: sent as soon as one receiver is
/// sent; otherwise pending as long as one receiver is still pending, whatever the others
/// answered; otherwise declined when one receiver declined; delivered when every receiver
/// (if any) got its share.
pub proof fn law_overall_status_by_receivers(m: Map<Seq<char>, SsDistributionStatus>)
    ensures
        (exists|d: Seq<char>| m.contains_key(d) && #[trigger] m[d] == SsDistributionStatus::Sent) ==> overall_status(m)
            == SsDistributionStatus::Sent,
        ((forall|d: Seq<char>| m.contains_key(d) ==> #[trigger] m[d] != SsDistributionStatus::Sent) && (exists|d: Seq<char>|
            m.contains_key(d) && #[trigger] m[d] == SsDistributionStatus::Pending)) ==> overall_status(m)
            == SsDistributionStatus::Pending,
        ((forall|d: Seq<char>|
            m.contains_key(d) ==> #[trigger] m[d] != SsDistributionStatus::Sent && m[d] != SsDistributionStatus::Pending)
            && (exists|d: Seq<char>| m.contains_key(d) && #[trigger] m[d] == SsDistributionStatus::Declined))
            ==> overall_status(m) == SsDistributionStatus::Declined,
        (forall|d: Seq<char>| m.contains_key(d) ==> #[trigger] m[d] == SsDistributionStatus::Delivered) ==> overall_status(
            m,
        ) == SsDistributionStatus::Delivered,
{
    if exists|d: Seq<char>| m.contains_key(d) && #[trigger] m[d] == SsDistributionStatus::Sent {
        let d = choose|d: Seq<char>| m.contains_key(d) && #[trigger] m[d] == SsDistributionStatus::Sent;
        assert(m.contains_key(d) && m[d] == SsDistributionStatus::Sent);
    }
    if exists|d: Seq<char>| m.contains_key(d) && #[trigger] m[d] == SsDistributionStatus::Pending {
        let d = choose|d: Seq<char>| m.contains_key(d) && #[trigger] m[d] == SsDistributionStatus::Pending;
        assert(m.contains_key(d) && m[d] == SsDistributionStatus::Pending);
    }
    if exists|d: Seq<char>| m.contains_key(d) && #[trigger] m[d] == SsDistributionStatus::Declined {
        let d = choose|d: Seq<char>| m.contains_key(d) && #[trigger] m[d] == SsDistributionStatus::Declined;
        assert(m.contains_key(d) && m[d] == SsDistributionStatus::Declined);
    }
}

/// The status with `from` replaced by `to`.
pub open spec fn replacing(from: SsDistributionStatus, to: SsDistributionStatus) -> spec_fn(SsDistributionStatus) -> SsDistributionStatus {
    |s: SsDistributionStatus| if s == from { to } else { s }
}

pub open spec fn decline_pending(s: SsDistributionStatus) -> SsDistributionStatus {
    if s == SsDistributionStatus::Pending {
        SsDistributionStatus::Declined
    } else {
        s
    }
}

/// The status of each receiver of a distribution.
#[derive(Debug)]
pub struct SsDistributionCompositeStatus {
    pub statuses: VecMap<DeviceId, SsDistributionStatus>,
}

impl View for SsDistributionCompositeStatus {
    type V = Map<Seq<char>, SsDistributionStatus>;

    open spec fn view(&self) -> Map<Seq<char>, SsDistributionStatus> {
        self.statuses@
    }
}

impl ViewClone for SsDistributionCompositeStatus {
    fn view_clone(&self) -> (r: Self) {
        SsDistributionCompositeStatus { statuses: self.statuses.view_clone() }
    }
}

impl Clone for SsDistributionCompositeStatus {
    fn clone(&self) -> (r: Self)
        ensures
            r@ == self@,
    {
        self.view_clone()
    }
}

impl SsDistributionCompositeStatus {
    /// Every device pending.
    pub fn from(devices: Vec<DeviceId>) -> (r: Self)
        ensures
            r@.dom() == views_of(devices@).to_set(),
            forall|d: Seq<char>| #[trigger] r@.contains_key(d) ==> r@[d] == SsDistributionStatus::Pending,
    {
        let mut statuses: VecMap<DeviceId, SsDistributionStatus> = VecMap::new();
        let ghost all = views_of(devices@);
        let mut rest = devices;
        let ghost mut taken: Seq<Seq<char>> = Seq::empty();
        while rest.len() > 0
            invariant
                taken + views_of(rest@) == all,
                statuses@.dom() == taken.to_set(),
                forall|d: Seq<char>| #[trigger] statuses@.contains_key(d) ==> statuses@[d]
                    == SsDistributionStatus::Pending,
            decreases rest.len(),
        {
            let ghost before = rest@;
            let device_id = rest.remove(0);
            proof {
                assert(views_of(before) =~= seq![device_id@] + views_of(rest@));
                assert(taken.push(device_id@) + views_of(rest@) =~= taken + views_of(before));
                assert(taken.push(device_id@).to_set() =~= taken.to_set().insert(device_id@)) by {
                    assert forall|x: Seq<char>| taken.push(device_id@).to_set().contains(x)
                        == taken.to_set().insert(device_id@).contains(x) by {
                        if taken.push(device_id@).contains(x) && x != device_id@ {
                            let j = choose|j: int| 0 <= j < taken.len() + 1 && taken.push(device_id@)[j] == x;
                            assert(taken[j] == x);
                        }
                        if taken.contains(x) {
                            let j = choose|j: int| 0 <= j < taken.len() && taken[j] == x;
                            assert(taken.push(device_id@)[j] == x);
                        }
                        if x == device_id@ {
                            assert(taken.push(device_id@)[taken.len() as int] == x);
                        }
                    }
                }
            }
            statuses = statuses.insert(device_id, SsDistributionStatus::Pending);
            proof {
                taken = taken.push(device_id@);
                assert(statuses@.dom() =~= taken.to_set());
            }
        }
        proof {
            assert(views_of(rest@) =~= Seq::<Seq<char>>::empty());
            assert(taken =~= all);
        }
        SsDistributionCompositeStatus { statuses }
    }

    pub fn sent(self, device_id: DeviceId) -> (r: Self)
        ensures
            r@ == self@.insert(device_id@, SsDistributionStatus::Sent),
    {
        SsDistributionCompositeStatus { statuses: self.statuses.insert(device_id, SsDistributionStatus::Sent) }
    }

    pub fn complete(self, device_id: DeviceId) -> (r: Self)
        ensures
            r@ == self@.insert(device_id@, SsDistributionStatus::Delivered),
    {
        SsDistributionCompositeStatus {
            statuses: self.statuses.insert(device_id, SsDistributionStatus::Delivered),
        }
    }

    pub fn decline(self, device_id: DeviceId) -> (r: Self)
        ensures
            r@ == self@.insert(device_id@, SsDistributionStatus::Declined),
    {
        SsDistributionCompositeStatus {
            statuses: self.statuses.insert(device_id, SsDistributionStatus::Declined),
        }
    }

    /// Set the status of one device.
    pub fn set_status(self, device_id: DeviceId, status: SsDistributionStatus) -> (r: Self)
        ensures
            r@ == self@.insert(device_id@, status),
    {
        SsDistributionCompositeStatus { statuses: self.statuses.insert(device_id, status) }
    }

    pub fn get(&self, device_id: &DeviceId) -> (r: Option<&SsDistributionStatus>)
        ensures
            match r {
                Some(s) => self@.contains_key(device_id@) && *s == self@[device_id@],
                None => !self@.contains_key(device_id@),
            },
    {
        self.statuses.get(device_id)
    }

    /// Whether some device has the given status.
    pub fn any_with(&self, status: SsDistributionStatus) -> (r: bool)
        ensures
            r == has_status(self@, status),
    {
        proof {
            use_type_invariant(&self.statuses);
            self.statuses.lemma_entries();
        }
        let entries = self.statuses.as_vec();
        let mut i: usize = 0;
        while i < entries.len()
            invariant
                entries@ == self.statuses.entry_seq(),
                i <= entries.len(),
                forall|j: int| 0 <= j < i ==> (#[trigger] entries@[j]).1 != status,
                forall|j: int| 0 <= j < entries@.len() ==> self@.contains_key((#[trigger] entries@[j]).0@)
                    && self@[entries@[j].0@] == entries@[j].1,
            decreases entries.len() - i,
        {
            if entries[i].1 == status {
                proof {
                    assert(self@.contains_key(entries@[i as int].0@));
                }
                return true;
            }
            i = i + 1;
        }
        proof {
            if has_status(self@, status) {
                let d = choose|d: Seq<char>| #[trigger] self@.contains_key(d) && self@[d] == status;
                let j = choose|j: int| 0 <= j < entries@.len() && (#[trigger] self.statuses.entry_seq()[j]).0@ == d;
                assert(entries@[j].1 != status);
            }
        }
        false
    }

    /// How many devices have the given status.
    pub fn count_with(&self, status: SsDistributionStatus) -> (r: usize)
        ensures
            r == count_status(self@, status),
    {
        let entries = self.statuses.as_vec();
        let mut i: usize = 0;
        let mut n: usize = 0;
        while i < entries.len()
            invariant
                entries@ == self.statuses.entry_seq(),
                i <= entries.len(),
                n == count_entries(entries@.take(i as int), is_status(status)),
                n <= i,
            decreases entries.len() - i,
        {
            proof {
                assert(entries@.take(i + 1).drop_last() =~= entries@.take(i as int));
            }
            if entries[i].1 == status {
                n = n + 1;
            }
            i = i + 1;
        }
        proof {
            assert(entries@.take(i as int) =~= entries@);
            use_type_invariant(&self.statuses);
            self.statuses.lemma_count(is_status(status));
        }
        n
    }

    /// The status of the whole distribution.
    pub fn status(&self) -> (r: SsDistributionStatus)
        ensures
            r == overall_status(self@),
    {
        let is_pending = self.any_with(SsDistributionStatus::Pending);
        let is_sent = self.any_with(SsDistributionStatus::Sent);
        let is_declined = self.any_with(SsDistributionStatus::Declined);
        if is_sent {
            SsDistributionStatus::Sent
        } else if is_pending {
            SsDistributionStatus::Pending
        } else if is_declined {
            SsDistributionStatus::Declined
        } else {
            SsDistributionStatus::Delivered
        }
    }

    /// Every device with status `from` gets status `to`; the others keep theirs.
    fn replace_all(self, from: SsDistributionStatus, to: SsDistributionStatus) -> (r: Self)
        ensures
            r@ == self@.map_values(replacing(from, to)),
    {
        proof {
            use_type_invariant(&self.statuses);
            self.statuses.lemma_entries();
        }
        let entries = self.statuses.as_vec();
        let mut out: VecMap<DeviceId, SsDistributionStatus> = VecMap::new();
        let mut i: usize = 0;
        while i < entries.len()
            invariant
                entries@ == self.statuses.entry_seq(),
                i <= entries.len(),
                forall|k: Seq<char>| #[trigger] out@.contains_key(k) <==> exists|j: int|
                    0 <= j < i && (#[trigger] entries@[j]).0@ == k,
                forall|k: Seq<char>| #[trigger] out@.contains_key(k) ==> self@.contains_key(k)
                    && out@[k] == replacing(from, to)(self@[k]),
                forall|j: int| 0 <= j < entries@.len() ==> self@.contains_key((#[trigger] entries@[j]).0@)
                    && self@[entries@[j].0@] == entries@[j].1,
            decreases entries.len() - i,
        {
            let e = &entries[i];
            let s = if e.1 == from { to } else { e.1 };
            let ghost before = out@;
            out = out.insert(e.0.clone(), s);
            proof {
                assert forall|k: Seq<char>| #[trigger] out@.contains_key(k) <==> exists|j: int|
                    0 <= j < i + 1 && (#[trigger] entries@[j]).0@ == k by {
                    if out@.contains_key(k) && k != e.0@ {
                        assert(before.contains_key(k));
                    }
                    if k == e.0@ {
                        assert(entries@[i as int].0@ == k);
                    }
                    if exists|j: int| 0 <= j < i + 1 && (#[trigger] entries@[j]).0@ == k {
                        let j = choose|j: int| 0 <= j < i + 1 && (#[trigger] entries@[j]).0@ == k;
                        if j < i {
                            assert(before.contains_key(k));
                        }
                    }
                }
            }
            i = i + 1;
        }
        proof {
            assert(out@ =~= self@.map_values(replacing(from, to))) by {
                assert forall|k: Seq<char>| #[trigger] out@.contains_key(k) == self@.contains_key(k) by {
                    if self@.contains_key(k) {
                        let j = choose|j: int| 0 <= j < entries@.len() && (#[trigger] self.statuses.entry_seq()[j]).0@ == k;
                        assert(entries@[j].0@ == k);
                    }
                }
            }
        }
        SsDistributionCompositeStatus { statuses: out }
    }

    /// Every pending device becomes declined; the others keep their status.
    pub fn decline_remaining_pending(self) -> (r: Self)
        ensures
            r@ == self@.map_values(|s: SsDistributionStatus| decline_pending(s)),
    {
        let ghost old_status = self@;
        let r = self.replace_all(SsDistributionStatus::Pending, SsDistributionStatus::Declined);
        assert(r@ =~= old_status.map_values(|s: SsDistributionStatus| decline_pending(s)));
        r
    }

    /// Every device that was sent its share is declined (a retired recovery claim); the
    /// others keep their status.
    pub fn decline_sent(self) -> (r: Self)
        ensures
            r@ == self@.map_values(replacing(SsDistributionStatus::Sent, SsDistributionStatus::Declined)),
    {
        self.replace_all(SsDistributionStatus::Sent, SsDistributionStatus::Declined)
    }
}

/// A share of a secret, encrypted for its receiver.
#[derive(Debug)]
pub struct SecretDistributionData {
    pub vault_name: VaultName,
    pub claim_id: SsClaimId,
    pub secret_message: EncryptedMessage,
}

impl Clone for SecretDistributionData {
    fn clone(&self) -> (r: Self)
        ensures
            r == *self,
    {
        SecretDistributionData {
            vault_name: self.vault_name.clone(),
            claim_id: self.claim_id.clone(),
            secret_message: self.secret_message.clone(),
        }
    }
}

/// A receiver's refusal to send its share back.
#[derive(Debug)]
pub struct SsDeclineData {
    pub vault_name: VaultName,
    pub claim_id: ClaimId,
    pub receiver_id: DeviceId,
}

impl Clone for SsDeclineData {
    fn clone(&self) -> (r: Self)
        ensures
            r == *self,
    {
        SsDeclineData {
            vault_name: self.vault_name.clone(),
            claim_id: self.claim_id.clone(),
            receiver_id: self.receiver_id.clone(),
        }
    }
}

pub struct SsClaimView {
    pub id: Seq<char>,
    pub dist_claim_id: (Seq<char>, (Seq<char>, Seq<char>)),
    pub vault_name: Seq<char>,
    pub sender: Seq<char>,
    pub distribution_type: SecretDistributionType,
    pub receivers: Seq<Seq<char>>,
    pub status: Map<Seq<char>, SsDistributionStatus>,
    pub client_status: Option<RecoveryClientStatus>,
}

impl SsClaimView {
    pub open spec fn pass_id(self) -> (Seq<char>, Seq<char>) {
        self.dist_claim_id.1
    }

    pub open spec fn with_status(self, status: Map<Seq<char>, SsDistributionStatus>) -> SsClaimView {
        SsClaimView { status, ..self }
    }

    pub open spec fn with_client_status(self, client_status: Option<RecoveryClientStatus>) -> SsClaimView {
        SsClaimView { client_status, ..self }
    }
}

/// What a device shows about a recovery claim: the sender waits, is accepted,
/// declined or done; a receiver has to approve or is done. Split claims and
/// devices that take no part get nothing.
pub open spec fn client_status_of(c: SsClaimView, device: Seq<char>) -> Option<RecoveryClientStatus> {
    if c.distribution_type != SecretDistributionType::Recover {
        None
    } else if c.sender == device {
        if has_status(c.status, SsDistributionStatus::Delivered) {
            Some(RecoveryClientStatus::Done)
        } else if has_status(c.status, SsDistributionStatus::Sent) {
            Some(RecoveryClientStatus::Accepted)
        } else if count_status(c.status, SsDistributionStatus::Declined) >= c.receivers.len() {
            Some(RecoveryClientStatus::Declined)
        } else {
            Some(RecoveryClientStatus::Pending)
        }
    } else if c.receivers.contains(device) {
        if has_status(c.status, SsDistributionStatus::Sent) {
            Some(RecoveryClientStatus::Done)
        } else if !c.status.contains_key(device) || c.status[device] == SsDistributionStatus::Pending {
            Some(RecoveryClientStatus::NeedApprove)
        } else {
            Some(RecoveryClientStatus::Done)
        }
    } else {
        None
    }
}

/// What a receiver of a recovery claim is shown: it is asked to approve only while no
/// share was sent yet and its own answer is still pending (or missing); once it answered
/// (declined, or its share was delivered) or a share is on its way, it is done.
pub proof fn law_receiver_is_asked_only_while_pending(c: SsClaimView, device: Seq<char>)
    ensures
        client_status_of(c, device) == Some(RecoveryClientStatus::NeedApprove) ==> c.receivers.contains(device) && (
        !c.status.contains_key(device) || c.status[device] == SsDistributionStatus::Pending),
        (c.distribution_type == SecretDistributionType::Recover && c.sender != device && c.receivers.contains(device))
            ==> ({
            let asked = (forall|d: Seq<char>| c.status.contains_key(d) ==> #[trigger] c.status[d] != SsDistributionStatus::Sent)
                && (!c.status.contains_key(device) || c.status[device] == SsDistributionStatus::Pending);
            &&& asked ==> client_status_of(c, device) == Some(RecoveryClientStatus::NeedApprove)
            &&& !asked ==> client_status_of(c, device) == Some(RecoveryClientStatus::Done)
        }),
        (c.distribution_type == SecretDistributionType::Recover && c.sender != device && c.receivers.contains(device)
            && c.status.contains_key(device) && (c.status[device] == SsDistributionStatus::Delivered
            || c.status[device] == SsDistributionStatus::Declined)) ==> client_status_of(c, device) == Some(
            RecoveryClientStatus::Done,
        ),
{
    if exists|d: Seq<char>| c.status.contains_key(d) && #[trigger] c.status[d] == SsDistributionStatus::Sent {
        let d = choose|d: Seq<char>| c.status.contains_key(d) && #[trigger] c.status[d] == SsDistributionStatus::Sent;
        assert(c.status.contains_key(d) && c.status[d] == SsDistributionStatus::Sent);
    }
}

/// What the sender of a recovery claim is shown: done once one share was delivered to it;
/// accepted while a share is on its way; declined once as many receivers declined as the
/// claim has receivers; pending otherwise. A split claim, or a device that takes no part
/// in the claim, is shown nothing.
pub proof fn law_sender_sees_the_answers(c: SsClaimView, device: Seq<char>)
    ensures
        c.distribution_type != SecretDistributionType::Recover ==> client_status_of(c, device) is None,
        (c.sender != device && !c.receivers.contains(device)) ==> client_status_of(c, device) is None,
        (c.distribution_type == SecretDistributionType::Recover && c.sender == device) ==> ({
            let delivered = exists|d: Seq<char>| c.status.contains_key(d) && #[trigger] c.status[d]
                == SsDistributionStatus::Delivered;
            let sent = exists|d: Seq<char>| c.status.contains_key(d) && #[trigger] c.status[d] == SsDistributionStatus::Sent;
            let declined = c.status.dom().filter(|d: Seq<char>| c.status[d] == SsDistributionStatus::Declined).len();
            &&& delivered ==> client_status_of(c, device) == Some(RecoveryClientStatus::Done)
            &&& (!delivered && sent) ==> client_status_of(c, device) == Some(RecoveryClientStatus::Accepted)
            &&& (!delivered && !sent && declined >= c.receivers.len()) ==> client_status_of(c, device) == Some(
                RecoveryClientStatus::Declined,
            )
            &&& (!delivered && !sent && declined < c.receivers.len()) ==> client_status_of(c, device) == Some(
                RecoveryClientStatus::Pending,
            )
        }),
{
    assert(c.status.dom().filter(|d: Seq<char>| c.status[d] == SsDistributionStatus::Declined) =~= c.status.dom().filter(
        |k: Seq<char>| is_status(SsDistributionStatus::Declined)(c.status[k]),
    ));
    if exists|d: Seq<char>| c.status.contains_key(d) && #[trigger] c.status[d] == SsDistributionStatus::Delivered {
        let d = choose|d: Seq<char>| c.status.contains_key(d) && #[trigger] c.status[d] == SsDistributionStatus::Delivered;
        assert(c.status.contains_key(d) && c.status[d] == SsDistributionStatus::Delivered);
    }
    if exists|d: Seq<char>| c.status.contains_key(d) && #[trigger] c.status[d] == SsDistributionStatus::Sent {
        let d = choose|d: Seq<char>| c.status.contains_key(d) && #[trigger] c.status[d] == SsDistributionStatus::Sent;
        assert(c.status.contains_key(d) && c.status[d] == SsDistributionStatus::Sent);
    }
}

/// A claim to distribute a secret among devices (split), or to collect shares back (recover).
#[derive(Debug)]
pub struct SsClaim {
    /// The unique identifier (in the log) of the claim
    pub id: ClaimId,
    pub dist_claim_id: SsClaimId,
    pub vault_name: VaultName,
    pub sender: DeviceId,
    pub distribution_type: SecretDistributionType,
    /// All receivers of secret shares excluding the sender (the sender already has a share).
    pub receivers: Vec<DeviceId>,
    pub status: SsDistributionCompositeStatus,
    pub client_status: Option<RecoveryClientStatus>,
}

impl View for SsClaim {
    type V = SsClaimView;

    open spec fn view(&self) -> SsClaimView {
        SsClaimView {
            id: self.id@,
            dist_claim_id: self.dist_claim_id@,
            vault_name: self.vault_name@,
            sender: self.sender@,
            distribution_type: self.distribution_type,
            receivers: views_of(self.receivers@),
            status: self.status@,
            client_status: self.client_status,
        }
    }
}

pub fn clone_device_ids(ids: &Vec<DeviceId>) -> (r: Vec<DeviceId>)
    ensures
        r@ == ids@,
{
    let mut out: Vec<DeviceId> = Vec::new();
    let mut i: usize = 0;
    while i < ids.len()
        invariant
            i <= ids.len(),
            out@ == ids@.take(i as int),
        decreases ids.len() - i,
    {
        out.push(ids[i].clone());
        i = i + 1;
        assert(out@ =~= ids@.take(i as int));
    }
    assert(out@ =~= ids@);
    out
}

impl ViewClone for SsClaim {
    fn view_clone(&self) -> (r: Self) {
        SsClaim {
            id: self.id.clone(),
            dist_claim_id: self.dist_claim_id.clone(),
            vault_name: self.vault_name.clone(),
            sender: self.sender.clone(),
            distribution_type: self.distribution_type,
            receivers: clone_device_ids(&self.receivers),
            status: self.status.view_clone(),
            client_status: self.client_status,
        }
    }
}

impl Clone for SsClaim {
    fn clone(&self) -> (r: Self)
        ensures
            r@ == self@,
    {
        self.view_clone()
    }
}

/// Whether the device is among the ids.
pub fn contains_device(ids: &Vec<DeviceId>, device: &DeviceId) -> (r: bool)
    ensures
        r == views_of(ids@).contains(device@),
{
    let mut i: usize = 0;
    while i < ids.len()
        invariant
            i <= ids.len(),
            forall|j: int| 0 <= j < i ==> (#[trigger] ids@[j])@ != device@,
        decreases ids.len() - i,
    {
        if ids[i] == *device {
            proof {
                assert(views_of(ids@)[i as int] == device@);
            }
            return true;
        }
        i = i + 1;
    }
    proof {
        if views_of(ids@).contains(device@) {
            let j = choose|j: int| 0 <= j < views_of(ids@).len() && views_of(ids@)[j] == device@;
            assert(ids@[j]@ == device@);
        }
    }
    false
}

impl SsClaim {
    /// One distribution id per receiver, in receiver order.
    pub fn distribution_ids(&self) -> (r: Vec<SsDistributionId>)
        ensures
            r@.len() == self.receivers@.len(),
            forall|i: int| 0 <= i < r@.len() ==> (#[trigger] r@[i]).pass_id == self.dist_claim_id.pass_id
                && r@[i].receiver == self.receivers@[i],
    {
        let mut ids: Vec<SsDistributionId> = Vec::new();
        let mut i: usize = 0;
        while i < self.receivers.len()
            invariant
                i <= self.receivers.len(),
                ids@.len() == i,
                forall|j: int| 0 <= j < i ==> (#[trigger] ids@[j]).pass_id == self.dist_claim_id.pass_id
                    && ids@[j].receiver == self.receivers@[j],
            decreases self.receivers.len() - i,
        {
            ids.push(SsDistributionId {
                pass_id: self.dist_claim_id.pass_id.clone(),
                receiver: self.receivers[i].clone(),
            });
            i = i + 1;
        }
        ids
    }

    /// One recovery id per receiver, in receiver order.
    pub fn recovery_db_ids(&self) -> (r: Vec<SsRecoveryId>)
        ensures
            r@.len() == self.receivers@.len(),
            forall|i: int| 0 <= i < r@.len() ==> (#[trigger] r@[i]).claim_id == self.dist_claim_id
                && r@[i].sender == self.sender
                && r@[i].distribution_id.pass_id == self.dist_claim_id.pass_id
                && r@[i].distribution_id.receiver == self.receivers@[i],
    {
        let mut ids: Vec<SsRecoveryId> = Vec::new();
        let mut i: usize = 0;
        while i < self.receivers.len()
            invariant
                i <= self.receivers.len(),
                ids@.len() == i,
                forall|j: int| 0 <= j < i ==> (#[trigger] ids@[j]).claim_id == self.dist_claim_id
                    && ids@[j].sender == self.sender
                    && ids@[j].distribution_id.pass_id == self.dist_claim_id.pass_id
                    && ids@[j].distribution_id.receiver == self.receivers@[j],
            decreases self.receivers.len() - i,
        {
            ids.push(SsRecoveryId {
                claim_id: self.dist_claim_id.clone(),
                sender: self.sender.clone(),
                distribution_id: SsDistributionId {
                    pass_id: self.dist_claim_id.pass_id.clone(),
                    receiver: self.receivers[i].clone(),
                },
            });
            i = i + 1;
        }
        ids
    }

    /// What the given device shows about this claim.
    pub fn compute_client_status(&self, current_device: &DeviceId) -> (r: Option<RecoveryClientStatus>)
        ensures
            r == client_status_of(self@, current_device@),
    {
        if self.distribution_type != SecretDistributionType::Recover {
            return None;
        }
        let is_sender = self.sender == *current_device;
        let is_receiver = contains_device(&self.receivers, current_device);
        let total = self.receivers.len();
        let any_sent = self.status.any_with(SsDistributionStatus::Sent);
        let any_delivered = self.status.any_with(SsDistributionStatus::Delivered);
        let num_declined = self.status.count_with(SsDistributionStatus::Declined);
        if is_sender {
            if any_delivered {
                Some(RecoveryClientStatus::Done)
            } else if any_sent {
                Some(RecoveryClientStatus::Accepted)
            } else if num_declined >= total {
                Some(RecoveryClientStatus::Declined)
            } else {
                Some(RecoveryClientStatus::Pending)
            }
        } else if is_receiver {
            if any_sent {
                Some(RecoveryClientStatus::Done)
            } else {
                match self.status.get(current_device) {
                    Some(SsDistributionStatus::Pending) | None => Some(RecoveryClientStatus::NeedApprove),
                    _ => Some(RecoveryClientStatus::Done),
                }
            }
        } else {
            None
        }
    }
}

/// All claims of a vault, by claim id.
#[derive(Debug)]
pub struct SsLogData {
    pub claims: VecMap<ClaimId, SsClaim>,
}

impl View for SsLogData {
    type V = Map<Seq<char>, SsClaimView>;

    open spec fn view(&self) -> Map<Seq<char>, SsClaimView> {
        self.claims@
    }
}

impl ViewClone for SsLogData {
    fn view_clone(&self) -> (r: Self) {
        SsLogData { claims: self.claims.view_clone() }
    }
}

impl Clone for SsLogData {
    fn clone(&self) -> (r: Self)
        ensures
            r@ == self@,
    {
        self.view_clone()
    }
}

impl Default for SsLogData {
    fn default() -> (r: Self)
        ensures
            r@ == Map::<Seq<char>, SsClaimView>::empty(),
    {
        SsLogData { claims: VecMap::new() }
    }
}

/// A claim from which a recovery can still be completed: a recovery claim for the
/// password whose client status is pending or accepted.
pub open spec fn is_active_recovery_for(c: SsClaimView, pass_id: (Seq<char>, Seq<char>)) -> bool {
    &&& c.distribution_type == SecretDistributionType::Recover
    &&& c.pass_id() == pass_id
    &&& (c.client_status == Some(RecoveryClientStatus::Pending) || c.client_status == Some(
        RecoveryClientStatus::Accepted,
    ))
}

/// A recovery claim by `sender` for the password that is neither declined nor done.
pub open spec fn is_open_recovery_by(c: SsClaimView, sender: Seq<char>, pass_id: (Seq<char>, Seq<char>)) -> bool {
    &&& c.distribution_type == SecretDistributionType::Recover
    &&& c.sender == sender
    &&& c.pass_id() == pass_id
    &&& c.client_status != Some(RecoveryClientStatus::Declined)
    &&& c.client_status != Some(RecoveryClientStatus::Done)
}

/// A recovery claim for the password.
pub open spec fn is_recovery_for(c: SsClaimView, pass_id: (Seq<char>, Seq<char>)) -> bool {
    &&& c.distribution_type == SecretDistributionType::Recover
    &&& c.pass_id() == pass_id
}

/// The log after replacing the status of one claim, when the claim is there.
pub open spec fn with_claim_status(
    log: Map<Seq<char>, SsClaimView>,
    claim_id: Seq<char>,
    status: Map<Seq<char>, SsDistributionStatus>,
) -> Map<Seq<char>, SsClaimView> {
    if log.contains_key(claim_id) {
        log.insert(claim_id, log[claim_id].with_status(status))
    } else {
        log
    }
}

/// The id of the first claim of the entries, in their order, that is an active recovery
/// claim for the password.
pub open spec fn first_active_recovery_id(s: Seq<(ClaimId, SsClaim)>, pass_id: (Seq<char>, Seq<char>)) -> Option<Seq<char>>
    decreases s.len(),
{
    if s.len() == 0 {
        None
    } else if is_active_recovery_for(s[0].1@, pass_id) {
        Some(s[0].1.id@)
    } else {
        first_active_recovery_id(s.drop_first(), pass_id)
    }
}

proof fn lemma_first_active_recovery_step(s: Seq<(ClaimId, SsClaim)>, i: int, pass_id: (Seq<char>, Seq<char>))
    requires
        0 <= i < s.len(),
    ensures
        first_active_recovery_id(s.skip(i), pass_id) == if is_active_recovery_for(s[i].1@, pass_id) {
            Some(s[i].1.id@)
        } else {
            first_active_recovery_id(s.skip(i + 1), pass_id)
        },
{
    assert(s.skip(i).drop_first() =~= s.skip(i + 1));
    assert(s.skip(i)[0] == s[i]);
}

impl SsLogData {
    pub fn new(claim: SsClaim) -> (r: Self)
        ensures
            r@ == Map::<Seq<char>, SsClaimView>::empty().insert(claim.id@, claim@),
    {
        let claims = VecMap::new();
        let key = claim.id.clone();
        SsLogData { claims: claims.insert(key, claim) }
    }

    /// Add a claim, replacing one with the same id.
    pub fn insert(self, claim: SsClaim) -> (r: Self)
        ensures
            r@ == self@.insert(claim.id@, claim@),
    {
        let key = claim.id.clone();
        SsLogData { claims: self.claims.insert(key, claim) }
    }

    /// The id of a recovery claim for the password that is still active, if there is one.
    pub fn find_recovery_claim_id(&self, pass_id: &MetaPasswordId) -> (r: Option<ClaimId>)
        ensures
            r is None <==> !(exists|k: Seq<char>| #[trigger] self@.contains_key(k) && is_active_recovery_for(self@[k], pass_id@)),
            r matches Some(id) ==> exists|k: Seq<char>| #[trigger] self@.contains_key(k) && is_active_recovery_for(
                self@[k],
                pass_id@,
            ) && self@[k].id == id@,
            match first_active_recovery_id(self.claims.entry_seq(), pass_id@) {
                Some(x) => r matches Some(id) && id@ == x,
                None => r is None,
            },
    {
        proof {
            use_type_invariant(&self.claims);
            self.claims.lemma_entries();
            assert(self.claims.entry_seq().skip(0) =~= self.claims.entry_seq());
        }
        let entries = self.claims.as_vec();
        let mut i: usize = 0;
        while i < entries.len()
            invariant
                entries@ == self.claims.entry_seq(),
                i <= entries.len(),
                first_active_recovery_id(entries@, pass_id@) == first_active_recovery_id(entries@.skip(i as int), pass_id@),
                forall|j: int| 0 <= j < i ==> !is_active_recovery_for((#[trigger] entries@[j]).1@, pass_id@),
                forall|j: int| 0 <= j < entries@.len() ==> self@.contains_key((#[trigger] entries@[j]).0@)
                    && self@[entries@[j].0@] == entries@[j].1@,
            decreases entries.len() - i,
        {
            let claim = &entries[i].1;
            proof {
                lemma_first_active_recovery_step(entries@, i as int, pass_id@);
            }
            if claim.distribution_type == SecretDistributionType::Recover && *pass_id == claim.dist_claim_id.pass_id {
                match claim.client_status {
                    Some(RecoveryClientStatus::Pending) | Some(RecoveryClientStatus::Accepted) => {
                        proof {
                            assert(self@[entries@[i as int].0@] == claim@);
                        }
                        return Some(claim.id.clone());
                    },
                    _ => {},
                }
            }
            i = i + 1;
        }
        proof {
            assert(entries@.skip(i as int).len() == 0);
            if exists|k: Seq<char>| #[trigger] self@.contains_key(k) && is_active_recovery_for(self@[k], pass_id@) {
                let k = choose|k: Seq<char>| #[trigger] self@.contains_key(k) && is_active_recovery_for(self@[k], pass_id@);
                let j = choose|j: int| 0 <= j < entries@.len() && (#[trigger] self.claims.entry_seq()[j]).0@ == k;
                assert(!is_active_recovery_for(entries@[j].1@, pass_id@));
            }
        }
        None
    }

    /// A recovery claim for the password, if there is one.
    pub fn find_recovery_claim(&self, pass_id: &MetaPasswordId) -> (r: Option<SsClaim>)
        ensures
            r is None <==> !(exists|k: Seq<char>| #[trigger] self@.contains_key(k) && is_recovery_for(self@[k], pass_id@)),
            r matches Some(c) ==> (exists|k: Seq<char>| #[trigger] self@.contains_key(k) && self@[k] == c@)
                && is_recovery_for(c@, pass_id@),
    {
        proof {
            use_type_invariant(&self.claims);
            self.claims.lemma_entries();
        }
        let entries = self.claims.as_vec();
        let mut i: usize = 0;
        while i < entries.len()
            invariant
                entries@ == self.claims.entry_seq(),
                i <= entries.len(),
                forall|j: int| 0 <= j < i ==> !is_recovery_for((#[trigger] entries@[j]).1@, pass_id@),
                forall|j: int| 0 <= j < entries@.len() ==> self@.contains_key((#[trigger] entries@[j]).0@)
                    && self@[entries@[j].0@] == entries@[j].1@,
            decreases entries.len() - i,
        {
            let claim = &entries[i].1;
            proof {
                lemma_first_active_recovery_step(entries@, i as int, pass_id@);
            }
            if claim.distribution_type == SecretDistributionType::Recover && *pass_id == claim.dist_claim_id.pass_id {
                proof {
                    assert(self@.contains_key(entries@[i as int].0@));
                }
                return Some(claim.clone());
            }
            i = i + 1;
        }
        proof {
            if exists|k: Seq<char>| #[trigger] self@.contains_key(k) && is_recovery_for(self@[k], pass_id@) {
                let k = choose|k: Seq<char>| #[trigger] self@.contains_key(k) && is_recovery_for(self@[k], pass_id@);
                let j = choose|j: int| 0 <= j < entries@.len() && (#[trigger] self.claims.entry_seq()[j]).0@ == k;
                assert(!is_recovery_for(entries@[j].1@, pass_id@));
            }
        }
        None
    }

    /// Mark a receiver of a claim as sent.
    pub fn sent(self, claim_id: ClaimId, device_id: DeviceId) -> (r: Self)
        ensures
            r@ == with_claim_status(self@, claim_id@, self@[claim_id@].status.insert(device_id@, SsDistributionStatus::Sent)),
    {
        let (claims, maybe_claim) = self.claims.remove(&claim_id);
        match maybe_claim {
            Some(mut claim) => {
                claim.status = claim.status.sent(device_id);
                proof {
                    assert(claims@.insert(claim_id@, claim@) =~= self@.insert(claim_id@, self@[claim_id@].with_status(claim.status@)));
                }
                SsLogData { claims: claims.insert(claim_id, claim) }
            },
            None => {
                proof {
                    assert(claims@ =~= self@);
                }
                SsLogData { claims }
            },
        }
    }

    /// Decline every receiver of a claim that is still pending.
    pub fn decline_remaining_pending(self, claim_id: ClaimId) -> (r: Self)
        ensures
            r@ == with_claim_status(
                self@,
                claim_id@,
                self@[claim_id@].status.map_values(|s: SsDistributionStatus| decline_pending(s)),
            ),
    {
        let (claims, maybe_claim) = self.claims.remove(&claim_id);
        match maybe_claim {
            Some(mut claim) => {
                claim.status = claim.status.decline_remaining_pending();
                proof {
                    assert(claims@.insert(claim_id@, claim@) =~= self@.insert(claim_id@, self@[claim_id@].with_status(claim.status@)));
                }
                SsLogData { claims: claims.insert(claim_id, claim) }
            },
            None => {
                proof {
                    assert(claims@ =~= self@);
                }
                SsLogData { claims }
            },
        }
    }

    /// Mark a receiver of a claim as delivered; the claim stays in the log.
    pub fn complete(self, claim_id: ClaimId, device_id: DeviceId) -> (r: Self)
        ensures
            r@ == with_claim_status(self@, claim_id@, self@[claim_id@].status.insert(device_id@, SsDistributionStatus::Delivered)),
    {
        let (claims, maybe_claim) = self.claims.remove(&claim_id);
        match maybe_claim {
            Some(mut claim) => {
                claim.status = claim.status.complete(device_id);
                proof {
                    assert(claims@.insert(claim_id@, claim@) =~= self@.insert(claim_id@, self@[claim_id@].with_status(claim.status@)));
                }
                SsLogData { claims: claims.insert(claim_id, claim) }
            },
            None => {
                proof {
                    assert(claims@ =~= self@);
                }
                SsLogData { claims }
            },
        }
    }

    /// Complete a recovery: the receiver gets the given status, then the sender becomes delivered.
    pub fn complete_with_receiver_status(
        self,
        claim_id: ClaimId,
        sender_id: DeviceId,
        receiver_id: DeviceId,
        receiver_status: SsDistributionStatus,
    ) -> (r: Self)
        ensures
            r@ == with_claim_status(
                self@,
                claim_id@,
                self@[claim_id@].status.insert(receiver_id@, receiver_status).insert(
                    sender_id@,
                    SsDistributionStatus::Delivered,
                ),
            ),
    {
        let (claims, maybe_claim) = self.claims.remove(&claim_id);
        match maybe_claim {
            Some(mut claim) => {
                claim.status = claim.status.set_status(receiver_id, receiver_status);
                claim.status = claim.status.complete(sender_id);
                proof {
                    assert(claims@.insert(claim_id@, claim@) =~= self@.insert(claim_id@, self@[claim_id@].with_status(claim.status@)));
                }
                SsLogData { claims: claims.insert(claim_id, claim) }
            },
            None => {
                proof {
                    assert(claims@ =~= self@);
                }
                SsLogData { claims }
            },
        }
    }

    /// Mark a receiver of a claim as declined; the claim stays in the log.
    pub fn decline(self, claim_id: ClaimId, device_id: DeviceId) -> (r: Self)
        ensures
            r@ == with_claim_status(self@, claim_id@, self@[claim_id@].status.insert(device_id@, SsDistributionStatus::Declined)),
    {
        let (claims, maybe_claim) = self.claims.remove(&claim_id);
        match maybe_claim {
            Some(mut claim) => {
                claim.status = claim.status.decline(device_id);
                proof {
                    assert(claims@.insert(claim_id@, claim@) =~= self@.insert(claim_id@, self@[claim_id@].with_status(claim.status@)));
                }
                SsLogData { claims: claims.insert(claim_id, claim) }
            },
            None => {
                proof {
                    assert(claims@ =~= self@);
                }
                SsLogData { claims }
            },
        }
    }

    /// Fill in, for every claim, what the given device shows about it.
    pub fn with_client_status(self, current_device: &DeviceId) -> (r: Self)
        ensures
            r@ == self@.map_values(|c: SsClaimView| c.with_client_status(client_status_of(c, current_device@))),
    {
        proof {
            use_type_invariant(&self.claims);
            self.claims.lemma_entries();
        }
        let ghost target = self@.map_values(|c: SsClaimView| c.with_client_status(client_status_of(c, current_device@)));
        let entries = self.claims.as_vec();
        let mut out: VecMap<ClaimId, SsClaim> = VecMap::new();
        let mut i: usize = 0;
        while i < entries.len()
            invariant
                entries@ == self.claims.entry_seq(),
                i <= entries.len(),
                target == self@.map_values(|c: SsClaimView| c.with_client_status(client_status_of(c, current_device@))),
                forall|k: Seq<char>| #[trigger] out@.contains_key(k) <==> exists|j: int|
                    0 <= j < i && (#[trigger] entries@[j]).0@ == k,
                forall|k: Seq<char>| #[trigger] out@.contains_key(k) ==> self@.contains_key(k) && out@[k] == target[k],
                forall|j: int| 0 <= j < entries@.len() ==> self@.contains_key((#[trigger] entries@[j]).0@)
                    && self@[entries@[j].0@] == entries@[j].1@,
            decreases entries.len() - i,
        {
            let e = &entries[i];
            let mut claim = e.1.view_clone();
            claim.client_status = claim.compute_client_status(current_device);
            let ghost before = out@;
            out = out.insert(e.0.clone(), claim);
            proof {
                assert forall|k: Seq<char>| #[trigger] out@.contains_key(k) <==> exists|j: int|
                    0 <= j < i + 1 && (#[trigger] entries@[j]).0@ == k by {
                    if out@.contains_key(k) && k != e.0@ {
                        assert(before.contains_key(k));
                    }
                    if k == e.0@ {
                        assert(entries@[i as int].0@ == k);
                    }
                    if exists|j: int| 0 <= j < i + 1 && (#[trigger] entries@[j]).0@ == k {
                        let j = choose|j: int| 0 <= j < i + 1 && (#[trigger] entries@[j]).0@ == k;
                        if j < i {
                            assert(before.contains_key(k));
                        }
                    }
                }
            }
            i = i + 1;
        }
        proof {
            assert(out@ =~= target) by {
                assert forall|k: Seq<char>| #[trigger] out@.contains_key(k) == self@.contains_key(k) by {
                    if self@.contains_key(k) {
                        let j = choose|j: int| 0 <= j < entries@.len() && (#[trigger] self.claims.entry_seq()[j]).0@ == k;
                        assert(entries@[j].0@ == k);
                    }
                }
            }
        }
        SsLogData { claims: out }
    }

    /// Whether the sender already has an open recovery claim for the password
    /// (read after `with_client_status` has filled in the client statuses).
    pub fn has_active_recovery_claim(&self, sender: &DeviceId, pass_id: &MetaPasswordId) -> (r: bool)
        ensures
            r == exists|k: Seq<char>| #[trigger] self@.contains_key(k) && is_open_recovery_by(self@[k], sender@, pass_id@),
    {
        proof {
            use_type_invariant(&self.claims);
            self.claims.lemma_entries();
        }
        let entries = self.claims.as_vec();
        let mut i: usize = 0;
        while i < entries.len()
            invariant
                entries@ == self.claims.entry_seq(),
                i <= entries.len(),
                forall|j: int| 0 <= j < i ==> !is_open_recovery_by((#[trigger] entries@[j]).1@, sender@, pass_id@),
                forall|j: int| 0 <= j < entries@.len() ==> self@.contains_key((#[trigger] entries@[j]).0@)
                    && self@[entries@[j].0@] == entries@[j].1@,
            decreases entries.len() - i,
        {
            let claim = &entries[i].1;
            let closed = match claim.client_status {
                Some(RecoveryClientStatus::Declined) | Some(RecoveryClientStatus::Done) => true,
                _ => false,
            };
            if claim.distribution_type == SecretDistributionType::Recover && claim.sender == *sender
                && claim.dist_claim_id.pass_id == *pass_id && !closed {
                proof {
                    assert(self@[entries@[i as int].0@] == claim@);
                }
                return true;
            }
            i = i + 1;
        }
        proof {
            if exists|k: Seq<char>| #[trigger] self@.contains_key(k) && is_open_recovery_by(self@[k], sender@, pass_id@) {
                let k = choose|k: Seq<char>| #[trigger] self@.contains_key(k) && is_open_recovery_by(self@[k], sender@, pass_id@);
                let j = choose|j: int| 0 <= j < entries@.len() && (#[trigger] self.claims.entry_seq()[j]).0@ == k;
                assert(!is_open_recovery_by(entries@[j].1@, sender@, pass_id@));
            }
        }
        false
    }
}

/// The claims log, in the shape the user interface reads it.
#[derive(Debug)]
pub struct WasmSsLogData(pub SsLogData);

impl WasmSsLogData {
    pub fn from(data: SsLogData) -> (r: Self)
        ensures
            r.0@ == data@,
    {
        WasmSsLogData(data)
    }
}

/// A claim, in the shape the user interface reads it.
#[derive(Debug)]
pub struct WasmSsDistributionClaim(pub SsClaim);

impl WasmSsDistributionClaim {
    pub fn from(claim: SsClaim) -> (r: Self)
        ensures
            r.0@ == claim@,
    {
        WasmSsDistributionClaim(claim)
    }
}

} // verus!
