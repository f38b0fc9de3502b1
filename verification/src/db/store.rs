//! An event store kept in memory, and the queries that walk the events of an object:
//! an object's events are stored under consecutive ids, starting at its first id.
use vstd::prelude::*;
use crate::collections::{KeyEq, VecMap};
use crate::error::CoreError;
use crate::db::descriptors::{ObjectDescriptor, ToObjectDescriptor};
use crate::db::events::{GenericKvLogEvent, ObjIdExtractor};
use crate::db::generic_db::{DbCleanUpCommand, DeleteCommand, FindOneQuery, KvLogEventRepo, SaveCommand};
use crate::db::object_id::{ArtifactId, Next, SeqId};

verus! {

/// The abstract id of an event: the object's type and instance, and its sequence id.
pub type IdView = ((Seq<char>, Seq<char>), SeqId);

/// The id after `id`, when there is one.
pub open spec fn next_id(id: IdView) -> IdView {
    (id.0, SeqId { curr: (id.1.curr + 1) as usize, prev: (id.1.prev + 1) as usize })
}

pub open spec fn has_next_id(id: IdView) -> bool {
    id.1.curr < usize::MAX && id.1.prev < usize::MAX
}

/// The ids of the events stored one after the other from `id` on.
pub open spec fn chain_ids(keys: Set<IdView>, id: IdView) -> Seq<IdView>
    decreases usize::MAX - id.1.curr,
{
    if !keys.contains(id) {
        Seq::empty()
    } else if has_next_id(id) {
        seq![id] + chain_ids(keys, next_id(id))
    } else {
        seq![id]
    }
}

/// The last of the events stored one after the other from `id`, which is stored.
pub open spec fn tail_id(keys: Set<IdView>, id: IdView) -> IdView
    decreases usize::MAX - id.1.curr,
{
    if has_next_id(id) && keys.contains(next_id(id)) {
        tail_id(keys, next_id(id))
    } else {
        id
    }
}

/// The first id of the object that the descriptor names.
pub open spec fn first_id_of(d: ObjectDescriptor) -> IdView {
    ((d.obj_type(), d.obj_instance()), SeqId { curr: 1, prev: 0 })
}

/// The last event of the object whose first id is `first`, when the object has one.
pub open spec fn tail_event(events: Map<IdView, GenericKvLogEvent>, first: IdView) -> Option<GenericKvLogEvent> {
    if events.contains_key(first) {
        Some(events[tail_id(events.dom(), first)])
    } else {
        None
    }
}

/// The id the next event of the object whose first id is `first` gets.
pub open spec fn free_id(events: Map<IdView, GenericKvLogEvent>, first: IdView) -> IdView {
    if events.contains_key(first) {
        next_id(tail_id(events.dom(), first))
    } else {
        first
    }
}

/// Whether the object whose first id is `first` still has a free id.
pub open spec fn has_free_id(events: Map<IdView, GenericKvLogEvent>, first: IdView) -> bool {
    events.contains_key(first) ==> has_next_id(tail_id(events.dom(), first))
}

/// Whether `n` more events of the object can still be stored after its last one.
pub open spec fn has_room(events: Map<IdView, GenericKvLogEvent>, first: IdView, n: nat) -> bool {
    if events.contains_key(first) {
        tail_id(events.dom(), first).1.curr + n <= usize::MAX
    } else {
        first.1.curr + n <= usize::MAX + 1
    }
}

/// The events after saving each of `s`, in order, under its own id.
pub open spec fn save_all(events: Map<IdView, GenericKvLogEvent>, s: Seq<GenericKvLogEvent>) -> Map<IdView, GenericKvLogEvent>
    decreases s.len(),
{
    if s.len() == 0 {
        events
    } else {
        save_all(events, s.drop_last()).insert(s.last().key_of().obj_id@, s.last())
    }
}

/// Events by id; every event is stored under its own id.
#[derive(Debug)]
pub struct InMemKvLogEventRepo {
    db: VecMap<ArtifactId, GenericKvLogEvent>,
}

impl InMemKvLogEventRepo {
    #[verifier::type_invariant]
    closed spec fn wf(self) -> bool {
        forall|k: IdView| #[trigger] self.db@.contains_key(k) ==> self.db@[k].key_of().obj_id@ == k
    }

    pub fn new() -> (r: Self)
        ensures
            r.events() == Map::<IdView, GenericKvLogEvent>::empty(),
    {
        InMemKvLogEventRepo { db: VecMap::new() }
    }

    pub fn len(&self) -> (r: usize)
        ensures
            r == self.events().len(),
    {
        self.db.len()
    }
}

impl FindOneQuery for InMemKvLogEventRepo {
    closed spec fn events(&self) -> Map<IdView, GenericKvLogEvent> {
        self.db@
    }

    fn find_one(&self, key: &ArtifactId) -> (r: Option<&GenericKvLogEvent>) {
        proof {
            use_type_invariant(self);
        }
        self.db.get(key)
    }

    fn get_key(&self, key: &ArtifactId) -> (r: Option<ArtifactId>) {
        proof {
            use_type_invariant(self);
        }
        match self.db.get(key) {
            Some(event) => Some(event.obj_id()),
            None => None,
        }
    }
}

impl SaveCommand for InMemKvLogEventRepo {
    fn save(&mut self, value: GenericKvLogEvent) -> (r: ArtifactId) {
        proof {
            use_type_invariant(&*self);
        }
        let key = value.obj_id();
        let mut db = VecMap::new();
        std::mem::swap(&mut db, &mut self.db);
        self.db = db.insert(key.clone(), value);
        key
    }
}

impl DeleteCommand for InMemKvLogEventRepo {
    fn delete(&mut self, key: &ArtifactId) {
        proof {
            use_type_invariant(&*self);
        }
        let mut db = VecMap::new();
        std::mem::swap(&mut db, &mut self.db);
        let (db, _) = db.remove(key);
        self.db = db;
    }
}

impl DbCleanUpCommand for InMemKvLogEventRepo {
    fn db_clean_up(&mut self) {
        self.db = VecMap::new();
    }
}

impl KvLogEventRepo for InMemKvLogEventRepo {
}

/// The queries over an object's events.
#[derive(Debug)]
pub struct PersistentObject<Repo: KvLogEventRepo> {
    pub repo: Repo,
}

impl<Repo: KvLogEventRepo> PersistentObject<Repo> {
    pub fn new(repo: Repo) -> (r: Self)
        ensures
            r.repo == repo,
    {
        PersistentObject { repo }
    }

    /// The last of the events stored one after the other from `curr_id`; nothing when there
    /// is no event at `curr_id`.
    pub fn find_tail_id(&self, curr_id: &ArtifactId) -> (r: Option<ArtifactId>)
        ensures
            r is None <==> !self.repo.events().contains_key(curr_id@),
            r matches Some(t) ==> t@ == tail_id(self.repo.events().dom(), curr_id@),
    {
        match self.repo.find_one(curr_id) {
            None => None,
            Some(first) => {
                let mut existing = first.obj_id();
                loop
                    invariant
                        self.repo.events().contains_key(curr_id@),
                        self.repo.events().contains_key(existing@),
                        tail_id(self.repo.events().dom(), existing@) == tail_id(
                            self.repo.events().dom(),
                            curr_id@,
                        ),
                    decreases usize::MAX - existing.id.curr,
                {
                    if !existing.can_advance() {
                        return Some(existing);
                    }
                    let next = existing.clone().next();
                    match self.repo.find_one(&next) {
                        Some(found) => {
                            existing = found.obj_id();
                        },
                        None => {
                            return Some(existing);
                        },
                    }
                }
            },
        }
    }

    /// The ids of the events stored one after the other from `tail_id`.
    pub fn find_object_events(&self, tail_id: &ArtifactId) -> (r: Vec<ArtifactId>)
        ensures
            r@.map_values(|id: ArtifactId| id@) == chain_ids(self.repo.events().dom(), tail_id@),
    {
        let mut ids: Vec<ArtifactId> = Vec::new();
        let mut curr = tail_id.clone();
        loop
            invariant
                ids@.map_values(|id: ArtifactId| id@) + chain_ids(self.repo.events().dom(), curr@) == chain_ids(
                    self.repo.events().dom(),
                    tail_id@,
                ),
            decreases usize::MAX - curr.id.curr,
        {
            let ghost before = ids@;
            match self.repo.get_key(&curr) {
                None => {
                    proof {
                        assert(ids@.map_values(|id: ArtifactId| id@) =~= chain_ids(self.repo.events().dom(), tail_id@));
                    }
                    return ids;
                },
                Some(_) => {
                    ids.push(curr.clone());
                    if !curr.can_advance() {
                        proof {
                            assert(ids@.map_values(|id: ArtifactId| id@) =~= before.map_values(|id: ArtifactId| id@).push(curr@));
                        }
                        return ids;
                    }
                    let next = curr.next();
                    proof {
                        assert(ids@.map_values(|id: ArtifactId| id@) =~= before.map_values(|id: ArtifactId| id@).push(curr@));
                    }
                    curr = next;
                },
            }
        }
    }

    /// The first id of the object that the descriptor names.
    pub fn first_id<Desc: ToObjectDescriptor>(obj_desc: Desc) -> (r: ArtifactId)
        ensures
            r.fqdn.obj_type@ == obj_desc.descriptor().obj_type(),
            r.fqdn.obj_instance@ == obj_desc.descriptor().obj_instance(),
            r.id == (SeqId { curr: 1, prev: 0 }),
    {
        ArtifactId::from_descriptor(obj_desc)
    }

    /// The last event id of the object that the descriptor names.
    pub fn find_tail_id_by_obj_desc<Desc: ToObjectDescriptor>(&self, obj_desc: Desc) -> (r: Option<ArtifactId>)
        ensures
            ({
                let first = ((obj_desc.descriptor().obj_type(), obj_desc.descriptor().obj_instance()), SeqId {
                    curr: 1,
                    prev: 0,
                });
                &&& r is None <==> !self.repo.events().contains_key(first)
                &&& r matches Some(t) ==> t@ == tail_id(self.repo.events().dom(), first)
            }),
    {
        let first = ArtifactId::from_descriptor(obj_desc);
        self.find_tail_id(&first)
    }

    /// The id the next event of the object gets: after its last event, or its first id.
    pub fn find_free_id(&self, obj_id: &ArtifactId) -> (r: ArtifactId)
        requires
            has_next_id(tail_id(self.repo.events().dom(), obj_id@)),
        ensures
            self.repo.events().contains_key(obj_id@) ==> r@ == next_id(tail_id(self.repo.events().dom(), obj_id@)),
            !self.repo.events().contains_key(obj_id@) ==> r.fqdn@ == obj_id.fqdn@ && r.id == (SeqId {
                curr: 1,
                prev: 0,
            }),
    {
        match self.find_tail_id(obj_id) {
            Some(tail) => tail.next(),
            None => obj_id.clone().first(),
        }
    }

    /// The ids of all events of the object that the descriptor names, from its first.
    pub fn get_object_events_from_beginning<Desc: ToObjectDescriptor>(&self, obj_desc: Desc) -> (r: Vec<
        ArtifactId,
    >)
        ensures
            r@.map_values(|id: ArtifactId| id@) == chain_ids(
                self.repo.events().dom(),
                ((obj_desc.descriptor().obj_type(), obj_desc.descriptor().obj_instance()), SeqId { curr: 1, prev: 0 }),
            ),
    {
        let first = ArtifactId::from_descriptor(obj_desc);
        self.find_object_events(&first)
    }

    /// The last event of the object that the descriptor names.
    pub fn find_tail_event<Desc: ToObjectDescriptor>(&self, obj_desc: Desc) -> (r: Option<&GenericKvLogEvent>)
        ensures
            r is None <==> tail_event(self.repo.events(), first_id_of(obj_desc.descriptor())) is None,
            r matches Some(e) ==> tail_event(self.repo.events(), first_id_of(obj_desc.descriptor())) == Some(*e)
                && e.key_of().obj_id@ == tail_id(self.repo.events().dom(), first_id_of(obj_desc.descriptor())),
    {
        match self.find_tail_id_by_obj_desc(obj_desc) {
            None => None,
            Some(tail) => {
                let ghost first = first_id_of(obj_desc.descriptor());
                proof {
                    law_tail_ends_the_chain(self.repo.events().dom(), first);
                }
                self.repo.find_one(&tail)
            },
        }
    }

    /// The id the next event of the object that the descriptor names gets: after its last
    /// event, or its first id; an object whose last event has the greatest id has none.
    pub fn find_free_id_by_obj_desc<Desc: ToObjectDescriptor>(&self, obj_desc: Desc) -> (r: Result<
        ArtifactId,
        CoreError,
    >)
        ensures
            r is Ok <==> has_free_id(self.repo.events(), first_id_of(obj_desc.descriptor())),
            r matches Ok(id) ==> id@ == free_id(self.repo.events(), first_id_of(obj_desc.descriptor())),
            r is Err ==> r == Err::<ArtifactId, CoreError>(CoreError::IdExhausted),
    {
        let first = ArtifactId::from_descriptor(obj_desc);
        match self.find_tail_id(&first) {
            None => Ok(first),
            Some(tail) => {
                if tail.can_advance() {
                    Ok(tail.next())
                } else {
                    Err(CoreError::IdExhausted)
                }
            },
        }
    }
}

/// An event read back under the id it was saved under is the event that was saved.
pub proof fn law_read_after_save(events: Map<IdView, GenericKvLogEvent>, event: GenericKvLogEvent)
    ensures
        events.insert(event.key_of().obj_id@, event).contains_key(event.key_of().obj_id@),
        events.insert(event.key_of().obj_id@, event)[event.key_of().obj_id@] == event,
{
}

/// The tail of an object is stored, is the last of its chain of events, and the id after
/// it is free: the free id never overwrites an event of the object.
pub proof fn law_tail_ends_the_chain(keys: Set<IdView>, id: IdView)
    requires
        keys.contains(id),
    ensures
        keys.contains(tail_id(keys, id)),
        chain_ids(keys, id).len() > 0,
        chain_ids(keys, id).last() == tail_id(keys, id),
        has_next_id(tail_id(keys, id)) ==> !keys.contains(next_id(tail_id(keys, id))),
    decreases usize::MAX - id.1.curr,
{
    if has_next_id(id) && keys.contains(next_id(id)) {
        law_tail_ends_the_chain(keys, next_id(id));
        assert((seq![id] + chain_ids(keys, next_id(id))).last() == chain_ids(keys, next_id(id)).last());
    } else if has_next_id(id) {
        assert(chain_ids(keys, next_id(id)) == Seq::<IdView>::empty());
        assert(seq![id] + Seq::<IdView>::empty() =~= seq![id]);
    }
}

/// The last event and the free id of an object are ids of that object.
pub proof fn lemma_tail_id_object(keys: Set<IdView>, id: IdView)
    ensures
        tail_id(keys, id).0 == id.0,
    decreases usize::MAX - id.1.curr,
{
    if has_next_id(id) && keys.contains(next_id(id)) {
        lemma_tail_id_object(keys, next_id(id));
    }
}

pub proof fn lemma_free_id_object(events: Map<IdView, GenericKvLogEvent>, first: IdView)
    ensures
        free_id(events, first).0 == first.0,
{
    lemma_tail_id_object(events.dom(), first);
}

/// The chain of an object ends where it did when an event of another object is stored.
pub proof fn lemma_tail_id_other_insert(keys: Set<IdView>, id: IdView, k: IdView)
    requires
        k.0 != id.0,
    ensures
        tail_id(keys.insert(k), id) == tail_id(keys, id),
    decreases usize::MAX - id.1.curr,
{
    if has_next_id(id) && keys.contains(next_id(id)) {
        lemma_tail_id_other_insert(keys, next_id(id), k);
    }
}

/// The last event and the free id of an object stay what they were when an event of
/// another object is stored.
pub proof fn lemma_tail_event_other_insert(
    events: Map<IdView, GenericKvLogEvent>,
    first: IdView,
    k: IdView,
    e: GenericKvLogEvent,
)
    requires
        k.0 != first.0,
    ensures
        tail_event(events.insert(k, e), first) == tail_event(events, first),
        free_id(events.insert(k, e), first) == free_id(events, first),
        has_free_id(events.insert(k, e), first) == has_free_id(events, first),
        tail_id(events.insert(k, e).dom(), first) == tail_id(events.dom(), first),
{
    assert(events.insert(k, e).dom() =~= events.dom().insert(k));
    lemma_tail_id_other_insert(events.dom(), first, k);
    lemma_tail_id_object(events.dom(), first);
}

/// The id before `id`.
pub open spec fn prev_id(id: IdView) -> IdView {
    (id.0, SeqId { curr: (id.1.curr - 1) as usize, prev: (id.1.prev - 1) as usize })
}

/// Every object's events are stored one after the other from its first id: each id is one
/// past its predecessor, which is stored too, down to the first id.
pub open spec fn contiguous(events: Map<IdView, GenericKvLogEvent>) -> bool {
    forall|k: IdView| #[trigger] events.contains_key(k) ==> {
        &&& k.1.curr >= 1
        &&& k.1.curr == k.1.prev + 1
        &&& k.1.curr > 1 ==> events.contains_key(prev_id(k))
    }
}

/// In a contiguous store, every stored id of an object at or past `id` is reached by
/// walking from `id`: none lies past the tail.
proof fn lemma_none_past_tail(events: Map<IdView, GenericKvLogEvent>, id: IdView, k: IdView)
    requires
        contiguous(events),
        events.contains_key(k),
        k.0 == id.0,
        id.1.curr <= k.1.curr,
        id.1.curr == id.1.prev + 1,
    ensures
        k.1.curr <= tail_id(events.dom(), id).1.curr,
    decreases k.1.curr - id.1.curr,
{
    if k.1.curr == id.1.curr {
        lemma_tail_id_grows(events.dom(), id);
    } else {
        let p = prev_id(k);
        assert(events.contains_key(p));
        lemma_none_past_tail(events, id, p);
        let t = tail_id(events.dom(), id);
        if k.1.curr > t.1.curr {
            lemma_tail_id_object(events.dom(), id);
            lemma_tail_ends(events.dom(), id);
            lemma_tail_id_grows(events.dom(), id);
            assert(p.1.curr == t.1.curr);
            assert(p == t);
            assert(k == next_id(t));
        }
    }
}

proof fn lemma_tail_id_grows(keys: Set<IdView>, id: IdView)
    ensures
        id.1.curr <= tail_id(keys, id).1.curr,
        tail_id(keys, id).1.curr - id.1.curr == tail_id(keys, id).1.prev - id.1.prev,
    decreases usize::MAX - id.1.curr,
{
    if has_next_id(id) && keys.contains(next_id(id)) {
        lemma_tail_id_grows(keys, next_id(id));
    }
}

proof fn lemma_tail_ends(keys: Set<IdView>, id: IdView)
    ensures
        has_next_id(tail_id(keys, id)) ==> !keys.contains(next_id(tail_id(keys, id))),
    decreases usize::MAX - id.1.curr,
{
    if has_next_id(id) && keys.contains(next_id(id)) {
        lemma_tail_ends(keys, next_id(id));
    }
}

/// In a contiguous store, an event saved under the free id of an object is what reading the
/// object's last event gives back, and the store stays contiguous.
pub proof fn law_saved_at_free_id_is_read_back(
    events: Map<IdView, GenericKvLogEvent>,
    first: IdView,
    e: GenericKvLogEvent,
)
    requires
        contiguous(events),
        first.1 == (SeqId { curr: 1, prev: 0 }),
        has_free_id(events, first),
    ensures
        contiguous(events.insert(free_id(events, first), e)),
        tail_event(events.insert(free_id(events, first), e), first) == Some(e),
        tail_id(events.insert(free_id(events, first), e).dom(), first) == free_id(events, first),
{
    let k = free_id(events, first);
    let after = events.insert(k, e);
    lemma_tail_id_object(events.dom(), first);
    if events.contains_key(first) {
        let t = tail_id(events.dom(), first);
        lemma_tail_id_grows(events.dom(), first);
        lemma_tail_ends(events.dom(), first);
        law_tail_ends_the_chain(events.dom(), first);
        assert(k == next_id(t));
        assert forall|x: IdView| #[trigger] after.contains_key(x) implies {
            &&& x.1.curr >= 1
            &&& x.1.curr == x.1.prev + 1
            &&& x.1.curr > 1 ==> after.contains_key(prev_id(x))
        } by {
            if x == k {
                assert(prev_id(k) == t);
            }
        }
        // the walk from the first id reaches t and then k, and nothing follows k
        lemma_walk_after_append(events, first, e);
    } else {
        assert(k == first);
        assert forall|x: IdView| #[trigger] after.contains_key(x) implies {
            &&& x.1.curr >= 1
            &&& x.1.curr == x.1.prev + 1
            &&& x.1.curr > 1 ==> after.contains_key(prev_id(x))
        } by {
            if x != k && x.1.curr > 1 {
                assert(events.contains_key(prev_id(x)));
            }
        }
        if has_next_id(first) && after.contains_key(next_id(first)) {
            assert(events.contains_key(next_id(first)));
            assert(events.contains_key(prev_id(next_id(first))));
            assert(prev_id(next_id(first)) == first);
        }
        assert(tail_id(after.dom(), first) == first);
    }
}

proof fn lemma_walk_after_append(events: Map<IdView, GenericKvLogEvent>, first: IdView, e: GenericKvLogEvent)
    requires
        contiguous(events),
        first.1 == (SeqId { curr: 1, prev: 0 }),
        events.contains_key(first),
        has_next_id(tail_id(events.dom(), first)),
    ensures
        tail_id(events.insert(next_id(tail_id(events.dom(), first)), e).dom(), first) == next_id(
            tail_id(events.dom(), first),
        ),
{
    let t = tail_id(events.dom(), first);
    let k = next_id(t);
    let after = events.insert(k, e);
    lemma_tail_id_grows(events.dom(), first);
    lemma_tail_id_object(events.dom(), first);
    // nothing of the object lies past k in the new store
    if has_next_id(k) && after.contains_key(next_id(k)) {
        assert(events.contains_key(next_id(k)));
        lemma_none_past_tail(events, first, next_id(k));
    }
    lemma_walk_prefix(events.dom(), after.dom(), first, t, k);
}

/// Walking from `id` over a larger set of keys that has the same keys up to `t` and then
/// `k` after it, and nothing after `k`, ends at `k`.
proof fn lemma_walk_prefix(keys: Set<IdView>, keys2: Set<IdView>, id: IdView, t: IdView, k: IdView)
    requires
        t == tail_id(keys, id),
        keys2 == keys.insert(k),
        k == next_id(t),
        has_next_id(t),
        id.0 == t.0,
        id.1.curr <= t.1.curr,
        t.1.curr - id.1.curr == t.1.prev - id.1.prev,
        !(has_next_id(k) && keys2.contains(next_id(k))),
    ensures
        tail_id(keys2, id) == k,
    decreases usize::MAX - id.1.curr,
{
    if id == t {
        assert(keys2.contains(next_id(id)));
        assert(tail_id(keys2, k) == k);
    } else {
        lemma_tail_id_grows(keys, id);
        assert(has_next_id(id) && keys.contains(next_id(id))) by {
            if !(has_next_id(id) && keys.contains(next_id(id))) {
                assert(tail_id(keys, id) == id);
            }
        }
        assert(tail_id(keys, next_id(id)) == t);
        lemma_walk_prefix(keys, keys2, next_id(id), t, k);
    }
}

/// Storing an object's first event, or replacing a stored event, keeps the store contiguous.
pub proof fn lemma_first_or_replace_keeps_contiguous(events: Map<IdView, GenericKvLogEvent>, k: IdView, e: GenericKvLogEvent)
    requires
        contiguous(events),
        k.1 == (SeqId { curr: 1, prev: 0 }) || events.contains_key(k),
    ensures
        contiguous(events.insert(k, e)),
{
    let after = events.insert(k, e);
    assert forall|x: IdView| #[trigger] after.contains_key(x) implies {
        &&& x.1.curr >= 1
        &&& x.1.curr == x.1.prev + 1
        &&& x.1.curr > 1 ==> after.contains_key(prev_id(x))
    } by {
        if x != k {
            assert(events.contains_key(x));
        }
    }
}

/// Every id of the chain from `id` is stored.
pub proof fn lemma_chain_ids_stored(keys: Set<IdView>, id: IdView)
    ensures
        forall|i: int| 0 <= i < chain_ids(keys, id).len() ==> keys.contains(#[trigger] chain_ids(keys, id)[i]),
    decreases usize::MAX - id.1.curr,
{
    if keys.contains(id) && has_next_id(id) {
        lemma_chain_ids_stored(keys, next_id(id));
        assert forall|i: int| 0 <= i < chain_ids(keys, id).len() implies keys.contains(#[trigger] chain_ids(keys, id)[i]) by {
            if i > 0 {
                assert(chain_ids(keys, id)[i] == chain_ids(keys, next_id(id))[i - 1]);
            }
        }
    }
}

/// Every id of the chain from `id` is an id of the same object.
pub proof fn lemma_chain_ids_object(keys: Set<IdView>, id: IdView)
    ensures
        forall|i: int| 0 <= i < chain_ids(keys, id).len() ==> (#[trigger] chain_ids(keys, id)[i]).0 == id.0,
    decreases usize::MAX - id.1.curr,
{
    if keys.contains(id) && has_next_id(id) {
        lemma_chain_ids_object(keys, next_id(id));
        assert forall|i: int| 0 <= i < chain_ids(keys, id).len() implies (#[trigger] chain_ids(keys, id)[i]).0 == id.0 by {
            if i > 0 {
                assert(chain_ids(keys, id)[i] == chain_ids(keys, next_id(id))[i - 1]);
            }
        }
    }
}

/// In a contiguous store, room for one more event than needed leaves a free id, and room
/// for the rest once the event is stored there.
pub proof fn lemma_room_for_one_more(
    events: Map<IdView, GenericKvLogEvent>,
    first: IdView,
    e: GenericKvLogEvent,
    n: nat,
)
    requires
        contiguous(events),
        first.1 == (SeqId { curr: 1, prev: 0 }),
        has_room(events, first, n + 1),
    ensures
        has_free_id(events, first),
        has_room(events.insert(free_id(events, first), e), first, n),
{
    if events.contains_key(first) {
        let t = tail_id(events.dom(), first);
        law_tail_ends_the_chain(events.dom(), first);
        assert(events.contains_key(t));
        assert(t.1.curr == t.1.prev + 1);
    }
    law_saved_at_free_id_is_read_back(events, first, e);
}

} // verus!

