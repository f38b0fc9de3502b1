//! Ids of the events of an object: a sequence number within the object, and
//! the keys under which events are stored.
use vstd::prelude::*;
use crate::db::descriptors::{ObjectDescriptor, ObjectFqdn, ToObjectDescriptor};
use crate::collections::KeyEq;
use crate::ids::IdString;
use crate::text::{concat3, decimal, decimal_string};

verus! {

/// The id that comes after this one.
pub trait Next<To>: Sized {
    spec fn has_next(&self) -> bool;

    fn next(self) -> To
        requires
            self.has_next(),
    ;
}

/// The id that comes before this one.
pub trait Prev<To> {
    fn prev(self) -> To;
}

/// The id before the first event of an object.
#[derive(Debug, Clone, Copy, PartialEq, Eq, Structural)]
pub struct GenesisId;

/// Sequential Id
#[derive(Debug, Clone, Copy, PartialEq, Eq, Structural)]
pub struct SeqId {
    pub curr: usize,
    pub prev: usize,
}

#[derive(Debug, Clone, Copy, PartialEq, Eq, Structural)]
pub enum ChainId {
    Genesis(GenesisId),
    SeqId(SeqId),
}

impl Next<SeqId> for GenesisId {
    open spec fn has_next(&self) -> bool {
        true
    }

    fn next(self) -> (r: SeqId)
        ensures
            r == (SeqId { curr: 1, prev: 0 }),
    {
        let curr: usize = 0;
        SeqId { curr: curr + 1, prev: curr }
    }
}

impl SeqId {
    /// The id of the first event of an object.
    pub fn first() -> (r: Self)
        ensures
            r == (SeqId { curr: 1, prev: 0 }),
    {
        GenesisId.next()
    }
}

impl Next<SeqId> for SeqId {
    open spec fn has_next(&self) -> bool {
        self.curr < usize::MAX && self.prev < usize::MAX
    }

    fn next(self) -> (r: SeqId)
        ensures
            r.curr == self.curr + 1,
            r.prev == self.prev + 1,
    {
        SeqId { curr: self.curr + 1, prev: self.prev + 1 }
    }
}

/// Any regular request or update event in the objects' lifetime
#[derive(Debug)]
pub struct ArtifactId {
    pub fqdn: ObjectFqdn,
    pub id: SeqId,
}

impl View for ArtifactId {
    type V = ((Seq<char>, Seq<char>), SeqId);

    open spec fn view(&self) -> ((Seq<char>, Seq<char>), SeqId) {
        (self.fqdn@, self.id)
    }
}

impl Clone for ArtifactId {
    fn clone(&self) -> (r: Self)
        ensures
            r@ == self@,
    {
        ArtifactId { fqdn: self.fqdn.clone(), id: self.id }
    }
}

impl PartialEq for ArtifactId {
    fn eq(&self, other: &Self) -> (r: bool) {
        self.fqdn == other.fqdn && self.id == other.id
    }
}

impl vstd::std_specs::cmp::PartialEqSpecImpl for ArtifactId {
    open spec fn obeys_eq_spec() -> bool {
        true
    }

    open spec fn eq_spec(&self, other: &Self) -> bool {
        self@ == other@
    }
}

impl KeyEq for ArtifactId {
    fn key_eq(&self, other: &Self) -> (r: bool) {
        self.fqdn.obj_type == other.fqdn.obj_type && self.fqdn.obj_instance == other.fqdn.obj_instance
            && self.id == other.id
    }
}

impl IdString for ArtifactId {
    open spec fn id_view(&self) -> Seq<char> {
        self.fqdn.id_view() + "::"@ + decimal(self.id.curr as nat)
    }

    fn id_str(self) -> (r: String) {
        let fqdn = self.fqdn.id_str();
        let curr = decimal_string(self.id.curr);
        concat3(fqdn.as_str(), "::", curr.as_str())
    }
}

impl ArtifactId {
    /// The first event of an object.
    pub fn from(fqdn: ObjectFqdn) -> (r: Self)
        ensures
            r.fqdn == fqdn,
            r.id == (SeqId { curr: 1, prev: 0 }),
    {
        ArtifactId { fqdn, id: SeqId::first() }
    }

    /// The first event of the object that the descriptor names.
    pub fn from_descriptor<T: ToObjectDescriptor>(obj_desc: T) -> (r: Self)
        ensures
            r.fqdn.obj_type@ == obj_desc.descriptor().obj_type(),
            r.fqdn.obj_instance@ == obj_desc.descriptor().obj_instance(),
            r.id == (SeqId { curr: 1, prev: 0 }),
    {
        ArtifactId::from(obj_desc.to_obj_desc().fqdn())
    }

    /// Whether the sequence id can still be advanced.
    pub fn can_advance(&self) -> (r: bool)
        ensures
            r == self.has_next(),
    {
        self.id.curr < usize::MAX && self.id.prev < usize::MAX
    }

    /// The first event of the same object.
    pub fn first(self) -> (r: ArtifactId)
        ensures
            r.fqdn == self.fqdn,
            r.id == (SeqId { curr: 1, prev: 0 }),
    {
        ArtifactId::from(self.fqdn)
    }
}

impl Next<ArtifactId> for ArtifactId {
    open spec fn has_next(&self) -> bool {
        self.id.has_next()
    }

    fn next(self) -> (r: ArtifactId)
        ensures
            r.fqdn == self.fqdn,
            r.id.curr == self.id.curr + 1,
            r.id.prev == self.id.prev + 1,
    {
        ArtifactId { fqdn: self.fqdn, id: self.id.next() }
    }
}

/// Where an event is stored: the id of the event and the object it belongs to.
#[derive(Debug)]
pub struct KvKey {
    pub obj_id: ArtifactId,
    pub obj_desc: ObjectDescriptor,
}

impl Clone for KvKey {
    fn clone(&self) -> (r: Self)
        ensures
            r.obj_id@ == self.obj_id@,
            r.obj_desc == self.obj_desc,
    {
        KvKey { obj_id: self.obj_id.clone(), obj_desc: self.obj_desc.clone() }
    }
}

impl KvKey {
    /// The key of the first event of the object that the descriptor names.
    pub fn from<T: ToObjectDescriptor>(obj_desc: T) -> (r: Self)
        ensures
            r.obj_desc == obj_desc.descriptor(),
            r.obj_id.fqdn.obj_type@ == obj_desc.descriptor().obj_type(),
            r.obj_id.fqdn.obj_instance@ == obj_desc.descriptor().obj_instance(),
            r.obj_id.id == (SeqId { curr: 1, prev: 0 }),
    {
        let desc = obj_desc.to_obj_desc();
        let obj_id = ArtifactId::from(desc.fqdn());
        KvKey { obj_id, obj_desc: desc }
    }

    pub fn artifact(obj_desc: ObjectDescriptor, obj_id: ArtifactId) -> (r: Self)
        ensures
            r.obj_desc == obj_desc,
            r.obj_id == obj_id,
    {
        KvKey { obj_id, obj_desc }
    }
}

impl Next<KvKey> for KvKey {
    open spec fn has_next(&self) -> bool {
        self.obj_id.has_next()
    }

    fn next(self) -> (r: KvKey)
        ensures
            r.obj_desc == self.obj_desc,
            r.obj_id.fqdn == self.obj_id.fqdn,
            r.obj_id.id.curr == self.obj_id.id.curr + 1,
            r.obj_id.id.prev == self.obj_id.id.prev + 1,
    {
        KvKey { obj_id: self.obj_id.next(), obj_desc: self.obj_desc }
    }
}

/// An event stored under its key.
#[derive(Debug)]
pub struct KvLogEvent<T> {
    pub key: KvKey,
    pub value: T,
}

/// A value about an object, not yet given an id.
#[derive(Debug)]
pub struct KvEvent<T> {
    pub obj_desc: ObjectDescriptor,
    pub value: T,
}

} // verus!
