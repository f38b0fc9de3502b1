//! What an event store offers: events kept by id, each under its own id.
use vstd::prelude::*;
use crate::db::events::GenericKvLogEvent;
use crate::db::object_id::ArtifactId;
use crate::db::store::IdView;

verus! {

/// Reading events by id.
pub trait FindOneQuery {
    /// The stored events by id.
    spec fn events(&self) -> Map<IdView, GenericKvLogEvent>;

    /// The event stored under the key, which carries that key as its id.
    fn find_one(&self, key: &ArtifactId) -> (r: Option<&GenericKvLogEvent>)
        ensures
            r matches Some(e) ==> self.events().contains_key(key@) && *e == self.events()[key@]
                && e.key_of().obj_id@ == key@,
            r is None ==> !self.events().contains_key(key@),
    ;

    /// The id of the event stored under the key, if there is one.
    fn get_key(&self, key: &ArtifactId) -> (r: Option<ArtifactId>)
        ensures
            r matches Some(k) ==> self.events().contains_key(key@) && k@ == key@,
            r is None ==> !self.events().contains_key(key@),
    ;
}

/// Storing an event under its own id.
pub trait SaveCommand: FindOneQuery {
    /// Store the event under its own id, replacing what was there, and give the id back.
    /// A store for this library keeps every event it is given: writing does not fail.
    fn save(&mut self, value: GenericKvLogEvent) -> (r: ArtifactId)
        ensures
            r@ == value.key_of().obj_id@,
            final(self).events() == old(self).events().insert(r@, value),
    ;
}

/// Removing an event.
pub trait DeleteCommand: FindOneQuery {
    fn delete(&mut self, key: &ArtifactId)
        ensures
            final(self).events() == old(self).events().remove(key@),
    ;
}

/// Removing every event.
pub trait DbCleanUpCommand: FindOneQuery {
    fn db_clean_up(&mut self)
        ensures
            final(self).events() == Map::<IdView, GenericKvLogEvent>::empty(),
    ;
}

/// An event store.
pub trait KvLogEventRepo: FindOneQuery + SaveCommand + DeleteCommand + DbCleanUpCommand {
}

/// Where a store keeps its events.
pub trait CommitLogDbConfig {
    fn db_name(&self) -> String;

    fn store_name(&self) -> String;
}

} // verus!
