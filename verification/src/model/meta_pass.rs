//! Ids of the passwords (secrets) kept in a vault.
use vstd::prelude::*;
use crate::collections::{KeyEq, ViewClone};
use crate::ids::{U64IdUrlEnc, hashed_id};

verus! {

pub const SALT_LENGTH: usize = 8;

/// The id of a password: a hash of its name, and the name.
#[derive(Debug)]
pub struct MetaPasswordId {
    pub id: U64IdUrlEnc,
    /// Human-readable name given to the password
    pub name: String,
}

impl View for MetaPasswordId {
    type V = (Seq<char>, Seq<char>);

    open spec fn view(&self) -> (Seq<char>, Seq<char>) {
        (self.id@, self.name@)
    }
}

impl Clone for MetaPasswordId {
    fn clone(&self) -> (r: Self)
        ensures
            r == *self,
    {
        MetaPasswordId { id: self.id.clone(), name: self.name.clone() }
    }
}

impl ViewClone for MetaPasswordId {
    fn view_clone(&self) -> (r: Self) {
        self.clone()
    }
}

impl PartialEq for MetaPasswordId {
    fn eq(&self, other: &Self) -> (r: bool) {
        self.id == other.id && self.name == other.name
    }
}

impl vstd::std_specs::cmp::PartialEqSpecImpl for MetaPasswordId {
    open spec fn obeys_eq_spec() -> bool {
        true
    }

    open spec fn eq_spec(&self, other: &Self) -> bool {
        self@ == other@
    }
}

impl KeyEq for MetaPasswordId {
    fn key_eq(&self, other: &Self) -> (r: bool) {
        self.id == other.id && self.name == other.name
    }
}

impl MetaPasswordId {
    /// The id text.
    pub fn id(&self) -> (r: String)
        ensures
            r@ == self.id@,
    {
        self.id.id_str()
    }

    /// The id of a password with the given name: the same name always gives the same id,
    /// which is never empty (eleven characters).
    pub fn build(name: &str) -> (r: Self)
        ensures
            r.id@ == hashed_id(name@, 8),
            r.id@.len() == 11,
            r.name@ == name@,
    {
        MetaPasswordId { id: U64IdUrlEnc::from_text(name), name: String::from_str(name) }
    }

    /// Same as `build`.
    pub fn build_from_str(name: &str) -> (r: Self)
        ensures
            r.id@ == hashed_id(name@, 8),
            r.id@.len() == 11,
            r.name@ == name@,
    {
        Self::build(name)
    }
}

/// A password together with its id.
#[derive(Debug)]
pub struct PassInfo {
    pub pass_id: MetaPasswordId,
    pub pass: String,
}

impl PassInfo {
    pub fn new(pass: String, pass_name: &str) -> (r: Self)
        ensures
            r.pass_id.id@ == hashed_id(pass_name@, 8),
            r.pass_id.name@ == pass_name@,
            r.pass == pass,
    {
        let pass_id = MetaPasswordId::build(pass_name);
        PassInfo { pass_id, pass }
    }
}

} // verus!
