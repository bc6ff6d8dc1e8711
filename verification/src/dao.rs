//! The flat-file record store: an entity pairs an identifier, a hash code
//! derived from it, and a payload; the store maps an identifier to the file
//! `root_path + uid` by plain string concatenation.

use crate::payload::{reconstruct_payload, strip_newlines};
use std::collections::hash_map::DefaultHasher;
use std::hash::Hasher;
use vstd::prelude::*;
use vstd::std_specs::hash::DefaultHasherAdditionalSpecFns;
use vstd::string::StringExecFns;
use vstd::utf8::encode_utf8;

verus! {

/// The hash code an identifier derives: its UTF-8 bytes written once into a
/// fresh `DefaultHasher` and finished. A pure function of the characters, so
/// equal identifiers always derive equal hash codes.
pub open spec fn hash_of(uid: Seq<char>) -> u64 {
    DefaultHasher::spec_finish(seq![encode_utf8(uid)])
}

/// One stored record: an identifier, the hash code derived from it, and a
/// payload. Only the payload is ever written to storage; the hash code is
/// recomputed from the identifier on every construction.
#[derive(Debug)]
pub struct Entity {
    uid: String,
    hash_code: u64,
    payload: String,
}

/// The mathematical content of an `Entity`: its fields as plain values.
pub struct EntityView {
    pub uid: Seq<char>,
    pub hash_code: u64,
    pub payload: Seq<char>,
}

impl View for Entity {
    type V = EntityView;

    closed spec fn view(&self) -> EntityView {
        EntityView { uid: self.uid@, hash_code: self.hash_code, payload: self.payload@ }
    }
}

impl Entity {
    /// The hash code is the one its identifier derives.
    pub open spec fn wf(&self) -> bool {
        self@.hash_code == hash_of(self@.uid)
    }

    /// Constructs an entity; never fails, accepts any identifier and any
    /// payload, and derives the hash code from the identifier alone.
    pub fn new(uid: String, payload: String) -> (e: Entity)
        ensures
            e@.uid == uid@,
            e@.payload == payload@,
            e@.hash_code == hash_of(uid@),
            e.wf(),
    {
        let hash_code: u64 = Entity::calculate_hash(uid.as_str());
        Entity { uid, hash_code, payload }
    }

    /// Derives the 64-bit hash code of an identifier.
    pub fn calculate_hash(t: &str) -> (r: u64)
        ensures
            r == hash_of(t@),
    {
        let mut s = DefaultHasher::new();
        s.write(t.as_bytes());
        s.finish()
    }

    /// An independent copy of the identifier.
    pub fn get_uid(&self) -> (r: String)
        ensures
            r@ == self@.uid,
    {
        self.uid.clone()
    }

    /// The derived hash code.
    pub fn get_hash_code(&self) -> (r: u64)
        ensures
            r == self@.hash_code,
    {
        self.hash_code
    }

    /// An independent copy of the payload.
    pub fn get_payload(&self) -> (r: String)
        ensures
            r@ == self@.payload,
    {
        self.payload.clone()
    }
}

/// The repository over a fixed root path. It carries no other state: both
/// operations are single-shot path computations around one filesystem call,
/// and the filesystem call itself is the caller's.
pub struct EntityDao {
    root_path: String,
}

impl View for EntityDao {
    type V = Seq<char>;

    closed spec fn view(&self) -> Seq<char> {
        self.root_path@
    }
}

impl EntityDao {
    /// Stores the root path unchanged: no normalization, no trailing
    /// separator added, no filesystem check.
    pub fn new(root_path: String) -> (d: EntityDao)
        ensures
            d@ == root_path@,
    {
        EntityDao { root_path }
    }

    /// The storage path of an identifier: the root path with the identifier
    /// appended, plain concatenation with no separator inserted.
    pub fn entity_path(&self, uid: &str) -> (p: String)
        ensures
            p@ == self@ + uid@,
    {
        let mut path = self.root_path.clone();
        path.append(uid);
        path
    }

    /// What a save writes: the target path for the entity's identifier, and
    /// the bytes to store there — the payload and nothing else.
    pub fn save_request(&self, t: Entity) -> (r: (String, String))
        ensures
            r.0@ == self@ + t@.uid,
            r.1@ == t@.payload,
    {
        let path = self.entity_path(t.uid.as_str());
        (path, t.payload)
    }

    /// What a get returns for what was read at the identifier's path:
    /// absence when the file could not be opened, otherwise a fresh entity
    /// for the passed identifier whose payload is the file's text with its
    /// line breaks dropped.
    pub fn entity_from_read(uid: &str, contents: Option<String>) -> (r: Option<Entity>)
        ensures
            r is Some <==> contents is Some,
            (contents matches Some(text) ==> (r matches Some(e) && e@.uid == uid@ && e@.payload
                == strip_newlines(text@) && e@.hash_code == hash_of(uid@) && e.wf())),
    {
        match contents {
            None => None,
            Some(text) => {
                let payload = reconstruct_payload(text.as_str());
                Some(Entity::new(uid.to_owned(), payload))
            },
        }
    }
}

/// Law: two entities that share an identifier share a hash code, whatever
/// their payloads; the hash code depends on the identifier alone.
pub proof fn lemma_hash_code_deterministic(e1: Entity, e2: Entity)
    requires
        e1.wf(),
        e2.wf(),
        e1@.uid == e2@.uid,
    ensures
        e1@.hash_code == e2@.hash_code,
{
}

} // verus!
