//! The credential store: a mapping from account identity to the opaque
//! stored secret that allows silent re-authentication.
//!
//! The store's content is modelled as a `Map<Seq<char>, Seq<char>>` from
//! identity to secret.  Durable commitment of each mutation is the
//! embedding shell's task: it mirrors every successful `put`/`delete`
//! to the persistence backend before reporting success outward.

use vstd::prelude::*;
use vstd::hash_map::StringHashMap;

verus! {

/// The persisted form of a credential: an opaque stored-secret token,
/// usable for silent re-authentication.  Never a plaintext password.
pub struct StoredAccountRecord {
    pub secret: String,
}

impl View for StoredAccountRecord {
    type V = Seq<char>;

    open spec fn view(&self) -> Seq<char> {
        self.secret@
    }
}

impl Clone for StoredAccountRecord {
    fn clone(&self) -> (r: Self)
        ensures
            r@ == self@,
    {
        StoredAccountRecord { secret: self.secret.clone() }
    }
}

/// Durable mapping from account identity to stored secret.
pub struct CredentialStore {
    records: StringHashMap<StoredAccountRecord>,
}

impl View for CredentialStore {
    type V = Map<Seq<char>, Seq<char>>;

    closed spec fn view(&self) -> Map<Seq<char>, Seq<char>> {
        Map::new(
            |i: Seq<char>| self.records@.contains_key(i),
            |i: Seq<char>| self.records@[i]@,
        )
    }
}

impl CredentialStore {
    /// An empty store.
    pub fn new() -> (r: Self)
        ensures
            r@ == Map::<Seq<char>, Seq<char>>::empty(),
    {
        let r = CredentialStore { records: StringHashMap::new() };
        proof {
            assert(r@ =~= Map::<Seq<char>, Seq<char>>::empty());
        }
        r
    }

    /// Looks the identity up; absence is reported as `None`.
    pub fn get(&self, identity: &String) -> (r: Option<StoredAccountRecord>)
        ensures
            match r {
                Some(rec) => self@.contains_key(identity@) && rec@ == self@[identity@],
                None => !self@.contains_key(identity@),
            },
    {
        match self.records.get(identity.as_str()) {
            Some(rec) => Some(rec.clone()),
            None => None,
        }
    }

    /// True exactly when a record is stored for the identity.
    pub fn contains(&self, identity: &String) -> (r: bool)
        ensures
            r == self@.contains_key(identity@),
    {
        self.records.contains_key(identity.as_str())
    }

    /// Upserts: overwrites any existing record for the identity.
    pub fn put(&mut self, identity: String, record: StoredAccountRecord)
        ensures
            final(self)@ == old(self)@.insert(identity@, record@),
    {
        self.records.insert(identity, record);
        proof {
            assert(self@ =~= old(self)@.insert(identity@, record@));
        }
    }

    /// Removes the record for the identity; absence is not an error.
    pub fn delete(&mut self, identity: &String)
        ensures
            final(self)@ == old(self)@.remove(identity@),
    {
        self.records.remove(identity.as_str());
        proof {
            assert(self@ =~= old(self)@.remove(identity@));
        }
    }
}

} // verus!
