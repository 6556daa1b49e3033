//! The key-value store: a mapping from key to value, both text, with the
//! four operations `ping`, `get`, `set`, `del`.
//!
//! The store holds no protocol knowledge: blank-key validation and op-code
//! handling belong to the dispatcher. Each operation here is a plain state
//! transition on the abstract map, so a caller that runs operations one at a
//! time under mutual exclusion gets exactly these transitions, with no lost
//! updates.

use crate::model::{ping_ack_v, StoreV};
use vstd::prelude::*;

verus! {

use vstd::hash_map::StringHashMap;

/// The store. Its abstract state is a `Map<Seq<char>, Seq<char>>`.
pub struct Store {
    map: StringHashMap<String>,
}

impl View for Store {
    type V = StoreV;

    closed spec fn view(&self) -> StoreV {
        self.map@.map_values(|v: String| v@)
    }
}

impl Store {
    /// Creates an empty store. The mapping has no persistence: it is rebuilt
    /// empty each time the service starts.
    pub fn new() -> (s: Store)
        ensures
            s@ == StoreV::empty(),
    {
        let s = Store { map: StringHashMap::new() };
        proof {
            assert(s@ =~= StoreV::empty());
        }
        s
    }

    /// Liveness check: always succeeds and returns the constant
    /// acknowledgment. No side effects.
    pub fn ping(&self) -> (r: String)
        ensures
            r@ == ping_ack_v(),
    {
        "pong".to_owned()
    }

    /// Returns the current value for `key`, or `None` if the key is absent.
    pub fn get(&self, key: &String) -> (r: Option<String>)
        ensures
            match r {
                Some(v) => self@.contains_key(key@) && v@ == self@[key@],
                None => !self@.contains_key(key@),
            },
    {
        match self.map.get(key.as_str()) {
            Some(v) => Some(v.clone()),
            None => None,
        }
    }

    /// Inserts or overwrites `key` and returns the value just stored, as an
    /// acknowledgment. Repeating the same `set` leaves the same state.
    pub fn set(&mut self, key: String, value: String) -> (r: String)
        ensures
            final(self)@ == old(self)@.insert(key@, value@),
            r@ == value@,
    {
        let stored = value.clone();
        self.map.insert(key, value);
        proof {
            assert(self@ =~= old(self)@.insert(key@, stored@));
        }
        stored
    }

    /// Removes `key` and reports whether it was present. Removing an absent
    /// key leaves the store unchanged and reports `false`.
    pub fn del(&mut self, key: &String) -> (r: bool)
        ensures
            r == old(self)@.contains_key(key@),
            final(self)@ == old(self)@.remove(key@),
    {
        let present = self.map.contains_key(key.as_str());
        self.map.remove(key.as_str());
        proof {
            assert(self@ =~= old(self)@.remove(key@));
        }
        present
    }
}

} // verus!
