//! Secret storage for API keys: a named store of key ids and secrets with the
//! semantics of the platform keyring (a read of a missing key fails with
//! "no entry", a delete of a missing key succeeds).
//!
//! The store keeps the secrets in process memory; the application decides
//! where it lives and how long.

use vstd::prelude::*;

use crate::error::{is_error, AppError, ErrorKind};
use crate::text::str_eq;

verus! {

/// The message of a read of a key that is not stored.
pub open spec fn no_entry_message() -> Seq<char> {
    "No matching entry found in secure storage"@
}

/// The secrets of one service, by key id.
pub struct KeyringService {
    service_name: String,
    memory: Vec<(String, String)>,
    contents: Ghost<Map<Seq<char>, Seq<char>>>,
}

impl View for KeyringService {
    type V = Map<Seq<char>, Seq<char>>;

    /// The stored secrets, by key id.
    closed spec fn view(&self) -> Map<Seq<char>, Seq<char>> {
        self.contents@
    }
}

impl KeyringService {
    /// The internal invariant: each key id is stored once, and the entries
    /// are exactly the secrets of the view.
    pub closed spec fn wf(&self) -> bool {
        &&& forall|i: int, j: int|
            0 <= i < self.memory@.len() && 0 <= j < self.memory@.len() && i != j
                ==> #[trigger] self.memory@[i].0@ != #[trigger] self.memory@[j].0@
        &&& forall|i: int|
            0 <= i < self.memory@.len() ==> self.contents@.contains_key(#[trigger] self.memory@[i].0@)
                && self.contents@[self.memory@[i].0@] == self.memory@[i].1@
        &&& forall|k: Seq<char>|
            #[trigger] self.contents@.contains_key(k) ==> exists|i: int|
                0 <= i < self.memory@.len() && #[trigger] self.memory@[i].0@ == k
    }

    /// The name of the service the secrets belong to.
    pub closed spec fn service_view(&self) -> Seq<char> {
        self.service_name@
    }

    /// An empty store for the service `service_name`.
    pub fn new(service_name: &str) -> (s: Self)
        ensures
            s.wf(),
            s@ == Map::<Seq<char>, Seq<char>>::empty(),
            s.service_view() == service_name@,
    {
        KeyringService {
            service_name: String::from_str(service_name),
            memory: Vec::new(),
            contents: Ghost(Map::empty()),
        }
    }

    /// The position of the entry of `key_id`, if it is stored.
    fn entry(&self, key_id: &str) -> (r: Option<usize>)
        requires
            self.wf(),
        ensures
            match r {
                Some(i) => i < self.memory@.len() && self.memory@[i as int].0@ == key_id@,
                None => !self@.contains_key(key_id@),
            },
    {
        let mut i: usize = 0;
        while i < self.memory.len()
            invariant
                self.wf(),
                i <= self.memory@.len(),
                forall|j: int| 0 <= j < i ==> self.memory@[j].0@ != key_id@,
            decreases self.memory.len() - i,
        {
            if str_eq(self.memory[i].0.as_str(), key_id) {
                return Some(i);
            }
            i = i + 1;
        }
        None
    }

    /// Stores `value` under `key_id`, replacing any secret it had.
    pub fn save(&mut self, key_id: &str, value: &str) -> (r: Result<(), AppError>)
        requires
            old(self).wf(),
        ensures
            final(self).wf(),
            r is Ok,
            final(self)@ == old(self)@.insert(key_id@, value@),
            final(self).service_view() == old(self).service_view(),
    {
        let ghost before = self.memory@;
        match self.entry(key_id) {
            Some(i) => {
                self.memory.set(i, (String::from_str(key_id), String::from_str(value)));
                proof {
                    self.contents@ = self.contents@.insert(key_id@, value@);
                    assert forall|k: Seq<char>| #[trigger] self.contents@.contains_key(k) implies exists|j: int|
                        0 <= j < self.memory@.len() && #[trigger] self.memory@[j].0@ == k by {
                        if k != key_id@ {
                            let j = choose|j: int| 0 <= j < before.len() && #[trigger] before[j].0@ == k;
                            assert(self.memory@[j].0@ == k);
                        } else {
                            assert(self.memory@[i as int].0@ == k);
                        }
                    }
                }
            },
            None => {
                self.memory.push((String::from_str(key_id), String::from_str(value)));
                proof {
                    self.contents@ = self.contents@.insert(key_id@, value@);
                    let n = before.len() as int;
                    assert forall|k: Seq<char>| #[trigger] self.contents@.contains_key(k) implies exists|j: int|
                        0 <= j < self.memory@.len() && #[trigger] self.memory@[j].0@ == k by {
                        if k != key_id@ {
                            let j = choose|j: int| 0 <= j < before.len() && #[trigger] before[j].0@ == k;
                            assert(self.memory@[j].0@ == k);
                        } else {
                            assert(self.memory@[n].0@ == k);
                        }
                    }
                }
            },
        }
        Ok(())
    }

    /// The secret stored under `key_id`; a missing key fails with "no entry".
    pub fn get(&self, key_id: &str) -> (r: Result<String, AppError>)
        requires
            self.wf(),
        ensures
            match r {
                Ok(v) => self@.contains_key(key_id@) && v@ == self@[key_id@],
                Err(e) => !self@.contains_key(key_id@) && is_error(
                    e,
                    ErrorKind::Keyring,
                    "KEYRING_ERROR"@,
                    no_entry_message(),
                ),
            },
    {
        match self.entry(key_id) {
            Some(i) => Ok(self.memory[i].1.clone()),
            None => Err(AppError::keyring("No matching entry found in secure storage")),
        }
    }

    /// The secret stored under `key_id`, if any.
    pub fn get_optional(&self, key_id: &str) -> (r: Result<Option<String>, AppError>)
        requires
            self.wf(),
        ensures
            match r {
                Ok(Some(v)) => self@.contains_key(key_id@) && v@ == self@[key_id@],
                Ok(None) => !self@.contains_key(key_id@),
                Err(_) => false,
            },
    {
        match self.entry(key_id) {
            Some(i) => Ok(Some(self.memory[i].1.clone())),
            None => Ok(None),
        }
    }

    /// Whether a secret is stored under `key_id`.
    pub fn contains(&self, key_id: &str) -> (r: Result<bool, AppError>)
        requires
            self.wf(),
        ensures
            r == Ok::<bool, AppError>(self@.contains_key(key_id@)),
    {
        match self.get_optional(key_id) {
            Ok(v) => Ok(v.is_some()),
            Err(e) => Err(e),
        }
    }

    /// Removes the secret stored under `key_id`; removing a missing key succeeds.
    pub fn delete(&mut self, key_id: &str) -> (r: Result<(), AppError>)
        requires
            old(self).wf(),
        ensures
            final(self).wf(),
            r is Ok,
            final(self)@ == old(self)@.remove(key_id@),
            final(self).service_view() == old(self).service_view(),
    {
        let ghost before = self.memory@;
        match self.entry(key_id) {
            Some(i) => {
                let _ = self.memory.remove(i);
                proof {
                    self.contents@ = self.contents@.remove(key_id@);
                    assert forall|j: int| 0 <= j < self.memory@.len() implies self.contents@.contains_key(
                        #[trigger] self.memory@[j].0@,
                    ) && self.contents@[self.memory@[j].0@] == self.memory@[j].1@ by {
                        if j < i {
                            assert(self.memory@[j] == before[j]);
                            assert(before[j].0@ != before[i as int].0@);
                        } else {
                            assert(self.memory@[j] == before[j + 1]);
                            assert(before[j + 1].0@ != before[i as int].0@);
                        }
                    }
                    assert forall|a: int, b: int|
                        0 <= a < self.memory@.len() && 0 <= b < self.memory@.len() && a != b
                            implies #[trigger] self.memory@[a].0@ != #[trigger] self.memory@[b].0@ by {
                        let a2 = if a < i { a } else { a + 1 };
                        let b2 = if b < i { b } else { b + 1 };
                        assert(self.memory@[a] == before[a2]);
                        assert(self.memory@[b] == before[b2]);
                    }
                    assert forall|k: Seq<char>| #[trigger] self.contents@.contains_key(k) implies exists|j: int|
                        0 <= j < self.memory@.len() && #[trigger] self.memory@[j].0@ == k by {
                        let j = choose|j: int| 0 <= j < before.len() && #[trigger] before[j].0@ == k;
                        assert(j != i);
                        if j < i {
                            assert(self.memory@[j].0@ == k);
                        } else {
                            assert(self.memory@[j - 1].0@ == k);
                        }
                    }
                }
            },
            None => {
                proof {
                    assert(self.contents@.remove(key_id@) =~= self.contents@);
                }
            },
        }
        Ok(())
    }
}

/// A secret read after it was saved is the secret saved, and saving under
/// one key leaves the secrets of the other keys as they were.
pub proof fn law_read_after_save(before: Map<Seq<char>, Seq<char>>, key: Seq<char>, value: Seq<char>, other: Seq<char>)
    requires
        other != key,
    ensures
        before.insert(key, value).contains_key(key),
        before.insert(key, value)[key] == value,
        before.insert(key, value).contains_key(other) == before.contains_key(other),
        before.contains_key(other) ==> before.insert(key, value)[other] == before[other],
{
}

/// After a delete the key reads as missing, and the other keys keep their secrets.
pub proof fn law_read_after_delete(before: Map<Seq<char>, Seq<char>>, key: Seq<char>, other: Seq<char>)
    requires
        other != key,
    ensures
        !before.remove(key).contains_key(key),
        before.remove(key).contains_key(other) == before.contains_key(other),
        before.contains_key(other) ==> before.remove(key)[other] == before[other],
{
}

} // verus!
