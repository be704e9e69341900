//! A key-value store with per-key expiry, holding the pending-token markers
//! and session records of the login flow. A key is live until the instant it
//! was stored plus its time to live; from then on reads find nothing.

use vstd::prelude::*;
use crate::admin::AdminSession;
use crate::text::same_text;

verus! {

/// What the login flow keeps under a key.
#[derive(Debug, Clone, PartialEq, Eq)]
pub enum StoreValue {
    /// Presence marker of a pending token.
    Marker(bool),
    /// A session record.
    Session(AdminSession),
}

/// One stored key, its value and the Unix second at which it stops being live.
#[derive(Debug, Clone, PartialEq, Eq)]
pub struct StoreEntry {
    pub key: String,
    pub value: StoreValue,
    pub expires_at: u64,
}

/// What a store holds: for each key, its value and expiry instant.
pub type StoreModel = Map<Seq<char>, (StoreValue, u64)>;

/// Later entries override earlier ones under the same key.
pub open spec fn entries_model(s: Seq<StoreEntry>) -> StoreModel
    decreases s.len(),
{
    if s.len() == 0 {
        Map::empty()
    } else {
        entries_model(s.drop_last()).insert(
            s.last().key@,
            (s.last().value, s.last().expires_at),
        )
    }
}

/// The value a read of `key` at instant `now` finds.
pub open spec fn live_value(m: StoreModel, key: Seq<char>, now: u64) -> Option<StoreValue> {
    if m.contains_key(key) && now < m[key].1 {
        Some(m[key].0)
    } else {
        None
    }
}

/// Index of the last entry under `key`, or -1.
pub open spec fn last_index_of(s: Seq<StoreEntry>, key: Seq<char>) -> int
    decreases s.len(),
{
    if s.len() == 0 {
        -1
    } else if s.last().key@ == key {
        s.len() - 1
    } else {
        last_index_of(s.drop_last(), key)
    }
}

proof fn lemma_last_index(s: Seq<StoreEntry>, key: Seq<char>)
    ensures
        -1 <= last_index_of(s, key) < s.len(),
        entries_model(s).contains_key(key) <==> last_index_of(s, key) >= 0,
        last_index_of(s, key) >= 0 ==> entries_model(s)[key] == (
            s[last_index_of(s, key)].value,
            s[last_index_of(s, key)].expires_at,
        ),
    decreases s.len(),
{
    if s.len() > 0 {
        lemma_last_index(s.drop_last(), key);
    }
}

/// An in-memory store with per-key expiry.
pub struct TtlStore {
    entries: Vec<StoreEntry>,
}

impl View for TtlStore {
    type V = StoreModel;

    closed spec fn view(&self) -> StoreModel {
        entries_model(self.entries@)
    }
}

fn copy_value(v: &StoreValue) -> (r: StoreValue)
    ensures
        r == *v,
{
    match v {
        StoreValue::Marker(b) => StoreValue::Marker(*b),
        StoreValue::Session(s) => StoreValue::Session(
            AdminSession {
                user_id: s.user_id.clone(),
                username: s.username.clone(),
                created_at: s.created_at,
                expires_at: s.expires_at,
                ip_address: s.ip_address.clone(),
            },
        ),
    }
}

fn copy_entry(e: &StoreEntry) -> (r: StoreEntry)
    ensures
        r == *e,
{
    StoreEntry { key: e.key.clone(), value: copy_value(&e.value), expires_at: e.expires_at }
}

impl TtlStore {
    /// An empty store.
    pub fn new() -> (s: TtlStore)
        ensures
            s@ == Map::<Seq<char>, (StoreValue, u64)>::empty(),
    {
        TtlStore { entries: Vec::new() }
    }

    /// The value live under `key` at instant `now`, if any.
    pub fn get(&self, key: &str, now: u64) -> (r: Option<StoreValue>)
        ensures
            r == live_value(self@, key@, now),
    {
        let mut found: Option<usize> = None;
        let mut i: usize = 0;
        while i < self.entries.len()
            invariant
                i <= self.entries@.len(),
                match found {
                    Some(f) => f as int == last_index_of(self.entries@.subrange(0, i as int), key@),
                    None => last_index_of(self.entries@.subrange(0, i as int), key@) == -1,
                },
            decreases self.entries@.len() - i,
        {
            assert(self.entries@.subrange(0, i + 1).drop_last() == self.entries@.subrange(0, i as int));
            if same_text(self.entries[i].key.as_str(), key) {
                found = Some(i);
            }
            i = i + 1;
        }
        assert(self.entries@.subrange(0, self.entries@.len() as int) == self.entries@);
        proof {
            lemma_last_index(self.entries@, key@);
        }
        match found {
            Some(f) => {
                if now < self.entries[f].expires_at {
                    Some(copy_value(&self.entries[f].value))
                } else {
                    None
                }
            },
            None => None,
        }
    }

    /// Stores `value` under `key` for `ttl` seconds from `now`, replacing
    /// whatever the key held.
    pub fn put(&mut self, key: String, value: StoreValue, ttl: u64, now: u64)
        requires
            now + ttl <= u64::MAX,
        ensures
            final(self)@ == old(self)@.insert(key@, (value, (now + ttl) as u64)),
    {
        self.delete(key.as_str());
        let ghost before = self.entries@;
        let e = StoreEntry { key, value, expires_at: now + ttl };
        self.entries.push(e);
        assert(self.entries@.drop_last() == before);
        assert(self@ =~= old(self)@.insert(e.key@, (e.value, e.expires_at)));
    }

    /// Removes `key`, live or expired; a missing key is no error.
    pub fn delete(&mut self, key: &str)
        ensures
            final(self)@ == old(self)@.remove(key@),
    {
        let mut kept: Vec<StoreEntry> = Vec::new();
        let mut i: usize = 0;
        while i < self.entries.len()
            invariant
                i <= self.entries@.len(),
                self.entries@ == old(self).entries@,
                entries_model(kept@) == entries_model(self.entries@.subrange(0, i as int)).remove(
                    key@,
                ),
            decreases self.entries@.len() - i,
        {
            let ghost prefix = self.entries@.subrange(0, i as int);
            assert(self.entries@.subrange(0, i + 1).drop_last() == prefix);
            let e = &self.entries[i];
            if same_text(e.key.as_str(), key) {
                assert(entries_model(self.entries@.subrange(0, i + 1)).remove(key@) =~= entries_model(
                    prefix,
                ).remove(key@));
            } else {
                let ghost kept_before = kept@;
                kept.push(copy_entry(e));
                assert(kept@.drop_last() == kept_before);
                assert(entries_model(kept@) =~= entries_model(
                    self.entries@.subrange(0, i + 1),
                ).remove(key@));
            }
            i = i + 1;
        }
        assert(self.entries@.subrange(0, self.entries@.len() as int) == self.entries@);
        self.entries = kept;
    }
}

} // verus!
