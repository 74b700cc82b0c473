//! Provider API keys: the in-memory cache in front of the OS keychain, and
//! how the keychain's answers become results.
use vstd::prelude::*;
use crate::text::{str_eq, owned, concat2};

verus! {

/// Keeps provider API keys in the OS keychain, with a cache in front.
pub struct SecureStore;

impl SecureStore {
    /// The keychain service the keys are filed under.
    pub const SERVICE_NAME: &'static str = "hstack-llm-service";
}

/// The key cached for `id`: that of its first entry.
pub open spec fn lookup(es: Seq<(String, String)>, id: Seq<char>) -> Option<Seq<char>>
    decreases es.len(),
{
    if es.len() == 0 {
        None
    } else if es[0].0@ == id {
        Some(es[0].1@)
    } else {
        lookup(es.drop_first(), id)
    }
}

/// The entries of every id but `id`, in order.
pub open spec fn without_id(es: Seq<(String, String)>, id: Seq<char>) -> Seq<(String, String)>
    decreases es.len(),
{
    if es.len() == 0 {
        Seq::empty()
    } else if es[0].0@ == id {
        without_id(es.drop_first(), id)
    } else {
        seq![es[0]] + without_id(es.drop_first(), id)
    }
}

/// The first entry of `id` decides its key.
pub proof fn lemma_lookup_at(es: Seq<(String, String)>, p: int, id: Seq<char>)
    requires
        0 <= p < es.len(),
        es[p].0@ == id,
        forall|j: int| 0 <= j < p ==> es[j].0@ != id,
    ensures
        lookup(es, id) == Some(es[p].1@),
    decreases p,
{
    if p > 0 {
        lemma_lookup_at(es.drop_first(), p - 1, id);
    }
}

/// No entry of `id`, no key.
pub proof fn lemma_lookup_none(es: Seq<(String, String)>, id: Seq<char>)
    requires
        forall|j: int| 0 <= j < es.len() ==> es[j].0@ != id,
    ensures
        lookup(es, id) is None,
    decreases es.len(),
{
    if es.len() > 0 {
        lemma_lookup_none(es.drop_first(), id);
    }
}

/// Replacing an entry that neither before nor after carries `x` leaves the
/// key of `x` alone.
pub proof fn lemma_lookup_update(es: Seq<(String, String)>, p: int, e: (String, String), x: Seq<char>)
    requires
        0 <= p < es.len(),
        es[p].0@ != x,
        e.0@ != x,
    ensures
        lookup(es.update(p, e), x) == lookup(es, x),
    decreases p,
{
    if p > 0 {
        assert(es.update(p, e).drop_first() =~= es.drop_first().update(p - 1, e));
        lemma_lookup_update(es.drop_first(), p - 1, e, x);
    } else {
        assert(es.update(p, e).drop_first() =~= es.drop_first());
    }
}

/// An entry added at the end counts only for an id that had none.
pub proof fn lemma_lookup_push(es: Seq<(String, String)>, e: (String, String), x: Seq<char>)
    ensures
        lookup(es.push(e), x) == match lookup(es, x) {
            Some(k) => Some(k),
            None => if e.0@ == x {
                Some(e.1@)
            } else {
                None
            },
        },
    decreases es.len(),
{
    if es.len() > 0 {
        assert(es.push(e).drop_first() =~= es.drop_first().push(e));
        assert(es.push(e)[0] == es[0]);
        lemma_lookup_push(es.drop_first(), e, x);
    } else {
        assert(es.push(e).drop_first() =~= Seq::<(String, String)>::empty());
        assert(lookup(Seq::<(String, String)>::empty(), x) is None);
        assert(es.push(e)[0] == e);
    }
}

/// Dropping the entries of `id` forgets its key and no other.
pub proof fn lemma_lookup_without(es: Seq<(String, String)>, id: Seq<char>, x: Seq<char>)
    ensures
        lookup(without_id(es, id), x) == if x == id {
            None
        } else {
            lookup(es, x)
        },
    decreases es.len(),
{
    if es.len() > 0 {
        lemma_lookup_without(es.drop_first(), id, x);
        if es[0].0@ != id {
            let w = seq![es[0]] + without_id(es.drop_first(), id);
            assert(w.drop_first() =~= without_id(es.drop_first(), id));
        }
    }
}

/// Keys already read or written, by provider id.
#[derive(Debug)]
pub struct KeyCache {
    entries: Vec<(String, String)>,
}

impl KeyCache {
    /// The key cached for `id`.
    pub closed spec fn key_of(&self, id: Seq<char>) -> Option<Seq<char>> {
        lookup(self.entries@, id)
    }

    /// An empty cache.
    pub fn new() -> (r: KeyCache)
        ensures
            forall|id: Seq<char>| #[trigger] r.key_of(id) is None,
    {
        KeyCache { entries: Vec::new() }
    }

    /// Where `id` first appears.
    fn position(&self, id: &str) -> (r: Option<usize>)
        ensures
            match r {
                Some(i) => i < self.entries@.len() && self.entries@[i as int].0@ == id@ && forall|j: int|
                    0 <= j < i ==> self.entries@[j].0@ != id@,
                None => forall|i: int| 0 <= i < self.entries@.len() ==> self.entries@[i].0@ != id@,
            },
    {
        let mut i: usize = 0;
        while i < self.entries.len()
            invariant
                i <= self.entries@.len(),
                forall|j: int| 0 <= j < i ==> self.entries@[j].0@ != id@,
            decreases self.entries@.len() - i,
        {
            if str_eq(self.entries[i].0.as_str(), id) {
                return Some(i);
            }
            i = i + 1;
        }
        None
    }

    /// The key cached for `id`.
    pub fn get(&self, id: &str) -> (r: Option<String>)
        ensures
            match r {
                Some(k) => self.key_of(id@) == Some(k@),
                None => self.key_of(id@) is None,
            },
    {
        match self.position(id) {
            Some(i) => {
                proof {
                    lemma_lookup_at(self.entries@, i as int, id@);
                }
                Some(self.entries[i].1.clone())
            },
            None => {
                proof {
                    lemma_lookup_none(self.entries@, id@);
                }
                None
            },
        }
    }

    /// Caches `key` for `id`, replacing the earlier one; other ids keep theirs.
    pub fn insert(&mut self, id: &str, key: &str)
        ensures
            final(self).key_of(id@) == Some(key@),
            forall|x: Seq<char>| x != id@ ==> #[trigger] final(self).key_of(x) == old(self).key_of(x),
    {
        let ghost before = self.entries@;
        let e = (owned(id), owned(key));
        match self.position(id) {
            Some(p) => {
                self.entries.set(p, e);
                proof {
                    assert forall|j: int| 0 <= j < p implies self.entries@[j].0@ != id@ by {
                        assert(self.entries@[j] == before[j]);
                    }
                    lemma_lookup_at(self.entries@, p as int, id@);
                    assert forall|x: Seq<char>| x != id@ implies #[trigger] lookup(self.entries@, x) == lookup(
                        before,
                        x,
                    ) by {
                        lemma_lookup_update(before, p as int, e, x);
                    }
                }
            },
            None => {
                self.entries.push(e);
                proof {
                    lemma_lookup_none(before, id@);
                    lemma_lookup_push(before, e, id@);
                    assert forall|x: Seq<char>| x != id@ implies #[trigger] lookup(self.entries@, x) == lookup(
                        before,
                        x,
                    ) by {
                        lemma_lookup_push(before, e, x);
                    }
                }
            },
        }
    }

    /// Forgets the key of `id`; other ids keep theirs.
    pub fn remove(&mut self, id: &str)
        ensures
            final(self).key_of(id@) is None,
            forall|x: Seq<char>| x != id@ ==> #[trigger] final(self).key_of(x) == old(self).key_of(x),
    {
        let ghost before = self.entries@;
        let mut kept: Vec<(String, String)> = Vec::new();
        let mut i: usize = self.entries.len();
        assert(before.skip(before.len() as int) =~= Seq::<(String, String)>::empty());
        while i > 0
            invariant
                i <= before.len(),
                self.entries@ == before,
                kept@ == without_id(before.skip(i as int), id@),
            decreases i,
        {
            i = i - 1;
            proof {
                assert(before.skip(i as int).drop_first() =~= before.skip(i + 1));
                assert(before.skip(i as int)[0] == before[i as int]);
            }
            if !str_eq(self.entries[i].0.as_str(), id) {
                let e = (self.entries[i].0.clone(), self.entries[i].1.clone());
                kept.insert(0, e);
                proof {
                    assert(e.0@ == before[i as int].0@);
                    assert(kept@ =~= seq![e] + without_id(before.skip(i + 1), id@));
                }
            }
        }
        assert(before.skip(0) =~= before);
        self.entries = kept;
        proof {
            lemma_lookup_without(before, id@, id@);
            assert forall|x: Seq<char>| x != id@ implies #[trigger] lookup(self.entries@, x) == lookup(
                before,
                x,
            ) by {
                lemma_lookup_without(before, id@, x);
            }
        }
    }
}

/// What the keychain says of a key: found, not there, or failed.
pub enum KeychainRead {
    Found(String),
    NoEntry,
    Failed(String),
}

/// The key a keychain read gives: a missing key reads as empty, a failure
/// is reported.
pub fn key_from_keychain(read: KeychainRead) -> (r: Result<String, String>)
    ensures
        match read {
            KeychainRead::Found(k) => r == Ok::<String, String>(k),
            KeychainRead::NoEntry => r matches Ok(k) && k@ == Seq::<char>::empty(),
            KeychainRead::Failed(e) => r matches Err(m) && m@ == "Failed to retrieve secret from OS Keychain: "@
                + e@,
        },
{
    match read {
        KeychainRead::Found(k) => Ok(k),
        KeychainRead::NoEntry => Ok(String::new()),
        KeychainRead::Failed(e) => Err(concat2("Failed to retrieve secret from OS Keychain: ", e.as_str())),
    }
}

/// What the keychain says when asked to delete a key.
pub enum KeychainDelete {
    Deleted,
    NoEntry,
    Failed(String),
}

/// The outcome of a keychain deletion: a key that was not there counts as
/// deleted, a failure is reported.
pub fn deletion_outcome(d: KeychainDelete) -> (r: Result<(), String>)
    ensures
        match d {
            KeychainDelete::Failed(e) => r matches Err(m) && m@ == "Failed to delete secret from OS Keychain: "@
                + e@,
            _ => r is Ok,
        },
{
    match d {
        KeychainDelete::Failed(e) => Err(concat2("Failed to delete secret from OS Keychain: ", e.as_str())),
        _ => Ok(()),
    }
}

/// The keychain entry the sync session's token is filed under.
pub const SYNC_TOKEN_KEY: &'static str = "hstack-sync-token";

/// The sync token a keychain read stands for: an empty key means there is
/// no session.
pub fn session_token(key: String) -> (r: Option<String>)
    ensures
        r == if key@.len() == 0 {
            None::<String>
        } else {
            Some(key)
        },
{
    if key.as_str().unicode_len() == 0 {
        None
    } else {
        Some(key)
    }
}

} // verus!
