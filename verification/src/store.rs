//! Key-value persistence for identity-keyed state.
//!
//! The chain's key-value store is assumed, not designed, so the modules keep
//! their maps in an association vector whose view is a mathematical
//! [`Map`] from identities to values.  Keys are unique; `insert`
//! overwrites, `remove` deletes, and reads are linear scans.

use crate::account::AccountId;
use crate::account::lemma_account_eq_is_view_eq;
use vstd::prelude::*;

verus! {

/// The map denoted by an entry sequence: later entries win.
pub open spec fn map_of<V>(s: Seq<(AccountId, V)>) -> Map<AccountId, V>
    decreases s.len(),
{
    if s.len() == 0 {
        Map::empty()
    } else {
        map_of(s.drop_last()).insert(s.last().0, s.last().1)
    }
}

/// No key occurs twice in the entry sequence.
pub open spec fn unique_keys<V>(s: Seq<(AccountId, V)>) -> bool {
    forall|i: int, j: int| 0 <= i < j < s.len() ==> s[i].0 != s[j].0
}

/// A key is in the map exactly when some entry carries it.
proof fn lemma_map_of_contains<V>(s: Seq<(AccountId, V)>, k: AccountId)
    ensures
        map_of(s).contains_key(k) <==> exists|i: int| 0 <= i < s.len() && s[i].0 == k,
    decreases s.len(),
{
    if s.len() > 0 {
        let prefix = s.drop_last();
        lemma_map_of_contains(prefix, k);
        if s.last().0 == k {
            assert(s[s.len() - 1].0 == k);
        } else {
            if map_of(s).contains_key(k) {
                let i = choose|i: int| 0 <= i < prefix.len() && prefix[i].0 == k;
                assert(s[i].0 == k);
            }
            if exists|i: int| 0 <= i < s.len() && s[i].0 == k {
                let i = choose|i: int| 0 <= i < s.len() && s[i].0 == k;
                assert(prefix[i].0 == k);
            }
        }
    }
}

/// With unique keys, the map sends each entry's key to that entry's value.
proof fn lemma_map_of_index<V>(s: Seq<(AccountId, V)>, i: int)
    requires
        unique_keys(s),
        0 <= i < s.len(),
    ensures
        map_of(s).contains_key(s[i].0),
        map_of(s)[s[i].0] == s[i].1,
    decreases s.len(),
{
    let prefix = s.drop_last();
    if i < s.len() - 1 {
        assert(unique_keys(prefix)) by {
            assert(forall|x: int, y: int|
                0 <= x < y < prefix.len() ==> s[x].0 != s[y].0);
        }
        lemma_map_of_index(prefix, i);
        assert(s[i].0 != s.last().0);
    }
}

/// Overwriting the value of the entry at `i` updates the map at that key.
proof fn lemma_map_of_update<V>(s: Seq<(AccountId, V)>, i: int, v: V)
    requires
        unique_keys(s),
        0 <= i < s.len(),
    ensures
        unique_keys(s.update(i, (s[i].0, v))),
        map_of(s.update(i, (s[i].0, v))) =~= map_of(s).insert(s[i].0, v),
    decreases s.len(),
{
    let k = s[i].0;
    let t = s.update(i, (k, v));
    let prefix = s.drop_last();
    assert(unique_keys(prefix)) by {
        assert(forall|x: int, y: int| 0 <= x < y < prefix.len() ==> s[x].0 != s[y].0);
    }
    if i == s.len() - 1 {
        assert(t.drop_last() =~= prefix);
    } else {
        assert(t.drop_last() =~= prefix.update(i, (k, v)));
        lemma_map_of_update(prefix, i, v);
        assert(t.last() == s.last());
        // the two inserted keys differ, so the inserts commute
        assert(k != s.last().0);
    }
}

/// Removing the entry at `i` removes exactly that key from the map.
proof fn lemma_map_of_remove<V>(s: Seq<(AccountId, V)>, i: int)
    requires
        unique_keys(s),
        0 <= i < s.len(),
    ensures
        unique_keys(s.remove(i)),
        map_of(s.remove(i)) =~= map_of(s).remove(s[i].0),
    decreases s.len(),
{
    let k = s[i].0;
    let t = s.remove(i);
    let prefix = s.drop_last();
    assert(unique_keys(prefix)) by {
        assert(forall|x: int, y: int| 0 <= x < y < prefix.len() ==> s[x].0 != s[y].0);
    }
    assert(unique_keys(t)) by {
        assert(forall|x: int, y: int| 0 <= x < y < t.len() ==> t[x].0 != t[y].0) by {
            assert(forall|x: int| 0 <= x < t.len() ==> t[x] == (if x < i { s[x] } else { s[x + 1] }));
        }
    }
    if i == s.len() - 1 {
        assert(t =~= prefix);
        assert(!map_of(prefix).contains_key(k)) by {
            lemma_map_of_contains(prefix, k);
        }
        assert(map_of(prefix).remove(k) =~= map_of(prefix));
    } else {
        assert(t.last() == s.last());
        assert(t.drop_last() =~= prefix.remove(i));
        lemma_map_of_remove(prefix, i);
        assert(k != s.last().0);
    }
}

/// An association vector from identities to copyable values, the module-local
/// stand-in for the chain's key-value mapping.
pub struct AccountMap<V> {
    entries: Vec<(AccountId, V)>,
}

impl<V> View for AccountMap<V> {
    type V = Map<AccountId, V>;

    closed spec fn view(&self) -> Map<AccountId, V> {
        map_of(self.entries@)
    }
}

impl<V: Copy> AccountMap<V> {
    /// Keys are stored at most once.
    pub closed spec fn wf(&self) -> bool {
        unique_keys(self.entries@)
    }

    /// An empty map.
    pub fn new() -> (r: AccountMap<V>)
        ensures
            r.wf(),
            r@ == Map::<AccountId, V>::empty(),
    {
        AccountMap { entries: Vec::new() }
    }

    /// The value stored under `key`, if any.
    pub fn get(&self, key: &AccountId) -> (r: Option<V>)
        requires
            self.wf(),
        ensures
            r == if self@.contains_key(*key) {
                Some(self@[*key])
            } else {
                None::<V>
            },
    {
        let n = self.entries.len();
        let mut i: usize = 0;
        while i < n
            invariant
                self.wf(),
                n == self.entries.len(),
                i <= n,
                forall|j: int| 0 <= j < i ==> self.entries@[j].0 != *key,
            decreases n - i,
        {
            if self.entries[i].0 == *key {
                proof {
                    lemma_account_eq_is_view_eq(self.entries@[i as int].0, *key);
                    lemma_map_of_index(self.entries@, i as int);
                }
                return Some(self.entries[i].1);
            }
            i += 1;
        }
        proof {
            lemma_map_of_contains(self.entries@, *key);
        }
        None
    }

    /// Whether a value is stored under `key`.
    pub fn contains(&self, key: &AccountId) -> (r: bool)
        requires
            self.wf(),
        ensures
            r == self@.contains_key(*key),
    {
        self.get(key).is_some()
    }

    /// Stores `value` under `key`, overwriting any earlier value.
    pub fn insert(&mut self, key: AccountId, value: V)
        requires
            old(self).wf(),
        ensures
            final(self).wf(),
            final(self)@ == old(self)@.insert(key, value),
    {
        let n = self.entries.len();
        let mut i: usize = 0;
        while i < n
            invariant
                self.wf(),
                self == old(self),
                n == self.entries.len(),
                i <= n,
                forall|j: int| 0 <= j < i ==> self.entries@[j].0 != key,
            decreases n - i,
        {
            if self.entries[i].0 == key {
                proof {
                    lemma_account_eq_is_view_eq(self.entries@[i as int].0, key);
                    lemma_map_of_update(self.entries@, i as int, value);
                }
                self.entries[i] = (key, value);
                return;
            }
            i += 1;
        }
        proof {
            let s = self.entries@;
            assert(s.push((key, value)).drop_last() =~= s);
            assert(unique_keys(s.push((key, value)))) by {
                assert(forall|x: int| 0 <= x < s.len() ==> s.push((key, value))[x] == s[x]);
            }
        }
        self.entries.push((key, value));
    }

    /// Deletes the value stored under `key`, if any.
    pub fn remove(&mut self, key: &AccountId)
        requires
            old(self).wf(),
        ensures
            final(self).wf(),
            final(self)@ == old(self)@.remove(*key),
    {
        let n = self.entries.len();
        let mut i: usize = 0;
        while i < n
            invariant
                self.wf(),
                self == old(self),
                n == self.entries.len(),
                i <= n,
                forall|j: int| 0 <= j < i ==> self.entries@[j].0 != *key,
            decreases n - i,
        {
            if self.entries[i].0 == *key {
                proof {
                    lemma_account_eq_is_view_eq(self.entries@[i as int].0, *key);
                    lemma_map_of_remove(self.entries@, i as int);
                }
                self.entries.remove(i);
                return;
            }
            i += 1;
        }
        proof {
            lemma_map_of_contains(self.entries@, *key);
            assert(self@.remove(*key) =~= self@);
        }
    }
}

} // verus!
