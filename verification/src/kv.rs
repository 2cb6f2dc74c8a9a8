//! The key-value store behind the sessions actor.
//!
//! Sessions live in a key-value backend: get, put and delete by string
//! key.  The store keeps its entries keyed uniquely; executing an operation
//! against it is defined exactly by the spec functions here.

use vstd::prelude::*;

use crate::user::User;
use crate::user::UserModel;

verus! {

/// One stored session: a key and the user logged in under it.
#[derive(Debug)]
pub struct SessionEntry {
    pub key: String,
    pub user: User,
}

/// Mathematical image of a [`SessionEntry`].
pub struct SessionEntryModel {
    pub key: Seq<char>,
    pub user: UserModel,
}

impl View for SessionEntry {
    type V = SessionEntryModel;

    open spec fn view(&self) -> SessionEntryModel {
        SessionEntryModel { key: self.key@, user: self.user@ }
    }
}

impl DeepView for SessionEntry {
    type V = SessionEntryModel;

    open spec fn deep_view(&self) -> SessionEntryModel {
        self.view()
    }
}

impl Clone for SessionEntry {
    fn clone(&self) -> (res: Self)
        ensures
            res@ == self@,
    {
        SessionEntry { key: self.key.clone(), user: self.user.clone() }
    }
}

/// The position of the first entry with the given key, or the length when
/// no entry has it.
pub open spec fn kv_first(entries: Seq<SessionEntryModel>, key: Seq<char>) -> int
    decreases entries.len(),
{
    if entries.len() == 0 {
        0
    } else if entries[0].key == key {
        0
    } else {
        1 + kv_first(entries.skip(1), key)
    }
}

/// Where [`kv_first`] points: at the first entry with the key, past every
/// earlier entry; or at the end when no entry has the key.
pub proof fn lemma_kv_first(entries: Seq<SessionEntryModel>, key: Seq<char>)
    ensures
        0 <= kv_first(entries, key) <= entries.len(),
        kv_first(entries, key) < entries.len() ==> entries[kv_first(entries, key)].key == key,
        forall|j: int| 0 <= j < kv_first(entries, key) ==> (#[trigger] entries[j]).key != key,
    decreases entries.len(),
{
    if entries.len() == 0 {
    } else if entries[0].key == key {
    } else {
        lemma_kv_first(entries.skip(1), key);
        assert forall|j: int| 0 <= j < kv_first(entries, key) implies (#[trigger] entries[j]).key
            != key by {
            if j > 0 {
                assert(entries.skip(1)[j - 1] == entries[j]);
            }
        }
    }
}

/// The user stored under the key, if any.
pub open spec fn kv_get(entries: Seq<SessionEntryModel>, key: Seq<char>) -> Option<UserModel> {
    if kv_first(entries, key) < entries.len() {
        Some(entries[kv_first(entries, key)].user)
    } else {
        None
    }
}

/// The entries after storing the user under the key: the existing entry is
/// overwritten, or a new one is appended.
pub open spec fn kv_put(
    entries: Seq<SessionEntryModel>,
    key: Seq<char>,
    user: UserModel,
) -> Seq<SessionEntryModel> {
    if kv_first(entries, key) < entries.len() {
        entries.update(kv_first(entries, key), SessionEntryModel { key, user })
    } else {
        entries.push(SessionEntryModel { key, user })
    }
}

/// The entries after deleting the key: the entry with it is removed, and a
/// missing key is a quiet no-op.
pub open spec fn kv_remove(entries: Seq<SessionEntryModel>, key: Seq<char>) -> Seq<
    SessionEntryModel,
> {
    if kv_first(entries, key) < entries.len() {
        entries.remove(kv_first(entries, key))
    } else {
        entries
    }
}

/// The store's invariant: no two entries share a key.
pub open spec fn kv_wf(entries: Seq<SessionEntryModel>) -> bool {
    forall|i: int, j: int|
        0 <= i < j < entries.len() ==> (#[trigger] entries[i]).key != (#[trigger] entries[j]).key
}

/// Storing preserves unique keys.
pub proof fn lemma_kv_put_wf(entries: Seq<SessionEntryModel>, key: Seq<char>, user: UserModel)
    requires
        kv_wf(entries),
    ensures
        kv_wf(kv_put(entries, key, user)),
{
    lemma_kv_first(entries, key);
    let at = kv_first(entries, key);
    let out = kv_put(entries, key, user);
    if at < entries.len() {
        assert forall|i: int, j: int| 0 <= i < j < out.len() implies (#[trigger] out[i]).key != (
        #[trigger] out[j]).key by {
            assert(entries[i].key != entries[j].key);
        }
    } else {
        assert forall|i: int, j: int| 0 <= i < j < out.len() implies (#[trigger] out[i]).key != (
        #[trigger] out[j]).key by {
            if j < entries.len() {
                assert(entries[i].key != entries[j].key);
            } else {
                assert(out[i] == entries[i]);
                assert(entries[i].key != key);
            }
        }
    }
}

/// Deleting preserves unique keys.
pub proof fn lemma_kv_remove_wf(entries: Seq<SessionEntryModel>, key: Seq<char>)
    requires
        kv_wf(entries),
    ensures
        kv_wf(kv_remove(entries, key)),
{
    lemma_kv_first(entries, key);
    let at = kv_first(entries, key);
    let out = kv_remove(entries, key);
    if at < entries.len() {
        assert forall|i: int, j: int| 0 <= i < j < out.len() implies (#[trigger] out[i]).key != (
        #[trigger] out[j]).key by {
            let oi: int = if i < at {
                i
            } else {
                i + 1
            };
            let oj: int = if j < at {
                j
            } else {
                j + 1
            };
            assert(out[i] == entries[oi]);
            assert(out[j] == entries[oj]);
            assert(entries[oi].key != entries[oj].key);
        }
    }
}

/// The confined key-value backend for sessions.
#[derive(Debug)]
pub struct KvStore {
    pub entries: Vec<SessionEntry>,
}

impl View for KvStore {
    type V = Seq<SessionEntryModel>;

    open spec fn view(&self) -> Seq<SessionEntryModel> {
        self.entries.deep_view()
    }
}

/// Find the position [`kv_first`] names, walking the entries from the front.
fn find_key(entries: &Vec<SessionEntry>, key: &String) -> (r: usize)
    ensures
        r == kv_first(entries.deep_view(), key@),
{
    let ghost all = entries.deep_view();
    proof {
        assert(all.skip(0) =~= all);
    }
    let mut i: usize = 0;
    while i < entries.len()
        invariant
            0 <= i <= entries@.len(),
            all == entries.deep_view(),
            all.len() == entries@.len(),
            forall|j: int| 0 <= j < all.len() ==> #[trigger] all[j] == entries@[j]@,
            kv_first(all, key@) == i + kv_first(all.skip(i as int), key@),
        decreases entries@.len() - i,
    {
        proof {
            assert(all.skip(i as int)[0] == all[i as int]);
        }
        if entries[i].key == *key {
            return i;
        }
        proof {
            assert(all.skip(i as int).skip(1) =~= all.skip(i as int + 1));
        }
        i += 1;
    }
    proof {
        assert(all.skip(all.len() as int) =~= Seq::<SessionEntryModel>::empty());
    }
    i
}

impl KvStore {
    /// Read the user stored under the key.
    pub fn get(&self, key: &String) -> (r: Option<User>)
        ensures
            kv_get(self@, key@) is Some <==> r is Some,
            r matches Some(u) ==> kv_get(self@, key@) == Some(u@),
    {
        let at = find_key(&self.entries, key);
        proof {
            lemma_kv_first(self@, key@);
        }
        if at < self.entries.len() {
            Some(self.entries[at].user.clone())
        } else {
            None
        }
    }

    /// Store the user under the key, overwriting any existing entry.
    pub fn put(&mut self, key: String, user: User)
        ensures
            final(self)@ == kv_put(old(self)@, key@, user@),
    {
        let at = find_key(&self.entries, &key);
        proof {
            lemma_kv_first(self@, key@);
        }
        if at < self.entries.len() {
            self.entries[at] = SessionEntry { key, user };
            proof {
                assert(self@ =~= kv_put(old(self)@, key@, user@));
            }
        } else {
            self.entries.push(SessionEntry { key, user });
            proof {
                assert(self@ =~= kv_put(old(self)@, key@, user@));
            }
        }
    }

    /// Delete the key; deleting a missing key is a quiet no-op.
    pub fn remove(&mut self, key: &String)
        ensures
            final(self)@ == kv_remove(old(self)@, key@),
    {
        let at = find_key(&self.entries, key);
        proof {
            lemma_kv_first(self@, key@);
        }
        if at < self.entries.len() {
            self.entries.remove(at);
            proof {
                assert(self@ =~= kv_remove(old(self)@, key@));
            }
        }
    }
}

} // verus!
