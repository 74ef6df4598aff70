//! The asset-handle registry: a host-side table mapping an opaque
//! integer key to a strong reference that keeps a loaded resource
//! alive.
//!
//! Keys are allocated from a counter that never steps back, so a key is
//! never reused: neither after an explicit release nor after the full
//! wipe a reload performs.  A key handed out earlier therefore never
//! collides with a live one.

use vstd::prelude::*;

use crate::abi::RawAssetKey;
use crate::lend::ProtocolViolation;

verus! {

/// One live registry entry: the key and the path of the resource the
/// host keeps alive for it.
pub struct AssetEntry {
    pub key: RawAssetKey,
    pub path: String,
}

/// The host-owned registry of live asset handles.
pub struct AssetRegistry {
    /// The live entries, with pairwise distinct keys.
    pub entries: Vec<AssetEntry>,
    /// The next key to hand out; all live keys lie below it.
    pub next_key: RawAssetKey,
}

impl AssetRegistry {
    /// No two entries share a key.
    pub open spec fn keys_distinct(self) -> bool {
        forall|i: int, j: int|
            0 <= i < j < self.entries@.len() ==> self.entries@[i].key != self.entries@[j].key
    }

    /// Every key was handed out by the counter.
    pub open spec fn keys_bounded(self) -> bool {
        forall|i: int| 0 <= i < self.entries@.len() ==> self.entries@[i].key < self.next_key
    }

    /// Well-formedness: established by `new`, preserved by every
    /// operation.
    pub open spec fn wf(self) -> bool {
        self.keys_distinct() && self.keys_bounded()
    }

    /// Whether the key is live in the registry.
    pub open spec fn live(self, key: RawAssetKey) -> bool {
        exists|i: int| 0 <= i < self.entries@.len() && self.entries@[i].key == key
    }

    /// Index of the entry carrying the given key (unique when the keys
    /// are distinct).
    pub open spec fn index_of(self, key: RawAssetKey) -> int {
        choose|i: int| 0 <= i < self.entries@.len() && self.entries@[i].key == key
    }

    /// The path registered under the given key.
    pub open spec fn path_of(self, key: RawAssetKey) -> Seq<char> {
        self.entries@[self.index_of(key)].path@
    }

    /// With distinct keys, the entry at position `i` is the one that
    /// the key-indexed views return for its key.
    pub proof fn lemma_entry_at(self, i: int)
        requires
            self.keys_distinct(),
            0 <= i < self.entries@.len(),
        ensures
            self.live(self.entries@[i].key),
            self.index_of(self.entries@[i].key) == i,
            self.path_of(self.entries@[i].key) == self.entries@[i].path@,
    {
        let key = self.entries@[i].key;
        assert(self.live(key));
        let j = self.index_of(key);
        if i < j {
            assert(self.entries@[i].key != self.entries@[j].key);
        } else if j < i {
            assert(self.entries@[j].key != self.entries@[i].key);
        }
    }

    /// An empty registry whose counter starts at zero.
    pub fn new() -> (r: AssetRegistry)
        ensures
            r.wf(),
            r.entries@.len() == 0,
            r.next_key == 0,
            forall|key: RawAssetKey| !r.live(key),
    {
        AssetRegistry { entries: Vec::new(), next_key: 0 }
    }

    /// Position of the entry carrying `key`, if any.
    pub fn find(&self, key: RawAssetKey) -> (r: Option<usize>)
        requires
            self.wf(),
        ensures
            match r {
                Some(i) => i < self.entries@.len() && self.entries@[i as int].key == key && self.live(
                    key,
                ) && self.index_of(key) == i as int,
                None => !self.live(key),
            },
    {
        let n = self.entries.len();
        let mut i: usize = 0;
        while i < n
            invariant
                n == self.entries@.len(),
                i <= n,
                self.wf(),
                forall|j: int| 0 <= j < i ==> self.entries@[j].key != key,
            decreases n - i,
        {
            if self.entries[i].key == key {
                proof {
                    self.lemma_entry_at(i as int);
                }
                return Some(i);
            }
            i = i + 1;
        }
        None
    }

    /// Inserts a strong reference for the resource at `path` and hands
    /// out a fresh key: one that is not live now and was never handed
    /// out before.
    pub fn register(&mut self, path: String) -> (r: RawAssetKey)
        requires
            old(self).wf(),
            old(self).next_key < RawAssetKey::MAX,
        ensures
            final(self).wf(),
            r == old(self).next_key,
            !old(self).live(r),
            final(self).next_key == old(self).next_key + 1,
            final(self).live(r),
            final(self).path_of(r) == path@,
            forall|key: RawAssetKey| key != r ==> final(self).live(key) == old(self).live(key),
            forall|key: RawAssetKey|
                key != r && old(self).live(key) ==> final(self).path_of(key) == old(self).path_of(
                    key,
                ),
    {
        let key = self.next_key;
        proof {
            if self.live(key) {
                let i = self.index_of(key);
                assert(self.entries@[i].key < self.next_key);
            }
        }
        self.entries.push(AssetEntry { key: key, path: path });
        self.next_key = self.next_key + 1;
        proof {
            let post = *self;
            let pre = *old(self);
            let pre_len = post.entries@.len() - 1;
            assert forall|i: int, j: int|
                0 <= i < j < post.entries@.len() implies post.entries@[i].key
                != post.entries@[j].key by {
                if j == pre_len {
                    assert(post.entries@[j].key == key);
                }
            }
            post.lemma_entry_at(pre_len);
            assert forall|other: RawAssetKey|
                other != key && post.live(other) implies pre.live(other) && post.path_of(other)
                == pre.path_of(other) by {
                let i = post.index_of(other);
                assert(post.entries@[i].key == other);
                assert(i < pre_len);
                pre.lemma_entry_at(i);
                post.lemma_entry_at(i);
            }
            assert forall|other: RawAssetKey|
                other != key && pre.live(other) implies post.live(other) by {
                let i = pre.index_of(other);
                assert(post.entries@[i].key == other);
            }
        }
        key
    }

    /// Removes and releases the entry under `key`.  Releasing a key
    /// that is not live — a double release in particular — is a
    /// protocol violation and leaves the registry untouched.
    pub fn release(&mut self, key: RawAssetKey) -> (r: Result<(), ProtocolViolation>)
        requires
            old(self).wf(),
        ensures
            final(self).wf(),
            final(self).next_key == old(self).next_key,
            !old(self).live(key) ==> r == Err::<(), ProtocolViolation>(
                ProtocolViolation::UnknownAssetKey,
            ) && *final(self) == *old(self),
            old(self).live(key) ==> r == Ok::<(), ProtocolViolation>(()) && !final(self).live(key),
            forall|other: RawAssetKey|
                other != key ==> final(self).live(other) == old(self).live(other),
            forall|other: RawAssetKey|
                other != key && old(self).live(other) ==> final(self).path_of(other) == old(
                    self,
                ).path_of(other),
    {
        let found = self.find(key);
        match found {
            None => Err(ProtocolViolation::UnknownAssetKey),
            Some(i) => {
                let ghost pre = *self;
                self.entries.swap_remove(i);
                proof {
                    let post = *self;
                    let n = pre.entries@.len();
                    assert(post.entries@ == pre.entries@.update(
                        i as int,
                        pre.entries@[n - 1],
                    ).drop_last());
                    assert forall|a: int, b: int|
                        0 <= a < b < post.entries@.len() implies post.entries@[a].key
                        != post.entries@[b].key by {
                        let pa = if a == i as int { n - 1 } else { a };
                        let pb = if b == i as int { n - 1 } else { b };
                        assert(post.entries@[a] == pre.entries@[pa]);
                        assert(post.entries@[b] == pre.entries@[pb]);
                    }
                    if post.live(key) {
                        let k = post.index_of(key);
                        let pk = if k == i as int { n - 1 } else { k };
                        assert(pre.entries@[pk].key == key);
                        if pk != i as int {
                            assert(pre.entries@[i as int].key == key);
                        }
                    }
                    assert forall|other: RawAssetKey|
                        other != key && post.live(other) implies pre.live(other) && post.path_of(
                            other,
                        ) == pre.path_of(other) by {
                        let k = post.index_of(other);
                        let pk = if k == i as int { n - 1 } else { k };
                        assert(post.entries@[k] == pre.entries@[pk]);
                        pre.lemma_entry_at(pk);
                        post.lemma_entry_at(k);
                    }
                    assert forall|other: RawAssetKey|
                        other != key && pre.live(other) implies post.live(other) by {
                        let pk = pre.index_of(other);
                        if pk == i as int {
                            assert(false);
                        } else if pk == n - 1 {
                            if (i as int) < n - 1 {
                                assert(post.entries@[i as int] == pre.entries@[pk]);
                            }
                        } else {
                            assert(post.entries@[pk] == pre.entries@[pk]);
                        }
                    }
                }
                Ok(())
            },
        }
    }

    /// Releases every entry at once, regardless of whether matching
    /// releases were issued: a reload is a hard reset of all
    /// module-owned resources.  The counter stays, so wiped keys stay
    /// invalid forever.
    pub fn wipe(&mut self)
        requires
            old(self).wf(),
        ensures
            final(self).wf(),
            final(self).entries@.len() == 0,
            final(self).next_key == old(self).next_key,
            forall|key: RawAssetKey| !final(self).live(key),
    {
        self.entries.clear();
    }

    /// How many keys are live.
    pub fn num_live(&self) -> (r: usize)
        ensures
            r == self.entries@.len(),
    {
        self.entries.len()
    }
}

} // verus!
