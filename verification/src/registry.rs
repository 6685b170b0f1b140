//! The pending-confirmation registry: a process-lifetime map from a
//! one-shot confirmation token to the sticker reference awaiting a
//! decision. Entries are inserted unconditionally (last write wins) and
//! consumed atomically by `take`; abandoned entries are never evicted.

use vstd::prelude::*;
use vstd::hash_map::StringHashMap;

use crate::sticker::StickerRef;

verus! {

pub struct Registry {
    entries: StringHashMap<StickerRef>,
}

impl View for Registry {
    type V = Map<Seq<char>, StickerRef>;

    closed spec fn view(&self) -> Map<Seq<char>, StickerRef> {
        self.entries@
    }
}

impl Registry {
    /// An empty registry.
    pub fn new() -> (r: Registry)
        ensures
            r@ == Map::<Seq<char>, StickerRef>::empty(),
    {
        Registry { entries: StringHashMap::new() }
    }

    /// Number of pending entries.
    pub fn len(&self) -> (n: usize)
        ensures
            n == self@.len(),
    {
        self.entries.len()
    }

    /// Stores `sticker` under `token`, overwriting any entry already there.
    pub fn put(&mut self, token: String, sticker: StickerRef)
        ensures
            final(self)@ == old(self)@.insert(token@, sticker),
    {
        self.entries.insert(token, sticker);
    }

    /// Atomically reads and removes the entry under `token`: the sticker
    /// stored there if one is present, or nothing if the token is unknown
    /// (already consumed, never issued, or malformed), in which case the
    /// registry is unchanged.
    pub fn take(&mut self, token: &str) -> (r: Option<StickerRef>)
        ensures
            old(self)@.contains_key(token@) ==> {
                &&& r == Some(old(self)@[token@])
                &&& final(self)@ == old(self)@.remove(token@)
            },
            !old(self)@.contains_key(token@) ==> {
                &&& r is None
                &&& final(self)@ == old(self)@
            },
    {
        let found = match self.entries.get(token) {
            Some(v) => Some(v.duplicate()),
            None => None,
        };
        if found.is_some() {
            self.entries.remove(token);
        }
        found
    }
}

/// After storing a sticker under a token, taking that token yields exactly
/// that sticker, and a second take of the same token finds nothing: a
/// pending entry is consumed at most once.
pub proof fn lemma_round_trip(m: Map<Seq<char>, StickerRef>, token: Seq<char>, s: StickerRef)
    ensures
        m.insert(token, s).contains_key(token),
        m.insert(token, s)[token] == s,
        !m.insert(token, s).remove(token).contains_key(token),
{
}

} // verus!
