//! The fact cache.
//!
//! A cache is a memoizer from a file's absolute path to its previously
//! computed fact set.  A lookup either hits — the stored facts are returned
//! verbatim and the caller must not re-parse — or misses and hands back a
//! write-capable entry for the queried key.  The cache knows nothing of
//! packs, checkers or violations, and the storage medium is the
//! implementation's choice; [`MemoryCache`] is the in-process one.

use vstd::prelude::*;
use vstd::pervasive::VecAdditionalExecFns;

use crate::parsing::{ProcessedFile, ProcessedFileView};
use crate::paths::str_eq;

verus! {

/// A write-capable handle for a missed key, obtained from
/// [`CacheResult::Miss`].
#[derive(Debug)]
pub struct CacheEntry {
    pub key: String,
}

impl View for CacheEntry {
    type V = Seq<char>;

    open spec fn view(&self) -> Seq<char> {
        self.key@
    }
}

/// The outcome of a cache lookup: the stored facts, or a handle to write
/// the freshly computed ones back through.
#[derive(Debug)]
pub enum CacheResult {
    Processed(ProcessedFile),
    Miss(CacheEntry),
}

/// The cache contract.  A conforming store models its contents as a map
/// from key to fact set: a hit returns exactly the stored facts for the
/// queried key, a miss hands back a handle for that key, and a write makes
/// the contents the old contents with the handle's key bound to the written
/// facts — so writing the same facts twice cannot duplicate an entry.  An
/// implementation remains free to miss on a key it has seen, which is how
/// stores keyed by file content or parsing strategy invalidate stale
/// entries.
pub trait Cache: Sized {
    /// Well-formedness of the store's internal representation; constructors
    /// establish it and both operations preserve it.
    spec fn wf(&self) -> bool;

    /// The stored contents, as a map from key to fact set.
    spec fn contents(&self) -> Map<Seq<char>, ProcessedFileView>;

    /// Looks up the facts computed earlier for `absolute_path` under
    /// `absolute_root`.
    fn get(&self, absolute_root: &String, absolute_path: &String) -> (r: CacheResult)
        requires
            self.wf(),
        ensures
            match r {
                CacheResult::Processed(pf) => self.contents().contains_key(absolute_path@)
                    && pf@ == self.contents()[absolute_path@],
                CacheResult::Miss(entry) => entry@ == absolute_path@,
            },
    ;

    /// Persists `processed_file` under the key the miss was for.
    fn write(&mut self, entry: &CacheEntry, processed_file: &ProcessedFile)
        requires
            old(self).wf(),
        ensures
            final(self).wf(),
            final(self).contents() == old(self).contents().insert(entry@, processed_file@),
    ;
}

/// A write for a key makes a later lookup of that key a hit returning
/// exactly the written facts: binding `key` in a contents map and reading
/// it back loses nothing, whatever was stored before.  Together with the
/// [`Cache`] contracts this is the store's round-trip guarantee.
pub proof fn lemma_cache_round_trip(
    contents: Map<Seq<char>, ProcessedFileView>,
    key: Seq<char>,
    file: ProcessedFileView,
)
    ensures
        contents.insert(key, file).contains_key(key),
        contents.insert(key, file)[key] == file,
{
}

/// One stored key with its fact set.
pub struct CacheSlot {
    pub key: String,
    pub file: ProcessedFile,
}

/// Mathematical image of a [`CacheSlot`].
#[verifier::ext_equal]
pub ghost struct CacheSlotView {
    pub key: Seq<char>,
    pub file: ProcessedFileView,
}

impl View for CacheSlot {
    type V = CacheSlotView;

    open spec fn view(&self) -> CacheSlotView {
        CacheSlotView { key: self.key@, file: self.file@ }
    }
}

/// No two slots store the same key.
pub open spec fn unique_keys(s: Seq<CacheSlotView>) -> bool {
    forall|i: int, j: int| 0 <= i < j < s.len() ==> s[i].key != s[j].key
}

/// The map a slot sequence stores: later slots would win, though a
/// well-formed store never repeats a key.
pub open spec fn slots_to_map(s: Seq<CacheSlotView>) -> Map<Seq<char>, ProcessedFileView>
    decreases s.len(),
{
    if s.len() == 0 {
        Map::empty()
    } else {
        slots_to_map(s.drop_last()).insert(s.last().key, s.last().file)
    }
}

proof fn lemma_slots_to_map_found(s: Seq<CacheSlotView>, i: int)
    requires
        unique_keys(s),
        0 <= i < s.len(),
    ensures
        slots_to_map(s).contains_key(s[i].key),
        slots_to_map(s)[s[i].key] == s[i].file,
    decreases s.len(),
{
    if i < s.len() - 1 {
        lemma_slots_to_map_found(s.drop_last(), i);
        assert(s.last().key != s[i].key);
    }
}

proof fn lemma_slots_to_map_not_found(s: Seq<CacheSlotView>, k: Seq<char>)
    requires
        forall|i: int| 0 <= i < s.len() ==> s[i].key != k,
    ensures
        !slots_to_map(s).contains_key(k),
    decreases s.len(),
{
    if s.len() > 0 {
        lemma_slots_to_map_not_found(s.drop_last(), k);
    }
}

proof fn lemma_slots_to_map_update(s: Seq<CacheSlotView>, i: int, slot: CacheSlotView)
    requires
        unique_keys(s),
        0 <= i < s.len(),
        slot.key == s[i].key,
    ensures
        slots_to_map(s.update(i, slot)) == slots_to_map(s).insert(slot.key, slot.file),
    decreases s.len(),
{
    let t = s.update(i, slot);
    if i == s.len() - 1 {
        assert(t.drop_last() =~= s.drop_last());
        assert(slots_to_map(s.drop_last()).insert(slot.key, slot.file) =~= slots_to_map(
            s.drop_last(),
        ).insert(s.last().key, s.last().file).insert(slot.key, slot.file));
    } else {
        assert(t.drop_last() =~= s.drop_last().update(i, slot));
        lemma_slots_to_map_update(s.drop_last(), i, slot);
        assert(s.last().key != slot.key);
        assert(slots_to_map(s.drop_last()).insert(slot.key, slot.file).insert(
            s.last().key,
            s.last().file,
        ) =~= slots_to_map(s.drop_last()).insert(s.last().key, s.last().file).insert(
            slot.key,
            slot.file,
        ));
        assert(t.last() == s.last());
    }
}

/// The in-process cache: a plain list of key/fact-set slots with no key
/// repeated, keyed purely by absolute path.
pub struct MemoryCache {
    slots: Vec<CacheSlot>,
}

impl MemoryCache {
    /// The slot sequence as the store's mathematical image.
    pub closed spec fn slots_view(&self) -> Seq<CacheSlotView> {
        self.slots@.map_values(|s: CacheSlot| s@)
    }

    /// An empty store.
    pub fn new() -> (c: MemoryCache)
        ensures
            c.wf(),
            c.contents() == Map::<Seq<char>, ProcessedFileView>::empty(),
    {
        let c = MemoryCache { slots: Vec::new() };
        proof {
            assert(c.slots_view() =~= Seq::<CacheSlotView>::empty());
        }
        c
    }
}

impl Cache for MemoryCache {
    open spec fn wf(&self) -> bool {
        unique_keys(self.slots_view())
    }

    open spec fn contents(&self) -> Map<Seq<char>, ProcessedFileView> {
        slots_to_map(self.slots_view())
    }

    /// An in-memory lookup additionally hits whenever the key is present:
    /// nothing invalidates a purely path-keyed store.
    fn get(&self, absolute_root: &String, absolute_path: &String) -> (r: CacheResult)
        ensures
            r is Processed <==> self.contents().contains_key(absolute_path@),
    {
        let mut i: usize = 0;
        while i < self.slots.len()
            invariant
                i <= self.slots_view().len(),
                self.slots_view().len() == self.slots@.len(),
                self.wf(),
                forall|j: int| 0 <= j < i ==> self.slots_view()[j].key != absolute_path@,
            decreases self.slots@.len() - i,
        {
            if str_eq(self.slots[i].key.as_str(), absolute_path.as_str()) {
                proof {
                    lemma_slots_to_map_found(self.slots_view(), i as int);
                }
                return CacheResult::Processed(self.slots[i].file.clone());
            }
            i = i + 1;
        }
        proof {
            lemma_slots_to_map_not_found(self.slots_view(), absolute_path@);
        }
        CacheResult::Miss(CacheEntry { key: absolute_path.clone() })
    }

    fn write(&mut self, entry: &CacheEntry, processed_file: &ProcessedFile) {
        let mut i: usize = 0;
        while i < self.slots.len()
            invariant
                i <= self.slots_view().len(),
                self.slots_view().len() == self.slots@.len(),
                self.wf(),
                *self == *old(self),
                forall|j: int| 0 <= j < i ==> self.slots_view()[j].key != entry@,
            decreases self.slots@.len() - i,
        {
            if str_eq(self.slots[i].key.as_str(), entry.key.as_str()) {
                let slot = CacheSlot { key: entry.key.clone(), file: processed_file.clone() };
                let ghost slot_v = slot@;
                let ghost before = self.slots_view();
                proof {
                    lemma_slots_to_map_update(before, i as int, slot_v);
                }
                self.slots.set(i, slot);
                proof {
                    assert(self.slots_view() =~= before.update(i as int, slot_v));
                    assert forall|a: int, b: int|
                        0 <= a < b < self.slots_view().len() implies self.slots_view()[a].key
                        != self.slots_view()[b].key by {
                        assert(before[a].key != before[b].key);
                    }
                }
                return ;
            }
            i = i + 1;
        }
        let slot = CacheSlot { key: entry.key.clone(), file: processed_file.clone() };
        let ghost slot_v = slot@;
        let ghost before = self.slots_view();
        self.slots.push(slot);
        proof {
            assert(self.slots_view() =~= before.push(slot_v));
            assert(self.slots_view().drop_last() =~= before);
            assert forall|a: int, b: int|
                0 <= a < b < self.slots_view().len() implies self.slots_view()[a].key
                != self.slots_view()[b].key by {
                if b < before.len() as int {
                    assert(before[a].key != before[b].key);
                } else {
                    assert(before[a].key != entry@);
                }
            }
        }
    }
}

} // verus!
