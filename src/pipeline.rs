//! The persistence contract: which document a folder's manifest lives in,
//! and a keyed store of saved active worlds. A save captures the whole
//! active world (the singleton policy); a load replaces it whole.

use vstd::prelude::*;
use crate::manifest::{GridAxis, MAX_GRID_SIZE};
use crate::session::{EditorSession, LoaderModel, PersistError, SessionModel, ZoneLoader};

verus! {

/// Names the document a save or a load goes to.
pub struct ZoneLoaderPipeline {
    pub file: String,
}

impl ZoneLoaderPipeline {
    pub fn new(file: String) -> (r: Self)
        ensures
            r.file@ == file@,
    {
        ZoneLoaderPipeline { file }
    }

    /// The key the storage backend files the document under.
    pub fn key(&self) -> (r: &str)
        ensures
            r@ == self.file@,
    {
        self.file.as_str()
    }
}

/// The key of the manifest kept in `folder`.
pub open spec fn manifest_key_of(folder: Seq<char>) -> Seq<char> {
    folder + "/manifest"@
}

/// The key of the manifest kept in `folder`: its `manifest` entry.
pub fn manifest_key(folder: &str) -> (r: String)
    ensures
        r@ == manifest_key_of(folder@),
{
    let s = String::from_str(folder);
    s.concat("/manifest")
}

/// The file a document saved under `key` is written to: the backend adds
/// the `.json` extension.
pub fn document_path(key: &str) -> (r: String)
    ensures
        r@ == key@ + ".json"@,
{
    let s = String::from_str(key);
    s.concat(".json")
}

/// What a load from `store` under `key` produces.
pub open spec fn load_outcome(store: Map<Seq<char>, LoaderModel>, key: Seq<char>) -> Result<
    LoaderModel,
    PersistError,
> {
    if store.contains_key(key) {
        Ok(store[key])
    } else {
        Err(PersistError::PathNotFound)
    }
}

/// Saved active worlds, one per key; saving under a key that is taken
/// overwrites it.
pub struct ManifestStore {
    pub entries: Vec<(String, ZoneLoader)>,
}

impl ManifestStore {
    pub open spec fn has_key_at(self, i: int, k: Seq<char>) -> bool {
        0 <= i < self.entries@.len() && self.entries@[i].0@ == k
    }

    /// No key is stored twice.
    pub open spec fn well_formed(self) -> bool {
        forall|i: int, j: int|
            0 <= i < self.entries@.len() && 0 <= j < self.entries@.len() && i != j
                ==> #[trigger] self.entries@[i].0@ != #[trigger] self.entries@[j].0@
    }

    pub open spec fn view(self) -> Map<Seq<char>, LoaderModel> {
        Map::new(
            |k: Seq<char>| exists|i: int| self.has_key_at(i, k),
            |k: Seq<char>| self.entries@[choose|i: int| self.has_key_at(i, k)].1@,
        )
    }

    pub fn new() -> (r: Self)
        ensures
            r.well_formed(),
            r.view() == Map::<Seq<char>, LoaderModel>::empty(),
    {
        let r = ManifestStore { entries: Vec::new() };
        assert(r.view() =~= Map::<Seq<char>, LoaderModel>::empty());
        r
    }

    /// The index `key` is stored at, if any.
    fn find(&self, key: &String) -> (r: Option<usize>)
        requires
            self.well_formed(),
        ensures
            match r {
                Some(i) => self.has_key_at(i as int, key@),
                None => !self.view().contains_key(key@),
            },
    {
        let mut i: usize = 0;
        while i < self.entries.len()
            invariant
                i <= self.entries.len(),
                forall|j: int| 0 <= j < i ==> !self.has_key_at(j, key@),
            decreases self.entries.len() - i,
        {
            if self.entries[i].0 == *key {
                return Some(i);
            }
            i = i + 1;
        }
        assert(!self.view().contains_key(key@)) by {
            if exists|j: int| self.has_key_at(j, key@) {
                let j = choose|j: int| self.has_key_at(j, key@);
                assert(!self.has_key_at(j, key@));
            }
        }
        None
    }

    /// Stores `snapshot` under `key`, replacing what was there.
    pub fn save(&mut self, key: &String, snapshot: ZoneLoader)
        requires
            old(self).well_formed(),
        ensures
            final(self).well_formed(),
            final(self).view() == old(self).view().insert(key@, snapshot@),
    {
        let ghost snap = snapshot@;
        match self.find(key) {
            Some(i) => {
                self.entries.set(i, (key.clone(), snapshot));
                assert forall|j: int| 0 <= j < self.entries@.len() implies
                    #[trigger] self.entries@[j].0@ == old(self).entries@[j].0@ by {}
                assert forall|k: Seq<char>|
                    #![trigger self.view().contains_key(k)]
                    self.view().contains_key(k) == old(self).view().insert(key@, snap).contains_key(k)
                    && (self.view().contains_key(k) ==> self.view()[k] == old(self).view().insert(key@, snap)[k]) by {
                    if exists|j: int| old(self).has_key_at(j, k) {
                        let j = choose|j: int| old(self).has_key_at(j, k);
                        assert(self.has_key_at(j, k));
                    }
                    if exists|j: int| self.has_key_at(j, k) {
                        let j = choose|j: int| self.has_key_at(j, k);
                        if j != i {
                            assert(old(self).has_key_at(j, k));
                        }
                    }
                }
                assert(self.view() =~= old(self).view().insert(key@, snap));
            },
            None => {
                self.entries.push((key.clone(), snapshot));
                let ghost n = old(self).entries@.len() as int;
                assert forall|j: int| 0 <= j < n implies
                    #[trigger] self.entries@[j].0@ != key@ by {
                    if old(self).entries@[j].0@ == key@ {
                        assert(old(self).has_key_at(j, key@));
                    }
                }
                assert forall|k: Seq<char>|
                    #![trigger self.view().contains_key(k)]
                    self.view().contains_key(k) == old(self).view().insert(key@, snap).contains_key(k)
                    && (self.view().contains_key(k) ==> self.view()[k] == old(self).view().insert(key@, snap)[k]) by {
                    if exists|j: int| old(self).has_key_at(j, k) {
                        let j = choose|j: int| old(self).has_key_at(j, k);
                        assert(self.has_key_at(j, k));
                    }
                    if k == key@ {
                        assert(self.has_key_at(n, k));
                    }
                    if exists|j: int| self.has_key_at(j, k) {
                        let j = choose|j: int| self.has_key_at(j, k);
                        if j != n {
                            assert(old(self).has_key_at(j, k));
                        }
                    }
                }
                assert(self.view() =~= old(self).view().insert(key@, snap));
            },
        }
    }

    /// A copy of what is stored under `key`; `PathNotFound` when nothing is.
    pub fn load(&self, key: &String) -> (r: Result<ZoneLoader, PersistError>)
        requires
            self.well_formed(),
        ensures
            match r {
                Ok(l) => load_outcome(self.view(), key@) == Ok::<LoaderModel, PersistError>(l@),
                Err(e) => load_outcome(self.view(), key@) == Err::<LoaderModel, PersistError>(e),
            },
    {
        match self.find(key) {
            Some(i) => {
                assert(self.view().contains_key(key@));
                Ok(self.entries[i].1.deep_copy())
            },
            None => Err(PersistError::PathNotFound),
        }
    }
}

impl EditorSession {
    /// Writes the active world to `store` under `key`.
    pub fn save_to(&self, store: &mut ManifestStore, key: &String)
        requires
            old(store).well_formed(),
        ensures
            final(store).well_formed(),
            final(store).view() == old(store).view().insert(key@, self@.snapshot()),
    {
        let snapshot = self.capture();
        store.save(key, snapshot);
    }

    /// Replaces the active world with what `store` holds under `key`; when
    /// nothing is stored there, reports `PathNotFound` and changes nothing.
    pub fn load_from(&mut self, store: &ManifestStore, key: &String) -> (r: Result<(), PersistError>)
        requires
            store.well_formed(),
        ensures
            final(self)@ == old(self)@.after_load(load_outcome(store.view(), key@)),
            r is Ok <==> store.view().contains_key(key@),
            r is Err ==> r == Err::<(), PersistError>(PersistError::PathNotFound),
    {
        let outcome = store.load(key);
        self.apply_loaded(outcome)
    }
}

/// Loading what was just saved under a key gives back the saved active
/// world exactly, whatever the store held before and whatever the loading
/// session held.
pub proof fn lemma_save_then_load_round_trips(
    store: Map<Seq<char>, LoaderModel>,
    key: Seq<char>,
    saver: SessionModel,
    loader: SessionModel,
)
    ensures
        load_outcome(store.insert(key, saver.snapshot()), key) == Ok::<LoaderModel, PersistError>(
            saver.snapshot(),
        ),
        loader.after_load(load_outcome(store.insert(key, saver.snapshot()), key)).active
            == saver.active,
{
}

/// Saving the same active world twice under one key leaves the store as one
/// save does, so loading gives the same outcome both times.
pub proof fn lemma_repeated_save_is_stable(
    store: Map<Seq<char>, LoaderModel>,
    key: Seq<char>,
    saver: SessionModel,
)
    ensures
        store.insert(key, saver.snapshot()).insert(key, saver.snapshot()) == store.insert(
            key,
            saver.snapshot(),
        ),
        load_outcome(store.insert(key, saver.snapshot()).insert(key, saver.snapshot()), key)
            == load_outcome(store.insert(key, saver.snapshot()), key),
{
    assert(store.insert(key, saver.snapshot()).insert(key, saver.snapshot()) =~= store.insert(
        key,
        saver.snapshot(),
    ));
}

/// Loading under a key that holds nothing reports `PathNotFound` and leaves
/// the active world, the draft and everything else as they were.
pub proof fn lemma_failed_load_changes_nothing(
    store: Map<Seq<char>, LoaderModel>,
    key: Seq<char>,
    s: SessionModel,
)
    requires
        !store.contains_key(key),
    ensures
        load_outcome(store, key) == Err::<LoaderModel, PersistError>(PersistError::PathNotFound),
        s.after_load(load_outcome(store, key)) == s,
{
}

/// A grid dimension set within bounds on the focused zone, promoted, saved
/// and loaded back, comes back with exactly the value that was set.
pub proof fn lemma_grid_size_survives_save_and_load(
    store: Map<Seq<char>, LoaderModel>,
    key: Seq<char>,
    s: SessionModel,
    loader: SessionModel,
    axis: GridAxis,
    requested: u32,
)
    requires
        s.has_focus(),
        requested <= MAX_GRID_SIZE,
    ensures
        ({
            let saved = s.with_focused_grid_size(axis, requested).promoted();
            let zone = loader.after_load(load_outcome(store.insert(key, saved.snapshot()), key)).active[s.focus as int].zone;
            match axis {
                GridAxis::X => zone.size_x == requested,
                GridAxis::Y => zone.size_y == requested,
                GridAxis::Z => zone.size_z == requested,
            }
        }),
{
}

} // verus!
