//! The editing session: the active world, which is what gets saved, and the
//! editor's draft, which the editing commands change. The two are only ever
//! synchronised by whole-value copies.

use vstd::prelude::*;
use crate::manifest::{option_string_view, GridAxis, PlacedZoneModel, WorldManifest};

verus! {

/// Why a save or a load did not happen.
#[derive(Clone, Copy, Debug, PartialEq, Eq, Structural)]
pub enum PersistError {
    /// The selected folder or the manifest file does not exist.
    PathNotFound,
    /// The stored document does not match the manifest types.
    SchemaMismatch,
    /// Opening, reading or writing the document failed.
    IoFailure,
    /// A command's precondition did not hold.
    PreconditionViolation,
}

/// What the active world is: its zones and whether it has diverged from
/// what was last synchronised.
pub ghost struct LoaderModel {
    pub zones: Seq<PlacedZoneModel>,
    pub dirty: bool,
}

/// The active world: the canonical in-memory manifest, and an advisory flag
/// that it has diverged from the last synchronised state.
#[derive(Clone, Debug)]
pub struct ZoneLoader {
    pub manifest: WorldManifest,
    pub dirty: bool,
}

impl View for ZoneLoader {
    type V = LoaderModel;

    open spec fn view(&self) -> LoaderModel {
        LoaderModel { zones: self.manifest@, dirty: self.dirty }
    }
}

impl Default for ZoneLoader {
    fn default() -> (r: Self)
        ensures
            r@ == (LoaderModel { zones: Seq::empty(), dirty: false }),
    {
        ZoneLoader { manifest: WorldManifest::default(), dirty: false }
    }
}

impl ZoneLoader {
    /// A copy that shares nothing with `self`.
    pub fn deep_copy(&self) -> (r: Self)
        ensures
            r@ == self@,
    {
        ZoneLoader { manifest: self.manifest.deep_copy(), dirty: self.dirty }
    }
}

/// The editor's draft: a world of its own, the folder the editor was started
/// with, and the index of the zone being edited, which may be out of range.
#[derive(Clone, Debug)]
pub struct ZoneLoaderEditorState {
    pub boot_zone_root: Option<String>,
    pub manifest: WorldManifest,
    pub focused_zone_index: usize,
}

/// What a session is.
pub ghost struct SessionModel {
    pub active: Seq<PlacedZoneModel>,
    pub dirty: bool,
    pub draft: Seq<PlacedZoneModel>,
    pub focus: usize,
    pub boot_root: Option<Seq<char>>,
}

/// Largest index the focus can be set to: the last zone, or 0 when there
/// are none.
pub open spec fn max_focus(zone_count: nat) -> nat {
    if zone_count == 0 {
        0
    } else {
        (zone_count - 1) as nat
    }
}

impl SessionModel {
    pub open spec fn has_focus(self) -> bool {
        self.focus < self.draft.len()
    }

    pub open spec fn with_appended_zone(self) -> SessionModel {
        SessionModel { draft: self.draft.push(PlacedZoneModel::fresh()), ..self }
    }

    /// The focused zone is removed, later zones move down by one, and the
    /// focus stays where it was; with no zone in focus nothing changes.
    pub open spec fn with_focused_zone_removed(self) -> SessionModel {
        if self.has_focus() {
            SessionModel { draft: self.draft.remove(self.focus as int), ..self }
        } else {
            self
        }
    }

    pub open spec fn promoted(self) -> SessionModel {
        SessionModel { active: self.draft, dirty: false, ..self }
    }

    pub open spec fn refreshed(self) -> SessionModel {
        SessionModel { draft: self.active, dirty: false, ..self }
    }

    pub open spec fn focused_on(self, requested: usize) -> SessionModel {
        let top = max_focus(self.draft.len());
        SessionModel { focus: if requested > top { top as usize } else { requested }, ..self }
    }

    pub open spec fn with_focused_grid_size(self, axis: GridAxis, requested: u32) -> SessionModel {
        if self.has_focus() {
            SessionModel {
                draft: self.draft.update(
                    self.focus as int,
                    PlacedZoneModel {
                        zone: self.draft[self.focus as int].zone.resized(axis, requested),
                        ..self.draft[self.focus as int]
                    },
                ),
                ..self
            }
        } else {
            self
        }
    }

    /// The active world replaced by what was loaded, and marked dirty.
    pub open spec fn with_loaded(self, loaded: LoaderModel) -> SessionModel {
        SessionModel { active: loaded.zones, dirty: true, ..self }
    }

    /// What a load that produced `outcome` leaves behind: a failed one
    /// leaves everything as it was.
    pub open spec fn after_load(self, outcome: Result<LoaderModel, PersistError>) -> SessionModel {
        match outcome {
            Ok(m) => self.with_loaded(m),
            Err(_) => self,
        }
    }

    /// What a save of this session writes.
    pub open spec fn snapshot(self) -> LoaderModel {
        LoaderModel { zones: self.active, dirty: self.dirty }
    }
}

/// The active world and the editor's draft, owned together and changed only
/// through the commands below.
pub struct EditorSession {
    pub loader: ZoneLoader,
    pub editor: ZoneLoaderEditorState,
}

impl View for EditorSession {
    type V = SessionModel;

    open spec fn view(&self) -> SessionModel {
        SessionModel {
            active: self.loader.manifest@,
            dirty: self.loader.dirty,
            draft: self.editor.manifest@,
            focus: self.editor.focused_zone_index,
            boot_root: option_string_view(self.editor.boot_zone_root),
        }
    }
}

impl EditorSession {
    /// Empty active world and draft, focus on index 0.
    pub fn new(boot_zone_root: Option<String>) -> (r: Self)
        ensures
            r@ == (SessionModel {
                active: Seq::empty(),
                dirty: false,
                draft: Seq::empty(),
                focus: 0,
                boot_root: option_string_view(boot_zone_root),
            }),
    {
        EditorSession {
            loader: ZoneLoader::default(),
            editor: ZoneLoaderEditorState {
                boot_zone_root,
                manifest: WorldManifest::default(),
                focused_zone_index: 0,
            },
        }
    }

    /// The focused zone's index, or `None` when the focus is out of range.
    pub fn focused_zone(&self) -> (r: Option<usize>)
        ensures
            r == (if self@.has_focus() { Some(self@.focus) } else { None::<usize> }),
    {
        if self.editor.focused_zone_index < self.editor.manifest.zone_count() {
            Some(self.editor.focused_zone_index)
        } else {
            None
        }
    }

    /// Pushes a zone with the identity transform and nothing in it to the
    /// end of the draft.
    pub fn append_zone(&mut self)
        ensures
            final(self)@ == old(self)@.with_appended_zone(),
    {
        self.editor.manifest.append_zone();
    }

    /// Removes the focused zone from the draft; inert when the focus is out
    /// of range.
    pub fn remove_focused_zone(&mut self)
        ensures
            final(self)@ == old(self)@.with_focused_zone_removed(),
    {
        let i = self.editor.focused_zone_index;
        if i < self.editor.manifest.zone_count() {
            self.editor.manifest.remove_zone(i);
        }
    }

    /// Copies the draft over the active world and clears the dirty flag.
    pub fn promote(&mut self)
        ensures
            final(self)@ == old(self)@.promoted(),
    {
        self.loader.manifest = self.editor.manifest.deep_copy();
        self.loader.dirty = false;
    }

    /// Copies the active world over the draft, discarding the draft's edits,
    /// and clears the dirty flag.
    pub fn refresh_draft(&mut self)
        ensures
            final(self)@ == old(self)@.refreshed(),
    {
        self.editor.manifest = self.loader.manifest.deep_copy();
        self.loader.dirty = false;
    }

    /// Moves the focus, clamped to the last zone of the draft (to 0 when
    /// the draft is empty).
    pub fn set_focused_zone_index(&mut self, requested: usize)
        ensures
            final(self)@ == old(self)@.focused_on(requested),
    {
        let count = self.editor.manifest.zone_count();
        let top = if count == 0 {
            0
        } else {
            count - 1
        };
        self.editor.focused_zone_index = if requested > top {
            top
        } else {
            requested
        };
    }

    /// Sets one grid dimension of the focused zone, clamped; inert when the
    /// focus is out of range. Returns whether a zone was changed.
    pub fn set_focused_grid_size(&mut self, axis: GridAxis, requested: u32) -> (r: bool)
        ensures
            r == old(self)@.has_focus(),
            final(self)@ == old(self)@.with_focused_grid_size(axis, requested),
    {
        let i = self.editor.focused_zone_index;
        if i < self.editor.manifest.zone_count() {
            self.editor.manifest.set_zone_grid_size(i, axis, requested);
            true
        } else {
            false
        }
    }

    /// What a save writes: a copy of the active world.
    pub fn capture(&self) -> (r: ZoneLoader)
        ensures
            r@ == self@.snapshot(),
    {
        self.loader.deep_copy()
    }

    /// Installs the outcome of a load: on success the loaded world replaces
    /// the active one whole and is marked dirty; on failure nothing changes
    /// and the error is handed back.
    pub fn apply_loaded(&mut self, outcome: Result<ZoneLoader, PersistError>) -> (r: Result<
        (),
        PersistError,
    >)
        ensures
            final(self)@ == old(self)@.after_load(
                match outcome {
                    Ok(l) => Ok(l@),
                    Err(e) => Err(e),
                },
            ),
            r == (match outcome {
                Ok(_) => Ok::<(), PersistError>(()),
                Err(e) => Err(e),
            }),
    {
        match outcome {
            Ok(loaded) => {
                self.loader = ZoneLoader { manifest: loaded.manifest, dirty: true };
                Ok(())
            },
            Err(e) => Err(e),
        }
    }
}

/// Both copies are whole overwrites: after a refresh the draft is the
/// active world, whatever edits it held; after a promotion the active world
/// is the draft and is not dirty. Neither touches the other side.
pub proof fn lemma_copies_overwrite_whole(s: SessionModel)
    ensures
        s.refreshed().draft == s.active,
        s.refreshed().active == s.active,
        s.promoted().active == s.draft,
        s.promoted().draft == s.draft,
        !s.promoted().dirty,
{
}

/// Removing the focused zone when the focus is out of range changes nothing.
pub proof fn lemma_remove_without_focus_is_inert(s: SessionModel)
    requires
        s.focus >= s.draft.len(),
    ensures
        s.with_focused_zone_removed() == s,
{
}

/// Removing the focused zone keeps the zones before it and moves each later
/// zone down by one, leaving the focus on what followed the removed zone.
pub proof fn lemma_remove_shifts_later_zones(s: SessionModel)
    requires
        s.has_focus(),
    ensures
        s.with_focused_zone_removed().draft.len() == s.draft.len() - 1,
        s.with_focused_zone_removed().focus == s.focus,
        forall|i: int|
            0 <= i < s.focus ==> #[trigger] s.with_focused_zone_removed().draft[i] == s.draft[i],
        forall|i: int|
            s.focus <= i < s.draft.len() - 1 ==> #[trigger] s.with_focused_zone_removed().draft[i]
                == s.draft[i + 1],
{
}

} // verus!
