//! Editor commands, what the editor windows offer, and the plugins that
//! start an editing session.

use vstd::prelude::*;
use crate::manifest::{option_string_view, GridAxis};
use crate::pipeline::{manifest_key, manifest_key_of};
use crate::session::{EditorSession, PersistError, SessionModel, ZoneLoader};

verus! {

/// One step an author takes in the world editor.
#[derive(Clone, Debug, PartialEq, Eq)]
pub enum EditorCommand {
    AppendZone,
    RemoveFocusedZone,
    /// Copy the draft over the active world.
    Promote,
    /// Copy the active world over the draft.
    RefreshDraft,
    FocusZone(usize),
    ResizeGrid(GridAxis, u32),
    /// Write the active world under the given key.
    Save(String),
    /// Replace the active world with what is stored under the given key.
    Load(String),
}

/// Storage work a command leaves to the caller.
#[derive(Clone, Debug, PartialEq, Eq)]
pub enum EditorAction {
    Nothing,
    /// Write `EditorSession::capture` under the key.
    WriteActive(String),
    /// Read the document under the key and hand the outcome to
    /// `EditorSession::apply_loaded`.
    ReadActive(String),
}

/// The session after `cmd`; saving and loading change nothing by themselves.
pub open spec fn step(s: SessionModel, cmd: EditorCommand) -> SessionModel {
    match cmd {
        EditorCommand::AppendZone => s.with_appended_zone(),
        EditorCommand::RemoveFocusedZone => s.with_focused_zone_removed(),
        EditorCommand::Promote => s.promoted(),
        EditorCommand::RefreshDraft => s.refreshed(),
        EditorCommand::FocusZone(i) => s.focused_on(i),
        EditorCommand::ResizeGrid(axis, v) => s.with_focused_grid_size(axis, v),
        EditorCommand::Save(_) => s,
        EditorCommand::Load(_) => s,
    }
}

/// Whether the editor window offers `cmd`, given whether the selected
/// folder exists and whether it holds a manifest. Copying between draft and
/// active world and saving need the folder; editing the draft and loading
/// also need the manifest.
pub open spec fn offered(cmd: EditorCommand, folder_exists: bool, manifest_exists: bool) -> bool {
    match cmd {
        EditorCommand::Promote | EditorCommand::RefreshDraft | EditorCommand::Save(_) => folder_exists,
        _ => folder_exists && manifest_exists,
    }
}

impl EditorSession {
    /// Carries out `cmd` and returns the storage work it leaves.
    pub fn dispatch(&mut self, cmd: EditorCommand) -> (r: EditorAction)
        ensures
            final(self)@ == step(old(self)@, cmd),
            r == (match cmd {
                EditorCommand::Save(key) => EditorAction::WriteActive(key),
                EditorCommand::Load(key) => EditorAction::ReadActive(key),
                _ => EditorAction::Nothing,
            }),
    {
        match cmd {
            EditorCommand::AppendZone => {
                self.append_zone();
                EditorAction::Nothing
            },
            EditorCommand::RemoveFocusedZone => {
                self.remove_focused_zone();
                EditorAction::Nothing
            },
            EditorCommand::Promote => {
                self.promote();
                EditorAction::Nothing
            },
            EditorCommand::RefreshDraft => {
                self.refresh_draft();
                EditorAction::Nothing
            },
            EditorCommand::FocusZone(i) => {
                self.set_focused_zone_index(i);
                EditorAction::Nothing
            },
            EditorCommand::ResizeGrid(axis, v) => {
                self.set_focused_grid_size(axis, v);
                EditorAction::Nothing
            },
            EditorCommand::Save(key) => EditorAction::WriteActive(key),
            EditorCommand::Load(key) => EditorAction::ReadActive(key),
        }
    }

    /// The key of the manifest in the folder the editor was started with.
    pub fn boot_key(&self) -> (r: Option<String>)
        ensures
            option_string_view(r) == (match self@.boot_root {
                Some(root) => Some(manifest_key_of(root)),
                None => None,
            }),
    {
        match &self.editor.boot_zone_root {
            Some(root) => Some(manifest_key(root.as_str())),
            None => None,
        }
    }

    /// Installs the world loaded at start-up: it becomes the active world,
    /// and the draft starts as a copy of it. A failed load changes nothing.
    pub fn apply_boot_load(&mut self, outcome: Result<ZoneLoader, PersistError>) -> (r: Result<
        (),
        PersistError,
    >)
        ensures
            r is Ok <==> outcome is Ok,
            outcome is Err ==> r == Err::<(), PersistError>(outcome->Err_0),
            final(self)@ == (match outcome {
                Ok(l) => SessionModel {
                    draft: l@.zones,
                    ..old(self)@.with_loaded(l@)
                },
                Err(_) => old(self)@,
            }),
    {
        match outcome {
            Ok(loaded) => {
                let r = self.apply_loaded(Ok(loaded));
                self.editor.manifest = self.loader.manifest.deep_copy();
                r
            },
            Err(e) => Err(e),
        }
    }
}

/// What an editor window remembers between frames: the zone root folder
/// last picked.
pub struct WorldEditorWindowState {
    pub selected_file: Option<String>,
}

/// The zone editor window remembers the same as the world editor window.
pub type ZoneEditorWindowState = WorldEditorWindowState;

impl WorldEditorWindowState {
    /// Starts with the launch folder selected, if there was one.
    pub fn new(boot_zone_root: Option<String>) -> (r: Self)
        ensures
            option_string_view(r.selected_file) == option_string_view(boot_zone_root),
    {
        WorldEditorWindowState { selected_file: boot_zone_root }
    }

    /// Takes what the folder picker returned this frame: a picked folder
    /// becomes the selection, no pick keeps the current one.
    pub fn take_picked(&mut self, picked: Option<String>)
        ensures
            option_string_view(final(self).selected_file) == (match picked {
                Some(p) => Some(p@),
                None => option_string_view(old(self).selected_file),
            }),
    {
        if picked.is_some() {
            self.selected_file = picked;
        }
    }
}

/// The window that edits the world: which commands it offers.
pub struct WorldEditorWindow;

impl WorldEditorWindow {
    /// Whether a selected path can serve as a zone root: it must exist and
    /// be a directory.
    pub fn check_folder(exists: bool, is_dir: bool) -> (r: Result<(), PersistError>)
        ensures
            !exists ==> r == Err::<(), PersistError>(PersistError::PathNotFound),
            exists && !is_dir ==> r == Err::<(), PersistError>(PersistError::PreconditionViolation),
            exists && is_dir ==> r is Ok,
    {
        if !exists {
            Err(PersistError::PathNotFound)
        } else if !is_dir {
            Err(PersistError::PreconditionViolation)
        } else {
            Ok(())
        }
    }

    pub fn offers(cmd: &EditorCommand, folder_exists: bool, manifest_exists: bool) -> (r: bool)
        ensures
            r == offered(*cmd, folder_exists, manifest_exists),
    {
        match cmd {
            EditorCommand::Promote | EditorCommand::RefreshDraft | EditorCommand::Save(_) => folder_exists,
            _ => folder_exists && manifest_exists,
        }
    }
}

/// The window that starts a new zone collection.
pub struct ZoneEditorWindow;

impl ZoneEditorWindow {
    /// Overwriting the root manifest is offered whenever the folder exists.
    pub fn offers_overwrite(folder_exists: bool) -> (r: bool)
        ensures
            r == folder_exists,
    {
        folder_exists
    }
}

/// Starts a world editing session, optionally from a folder given at launch.
pub struct WorldEditorPlugin {
    pub zone_root: Option<String>,
}

impl Default for WorldEditorPlugin {
    fn default() -> (r: Self)
        ensures
            r.zone_root is None,
    {
        WorldEditorPlugin { zone_root: None }
    }
}

impl WorldEditorPlugin {
    /// The session the plugin starts: empty, remembering the launch folder.
    pub fn session(&self) -> (r: EditorSession)
        ensures
            r@ == (SessionModel {
                active: Seq::empty(),
                dirty: false,
                draft: Seq::empty(),
                focus: 0,
                boot_root: option_string_view(self.zone_root),
            }),
    {
        let root = match &self.zone_root {
            Some(s) => Some(s.clone()),
            None => None,
        };
        EditorSession::new(root)
    }
}

/// Starts a session that also loads the launch folder's manifest.
pub struct ZoneSaveLoaderPlugin {
    pub zone_root: Option<String>,
}

impl Default for ZoneSaveLoaderPlugin {
    fn default() -> (r: Self)
        ensures
            r.zone_root is None,
    {
        ZoneSaveLoaderPlugin { zone_root: None }
    }
}

impl ZoneSaveLoaderPlugin {
    /// The session the plugin starts: empty, remembering the launch folder.
    pub fn session(&self) -> (r: EditorSession)
        ensures
            r@ == (SessionModel {
                active: Seq::empty(),
                dirty: false,
                draft: Seq::empty(),
                focus: 0,
                boot_root: option_string_view(self.zone_root),
            }),
    {
        let root = match &self.zone_root {
            Some(s) => Some(s.clone()),
            None => None,
        };
        EditorSession::new(root)
    }
}

} // verus!
