use zone_manifest::editor::{
    EditorAction, EditorCommand, WorldEditorPlugin, WorldEditorWindow, WorldEditorWindowState,
    ZoneEditorWindow,
    ZoneSaveLoaderPlugin,
};
use zone_manifest::manifest::{GridAxis, TransformZoneManifest};
use zone_manifest::session::{EditorSession, PersistError, ZoneLoader};

fn session_with_zones(n: u32) -> EditorSession {
    let mut s = EditorSession::new(None);
    for i in 0..n {
        s.append_zone();
        let last = s.editor.manifest.zones_with_transforms.len() - 1;
        s.editor.manifest.zones_with_transforms[last].zone_manifest.size_grid_x = i + 1;
    }
    s
}

fn sizes(zones: &[TransformZoneManifest]) -> Vec<u32> {
    zones.iter().map(|z| z.zone_manifest.size_grid_x).collect()
}

#[test]
fn new_session_is_empty() {
    let s = EditorSession::new(Some("worlds/a".to_string()));
    assert_eq!(s.loader.manifest.zones_with_transforms.len(), 0);
    assert!(!s.loader.dirty);
    assert_eq!(s.editor.manifest.zones_with_transforms.len(), 0);
    assert_eq!(s.editor.focused_zone_index, 0);
    assert_eq!(s.editor.boot_zone_root.as_deref(), Some("worlds/a"));
}

#[test]
fn append_zone_pushes_identity_empty_zone() {
    let mut s = EditorSession::new(None);
    s.editor.focused_zone_index = 3;
    s.append_zone();
    assert_eq!(s.editor.manifest.zones_with_transforms.len(), 1);
    let z = &s.editor.manifest.zones_with_transforms[0];
    assert_eq!(z.transform.scale.x, 0x3f80_0000);
    assert_eq!(z.transform.rotation.w, 0x3f80_0000);
    assert_eq!(z.transform.translation.x, 0);
    assert_eq!(z.zone_manifest.size_grid_x, 0);
    assert!(z.zone_manifest.tileset.is_empty());
    assert_eq!(s.editor.focused_zone_index, 3);
    assert_eq!(s.loader.manifest.zones_with_transforms.len(), 0);
}

#[test]
fn remove_focused_zone_reindexes() {
    let mut s = session_with_zones(3);
    s.editor.focused_zone_index = 1;
    s.remove_focused_zone();
    assert_eq!(sizes(&s.editor.manifest.zones_with_transforms), vec![1, 3]);
    assert_eq!(s.editor.focused_zone_index, 1);
    s.remove_focused_zone();
    assert_eq!(sizes(&s.editor.manifest.zones_with_transforms), vec![1]);
}

#[test]
fn remove_with_out_of_range_focus_is_inert() {
    let mut s = session_with_zones(2);
    s.editor.focused_zone_index = 2;
    s.remove_focused_zone();
    assert_eq!(sizes(&s.editor.manifest.zones_with_transforms), vec![1, 2]);
    s.editor.focused_zone_index = 50;
    s.remove_focused_zone();
    assert_eq!(sizes(&s.editor.manifest.zones_with_transforms), vec![1, 2]);
    let mut empty = EditorSession::new(None);
    empty.remove_focused_zone();
    assert_eq!(empty.editor.manifest.zones_with_transforms.len(), 0);
}

#[test]
fn refresh_draft_discards_draft_edits() {
    let mut s = session_with_zones(2);
    s.promote();
    s.append_zone();
    s.editor.focused_zone_index = 0;
    s.set_focused_grid_size(GridAxis::Y, 7);
    s.loader.dirty = true;
    s.refresh_draft();
    assert_eq!(sizes(&s.editor.manifest.zones_with_transforms), vec![1, 2]);
    assert_eq!(s.editor.manifest.zones_with_transforms[0].zone_manifest.size_grid_y, 0);
    assert!(!s.loader.dirty);
}

#[test]
fn promote_copies_draft_and_clears_dirty() {
    let mut s = session_with_zones(3);
    s.loader.dirty = true;
    s.promote();
    assert_eq!(sizes(&s.loader.manifest.zones_with_transforms), vec![1, 2, 3]);
    assert!(!s.loader.dirty);
    // the copy is independent of the draft
    s.editor.manifest.zones_with_transforms[0].zone_manifest.size_grid_x = 99;
    assert_eq!(s.loader.manifest.zones_with_transforms[0].zone_manifest.size_grid_x, 1);
}

#[test]
fn focus_is_clamped_to_last_zone() {
    let mut s = session_with_zones(3);
    s.set_focused_zone_index(10);
    assert_eq!(s.editor.focused_zone_index, 2);
    s.set_focused_zone_index(1);
    assert_eq!(s.editor.focused_zone_index, 1);
    let mut empty = EditorSession::new(None);
    empty.set_focused_zone_index(4);
    assert_eq!(empty.editor.focused_zone_index, 0);
    assert_eq!(empty.focused_zone(), None);
}

#[test]
fn focused_zone_out_of_range_is_no_selection() {
    let mut s = session_with_zones(2);
    s.editor.focused_zone_index = 1;
    assert_eq!(s.focused_zone(), Some(1));
    s.editor.focused_zone_index = 2;
    assert_eq!(s.focused_zone(), None);
    assert!(!s.set_focused_grid_size(GridAxis::X, 5));
    assert_eq!(sizes(&s.editor.manifest.zones_with_transforms), vec![1, 2]);
}

#[test]
fn grid_size_on_focused_zone_is_clamped() {
    let mut s = session_with_zones(2);
    s.editor.focused_zone_index = 1;
    assert!(s.set_focused_grid_size(GridAxis::Z, 1001));
    assert_eq!(s.editor.manifest.zones_with_transforms[1].zone_manifest.size_grid_z, 1000);
    assert!(s.set_focused_grid_size(GridAxis::Z, 999));
    assert_eq!(s.editor.manifest.zones_with_transforms[1].zone_manifest.size_grid_z, 999);
    assert_eq!(s.editor.manifest.zones_with_transforms[0].zone_manifest.size_grid_z, 0);
}

#[test]
fn apply_loaded_replaces_active_and_marks_dirty() {
    let mut s = session_with_zones(1);
    let mut loaded = ZoneLoader::default();
    loaded.manifest.append_zone();
    loaded.manifest.append_zone();
    assert_eq!(s.apply_loaded(Ok(loaded)), Ok(()));
    assert_eq!(s.loader.manifest.zones_with_transforms.len(), 2);
    assert!(s.loader.dirty);
    assert_eq!(s.editor.manifest.zones_with_transforms.len(), 1);
}

#[test]
fn apply_loaded_error_changes_nothing() {
    let mut s = session_with_zones(2);
    s.promote();
    s.append_zone();
    assert_eq!(s.apply_loaded(Err(PersistError::SchemaMismatch)), Err(PersistError::SchemaMismatch));
    assert_eq!(sizes(&s.loader.manifest.zones_with_transforms), vec![1, 2]);
    assert_eq!(s.editor.manifest.zones_with_transforms.len(), 3);
    assert!(!s.loader.dirty);
}

#[test]
fn dispatch_runs_commands_and_hands_back_storage_work() {
    let mut s = EditorSession::new(None);
    assert_eq!(s.dispatch(EditorCommand::AppendZone), EditorAction::Nothing);
    assert_eq!(s.dispatch(EditorCommand::AppendZone), EditorAction::Nothing);
    assert_eq!(s.dispatch(EditorCommand::FocusZone(1)), EditorAction::Nothing);
    assert_eq!(s.dispatch(EditorCommand::ResizeGrid(GridAxis::X, 4)), EditorAction::Nothing);
    assert_eq!(s.dispatch(EditorCommand::Promote), EditorAction::Nothing);
    assert_eq!(s.loader.manifest.zones_with_transforms[1].zone_manifest.size_grid_x, 4);
    assert_eq!(s.dispatch(EditorCommand::RemoveFocusedZone), EditorAction::Nothing);
    assert_eq!(s.editor.manifest.zones_with_transforms.len(), 1);
    assert_eq!(s.dispatch(EditorCommand::RefreshDraft), EditorAction::Nothing);
    assert_eq!(s.editor.manifest.zones_with_transforms.len(), 2);
    assert_eq!(
        s.dispatch(EditorCommand::Save("w/manifest".to_string())),
        EditorAction::WriteActive("w/manifest".to_string())
    );
    assert_eq!(
        s.dispatch(EditorCommand::Load("w/manifest".to_string())),
        EditorAction::ReadActive("w/manifest".to_string())
    );
    assert_eq!(s.loader.manifest.zones_with_transforms.len(), 2);
}

#[test]
fn boot_load_fills_active_and_draft() {
    let mut s = ZoneSaveLoaderPlugin { zone_root: Some("levels/one".to_string()) }.session();
    assert_eq!(s.boot_key(), Some("levels/one/manifest".to_string()));
    let mut loaded = ZoneLoader::default();
    loaded.manifest.append_zone();
    assert_eq!(s.apply_boot_load(Ok(loaded)), Ok(()));
    assert_eq!(s.loader.manifest.zones_with_transforms.len(), 1);
    assert_eq!(s.editor.manifest.zones_with_transforms.len(), 1);
    assert_eq!(s.apply_boot_load(Err(PersistError::IoFailure)), Err(PersistError::IoFailure));
    assert_eq!(s.editor.manifest.zones_with_transforms.len(), 1);
}

#[test]
fn plugins_default_to_no_root() {
    assert!(WorldEditorPlugin::default().zone_root.is_none());
    assert!(ZoneSaveLoaderPlugin::default().zone_root.is_none());
    let s = WorldEditorPlugin::default().session();
    assert_eq!(s.boot_key(), None);
}

#[test]
fn window_offers_commands_by_folder_state() {
    let append = EditorCommand::AppendZone;
    let save = EditorCommand::Save("k".to_string());
    assert!(WorldEditorWindow::offers(&append, true, true));
    assert!(!WorldEditorWindow::offers(&append, true, false));
    assert!(WorldEditorWindow::offers(&save, true, false));
    assert!(!WorldEditorWindow::offers(&save, false, false));
    assert!(WorldEditorWindow::offers(&EditorCommand::Promote, true, false));
    assert!(!WorldEditorWindow::offers(&EditorCommand::Load("k".to_string()), true, false));
    assert!(ZoneEditorWindow::offers_overwrite(true));
    assert!(!ZoneEditorWindow::offers_overwrite(false));
}

#[test]
fn folder_check_reports_missing_and_non_directory() {
    assert_eq!(WorldEditorWindow::check_folder(false, false), Err(PersistError::PathNotFound));
    assert_eq!(WorldEditorWindow::check_folder(true, false), Err(PersistError::PreconditionViolation));
    assert_eq!(WorldEditorWindow::check_folder(true, true), Ok(()));
}

#[test]
fn window_state_keeps_selection_until_a_new_pick() {
    let mut w = WorldEditorWindowState::new(Some("boot".to_string()));
    w.take_picked(None);
    assert_eq!(w.selected_file.as_deref(), Some("boot"));
    w.take_picked(Some("picked".to_string()));
    assert_eq!(w.selected_file.as_deref(), Some("picked"));
    let empty = WorldEditorWindowState::new(None);
    assert!(empty.selected_file.is_none());
}
