//! Zone and world manifests for a tiled level editor: the data model, the
//! editing session that keeps a draft beside the active world, and the
//! keyed persistence contract that saves and loads the active world.

pub mod transform;
pub mod manifest;
pub mod session;
pub mod pipeline;
pub mod editor;
