//! The manifest data model: tiles, zones, placed zones and worlds.

use vstd::prelude::*;
use crate::transform::PlacementTransform;

verus! {

/// Largest value a grid dimension can take; larger requests are clamped.
pub const MAX_GRID_SIZE: u32 = 1000;

/// Grid value that marks a cell holding no tile.
pub const EMPTY_TILE: u32 = 0xffff_ffff;

/// What a tile is: its asset path, its placement and its free-form
/// attributes, in the order they were authored.
pub ghost struct TileModel {
    pub path: Seq<char>,
    pub transform: PlacementTransform,
    pub attributes: Seq<(Seq<char>, Seq<char>)>,
}

/// What a zone is: its grid dimensions, its palette, its flattened grid of
/// palette indices and the optional path of a pre-baked scene.
pub ghost struct ZoneModel {
    pub size_x: u32,
    pub size_y: u32,
    pub size_z: u32,
    pub tileset: Seq<TileModel>,
    pub grid: Seq<u32>,
    pub scene: Option<Seq<char>>,
}

/// A zone together with the transform of its root.
pub ghost struct PlacedZoneModel {
    pub transform: PlacementTransform,
    pub zone: ZoneModel,
}

pub open spec fn attribute_view(p: (String, String)) -> (Seq<char>, Seq<char>) {
    (p.0@, p.1@)
}

pub open spec fn option_string_view(o: Option<String>) -> Option<Seq<char>> {
    match o {
        Some(s) => Some(s@),
        None => None,
    }
}

impl ZoneModel {
    /// A zone with no cells, no palette and no scene.
    pub open spec fn empty() -> ZoneModel {
        ZoneModel {
            size_x: 0,
            size_y: 0,
            size_z: 0,
            tileset: Seq::empty(),
            grid: Seq::empty(),
            scene: None,
        }
    }

    /// The zone after `axis` is set to `requested`, clamped.
    pub open spec fn resized(self, axis: GridAxis, requested: u32) -> ZoneModel {
        match axis {
            GridAxis::X => ZoneModel { size_x: clamped_size(requested), ..self },
            GridAxis::Y => ZoneModel { size_y: clamped_size(requested), ..self },
            GridAxis::Z => ZoneModel { size_z: clamped_size(requested), ..self },
        }
    }

    pub open spec fn cell_count(self) -> int {
        self.size_x * self.size_y * self.size_z
    }

    /// A grid value names a palette entry or the empty cell.
    pub open spec fn is_valid_cell(self, v: u32) -> bool {
        v < self.tileset.len() || v == EMPTY_TILE
    }

    /// The grid holds one value per cell, and each names a palette entry or
    /// the empty cell.
    pub open spec fn grid_fits(self) -> bool {
        &&& self.grid.len() == self.cell_count()
        &&& forall|i: int| 0 <= i < self.grid.len() ==> self.is_valid_cell(#[trigger] self.grid[i])
    }
}

impl PlacedZoneModel {
    /// A zone with the identity transform and nothing in it.
    pub open spec fn fresh() -> PlacedZoneModel {
        PlacedZoneModel {
            transform: PlacementTransform {
                translation: crate::transform::Vec3Bits { x: 0, y: 0, z: 0 },
                rotation: crate::transform::QuatBits {
                    x: 0,
                    y: 0,
                    z: 0,
                    w: crate::transform::ONE_BITS,
                },
                scale: crate::transform::Vec3Bits {
                    x: crate::transform::ONE_BITS,
                    y: crate::transform::ONE_BITS,
                    z: crate::transform::ONE_BITS,
                },
            },
            zone: ZoneModel::empty(),
        }
    }
}

/// One placeable tile of a zone's palette.
#[derive(Clone, Debug)]
pub struct TileData {
    /// Path of the tile's asset, resolved by the asset loader.
    pub tile_data_path: String,
    pub transform: PlacementTransform,
    /// Free-form string attributes, in authoring order.
    pub dynamic_map: Vec<(String, String)>,
}

impl View for TileData {
    type V = TileModel;

    open spec fn view(&self) -> TileModel {
        TileModel {
            path: self.tile_data_path@,
            transform: self.transform,
            attributes: self.dynamic_map@.map_values(|p: (String, String)| attribute_view(p)),
        }
    }
}

impl TileData {
    /// A copy that shares nothing with `self`.
    pub fn deep_copy(&self) -> (r: Self)
        ensures
            r@ == self@,
    {
        let mut attrs: Vec<(String, String)> = Vec::new();
        let mut i: usize = 0;
        while i < self.dynamic_map.len()
            invariant
                i <= self.dynamic_map.len(),
                attrs@.len() == i,
                forall|j: int| 0 <= j < i ==> #[trigger] attrs@[j] == self.dynamic_map@[j],
            decreases self.dynamic_map.len() - i,
        {
            let k = self.dynamic_map[i].0.clone();
            let v = self.dynamic_map[i].1.clone();
            attrs.push((k, v));
            i = i + 1;
        }
        assert(attrs@ =~= self.dynamic_map@);
        TileData {
            tile_data_path: self.tile_data_path.clone(),
            transform: self.transform,
            dynamic_map: attrs,
        }
    }
}

/// Which of a zone's three grid dimensions an edit addresses.
#[derive(Clone, Copy, Debug, PartialEq, Eq, Structural)]
pub enum GridAxis {
    X,
    Y,
    Z,
}

/// A zone's floor plan: a 3D grid of indices into its palette of tiles.
#[derive(Clone, Debug)]
pub struct ZoneManifest {
    pub size_grid_x: u32,
    pub size_grid_y: u32,
    /// Number of layers.
    pub size_grid_z: u32,
    /// The palette that grid values index.
    pub tileset: Vec<TileData>,
    /// One value per cell, x fastest: a palette index or `EMPTY_TILE`.
    pub grid_values: Vec<u32>,
    /// Path of a pre-baked dynamic scene.
    pub dynamic_scene_path: Option<String>,
}

impl View for ZoneManifest {
    type V = ZoneModel;

    open spec fn view(&self) -> ZoneModel {
        ZoneModel {
            size_x: self.size_grid_x,
            size_y: self.size_grid_y,
            size_z: self.size_grid_z,
            tileset: self.tileset@.map_values(|t: TileData| t@),
            grid: self.grid_values@,
            scene: option_string_view(self.dynamic_scene_path),
        }
    }
}

impl Default for ZoneManifest {
    fn default() -> (r: Self)
        ensures
            r@ == ZoneModel::empty(),
    {
        let r = ZoneManifest {
            size_grid_x: 0,
            size_grid_y: 0,
            size_grid_z: 0,
            tileset: Vec::new(),
            grid_values: Vec::new(),
            dynamic_scene_path: None,
        };
        assert(r@.tileset =~= Seq::empty());
        r
    }
}

/// The value a grid dimension takes when `requested` is asked for.
pub open spec fn clamped_size(requested: u32) -> u32 {
    if requested > MAX_GRID_SIZE {
        MAX_GRID_SIZE
    } else {
        requested
    }
}

impl ZoneManifest {
    /// A copy that shares nothing with `self`.
    pub fn deep_copy(&self) -> (r: Self)
        ensures
            r@ == self@,
    {
        let mut tiles: Vec<TileData> = Vec::new();
        let mut i: usize = 0;
        while i < self.tileset.len()
            invariant
                i <= self.tileset.len(),
                tiles@.len() == i,
                forall|j: int| 0 <= j < i ==> (#[trigger] tiles@[j])@ == self.tileset@[j]@,
            decreases self.tileset.len() - i,
        {
            tiles.push(self.tileset[i].deep_copy());
            i = i + 1;
        }
        let mut grid: Vec<u32> = Vec::new();
        let mut g: usize = 0;
        while g < self.grid_values.len()
            invariant
                g <= self.grid_values.len(),
                grid@ == self.grid_values@.subrange(0, g as int),
            decreases self.grid_values.len() - g,
        {
            grid.push(self.grid_values[g]);
            g = g + 1;
            assert(grid@ =~= self.grid_values@.subrange(0, g as int));
        }
        assert(grid@ =~= self.grid_values@);
        let scene = match &self.dynamic_scene_path {
            Some(s) => Some(s.clone()),
            None => None,
        };
        let r = ZoneManifest {
            size_grid_x: self.size_grid_x,
            size_grid_y: self.size_grid_y,
            size_grid_z: self.size_grid_z,
            tileset: tiles,
            grid_values: grid,
            dynamic_scene_path: scene,
        };
        assert(r@.tileset =~= self@.tileset);
        r
    }

    /// Sets one grid dimension, clamped to `MAX_GRID_SIZE`. The palette and
    /// the grid values are left as they are: whether they still fit is
    /// what `grid_fits` reports.
    pub fn set_grid_size(&mut self, axis: GridAxis, requested: u32)
        ensures
            final(self)@ == old(self)@.resized(axis, requested),
    {
        let v = if requested > MAX_GRID_SIZE {
            MAX_GRID_SIZE
        } else {
            requested
        };
        match axis {
            GridAxis::X => self.size_grid_x = v,
            GridAxis::Y => self.size_grid_y = v,
            GridAxis::Z => self.size_grid_z = v,
        }
    }

    /// Whether the grid holds one value per cell and every value names a
    /// palette entry or the empty cell.
    pub fn grid_fits(&self) -> (r: bool)
        ensures
            r == self@.grid_fits(),
    {
        let x = self.size_grid_x as u128;
        let y = self.size_grid_y as u128;
        let z = self.size_grid_z as u128;
        assert(x * y <= 0xffff_ffff * 0xffff_ffff) by (nonlinear_arith)
            requires
                x <= 0xffff_ffff,
                y <= 0xffff_ffff,
        ;
        let xy = x * y;
        assert(xy * z <= 0xffff_ffff * 0xffff_ffff * 0xffff_ffff) by (nonlinear_arith)
            requires
                xy <= 0xffff_ffff * 0xffff_ffff,
                z <= 0xffff_ffff,
        ;
        let cells = xy * z;
        if cells != self.grid_values.len() as u128 {
            return false;
        }
        let palette = self.tileset.len();
        let mut i: usize = 0;
        while i < self.grid_values.len()
            invariant
                i <= self.grid_values.len(),
                palette == self@.tileset.len(),
                forall|j: int| 0 <= j < i ==> self@.is_valid_cell(#[trigger] self@.grid[j]),
            decreases self.grid_values.len() - i,
        {
            let v = self.grid_values[i];
            if !((v as usize) < palette || v == EMPTY_TILE) {
                return false;
            }
            i = i + 1;
        }
        true
    }
}

/// A zone placed in the world: the transform applies to the zone's root
/// only, never to its tiles, so the zone can be moved without re-authoring.
#[derive(Clone, Debug)]
pub struct TransformZoneManifest {
    pub transform: PlacementTransform,
    pub zone_manifest: ZoneManifest,
}

impl View for TransformZoneManifest {
    type V = PlacedZoneModel;

    open spec fn view(&self) -> PlacedZoneModel {
        PlacedZoneModel { transform: self.transform, zone: self.zone_manifest@ }
    }
}

impl Default for TransformZoneManifest {
    fn default() -> (r: Self)
        ensures
            r@ == PlacedZoneModel::fresh(),
    {
        TransformZoneManifest {
            transform: PlacementTransform::identity(),
            zone_manifest: ZoneManifest::default(),
        }
    }
}

impl TransformZoneManifest {
    /// A copy that shares nothing with `self`.
    pub fn deep_copy(&self) -> (r: Self)
        ensures
            r@ == self@,
    {
        TransformZoneManifest {
            transform: self.transform,
            zone_manifest: self.zone_manifest.deep_copy(),
        }
    }
}

/// A world: an ordered sequence of placed zones. A zone's position in the
/// sequence is the index the editor addresses it by.
#[derive(Clone, Debug)]
pub struct WorldManifest {
    pub zones_with_transforms: Vec<TransformZoneManifest>,
}

impl View for WorldManifest {
    type V = Seq<PlacedZoneModel>;

    open spec fn view(&self) -> Seq<PlacedZoneModel> {
        self.zones_with_transforms@.map_values(|z: TransformZoneManifest| z@)
    }
}

impl Default for WorldManifest {
    fn default() -> (r: Self)
        ensures
            r@ == Seq::<PlacedZoneModel>::empty(),
    {
        let r = WorldManifest { zones_with_transforms: Vec::new() };
        assert(r@ =~= Seq::<PlacedZoneModel>::empty());
        r
    }
}

impl WorldManifest {
    /// A copy that shares nothing with `self`.
    pub fn deep_copy(&self) -> (r: Self)
        ensures
            r@ == self@,
    {
        let mut zones: Vec<TransformZoneManifest> = Vec::new();
        let mut i: usize = 0;
        while i < self.zones_with_transforms.len()
            invariant
                i <= self.zones_with_transforms.len(),
                zones@.len() == i,
                forall|j: int|
                    0 <= j < i ==> (#[trigger] zones@[j])@ == self.zones_with_transforms@[j]@,
            decreases self.zones_with_transforms.len() - i,
        {
            zones.push(self.zones_with_transforms[i].deep_copy());
            i = i + 1;
        }
        let r = WorldManifest { zones_with_transforms: zones };
        assert(r@ =~= self@);
        r
    }

    pub fn zone_count(&self) -> (r: usize)
        ensures
            r == self@.len(),
    {
        self.zones_with_transforms.len()
    }

    /// Appends a zone with the identity transform and nothing in it.
    pub fn append_zone(&mut self)
        ensures
            final(self)@ == old(self)@.push(PlacedZoneModel::fresh()),
    {
        self.zones_with_transforms.push(TransformZoneManifest::default());
        assert(self@ =~= old(self)@.push(PlacedZoneModel::fresh()));
    }

    /// Sets one grid dimension of the zone at `index`, clamped.
    pub fn set_zone_grid_size(&mut self, index: usize, axis: GridAxis, requested: u32)
        requires
            index < old(self)@.len(),
        ensures
            final(self)@ == old(self)@.update(
                index as int,
                PlacedZoneModel {
                    zone: old(self)@[index as int].zone.resized(axis, requested),
                    ..old(self)@[index as int]
                },
            ),
    {
        self.zones_with_transforms[index].zone_manifest.set_grid_size(axis, requested);
        assert(self@ =~= old(self)@.update(
            index as int,
            PlacedZoneModel {
                zone: old(self)@[index as int].zone.resized(axis, requested),
                ..old(self)@[index as int]
            },
        ));
    }

    /// Removes the zone at `index`; later zones shift down by one.
    pub fn remove_zone(&mut self, index: usize)
        requires
            index < old(self)@.len(),
        ensures
            final(self)@ == old(self)@.remove(index as int),
    {
        self.zones_with_transforms.remove(index);
        assert(self@ =~= old(self)@.remove(index as int));
    }
}

/// A collection of zones with the index of the zone play starts in.
#[derive(Clone, Debug)]
pub struct ZoneCollectionManifest {
    pub start_zone: u32,
    pub zones_with_transforms: Vec<TransformZoneManifest>,
}

impl ZoneCollectionManifest {
    /// No zones, starting at index 0.
    pub fn new() -> (r: Self)
        ensures
            r.start_zone == 0,
            r.zones_with_transforms@.len() == 0,
            r.start_is_valid(),
    {
        ZoneCollectionManifest { start_zone: 0, zones_with_transforms: Vec::new() }
    }

    /// The start zone names a zone, unless there are none.
    pub open spec fn start_is_valid(&self) -> bool {
        self.zones_with_transforms@.len() == 0 || self.start_zone
            < self.zones_with_transforms@.len()
    }
}

/// Size of the debug grid drawn over one zone.
#[derive(Clone, Copy, Debug, PartialEq, Eq, Structural)]
pub struct DebugGrid {
    pub size_grid_x: u32,
    pub size_grid_y: u32,
    pub size_grid_z: u32,
    pub zone_id: u32,
}

impl Default for DebugGrid {
    fn default() -> (r: Self)
        ensures
            r == (DebugGrid { size_grid_x: 0, size_grid_y: 0, size_grid_z: 0, zone_id: 0 }),
    {
        DebugGrid { size_grid_x: 0, size_grid_y: 0, size_grid_z: 0, zone_id: 0 }
    }
}

/// A grid dimension never leaves `[0, MAX_GRID_SIZE]`: a request beyond it
/// is clamped to it, one within it is kept exactly, and the other two
/// dimensions, the palette and the grid values are untouched.
pub proof fn lemma_grid_size_is_clamped(z: ZoneModel, axis: GridAxis, requested: u32)
    ensures
        ({
            let r = z.resized(axis, requested);
            let size = match axis {
                GridAxis::X => r.size_x,
                GridAxis::Y => r.size_y,
                GridAxis::Z => r.size_z,
            };
            &&& size <= MAX_GRID_SIZE
            &&& requested <= MAX_GRID_SIZE ==> size == requested
            &&& requested > MAX_GRID_SIZE ==> size == MAX_GRID_SIZE
            &&& r.tileset == z.tileset
            &&& r.grid == z.grid
            &&& r.scene == z.scene
            &&& axis != GridAxis::X ==> r.size_x == z.size_x
            &&& axis != GridAxis::Y ==> r.size_y == z.size_y
            &&& axis != GridAxis::Z ==> r.size_z == z.size_z
        }),
{
}

} // verus!
