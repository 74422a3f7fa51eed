//! Tiles as the editor of tile maps names them.

use vstd::prelude::*;

verus! {

/// A place in a grid: column and row.
pub type Cell = (i32, i32);

/// Names a tile of a tile set: the page of the set, and the place of the
/// tile on the page. Each coordinate fits in sixteen bits.
#[derive(Clone, Copy, Debug, PartialEq, Eq, Structural, Hash)]
pub struct TileDefinitionHandle {
    pub page_x: i16,
    pub page_y: i16,
    pub tile_x: i16,
    pub tile_y: i16,
}

/// Whether a coordinate fits in sixteen bits.
pub open spec fn fits(v: i32) -> bool {
    i16::MIN <= v <= i16::MAX
}

impl TileDefinitionHandle {
    pub fn new(page_x: i16, page_y: i16, tile_x: i16, tile_y: i16) -> (h: TileDefinitionHandle)
        ensures
            h == (TileDefinitionHandle { page_x, page_y, tile_x, tile_y }),
    {
        TileDefinitionHandle { page_x, page_y, tile_x, tile_y }
    }

    /// The handle of the tile at `tile` on the page at `page`, if there is
    /// one: there is none where a coordinate does not fit.
    pub open spec fn try_new_spec(page: Cell, tile: Cell) -> Option<TileDefinitionHandle> {
        if fits(page.0) && fits(page.1) && fits(tile.0) && fits(tile.1) {
            Some(
                TileDefinitionHandle {
                    page_x: page.0 as i16,
                    page_y: page.1 as i16,
                    tile_x: tile.0 as i16,
                    tile_y: tile.1 as i16,
                },
            )
        } else {
            None
        }
    }

    /// The handle of the tile at `tile` on the page at `page`, if there is
    /// one: there is none where a coordinate does not fit.
    #[verifier::when_used_as_spec(try_new_spec)]
    pub fn try_new(page: Cell, tile: Cell) -> (h: Option<TileDefinitionHandle>)
        ensures
            h == Self::try_new_spec(page, tile),
    {
        if page.0 >= -32768 && page.0 <= 32767 && page.1 >= -32768 && page.1 <= 32767 && tile.0
            >= -32768 && tile.0 <= 32767 && tile.1 >= -32768 && tile.1 <= 32767 {
            Some(
                TileDefinitionHandle {
                    page_x: page.0 as i16,
                    page_y: page.1 as i16,
                    tile_x: tile.0 as i16,
                    tile_y: tile.1 as i16,
                },
            )
        } else {
            None
        }
    }

    pub open spec fn page_spec(&self) -> Cell {
        (self.page_x as i32, self.page_y as i32)
    }

    /// The place of the page.
    #[verifier::when_used_as_spec(page_spec)]
    pub fn page(&self) -> (p: Cell)
        ensures
            p == self.page_spec(),
    {
        (self.page_x as i32, self.page_y as i32)
    }

    pub open spec fn tile_spec(&self) -> Cell {
        (self.tile_x as i32, self.tile_y as i32)
    }

    /// The place of the tile on its page.
    #[verifier::when_used_as_spec(tile_spec)]
    pub fn tile(&self) -> (p: Cell)
        ensures
            p == self.tile_spec(),
    {
        (self.tile_x as i32, self.tile_y as i32)
    }
}

/// What the editor of tiles works on: a tile set, a brush, or nothing. The
/// number names the resource.
#[derive(Clone, Copy, Debug, PartialEq, Eq, Structural)]
pub enum TileResource {
    Empty,
    TileSet(u64),
    Brush(u64),
}

impl TileResource {
    pub fn is_empty(&self) -> (b: bool)
        ensures
            b == (*self == TileResource::Empty),
    {
        matches!(self, TileResource::Empty)
    }
}

/// The tiles that the user draws with: the tile for each of some places.
#[derive(Clone, Debug, PartialEq, Eq)]
pub struct Stamp {
    pub tiles: Vec<(Cell, TileDefinitionHandle)>,
}

impl View for Stamp {
    type V = Seq<(Cell, TileDefinitionHandle)>;

    open spec fn view(&self) -> Seq<(Cell, TileDefinitionHandle)> {
        self.tiles@
    }
}

impl Stamp {
    pub fn new() -> (s: Stamp)
        ensures
            s@ == Seq::<(Cell, TileDefinitionHandle)>::empty(),
    {
        Stamp { tiles: Vec::new() }
    }

    pub fn clear(&mut self)
        ensures
            final(self)@ == Seq::<(Cell, TileDefinitionHandle)>::empty(),
    {
        self.tiles.clear();
    }

    /// Makes the stamp of the given tiles.
    pub fn build(&mut self, tiles: Vec<(Cell, TileDefinitionHandle)>)
        ensures
            final(self)@ == tiles@,
    {
        self.tiles = tiles;
    }

    pub fn is_empty(&self) -> (b: bool)
        ensures
            b == (self@.len() == 0),
    {
        self.tiles.len() == 0
    }
}

/// The material of a page of tiles that are cut from one picture.
#[derive(Clone, Copy, Debug, PartialEq, Eq, Structural)]
pub struct TileMaterial {
    /// The material, by the number that names the resource.
    pub material: u64,
    pub tile_width: u32,
    pub tile_height: u32,
}

/// Where the tiles of a page of a tile set come from.
#[derive(Clone, Copy, Debug, PartialEq, Eq, Structural)]
pub enum TileSetPageSource {
    /// Tiles cut from one picture.
    Material(TileMaterial),
    /// Tiles of any material and shape.
    Freeform,
    /// Tiles that say how other tiles turn and flip.
    Transform,
}

impl TileSetPageSource {
    pub fn new_material() -> (s: TileSetPageSource)
        ensures
            s == TileSetPageSource::Material(
                TileMaterial { material: 0, tile_width: 16, tile_height: 16 },
            ),
    {
        TileSetPageSource::Material(TileMaterial { material: 0, tile_width: 16, tile_height: 16 })
    }

    pub fn new_free() -> (s: TileSetPageSource)
        ensures
            s == TileSetPageSource::Freeform,
    {
        TileSetPageSource::Freeform
    }

    pub fn new_transform() -> (s: TileSetPageSource)
        ensures
            s == TileSetPageSource::Transform,
    {
        TileSetPageSource::Transform
    }
}

/// A page of a tile set.
#[derive(Clone, Copy, Debug, PartialEq, Eq, Structural)]
pub struct TileSetPage {
    /// The tile that stands for the page in the list of pages.
    pub icon: TileDefinitionHandle,
    pub source: TileSetPageSource,
}

impl TileSetPage {
    pub fn is_material(&self) -> (b: bool)
        ensures
            b == self.source is Material,
    {
        matches!(self.source, TileSetPageSource::Material(_))
    }

    pub fn is_freeform(&self) -> (b: bool)
        ensures
            b == self.source is Freeform,
    {
        matches!(self.source, TileSetPageSource::Freeform)
    }

    pub fn is_transform_set(&self) -> (b: bool)
        ensures
            b == self.source is Transform,
    {
        matches!(self.source, TileSetPageSource::Transform)
    }
}

/// A page of a brush.
#[derive(Clone, Copy, Debug, PartialEq, Eq, Structural)]
pub struct TileMapBrushPage {
    /// The tile that stands for the page in the list of pages.
    pub icon: TileDefinitionHandle,
}

/// A property that every tile of a tile set has a value of.
#[derive(Clone, Copy, Debug, PartialEq, Eq, Structural)]
pub struct TileSetPropertyLayer {
    pub uuid: u128,
}

/// A kind of collider that every tile of a tile set has a shape of.
#[derive(Clone, Copy, Debug, PartialEq, Eq, Structural)]
pub struct TileSetColliderLayer {
    pub uuid: u128,
}

/// The first entry of `entries` at the place `at`, if there is one.
pub open spec fn entry_at<P>(entries: Seq<(Cell, P)>, at: Cell) -> Option<P>
    decreases entries.len(),
{
    if entries.len() == 0 {
        None
    } else if entries[0].0 == at {
        Some(entries[0].1)
    } else {
        entry_at(entries.drop_first(), at)
    }
}

/// The first entry of `entries` at the place `at`, if there is one.
pub fn find_entry<P: Copy>(entries: &Vec<(Cell, P)>, at: Cell) -> (r: Option<P>)
    ensures
        r == entry_at(entries@, at),
{
    let mut i: usize = 0;
    proof {
        assert(entries@.skip(0) =~= entries@);
    }
    while i < entries.len()
        invariant
            0 <= i <= entries@.len(),
            entry_at(entries@, at) == entry_at(entries@.skip(i as int), at),
        decreases entries@.len() - i,
    {
        proof {
            assert(entries@.skip(i as int).drop_first() =~= entries@.skip(i + 1));
            assert(entries@.skip(i as int)[0] == entries@[i as int]);
        }
        let entry = entries[i];
        if entry.0.0 == at.0 && entry.0.1 == at.1 {
            return Some(entry.1);
        }
        i += 1;
    }
    proof {
        assert(entries@.skip(i as int).len() == 0);
    }
    None
}

/// A corner of a tile in the picture of its material, in pixels.
#[derive(Clone, Copy, Debug, PartialEq, Eq, Structural)]
pub struct Corner {
    pub x: u32,
    pub y: u32,
}

/// Where a tile lies in the picture of its material: its four corners.
#[derive(Clone, Copy, Debug, PartialEq, Eq, Structural)]
pub struct TileMaterialBounds {
    pub left_top_corner: Corner,
    pub right_top_corner: Corner,
    pub right_bottom_corner: Corner,
    pub left_bottom_corner: Corner,
}

/// The first entry of `entries` for the tile `at`, if there is one.
pub open spec fn tile_entry_at<P>(
    entries: Seq<(TileDefinitionHandle, P)>,
    at: TileDefinitionHandle,
) -> Option<P>
    decreases entries.len(),
{
    if entries.len() == 0 {
        None
    } else if entries[0].0 == at {
        Some(entries[0].1)
    } else {
        tile_entry_at(entries.drop_first(), at)
    }
}

/// The first entry of `entries` for the tile `at`, if there is one.
pub fn find_tile_entry<P: Copy>(
    entries: &Vec<(TileDefinitionHandle, P)>,
    at: TileDefinitionHandle,
) -> (r: Option<P>)
    ensures
        r == tile_entry_at(entries@, at),
{
    let mut i: usize = 0;
    proof {
        assert(entries@.skip(0) =~= entries@);
    }
    while i < entries.len()
        invariant
            0 <= i <= entries@.len(),
            tile_entry_at(entries@, at) == tile_entry_at(entries@.skip(i as int), at),
        decreases entries@.len() - i,
    {
        proof {
            assert(entries@.skip(i as int).drop_first() =~= entries@.skip(i + 1));
            assert(entries@.skip(i as int)[0] == entries@[i as int]);
        }
        let entry = entries[i];
        if entry.0 == at {
            return Some(entry.1);
        }
        i += 1;
    }
    proof {
        assert(entries@.skip(i as int).len() == 0);
    }
    None
}

/// A tile set, as far as the editor of tiles reads it.
#[derive(Clone, Debug, PartialEq, Eq)]
pub struct TileSet {
    /// The pages, each with its place.
    pub pages: Vec<(Cell, TileSetPage)>,
    pub properties: Vec<TileSetPropertyLayer>,
    pub colliders: Vec<TileSetColliderLayer>,
    /// The places that hold a tile.
    pub tiles: Vec<TileDefinitionHandle>,
    /// Where the tiles that are cut from a picture lie in it.
    pub bounds: Vec<(TileDefinitionHandle, TileMaterialBounds)>,
    /// The tiles that stand for another tile, each with the tile that it
    /// stands for.
    pub redirects: Vec<(TileDefinitionHandle, TileDefinitionHandle)>,
}

impl TileSet {
    pub open spec fn page(&self, at: Cell) -> Option<TileSetPage> {
        entry_at(self.pages@, at)
    }

    pub open spec fn bounds_of(&self, handle: TileDefinitionHandle) -> Option<TileMaterialBounds> {
        tile_entry_at(self.bounds@, handle)
    }

    /// Where the tile lies in the picture of its material, if it is cut
    /// from one.
    pub fn tile_bounds(&self, handle: TileDefinitionHandle) -> (r: Option<TileMaterialBounds>)
        ensures
            r == self.bounds_of(handle),
    {
        find_tile_entry(&self.bounds, handle)
    }

    pub open spec fn redirect_of(&self, handle: TileDefinitionHandle) -> Option<
        TileDefinitionHandle,
    > {
        tile_entry_at(self.redirects@, handle)
    }

    /// The tile that the tile stands for, if it stands for one.
    pub fn tile_redirect(&self, handle: TileDefinitionHandle) -> (r: Option<TileDefinitionHandle>)
        ensures
            r == self.redirect_of(handle),
    {
        find_tile_entry(&self.redirects, handle)
    }

    /// Whether the place `handle` holds no tile.
    pub open spec fn free(&self, handle: TileDefinitionHandle) -> bool {
        !self.tiles@.contains(handle)
    }

    /// Whether the place `handle` holds no tile.
    pub fn is_free_at(&self, handle: TileDefinitionHandle) -> (b: bool)
        ensures
            b == self.free(handle),
    {
        let mut i: usize = 0;
        while i < self.tiles.len()
            invariant
                0 <= i <= self.tiles@.len(),
                forall|j: int| 0 <= j < i ==> self.tiles@[j] != handle,
            decreases self.tiles@.len() - i,
        {
            if self.tiles[i] == handle {
                return false;
            }
            i += 1;
        }
        true
    }
}

/// A brush, as far as the editor of tiles reads it.
#[derive(Clone, Debug, PartialEq, Eq)]
pub struct TileMapBrush {
    /// The pages, each with its place.
    pub pages: Vec<(Cell, TileMapBrushPage)>,
    /// The tiles of the brush, each with the tile of the tile set that it
    /// stands for.
    pub redirects: Vec<(TileDefinitionHandle, TileDefinitionHandle)>,
}

impl TileMapBrush {
    pub open spec fn page(&self, at: Cell) -> Option<TileMapBrushPage> {
        entry_at(self.pages@, at)
    }

    pub open spec fn redirect_of(&self, handle: TileDefinitionHandle) -> Option<
        TileDefinitionHandle,
    > {
        tile_entry_at(self.redirects@, handle)
    }

    /// The tile of the tile set that the tile of the brush stands for, if
    /// the brush has the tile.
    pub fn tile_redirect(&self, handle: TileDefinitionHandle) -> (r: Option<TileDefinitionHandle>)
        ensures
            r == self.redirect_of(handle),
    {
        find_tile_entry(&self.redirects, handle)
    }
}

/// What the editor of tiles works on, at hand: the tile set or the brush
/// behind a [`TileResource`].
#[derive(Clone, Copy, Debug)]
pub enum TileResourceData<'a> {
    Empty,
    TileSet(&'a TileSet),
    Brush(&'a TileMapBrush),
}

impl<'a> TileResourceData<'a> {
    pub fn tile_set(&self) -> (r: Option<&'a TileSet>)
        ensures
            r == match *self {
                TileResourceData::TileSet(t) => Some(t),
                _ => None,
            },
    {
        if let TileResourceData::TileSet(v) = self {
            Some(*v)
        } else {
            None
        }
    }

    pub fn brush(&self) -> (r: Option<&'a TileMapBrush>)
        ensures
            r == match *self {
                TileResourceData::Brush(b) => Some(b),
                _ => None,
            },
    {
        if let TileResourceData::Brush(v) = self {
            Some(*v)
        } else {
            None
        }
    }
}

} // verus!
