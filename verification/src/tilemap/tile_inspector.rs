//! The inspector of tiles: what is selected in the editor of tiles, seen
//! together with the tile set or brush that it is selected in, and the
//! panel that shows and changes it.

use crate::collections::{cells_items, cells_len, cells_of, ids_contains, ids_items, ids_of};
use crate::command::{
    Command, CommandGroup, CommandGroupView, CommandView, MessageSender, MessageView, NewTile,
};
use crate::handle::Handle;
use crate::message::{
    plain, ButtonMessage, DecoratorMessage, MaterialFieldMessage, MessageData, MessageDataView,
    MessageDirection, TileHandleEditorMessage, UiMessage, UiMessageView, Vec2EditorMessage,
    WidgetMessage,
};
use crate::tree::{
    lemma_apart, lemma_apart_joined, within, built, holder, info, kept, lemma_dialog, lemma_words, loose, made, slot, sound, under, Nodes,
};
use crate::ui::{send_sync_message, spawn, BuildContext, UserInterface, MSG_SYNC_FLAG};
use crate::widget::{WidgetBuilder, WidgetInfo, WidgetKind};
use crate::tilemap::tiles::{
    entry_at, find_entry, find_tile_entry, tile_entry_at, Cell, TileDefinitionHandle, TileMapBrush, TileMapBrushPage, TileMaterial, TileMaterialBounds, TileResource, TileResourceData, TileSet, TileSetColliderLayer, TileSetPage, TileSetPageSource, TileSetPropertyLayer,
};
use crate::tilemap::{DrawingMode, SelectionSource, TileDrawState, TileDrawStateView, TileEditorRef};
use vstd::prelude::*;

verus! {

/// The width of the label of a field, in pixels.
pub const FIELD_LABEL_WIDTH: u32 = 100;

/// The cells of `s` for which `keep` holds, in their order.
pub open spec fn kept_by(s: Seq<Cell>, keep: spec_fn(Cell) -> bool) -> Seq<Cell>
    decreases s.len(),
{
    if s.len() == 0 {
        Seq::<Cell>::empty()
    } else if keep(s.last()) {
        kept_by(s.drop_last(), keep).push(s.last())
    } else {
        kept_by(s.drop_last(), keep)
    }
}

/// What is kept was there, and `keep` holds for it; what was there and
/// `keep` holds for is kept; and nothing is kept twice that was there once.
pub proof fn lemma_kept_by(s: Seq<Cell>, keep: spec_fn(Cell) -> bool)
    ensures
        forall|p: Cell| #[trigger] kept_by(s, keep).contains(p) == (s.contains(p) && keep(p)),
        s.no_duplicates() ==> kept_by(s, keep).no_duplicates(),
        kept_by(s, keep).len() <= s.len(),
    decreases s.len(),
{
    if s.len() > 0 {
        let r = s.drop_last();
        let k = kept_by(s, keep);
        let kr = kept_by(r, keep);
        lemma_kept_by(r, keep);
        assert forall|p: Cell| #[trigger] k.contains(p) == (s.contains(p) && keep(p)) by {
            if r.contains(p) {
                let j = choose|j: int| 0 <= j < r.len() && r[j] == p;
                assert(s[j] == p);
            }
            if s.contains(p) {
                let j = choose|j: int| 0 <= j < s.len() && s[j] == p;
                if j < r.len() {
                    assert(r[j] == p);
                }
            }
            if kr.contains(p) {
                let j = choose|j: int| 0 <= j < kr.len() && kr[j] == p;
                assert(k[j] == p);
            }
            if k.contains(p) {
                let j = choose|j: int| 0 <= j < k.len() && k[j] == p;
                if j < kr.len() {
                    assert(kr[j] == p);
                }
            }
            if keep(s.last()) && p == s.last() {
                assert(k[kr.len() as int] == p);
                assert(s[s.len() - 1] == p);
            }
        }
        if s.no_duplicates() {
            assert(r.no_duplicates());
            if keep(s.last()) {
                assert(!r.contains(s.last())) by {
                    if r.contains(s.last()) {
                        let j = choose|j: int| 0 <= j < r.len() && r[j] == s.last();
                        assert(s[j] == s[s.len() - 1]);
                    }
                }
                assert(!kr.contains(s.last()));
            }
        }
    }
}

/// What an inspector of tiles looks at, but for the state of drawing and
/// the tile set or brush at hand.
#[derive(Debug)]
pub struct TileEditorStateRef {
    /// The page that the palette of tiles shows, where tiles are what is
    /// selected.
    pub page: Option<Cell>,
    pub pages_palette: Handle,
    pub tiles_palette: Handle,
    pub tile_resource: TileResource,
}

/// What is selected in the editor of tiles, seen together with the tile
/// set or brush that it is selected in.
pub struct TileEditorState<'a> {
    pub page: Option<Cell>,
    pub pages_palette: Handle,
    pub tiles_palette: Handle,
    pub state: &'a mut TileDrawState,
    pub data: TileResourceData<'a>,
}

impl TileEditorStateRef {
    /// Puts the state of drawing and the tile set or brush at hand beside
    /// what the inspector looks at.
    pub fn lock<'a>(&self, state: &'a mut TileDrawState, data: TileResourceData<'a>) -> (r:
        TileEditorState<'a>)
        ensures
            r.page == self.page,
            r.pages_palette == self.pages_palette,
            r.tiles_palette == self.tiles_palette,
            r.data == data,
            *r.state == *old(state),
            *final(state) == *final(r.state),
    {
        TileEditorState {
            page: self.page,
            pages_palette: self.pages_palette,
            tiles_palette: self.tiles_palette,
            state,
            data,
        }
    }
}

impl<'a> TileEditorState<'a> {
    /// The state of drawing.
    pub open spec fn draw(&self) -> TileDrawStateView {
        (*self.state)@
    }

    /// The state of drawing.
    pub fn state(&self) -> (s: &TileDrawState)
        ensures
            s@ == self.draw(),
    {
        self.state
    }

    /// The palette that the selection is in, or the handle that names
    /// nothing.
    pub open spec fn palette(&self) -> Handle {
        match self.draw().source {
            SelectionSource::Widget(w) => w,
            _ => Handle::none_spec(),
        }
    }

    /// The selected cells, where the selection is in the palette of pages.
    pub open spec fn pages(&self) -> Set<Cell> {
        if self.palette() == self.pages_palette {
            self.draw().positions
        } else {
            Set::<Cell>::empty()
        }
    }

    /// The tile set at hand, if a tile set is at hand.
    pub open spec fn set(&self) -> Option<&'a TileSet> {
        match self.data {
            TileResourceData::TileSet(t) => Some(t),
            _ => None,
        }
    }

    /// The brush at hand, if a brush is at hand.
    pub open spec fn the_brush(&self) -> Option<&'a TileMapBrush> {
        match self.data {
            TileResourceData::Brush(b) => Some(b),
            _ => None,
        }
    }

    /// Whether the place `p` in the list of pages holds no page.
    pub open spec fn vacant(&self, p: Cell) -> bool {
        match self.data {
            TileResourceData::TileSet(t) => t.page(p) is None,
            TileResourceData::Brush(b) => b.page(p) is None,
            TileResourceData::Empty => false,
        }
    }

    /// The tile at the selected cell `p`, where the palette of tiles shows
    /// a page and the coordinates fit.
    pub open spec fn handle_at(&self, p: Cell) -> Option<TileDefinitionHandle> {
        match self.page {
            Some(page) => TileDefinitionHandle::try_new_spec(page, p),
            None => None,
        }
    }

    pub fn is_tile_set(&self) -> (b: bool)
        ensures
            b == self.set() is Some,
    {
        self.tile_set().is_some()
    }

    pub fn is_brush(&self) -> (b: bool)
        ensures
            b == self.the_brush() is Some,
    {
        self.brush().is_some()
    }

    pub fn is_active_editor(&self, editor: &TileEditorRef) -> (b: bool)
        ensures
            b == (self.draw().active_editor == Some(*editor)),
    {
        self.state.is_active_editor(editor)
    }

    pub fn is_visible_collider(&self, uuid: u128) -> (b: bool)
        ensures
            b == self.draw().visible_colliders.contains(uuid),
    {
        ids_contains(&self.state.visible_colliders, uuid)
    }

    /// The colliders that are visible, each once, in an order that is not
    /// stated.
    pub fn visible_colliders(&self) -> (ids: Vec<u128>)
        ensures
            ids@.no_duplicates(),
            ids@.to_set() == self.draw().visible_colliders,
    {
        ids_items(&self.state.visible_colliders)
    }

    pub fn drawing_mode(&self) -> (m: DrawingMode)
        ensures
            m == self.draw().drawing_mode,
    {
        self.state.drawing_mode
    }

    /// Force the UI to update itself as if the state had changed.
    pub fn touch(&mut self)
        ensures
            final(self).draw() == (TileDrawStateView { dirty: true, ..old(self).draw() }),
            final(self).page == old(self).page,
            final(self).pages_palette == old(self).pages_palette,
            final(self).tiles_palette == old(self).tiles_palette,
            final(self).data == old(self).data,
            *final(final(self).state) == *final(old(self).state),
    {
        self.state.dirty = true;
    }

    pub fn set_active_editor(&mut self, editor: Option<TileEditorRef>)
        ensures
            final(self).draw() == (TileDrawStateView {
                dirty: true,
                active_editor: editor,
                ..old(self).draw()
            }),
            final(self).page == old(self).page,
            final(self).pages_palette == old(self).pages_palette,
            final(self).tiles_palette == old(self).tiles_palette,
            final(self).data == old(self).data,
            *final(final(self).state) == *final(old(self).state),
    {
        self.state.dirty = true;
        self.state.active_editor = editor;
    }

    pub fn set_drawing_mode(&mut self, mode: DrawingMode)
        ensures
            final(self).draw() == (TileDrawStateView {
                dirty: true,
                drawing_mode: mode,
                ..old(self).draw()
            }),
            final(self).page == old(self).page,
            final(self).pages_palette == old(self).pages_palette,
            final(self).tiles_palette == old(self).tiles_palette,
            final(self).data == old(self).data,
            *final(final(self).state) == *final(old(self).state),
    {
        self.state.dirty = true;
        self.state.drawing_mode = mode;
    }

    pub fn set_visible_collider(&mut self, uuid: u128, visible: bool)
        ensures
            final(self).draw() == (TileDrawStateView {
                dirty: true,
                visible_colliders: if visible {
                    old(self).draw().visible_colliders.insert(uuid)
                } else {
                    old(self).draw().visible_colliders.remove(uuid)
                },
                ..old(self).draw()
            }),
            final(self).page == old(self).page,
            final(self).pages_palette == old(self).pages_palette,
            final(self).tiles_palette == old(self).tiles_palette,
            final(self).data == old(self).data,
            *final(final(self).state) == *final(old(self).state),
    {
        self.state.dirty = true;
        self.state.set_visible_collider(uuid, visible);
    }

    pub fn tile_set(&self) -> (r: Option<&'a TileSet>)
        ensures
            r == self.set(),
    {
        self.data.tile_set()
    }

    pub fn brush(&self) -> (r: Option<&'a TileMapBrush>)
        ensures
            r == self.the_brush(),
    {
        self.data.brush()
    }

    pub fn page(&self) -> (p: Option<Cell>)
        ensures
            p == self.page,
    {
        self.page
    }

    /// Whether pages are selected.
    pub fn has_pages(&self) -> (b: bool)
        ensures
            b == (self.palette() == self.pages_palette && self.draw().positions != Set::<
                Cell,
            >::empty()),
    {
        self.state.selection_palette() == self.pages_palette && self.state.has_selection()
    }

    /// Whether tiles are selected.
    pub fn has_tiles(&self) -> (b: bool)
        ensures
            b == (self.palette() == self.tiles_palette && self.draw().positions != Set::<
                Cell,
            >::empty()),
    {
        self.state.selection_palette() == self.tiles_palette && self.state.has_selection()
    }

    /// The number of selected tiles.
    pub fn tiles_count(&self) -> (n: usize)
        ensures
            n == if self.palette() == self.tiles_palette {
                self.draw().positions.len()
            } else {
                0
            },
    {
        if self.state.selection_palette() == self.tiles_palette {
            cells_len(self.state.selection_positions())
        } else {
            0
        }
    }

    /// The number of selected pages.
    pub fn pages_count(&self) -> (n: usize)
        ensures
            n == if self.palette() == self.pages_palette {
                self.draw().positions.len()
            } else {
                0
            },
    {
        if self.state.selection_palette() == self.pages_palette {
            cells_len(self.state.selection_positions())
        } else {
            0
        }
    }

    /// The selected cells, each once, in an order that is not stated.
    pub fn selected_positions(&self) -> (cells: Vec<Cell>)
        ensures
            cells@.no_duplicates(),
            cells@.to_set() == self.draw().positions,
    {
        cells_items(self.state.selection_positions())
    }

    /// The first property of the tile set with the identifier, if a tile
    /// set is at hand and has one.
    pub fn find_property(&self, property_id: u128) -> (r: Option<TileSetPropertyLayer>)
        ensures
            match r {
                Some(layer) => layer.uuid == property_id && (self.set() matches Some(t)
                    && t.properties@.contains(layer)),
                None => self.set() matches Some(t) ==> forall|i: int|
                    0 <= i < t.properties@.len() ==> (#[trigger] t.properties@[i]).uuid
                        != property_id,
            },
    {
        match self.tile_set() {
            Some(tile_set) => {
                let mut i: usize = 0;
                while i < tile_set.properties.len()
                    invariant
                        0 <= i <= tile_set.properties@.len(),
                        self.set() == Some(tile_set),
                        forall|j: int|
                            0 <= j < i ==> (#[trigger] tile_set.properties@[j]).uuid != property_id,
                    decreases tile_set.properties@.len() - i,
                {
                    if tile_set.properties[i].uuid == property_id {
                        proof {
                            assert(tile_set.properties@.contains(tile_set.properties@[i as int]));
                        }
                        return Some(tile_set.properties[i]);
                    }
                    i += 1;
                }
                None
            },
            None => None,
        }
    }

    /// The first kind of collider of the tile set with the identifier, if a
    /// tile set is at hand and has one.
    pub fn find_collider(&self, collider_id: u128) -> (r: Option<TileSetColliderLayer>)
        ensures
            match r {
                Some(layer) => layer.uuid == collider_id && (self.set() matches Some(t)
                    && t.colliders@.contains(layer)),
                None => self.set() matches Some(t) ==> forall|i: int|
                    0 <= i < t.colliders@.len() ==> (#[trigger] t.colliders@[i]).uuid
                        != collider_id,
            },
    {
        match self.tile_set() {
            Some(tile_set) => {
                let mut i: usize = 0;
                while i < tile_set.colliders.len()
                    invariant
                        0 <= i <= tile_set.colliders@.len(),
                        self.set() == Some(tile_set),
                        forall|j: int|
                            0 <= j < i ==> (#[trigger] tile_set.colliders@[j]).uuid != collider_id,
                    decreases tile_set.colliders@.len() - i,
                {
                    if tile_set.colliders[i].uuid == collider_id {
                        proof {
                            assert(tile_set.colliders@.contains(tile_set.colliders@[i as int]));
                        }
                        return Some(tile_set.colliders[i]);
                    }
                    i += 1;
                }
                None
            },
            None => None,
        }
    }

    /// The properties of the tile set at hand, in their order; none where
    /// no tile set is at hand.
    pub open spec fn property_layers(&self) -> Seq<TileSetPropertyLayer> {
        match self.set() {
            Some(t) => t.properties@,
            None => Seq::<TileSetPropertyLayer>::empty(),
        }
    }

    /// The kinds of collider of the tile set at hand, in their order; none
    /// where no tile set is at hand.
    pub open spec fn collider_layers(&self) -> Seq<TileSetColliderLayer> {
        match self.set() {
            Some(t) => t.colliders@,
            None => Seq::<TileSetColliderLayer>::empty(),
        }
    }

    pub fn properties(&self) -> (layers: Vec<TileSetPropertyLayer>)
        ensures
            layers@ == self.property_layers(),
    {
        let mut layers: Vec<TileSetPropertyLayer> = Vec::new();
        if let Some(tile_set) = self.tile_set() {
            let mut i: usize = 0;
            while i < tile_set.properties.len()
                invariant
                    0 <= i <= tile_set.properties@.len(),
                    layers@ == tile_set.properties@.take(i as int),
                decreases tile_set.properties@.len() - i,
            {
                layers.push(tile_set.properties[i]);
                proof {
                    assert(tile_set.properties@.take(i + 1) =~= tile_set.properties@.take(
                        i as int,
                    ).push(tile_set.properties@[i as int]));
                }
                i += 1;
            }
            proof {
                assert(tile_set.properties@.take(i as int) =~= tile_set.properties@);
            }
        }
        layers
    }

    pub fn colliders(&self) -> (layers: Vec<TileSetColliderLayer>)
        ensures
            layers@ == self.collider_layers(),
    {
        let mut layers: Vec<TileSetColliderLayer> = Vec::new();
        if let Some(tile_set) = self.tile_set() {
            let mut i: usize = 0;
            while i < tile_set.colliders.len()
                invariant
                    0 <= i <= tile_set.colliders@.len(),
                    layers@ == tile_set.colliders@.take(i as int),
                decreases tile_set.colliders@.len() - i,
            {
                layers.push(tile_set.colliders[i]);
                proof {
                    assert(tile_set.colliders@.take(i + 1) =~= tile_set.colliders@.take(
                        i as int,
                    ).push(tile_set.colliders@[i as int]));
                }
                i += 1;
            }
            proof {
                assert(tile_set.colliders@.take(i as int) =~= tile_set.colliders@);
            }
        }
        layers
    }

    /// The selected places in the list of pages, each once, in an order
    /// that is not stated; none where the selection is not in the palette
    /// of pages.
    pub fn page_positions(&self) -> (cells: Vec<Cell>)
        ensures
            cells@.no_duplicates(),
            cells@.to_set() == self.pages(),
    {
        if self.state.selection_palette() == self.pages_palette {
            cells_items(self.state.selection_positions())
        } else {
            let cells: Vec<Cell> = Vec::new();
            proof {
                assert(cells@.to_set() =~= Set::<Cell>::empty());
            }
            cells
        }
    }

    /// Whether the place `p` in the list of pages holds no page.
    pub fn is_vacant(&self, p: Cell) -> (b: bool)
        ensures
            b == self.vacant(p),
    {
        match self.data {
            TileResourceData::TileSet(tile_set) => find_entry(&tile_set.pages, p).is_none(),
            TileResourceData::Brush(brush) => find_entry(&brush.pages, p).is_none(),
            TileResourceData::Empty => false,
        }
    }

    /// The selected places in the list of pages that hold no page, each
    /// once, in an order that is not stated.
    pub fn empty_page_positions(&self) -> (cells: Vec<Cell>)
        ensures
            cells@.no_duplicates(),
            forall|p: Cell| #[trigger] cells@.contains(p) == (self.pages().contains(p) && self.vacant(p)),
    {
        let items = self.page_positions();
        let ghost keep = |p: Cell| self.vacant(p);
        let mut cells: Vec<Cell> = Vec::new();
        let mut i: usize = 0;
        while i < items.len()
            invariant
                0 <= i <= items@.len(),
                keep == (|p: Cell| self.vacant(p)),
                cells@ == kept_by(items@.take(i as int), keep),
            decreases items@.len() - i,
        {
            let p = items[i];
            proof {
                assert(items@.take(i + 1).drop_last() =~= items@.take(i as int));
                assert(keep(p) == self.vacant(p));
            }
            if self.is_vacant(p) {
                cells.push(p);
            }
            i += 1;
        }
        proof {
            assert(items@.take(i as int) =~= items@);
            lemma_kept_by(items@, keep);
            assert forall|p: Cell| #[trigger] cells@.contains(p) == (self.pages().contains(p)
                && self.vacant(p)) by {
                assert(items@.to_set().contains(p) == items@.contains(p));
                assert(keep(p) == self.vacant(p));
            }
        }
        cells
    }

    /// The selected pages of the tile set at hand, each once with its
    /// place, in an order that is not stated.
    pub fn tile_set_pages(&self) -> (pages: Vec<(Cell, TileSetPage)>)
        ensures
            forall|i: int, j: int|
                0 <= i < j < pages@.len() ==> (#[trigger] pages@[i]).0 != (#[trigger] pages@[j]).0,
            forall|k: int|
                0 <= k < pages@.len() ==> self.pages().contains((#[trigger] pages@[k]).0) && (
                self.set() matches Some(t) && t.page(pages@[k].0) == Some(pages@[k].1)),
            forall|p: Cell|
                #[trigger] self.pages().contains(p) && (self.set() matches Some(t) && t.page(p)
                    is Some) ==> exists|k: int| 0 <= k < pages@.len() && (#[trigger] pages@[k]).0 == p,
    {
        let items = self.page_positions();
        let mut pages: Vec<(Cell, TileSetPage)> = Vec::new();
        if let Some(tile_set) = self.tile_set() {
            let mut i: usize = 0;
            while i < items.len()
                invariant
                    0 <= i <= items@.len(),
                    items@.no_duplicates(),
                    items@.to_set() == self.pages(),
                    self.set() == Some(tile_set),
                    forall|a: int, b: int|
                        0 <= a < b < pages@.len() ==> (#[trigger] pages@[a]).0 != (
                        #[trigger] pages@[b]).0,
                    forall|k: int|
                        0 <= k < pages@.len() ==> items@.take(i as int).contains(
                            (#[trigger] pages@[k]).0,
                        ) && tile_set.page(pages@[k].0) == Some(pages@[k].1),
                    forall|j: int|
                        0 <= j < i && tile_set.page(#[trigger] items@[j]) is Some ==> exists|k: int|
                            0 <= k < pages@.len() && (#[trigger] pages@[k]).0 == items@[j],
                decreases items@.len() - i,
            {
                let p = items[i];
                let ghost before = pages@;
                let found = find_entry(&tile_set.pages, p);
                if let Some(page) = found {
                    pages.push((p, page));
                }
                proof {
                    let prev = items@.take(i as int);
                    let next = items@.take(i + 1);
                    assert(next =~= prev.push(p));
                    assert forall|k: int| 0 <= k < pages@.len() implies next.contains(
                        (#[trigger] pages@[k]).0,
                    ) && tile_set.page(pages@[k].0) == Some(pages@[k].1) by {
                        if k < before.len() {
                            assert(pages@[k] == before[k]);
                            let c = choose|c: int| 0 <= c < prev.len() && prev[c] == before[k].0;
                            assert(next[c] == before[k].0);
                        } else {
                            assert(next[i as int] == p);
                        }
                    }
                    assert forall|a: int, b: int| 0 <= a < b < pages@.len() implies (
                    #[trigger] pages@[a]).0 != (#[trigger] pages@[b]).0 by {
                        assert(pages@[a] == before[a]);
                        if b == before.len() {
                            let c = choose|c: int| 0 <= c < prev.len() && prev[c] == before[a].0;
                            assert(items@[c] == before[a].0);
                            assert(items@[i as int] == p);
                        } else {
                            assert(pages@[b] == before[b]);
                        }
                    }
                    assert forall|j: int|
                        0 <= j < i + 1 && tile_set.page(
                            #[trigger] items@[j],
                        ) is Some implies exists|k: int|
                        0 <= k < pages@.len() && (#[trigger] pages@[k]).0 == items@[j] by {
                        if j < i {
                            let k = choose|k: int|
                                0 <= k < before.len() && (#[trigger] before[k]).0 == items@[j];
                            assert(pages@[k].0 == items@[j]);
                        } else {
                            assert(pages@[before.len() as int].0 == items@[j]);
                        }
                    }
                }
                i += 1;
            }
            proof {
                assert(items@.take(i as int) =~= items@);
                assert forall|k: int| 0 <= k < pages@.len() implies self.pages().contains(
                    (#[trigger] pages@[k]).0,
                ) by {
                    assert(items@.contains(pages@[k].0));
                }
                assert forall|p: Cell|
                    #[trigger] self.pages().contains(p) && tile_set.page(
                        p,
                    ) is Some implies exists|k: int|
                    0 <= k < pages@.len() && (#[trigger] pages@[k]).0 == p by {
                    assert(items@.contains(p));
                    let j = choose|j: int| 0 <= j < items@.len() && items@[j] == p;
                    assert(tile_set.page(items@[j]) is Some);
                }
            }
        }
        pages
    }

    /// The selected pages of the brush at hand, each once with its place,
    /// in an order that is not stated.
    pub fn brush_pages(&self) -> (pages: Vec<(Cell, TileMapBrushPage)>)
        ensures
            forall|i: int, j: int|
                0 <= i < j < pages@.len() ==> (#[trigger] pages@[i]).0 != (#[trigger] pages@[j]).0,
            forall|k: int|
                0 <= k < pages@.len() ==> self.pages().contains((#[trigger] pages@[k]).0) && (
                self.the_brush() matches Some(b) && b.page(pages@[k].0) == Some(pages@[k].1)),
            forall|p: Cell|
                #[trigger] self.pages().contains(p) && (self.the_brush() matches Some(b) && b.page(
                    p,
                ) is Some) ==> exists|k: int| 0 <= k < pages@.len() && (#[trigger] pages@[k]).0 == p,
    {
        let items = self.page_positions();
        let mut pages: Vec<(Cell, TileMapBrushPage)> = Vec::new();
        if let Some(brush) = self.brush() {
            let mut i: usize = 0;
            while i < items.len()
                invariant
                    0 <= i <= items@.len(),
                    items@.no_duplicates(),
                    items@.to_set() == self.pages(),
                    self.the_brush() == Some(brush),
                    forall|a: int, b: int|
                        0 <= a < b < pages@.len() ==> (#[trigger] pages@[a]).0 != (
                        #[trigger] pages@[b]).0,
                    forall|k: int|
                        0 <= k < pages@.len() ==> items@.take(i as int).contains(
                            (#[trigger] pages@[k]).0,
                        ) && brush.page(pages@[k].0) == Some(pages@[k].1),
                    forall|j: int|
                        0 <= j < i && brush.page(#[trigger] items@[j]) is Some ==> exists|k: int|
                            0 <= k < pages@.len() && (#[trigger] pages@[k]).0 == items@[j],
                decreases items@.len() - i,
            {
                let p = items[i];
                let ghost before = pages@;
                let found = find_entry(&brush.pages, p);
                if let Some(page) = found {
                    pages.push((p, page));
                }
                proof {
                    let prev = items@.take(i as int);
                    let next = items@.take(i + 1);
                    assert(next =~= prev.push(p));
                    assert forall|k: int| 0 <= k < pages@.len() implies next.contains(
                        (#[trigger] pages@[k]).0,
                    ) && brush.page(pages@[k].0) == Some(pages@[k].1) by {
                        if k < before.len() {
                            assert(pages@[k] == before[k]);
                            let c = choose|c: int| 0 <= c < prev.len() && prev[c] == before[k].0;
                            assert(next[c] == before[k].0);
                        } else {
                            assert(next[i as int] == p);
                        }
                    }
                    assert forall|a: int, b: int| 0 <= a < b < pages@.len() implies (
                    #[trigger] pages@[a]).0 != (#[trigger] pages@[b]).0 by {
                        assert(pages@[a] == before[a]);
                        if b == before.len() {
                            let c = choose|c: int| 0 <= c < prev.len() && prev[c] == before[a].0;
                            assert(items@[c] == before[a].0);
                            assert(items@[i as int] == p);
                        } else {
                            assert(pages@[b] == before[b]);
                        }
                    }
                    assert forall|j: int|
                        0 <= j < i + 1 && brush.page(#[trigger] items@[j]) is Some implies exists|
                        k: int,
                    |
                        0 <= k < pages@.len() && (#[trigger] pages@[k]).0 == items@[j] by {
                        if j < i {
                            let k = choose|k: int|
                                0 <= k < before.len() && (#[trigger] before[k]).0 == items@[j];
                            assert(pages@[k].0 == items@[j]);
                        } else {
                            assert(pages@[before.len() as int].0 == items@[j]);
                        }
                    }
                }
                i += 1;
            }
            proof {
                assert(items@.take(i as int) =~= items@);
                assert forall|k: int| 0 <= k < pages@.len() implies self.pages().contains(
                    (#[trigger] pages@[k]).0,
                ) by {
                    assert(items@.contains(pages@[k].0));
                }
                assert forall|p: Cell|
                    #[trigger] self.pages().contains(p) && brush.page(p) is Some implies exists|
                    k: int,
                |
                    0 <= k < pages@.len() && (#[trigger] pages@[k]).0 == p by {
                    assert(items@.contains(p));
                    let j = choose|j: int| 0 <= j < items@.len() && items@[j] == p;
                    assert(brush.page(items@[j]) is Some);
                }
            }
        }
        pages
    }

    /// Whether `p` is a selected page of the tile set at hand.
    pub open spec fn shows_page(&self, p: Cell) -> bool {
        self.pages().contains(p) && (self.set() matches Some(t) && t.page(p) is Some)
    }

    /// Whether `p` is a selected page of the brush at hand.
    pub open spec fn shows_brush_page(&self, p: Cell) -> bool {
        self.pages().contains(p) && (self.the_brush() matches Some(b) && b.page(p) is Some)
    }

    /// Whether `p` is the one selected page of the tile set at hand.
    pub open spec fn is_sole(&self, p: Cell) -> bool {
        self.shows_page(p) && forall|q: Cell| #[trigger] self.shows_page(q) ==> q == p
    }

    /// The one selected page of the tile set, if exactly one page of the
    /// tile set is selected and its tiles are cut from a picture: its place
    /// and its material.
    pub open spec fn material_of(&self) -> Option<(Cell, TileMaterial)> {
        if exists|p: Cell| self.is_sole(p) {
            let p = choose|p: Cell| self.is_sole(p);
            match self.set()->0.page(p)->0.source {
                TileSetPageSource::Material(m) => Some((p, m)),
                _ => None,
            }
        } else {
            None
        }
    }

    /// The one selected page of the tile set, if exactly one page of the
    /// tile set is selected and its tiles are cut from a picture: its place
    /// and its material.
    pub fn material_page(&self) -> (r: Option<(Cell, TileMaterial)>)
        ensures
            r == self.material_of(),
    {
        let pages = self.tile_set_pages();
        if pages.len() != 1 {
            proof {
                if exists|p: Cell| self.is_sole(p) {
                    let p = choose|p: Cell| self.is_sole(p);
                    assert(self.pages().contains(p));
                    let k = choose|k: int| 0 <= k < pages@.len() && (#[trigger] pages@[k]).0 == p;
                    assert(pages@.len() >= 2);
                    assert(pages@[0].0 != pages@[1].0);
                    assert(self.pages().contains(pages@[0].0));
                    assert(self.pages().contains(pages@[1].0));
                    assert(self.shows_page(pages@[0].0));
                    assert(self.shows_page(pages@[1].0));
                }
            }
            return None;
        }
        let (position, page) = pages[0];
        proof {
            assert(self.pages().contains(pages@[0].0));
            assert(self.shows_page(position));
            assert forall|q: Cell| #[trigger] self.shows_page(q) implies q == position by {
                assert(self.pages().contains(q));
                let k = choose|k: int| 0 <= k < pages@.len() && (#[trigger] pages@[k]).0 == q;
                assert(k == 0);
            }
            assert(self.is_sole(position));
            let c = choose|p: Cell| self.is_sole(p);
            assert(self.is_sole(c));
            assert(self.shows_page(c));
            assert(c == position);
        }
        if let TileSetPageSource::Material(m) = page.source {
            Some((position, m))
        } else {
            None
        }
    }

    pub fn is_material_page(&self, position: Cell) -> (b: bool)
        ensures
            b == (self.set() matches Some(t) && t.page(position) matches Some(page)
                && page.source is Material),
    {
        match self.data {
            TileResourceData::Empty => false,
            TileResourceData::TileSet(tile_set) => {
                if let Some(page) = find_entry(&tile_set.pages, position) {
                    page.is_material()
                } else {
                    false
                }
            },
            TileResourceData::Brush(_) => false,
        }
    }

    pub fn is_freeform_page(&self, position: Cell) -> (b: bool)
        ensures
            b == (self.set() matches Some(t) && t.page(position) matches Some(page)
                && page.source is Freeform),
    {
        match self.data {
            TileResourceData::Empty => false,
            TileResourceData::TileSet(tile_set) => {
                if let Some(page) = find_entry(&tile_set.pages, position) {
                    page.is_freeform()
                } else {
                    false
                }
            },
            TileResourceData::Brush(_) => false,
        }
    }

    pub fn is_transform_page(&self, position: Cell) -> (b: bool)
        ensures
            b == (self.set() matches Some(t) && t.page(position) matches Some(page)
                && page.source is Transform),
    {
        match self.data {
            TileResourceData::Empty => false,
            TileResourceData::TileSet(tile_set) => {
                if let Some(page) = find_entry(&tile_set.pages, position) {
                    page.is_transform_set()
                } else {
                    false
                }
            },
            TileResourceData::Brush(_) => false,
        }
    }

    pub fn is_brush_page(&self, position: Cell) -> (b: bool)
        ensures
            b == (self.the_brush() matches Some(brush) && brush.page(position) is Some),
    {
        match self.data {
            TileResourceData::Empty => false,
            TileResourceData::TileSet(_) => false,
            TileResourceData::Brush(brush) => find_entry(&brush.pages, position).is_some(),
        }
    }

    /// Whether `h` is the tile at one of the selected cells.
    pub open spec fn selects(&self, h: TileDefinitionHandle) -> bool {
        exists|p: Cell| #[trigger] self.draw().positions.contains(p) && self.handle_at(p) == Some(h)
    }

    /// Whether `handles` are the tiles at the selected cells, each once.
    pub open spec fn lists_tiles(&self, handles: Seq<TileDefinitionHandle>) -> bool {
        &&& handles.no_duplicates()
        &&& forall|h: TileDefinitionHandle| #[trigger] handles.contains(h) == self.selects(h)
    }

    /// The tiles at the selected cells, on the page that the palette of
    /// tiles shows: one for each cell whose coordinates fit, in an order
    /// that is not stated; none where the palette shows no page.
    pub fn tile_handles(&self) -> (handles: Vec<TileDefinitionHandle>)
        ensures
            self.lists_tiles(handles@),
    {
        let items = cells_items(self.state.selection_positions());
        let mut handles: Vec<TileDefinitionHandle> = Vec::new();
        let mut i: usize = 0;
        while i < items.len()
            invariant
                0 <= i <= items@.len(),
                items@.no_duplicates(),
                items@.to_set() == self.draw().positions,
                handles@.no_duplicates(),
                forall|h: TileDefinitionHandle|
                    #[trigger] handles@.contains(h) == (exists|j: int|
                        0 <= j < i && self.handle_at(#[trigger] items@[j]) == Some(h)),
            decreases items@.len() - i,
        {
            let p = items[i];
            let ghost before = handles@;
            if let Some(page) = self.page {
                if let Some(handle) = TileDefinitionHandle::try_new(page, p) {
                    handles.push(handle);
                }
            }
            proof {
                if handles@.len() > before.len() {
                    let new = handles@[before.len() as int];
                    assert(self.handle_at(p) == Some(new));
                    if before.contains(new) {
                        let j = choose|j: int|
                            0 <= j < i && self.handle_at(#[trigger] items@[j]) == Some(new);
                        assert(items@[j] == new.tile_spec());
                        assert(p == new.tile_spec());
                    }
                    assert(handles@ =~= before.push(new));
                    assert forall|a: int, b: int|
                        0 <= a < handles@.len() && 0 <= b < handles@.len() && a != b implies handles@[a]
                        != handles@[b] by {
                        if a < before.len() {
                            assert(before.contains(before[a]));
                        }
                        if b < before.len() {
                            assert(before.contains(before[b]));
                        }
                    }
                }
                assert forall|h: TileDefinitionHandle|
                    #[trigger] handles@.contains(h) == (exists|j: int|
                        0 <= j < i + 1 && self.handle_at(#[trigger] items@[j]) == Some(h)) by {
                    if before.contains(h) {
                        let k = choose|k: int| 0 <= k < before.len() && before[k] == h;
                        assert(handles@[k] == h);
                        let j = choose|j: int|
                            0 <= j < i && self.handle_at(#[trigger] items@[j]) == Some(h);
                        assert(0 <= j < i + 1 && self.handle_at(items@[j]) == Some(h));
                    }
                    if handles@.contains(h) {
                        let k = choose|k: int| 0 <= k < handles@.len() && handles@[k] == h;
                        if k < before.len() {
                            assert(before[k] == h);
                        } else {
                            assert(self.handle_at(items@[i as int]) == Some(h));
                        }
                    }
                    if exists|j: int|
                        0 <= j < i + 1 && self.handle_at(#[trigger] items@[j]) == Some(h) {
                        let j = choose|j: int|
                            0 <= j < i + 1 && self.handle_at(#[trigger] items@[j]) == Some(h);
                        if j < i {
                            assert(before.contains(h));
                        } else {
                            assert(handles@[before.len() as int] == h);
                        }
                    }
                }
            }
            i += 1;
        }
        proof {
            assert forall|h: TileDefinitionHandle| #[trigger]
                handles@.contains(h) == self.selects(h) by {
                if handles@.contains(h) {
                    let j = choose|j: int|
                        0 <= j < i && self.handle_at(#[trigger] items@[j]) == Some(h);
                    assert(items@.contains(items@[j]));
                    assert(self.draw().positions.contains(items@[j]));
                }
                if self.selects(h) {
                    let p = choose|p: Cell|
                        #[trigger] self.draw().positions.contains(p) && self.handle_at(p) == Some(h);
                    assert(items@.contains(p));
                    let j = choose|j: int| 0 <= j < items@.len() && items@[j] == p;
                    assert(self.handle_at(items@[j]) == Some(h));
                }
            }
        }
        handles
    }

    /// Whether `h` is a selected tile, a tile set is at hand, and the place
    /// `h` holds a tile in it, or holds none, as `free` says.
    pub open spec fn selects_with(&self, h: TileDefinitionHandle, free: bool) -> bool {
        self.selects(h) && (self.set() matches Some(t) && t.free(h) == free)
    }

    /// Those of `all` that hold a tile in the tile set at hand, or that
    /// hold none, as `free` says; in their order.
    fn tiles_where(&self, all: &Vec<TileDefinitionHandle>, free: bool) -> (handles: Vec<
        TileDefinitionHandle,
    >)
        requires
            self.lists_tiles(all@),
        ensures
            handles@.no_duplicates(),
            forall|h: TileDefinitionHandle|
                #[trigger] handles@.contains(h) == self.selects_with(h, free),
    {
        let mut handles: Vec<TileDefinitionHandle> = Vec::new();
        if let Some(tile_set) = self.tile_set() {
            let mut i: usize = 0;
            while i < all.len()
                invariant
                    0 <= i <= all@.len(),
                    self.lists_tiles(all@),
                    handles@.no_duplicates(),
                    self.set() == Some(tile_set),
                    forall|h: TileDefinitionHandle|
                        #[trigger] handles@.contains(h) == (all@.take(i as int).contains(h)
                            && tile_set.free(h) == free),
                decreases all@.len() - i,
            {
                let h = all[i];
                let ghost before = handles@;
                if tile_set.is_free_at(h) == free {
                    handles.push(h);
                }
                proof {
                    let prev = all@.take(i as int);
                    let next = all@.take(i + 1);
                    assert(next =~= prev.push(h));
                    if handles@.len() > before.len() {
                        if before.contains(h) {
                            let k = choose|k: int| 0 <= k < prev.len() && prev[k] == h;
                            assert(all@[k] == all@[i as int]);
                        }
                        assert(handles@ =~= before.push(h));
                        assert forall|a: int, b: int|
                            0 <= a < handles@.len() && 0 <= b < handles@.len() && a
                                != b implies handles@[a] != handles@[b] by {
                            if a < before.len() {
                                assert(before.contains(before[a]));
                            }
                            if b < before.len() {
                                assert(before.contains(before[b]));
                            }
                        }
                    }
                    assert forall|x: TileDefinitionHandle|
                        #[trigger] handles@.contains(x) == (next.contains(x) && tile_set.free(x)
                            == free) by {
                        if before.contains(x) {
                            let k = choose|k: int| 0 <= k < before.len() && before[k] == x;
                            assert(handles@[k] == x);
                        }
                        if handles@.contains(x) {
                            let k = choose|k: int| 0 <= k < handles@.len() && handles@[k] == x;
                            if k < before.len() {
                                assert(before[k] == x);
                            }
                        }
                        if prev.contains(x) {
                            let k = choose|k: int| 0 <= k < prev.len() && prev[k] == x;
                            assert(next[k] == x);
                        }
                        if next.contains(x) {
                            let k = choose|k: int| 0 <= k < next.len() && next[k] == x;
                            if k < i {
                                assert(prev[k] == x);
                            }
                        }
                        if x == h {
                            assert(next[i as int] == x);
                            if tile_set.free(h) == free {
                                assert(handles@[before.len() as int] == x);
                            }
                        }
                    }
                }
                i += 1;
            }
            proof {
                assert(all@.take(i as int) =~= all@);
            }
        }
        handles
    }

    /// The selected tiles that hold no tile yet in the tile set at hand,
    /// each once, in an order that is not stated; none where no tile set is
    /// at hand.
    pub fn empty_tiles(&self) -> (handles: Vec<TileDefinitionHandle>)
        ensures
            handles@.no_duplicates(),
            forall|h: TileDefinitionHandle|
                #[trigger] handles@.contains(h) == self.selects_with(h, true),
    {
        let all = self.tile_handles();
        self.tiles_where(&all, true)
    }

    /// The selected tiles that hold a tile in the tile set at hand, each
    /// once, in an order that is not stated; none where no tile set is at
    /// hand.
    pub fn tile_data(&self) -> (handles: Vec<TileDefinitionHandle>)
        ensures
            handles@.no_duplicates(),
            forall|h: TileDefinitionHandle|
                #[trigger] handles@.contains(h) == self.selects_with(h, false),
    {
        let all = self.tile_handles();
        self.tiles_where(&all, false)
    }

    /// The selected tiles that are cut from a picture, each with the place
    /// where it lies in the picture, in the order in which the selection
    /// hands out its cells; none where no tile set is at hand.
    pub fn tile_material_bounds(&self) -> (bounds: Vec<(TileDefinitionHandle, TileMaterialBounds)>)
        ensures
            match self.set() {
                Some(t) => exists|handles: Seq<TileDefinitionHandle>|
                    self.lists_tiles(handles) && bounds@ == picked(handles, t.bounds@),
                None => bounds@.len() == 0,
            },
    {
        match self.tile_set() {
            Some(tile_set) => {
                let all = self.tile_handles();
                pick(&all, &tile_set.bounds)
            },
            None => Vec::new(),
        }
    }

    /// The tiles that stand for other tiles, as the resource at hand has
    /// them: those of the tile set, else those of the brush, else none.
    pub open spec fn redirects(&self) -> Seq<(TileDefinitionHandle, TileDefinitionHandle)> {
        match self.data {
            TileResourceData::TileSet(t) => t.redirects@,
            TileResourceData::Brush(b) => b.redirects@,
            TileResourceData::Empty => Seq::<(TileDefinitionHandle, TileDefinitionHandle)>::empty(),
        }
    }

    /// The selected tiles that stand for another tile, each with the tile
    /// that it stands for, in the order in which the selection hands out
    /// its cells.
    pub fn tile_redirect(&self) -> (pairs: Vec<(TileDefinitionHandle, TileDefinitionHandle)>)
        ensures
            exists|handles: Seq<TileDefinitionHandle>|
                self.lists_tiles(handles) && pairs@ == picked(handles, self.redirects()),
    {
        let all = self.tile_handles();
        match self.data {
            TileResourceData::TileSet(tile_set) => pick(&all, &tile_set.redirects),
            TileResourceData::Brush(brush) => pick(&all, &brush.redirects),
            TileResourceData::Empty => {
                let nothing: Vec<(TileDefinitionHandle, TileDefinitionHandle)> = Vec::new();
                pick(&all, &nothing)
            },
        }
    }
}

/// What `entries` hold for the tiles `handles`, in the order of `handles`:
/// each tile that has an entry, with the first of its entries.
pub open spec fn picked<P>(
    handles: Seq<TileDefinitionHandle>,
    entries: Seq<(TileDefinitionHandle, P)>,
) -> Seq<(TileDefinitionHandle, P)>
    decreases handles.len(),
{
    if handles.len() == 0 {
        Seq::<(TileDefinitionHandle, P)>::empty()
    } else {
        let rest = picked(handles.drop_last(), entries);
        match tile_entry_at(entries, handles.last()) {
            Some(entry) => rest.push((handles.last(), entry)),
            None => rest,
        }
    }
}

/// What `entries` hold for the tiles `handles`: see [`picked`].
pub fn pick<P: Copy>(
    handles: &Vec<TileDefinitionHandle>,
    entries: &Vec<(TileDefinitionHandle, P)>,
) -> (found: Vec<(TileDefinitionHandle, P)>)
    ensures
        found@ == picked(handles@, entries@),
{
    let mut found: Vec<(TileDefinitionHandle, P)> = Vec::new();
    let mut i: usize = 0;
    while i < handles.len()
        invariant
            0 <= i <= handles@.len(),
            found@ == picked(handles@.take(i as int), entries@),
        decreases handles@.len() - i,
    {
        let handle = handles[i];
        proof {
            assert(handles@.take(i + 1).drop_last() =~= handles@.take(i as int));
            assert(handles@.take(i + 1).last() == handle);
        }
        if let Some(entry) = find_tile_entry(entries, handle) {
            found.push((handle, entry));
        }
        i += 1;
    }
    proof {
        assert(handles@.take(i as int) =~= handles@);
    }
    found
}

/// Builds a button of the inspector, in a cell of a grid.
pub fn make_button(title: &str, tooltip: &str, row: usize, column: usize, ctx: &mut BuildContext) -> (h:
    Handle)
    requires
        sound(old(ctx)@),
        old(ctx).has_room(1),
    ensures
        built(old(ctx)@, final(ctx)@, h, Seq::<Handle>::empty()),
        made(old(ctx)@, final(ctx)@, h),
        final(ctx)@.len() == old(ctx)@.len() + 1,
        info(final(ctx)@, h) == Some(
            WidgetInfo {
                row,
                column,
                text: title@,
                tooltip: tooltip@,
                ..WidgetInfo::bare(WidgetKind::Button)
            },
        ),
{
    let ghost before = ctx@;
    proof {
        lemma_words(before, Handle::none_spec());
    }
    let h = spawn(
        ctx,
        WidgetKind::Button,
        WidgetBuilder::new().on_row(row).on_column(column).with_tooltip(tooltip).with_text(title),
    );
    proof {
        lemma_dialog(before, ctx@, h);
    }
    h
}

/// Builds a text.
pub fn make_label(name: &str, ctx: &mut BuildContext) -> (h: Handle)
    requires
        sound(old(ctx)@),
        old(ctx).has_room(1),
    ensures
        built(old(ctx)@, final(ctx)@, h, Seq::<Handle>::empty()),
        made(old(ctx)@, final(ctx)@, h),
        final(ctx)@.len() == old(ctx)@.len() + 1,
        info(final(ctx)@, h) == Some(
            WidgetInfo { text: name@, ..WidgetInfo::bare(WidgetKind::Text) },
        ),
{
    let ghost before = ctx@;
    proof {
        lemma_words(before, Handle::none_spec());
    }
    let h = spawn(ctx, WidgetKind::Text, WidgetBuilder::new().with_text(name));
    proof {
        lemma_dialog(before, ctx@, h);
    }
    h
}

/// Shows the button of a tool as chosen, or not. A tool without a button
/// is passed over.
pub fn highlight_tool_button(button: Handle, highlight: bool, ui: &mut UserInterface)
    ensures
        final(ui).tree() == old(ui).tree(),
        final(ui).sent() == if button.is_none() {
            old(ui).sent()
        } else {
            old(ui).sent().push(
                plain(
                    button,
                    MessageDirection::ToWidget,
                    MessageDataView::Decorator(DecoratorMessage::Select(highlight)),
                ),
            )
        },
{
    if button.is_none() {
        return ;
    }
    ui.send_message(DecoratorMessage::select(button, MessageDirection::ToWidget, highlight));
}

/// The message that shows or hides `destination`.
pub open spec fn visibility(destination: Handle, visible: bool) -> UiMessageView {
    plain(
        destination,
        MessageDirection::ToWidget,
        MessageDataView::Widget(WidgetMessage::Visibility(visible)),
    )
}

pub fn send_visibility(ui: &mut UserInterface, destination: Handle, visible: bool)
    ensures
        final(ui).tree() == old(ui).tree(),
        final(ui).sent() == old(ui).sent().push(visibility(destination, visible)),
{
    ui.send_message(WidgetMessage::visibility(destination, MessageDirection::ToWidget, visible));
}

/// Whether `editor` is in `tree` as it is built: a widget that holds one
/// button, with nothing else set on either.
pub open spec fn is_new_editor(tree: Nodes, editor: TileEditorRef) -> bool {
    &&& info(tree, editor.handle) == Some(
        WidgetInfo {
            children: seq![editor.draw_button],
            ..WidgetInfo::bare(WidgetKind::TileEditor)
        },
    )
    &&& holder(tree, editor.draw_button) == editor.handle
    &&& info(tree, editor.draw_button) == Some(WidgetInfo::bare(WidgetKind::Button))
}

/// Builds the editor of one property of tiles: its widget, with the button
/// in it that makes the editor the tool to draw with.
pub fn new_tile_editor(ctx: &mut BuildContext) -> (editor: TileEditorRef)
    requires
        sound(old(ctx)@),
        old(ctx).has_room(2),
    ensures
        built(old(ctx)@, final(ctx)@, editor.handle, Seq::<Handle>::empty()),
        made(old(ctx)@, final(ctx)@, editor.handle),
        final(ctx)@.len() == old(ctx)@.len() + 2,
        editor.draw_button == slot(old(ctx)@.len() as int),
        editor.handle == slot(old(ctx)@.len() as int + 1),
        editor.handle != editor.draw_button,
        is_new_editor(final(ctx)@, editor),
{
    let ghost before = ctx@;
    proof {
        lemma_words(before, Handle::none_spec());
    }
    let draw_button = spawn(ctx, WidgetKind::Button, WidgetBuilder::new());
    let handle = spawn(ctx, WidgetKind::TileEditor, WidgetBuilder::new().with_child(draw_button));
    proof {
        lemma_dialog(before, ctx@, handle);
        assert(info(ctx@, handle)->0.children =~= seq![draw_button]);
    }
    TileEditorRef { handle, draw_button }
}

/// A field of the inspector with its label: a grid that holds both.
#[derive(Clone, Copy, Debug, PartialEq, Eq, Structural)]
pub struct InspectorField {
    pub handle: Handle,
    pub field: Handle,
}

impl InspectorField {
    /// Builds the label and puts it, with the field, into a grid.
    pub fn new(label: &str, field: Handle, ctx: &mut BuildContext) -> (f: InspectorField)
        requires
            sound(old(ctx)@),
            old(ctx).has_room(2),
            loose(old(ctx)@, field),
            field.is_some(),
        ensures
            sound(final(ctx)@),
            final(ctx)@.len() == old(ctx)@.len() + 2,
            f.field == field,
            f.handle == slot(old(ctx)@.len() as int + 1),
            f.handle != f.field,
            forall|x: Handle|
                #[trigger] loose(final(ctx)@, x) == (x == f.handle || (loose(old(ctx)@, x) && x
                    != field)),
            forall|x: Handle|
                info(old(ctx)@, x) is Some ==> #[trigger] info(final(ctx)@, x) == info(old(ctx)@, x),
            forall|x: Handle|
                info(old(ctx)@, x) is Some && x != field ==> #[trigger] holder(final(ctx)@, x)
                    == holder(old(ctx)@, x),
            forall|b: Nodes|
                #[trigger] kept(b, old(ctx)@) && field.index >= b.len() ==> kept(b, final(ctx)@),
            holder(final(ctx)@, field) == f.handle,
            info(old(ctx)@, f.handle) is None,
            info(old(ctx)@, slot(old(ctx)@.len() as int)) is None,
            info(final(ctx)@, f.handle) == Some(
                WidgetInfo {
                    children: seq![slot(old(ctx)@.len() as int), field],
                    ..WidgetInfo::bare(WidgetKind::Grid)
                },
            ),
            info(final(ctx)@, slot(old(ctx)@.len() as int)) == Some(
                WidgetInfo { text: label@, ..WidgetInfo::bare(WidgetKind::Text) },
            ),
            holder(final(ctx)@, slot(old(ctx)@.len() as int)) == f.handle,
    {
        let ghost before = ctx@;
        let label = spawn(ctx, WidgetKind::Text, WidgetBuilder::new().with_text(label));
        let ghost labelled = ctx@;
        let handle = spawn(
            ctx,
            WidgetKind::Grid,
            WidgetBuilder::new().with_child(label).with_child(field),
        );
        proof {
            assert forall|b: Nodes| #[trigger] kept(b, before) && field.index >= b.len() implies kept(
                b,
                ctx@,
            ) by {
                assert(b.len() <= before.len()) by {
                    reveal(kept);
                }
                assert(kept(b, labelled));
            }
            assert(info(ctx@, handle)->0.children =~= seq![label, field]);
        }
        InspectorField { handle, field }
    }
}

/// The editors of the properties, or of the colliders, of the tiles of a
/// tile set: one for each, under a heading that folds them away.
#[derive(Debug)]
pub struct EditorGroup {
    pub handle: Handle,
    pub content: Handle,
    /// The editors, each with the identifier of what it edits.
    pub editors: Vec<(u128, TileEditorRef)>,
}

/// The editors of the properties of tiles.
pub type PropertyEditors = EditorGroup;

/// The editors of the colliders of tiles.
pub type ColliderEditors = EditorGroup;

/// The identifiers of properties, in their order.
pub open spec fn property_ids(layers: Seq<TileSetPropertyLayer>) -> Seq<u128> {
    layers.map_values(|l: TileSetPropertyLayer| l.uuid)
}

/// The identifiers of kinds of collider, in their order.
pub open spec fn collider_ids(layers: Seq<TileSetColliderLayer>) -> Seq<u128> {
    layers.map_values(|l: TileSetColliderLayer| l.uuid)
}

/// The identifiers of the properties of the tile set at hand.
pub fn property_uuids(state: &TileEditorState) -> (ids: Vec<u128>)
    ensures
        ids@ == property_ids(state.property_layers()),
{
    let layers = state.properties();
    let mut ids: Vec<u128> = Vec::new();
    let mut i: usize = 0;
    while i < layers.len()
        invariant
            0 <= i <= layers@.len(),
            ids@ == property_ids(layers@.take(i as int)),
        decreases layers@.len() - i,
    {
        ids.push(layers[i].uuid);
        proof {
            assert(layers@.take(i + 1) =~= layers@.take(i as int).push(layers@[i as int]));
            assert(ids@ =~= property_ids(layers@.take(i + 1)));
        }
        i += 1;
    }
    proof {
        assert(layers@.take(i as int) =~= layers@);
    }
    ids
}

/// The identifiers of the kinds of collider of the tile set at hand.
pub fn collider_uuids(state: &TileEditorState) -> (ids: Vec<u128>)
    ensures
        ids@ == collider_ids(state.collider_layers()),
{
    let layers = state.colliders();
    let mut ids: Vec<u128> = Vec::new();
    let mut i: usize = 0;
    while i < layers.len()
        invariant
            0 <= i <= layers@.len(),
            ids@ == collider_ids(layers@.take(i as int)),
        decreases layers@.len() - i,
    {
        ids.push(layers[i].uuid);
        proof {
            assert(layers@.take(i + 1) =~= layers@.take(i as int).push(layers@[i as int]));
            assert(ids@ =~= collider_ids(layers@.take(i + 1)));
        }
        i += 1;
    }
    proof {
        assert(layers@.take(i as int) =~= layers@);
    }
    ids
}

/// The editor that `make_editors` builds in place `k`, where the tree had
/// `base` slots before.
pub open spec fn editor_at(base: int, k: int) -> TileEditorRef {
    TileEditorRef { handle: slot(base + 2 * k + 1), draw_button: slot(base + 2 * k) }
}

/// Whether `x` is one of the first `n` editors that `make_editors` builds
/// where the tree had `base` slots before.
pub open spec fn is_editor(base: int, n: int, x: Handle) -> bool {
    exists|k: int| 0 <= k < n && x == #[trigger] editor_at(base, k).handle
}

/// Builds one editor for each identifier. The editors replace those that
/// `editors` held; they wait, loose, to be put into a group.
pub fn make_editors(ids: &Vec<u128>, editors: &mut Vec<(u128, TileEditorRef)>, ctx: &mut BuildContext)
    requires
        sound(old(ctx)@),
        old(ctx)@.len() + 2 * ids@.len() <= u32::MAX,
    ensures
        sound(final(ctx)@),
        kept(old(ctx)@, final(ctx)@),
        final(ctx)@.len() == old(ctx)@.len() + 2 * ids@.len(),
        final(editors)@.len() == ids@.len(),
        forall|k: int|
            0 <= k < ids@.len() ==> #[trigger] final(editors)@[k] == (
                ids@[k],
                editor_at(old(ctx)@.len() as int, k),
            ),
        forall|k: int|
            0 <= k < ids@.len() ==> loose(
                final(ctx)@,
                #[trigger] editor_at(old(ctx)@.len() as int, k).handle,
            ),
        forall|k: int|
            0 <= k < ids@.len() ==> is_new_editor(
                final(ctx)@,
                #[trigger] editor_at(old(ctx)@.len() as int, k),
            ),
        forall|x: Handle|
            #[trigger] loose(final(ctx)@, x) ==> loose(old(ctx)@, x) || is_editor(
                old(ctx)@.len() as int,
                ids@.len() as int,
                x,
            ),
        forall|x: Handle| loose(old(ctx)@, x) ==> #[trigger] loose(final(ctx)@, x),
        forall|x: Handle|
            info(old(ctx)@, x) is Some ==> #[trigger] info(final(ctx)@, x) == info(old(ctx)@, x),
        forall|x: Handle|
            info(old(ctx)@, x) is Some ==> #[trigger] holder(final(ctx)@, x) == holder(
                old(ctx)@,
                x,
            ),
        forall|x: Handle|
            x.index >= final(ctx)@.len() ==> #[trigger] info(final(ctx)@, x) == info(old(ctx)@, x),
{
    let ghost before = ctx@;
    let ghost base = before.len() as int;
    editors.clear();
    let mut i: usize = 0;
    proof {
        lemma_words(before, Handle::none_spec());
    }
    while i < ids.len()
        invariant
            0 <= i <= ids@.len(),
            base == before.len(),
            base + 2 * ids@.len() <= u32::MAX,
            sound(ctx@),
            kept(before, ctx@),
            ctx@.len() == base + 2 * i,
            editors@.len() == i,
            forall|k: int| 0 <= k < i ==> #[trigger] editors@[k] == (ids@[k], editor_at(base, k)),
            forall|k: int| 0 <= k < i ==> loose(ctx@, #[trigger] editor_at(base, k).handle),
            forall|k: int| 0 <= k < i ==> is_new_editor(ctx@, #[trigger] editor_at(base, k)),
            forall|x: Handle|
                #[trigger] loose(ctx@, x) ==> loose(before, x) || is_editor(base, i as int, x),
            forall|x: Handle| loose(before, x) ==> #[trigger] loose(ctx@, x),
            forall|x: Handle| info(before, x) is Some ==> #[trigger] info(ctx@, x) == info(before, x),
            forall|x: Handle|
                info(before, x) is Some ==> #[trigger] holder(ctx@, x) == holder(before, x),
            forall|x: Handle| x.index >= ctx@.len() ==> #[trigger] info(ctx@, x) == info(before, x),
        decreases ids@.len() - i,
    {
        let ghost here = ctx@;
        let editor = new_tile_editor(ctx);
        editors.push((ids[i], editor));
        proof {
            assert(editor == editor_at(base, i as int));
            assert forall|x: Handle| #[trigger] loose(ctx@, x) implies loose(before, x)
                || is_editor(base, i + 1, x) by {
                if x == editor.handle {
                    assert(x == editor_at(base, i as int).handle);
                } else {
                    assert(loose(here, x));
                    if !loose(before, x) {
                        let k = choose|k: int|
                            0 <= k < i && x == #[trigger] editor_at(base, k).handle;
                        assert(0 <= k < i + 1 && x == editor_at(base, k).handle);
                    }
                }
            }
            assert forall|k: int| 0 <= k < i + 1 implies loose(
                ctx@,
                #[trigger] editor_at(base, k).handle,
            ) by {
                if k < i {
                    assert(loose(here, editor_at(base, k).handle));
                }
            }
            assert forall|k: int| 0 <= k < i + 1 implies is_new_editor(
                ctx@,
                #[trigger] editor_at(base, k),
            ) by {
                if k < i {
                    assert(is_new_editor(here, editor_at(base, k)));
                    assert(info(here, editor_at(base, k).handle) is Some);
                    assert(info(here, editor_at(base, k).draw_button) is Some);
                }
            }
            assert forall|x: Handle| info(before, x) is Some implies #[trigger] info(ctx@, x)
                == info(before, x) && #[trigger] holder(ctx@, x) == holder(before, x) by {
                assert(info(here, x) == info(before, x));
                assert(holder(here, x) == holder(before, x));
            }
            assert forall|x: Handle| x.index >= ctx@.len() implies #[trigger] info(ctx@, x)
                == info(before, x) by {
                assert(info(here, x) == info(before, x));
                lemma_words(here, x);
                lemma_words(ctx@, x);
            }
        }
        i += 1;
    }
}

impl EditorGroup {
    /// The group is a heading that folds, with a row under it that holds
    /// the editors in their order.
    pub open spec fn shape(&self, tree: Nodes) -> bool {
        &&& info(tree, self.handle) matches Some(e) && e.kind == WidgetKind::Expander
            && e.children.len() == 2 && e.children[1] == self.content
        &&& holder(tree, self.content) == self.handle
        &&& info(tree, self.content) matches Some(c) && c.kind == WidgetKind::StackPanel
            && c.children == self.editors@.map_values(|e: (u128, TileEditorRef)| e.1.handle)
        &&& forall|k: int|
            0 <= k < self.editors@.len() ==> holder(tree, (#[trigger] self.editors@[k]).1.handle)
                == self.content
    }

    /// Whether the heading of the group, the first of its two children, is
    /// a text that says `title`.
    pub open spec fn headed(&self, tree: Nodes, title: Seq<char>) -> bool {
        let heading = info(tree, self.handle)->0.children[0];
        holder(tree, heading) == self.handle && info(tree, heading) == Some(
            WidgetInfo { text: title, ..WidgetInfo::bare(WidgetKind::Text) },
        )
    }

    /// Whether nothing is set on the widgets of the group but what they
    /// hold, and each editor is as it is built.
    pub open spec fn as_built(&self, tree: Nodes) -> bool {
        &&& info(tree, self.handle) matches Some(e) && e.is_like(
            WidgetInfo::bare(WidgetKind::Expander),
        )
        &&& info(tree, self.content) matches Some(c) && c.is_like(
            WidgetInfo::bare(WidgetKind::StackPanel),
        )
        &&& forall|k: int|
            0 <= k < self.editors@.len() ==> {
                let editor = (#[trigger] self.editors@[k]).1;
                &&& info(tree, editor.handle) == Some(
                    WidgetInfo {
                        children: seq![editor.draw_button],
                        ..WidgetInfo::bare(WidgetKind::TileEditor)
                    },
                )
                &&& holder(tree, editor.draw_button) == editor.handle
                &&& info(tree, editor.draw_button) == Some(WidgetInfo::bare(WidgetKind::Button))
            }
    }

    /// The widgets that the group names: those of the editors, the buttons
    /// of the editors, the panel that holds the editors, and the group's own.
    pub open spec fn widgets(&self) -> Seq<Handle> {
        self.editors@.map_values(|e: (u128, TileEditorRef)| e.1.handle)
            + self.editors@.map_values(|e: (u128, TileEditorRef)| e.1.draw_button) + seq![
            self.content,
            self.handle,
        ]
    }

    /// The identifiers of what the editors edit, in the order of the
    /// editors.
    pub open spec fn ids(&self) -> Seq<u128> {
        self.editors@.map_values(|e: (u128, TileEditorRef)| e.0)
    }

    /// Builds a group of editors, one for each identifier, under the given
    /// heading.
    pub fn new(title: &str, ids: &Vec<u128>, ctx: &mut BuildContext) -> (group: EditorGroup)
        requires
            sound(old(ctx)@),
            old(ctx)@.len() + 2 * ids@.len() + 3 <= u32::MAX,
        ensures
            built(old(ctx)@, final(ctx)@, group.handle, Seq::<Handle>::empty()),
            made(old(ctx)@, final(ctx)@, group.handle),
            final(ctx)@.len() == old(ctx)@.len() + 2 * ids@.len() + 3,
            group.shape(final(ctx)@),
            group.headed(final(ctx)@, title@),
            group.as_built(final(ctx)@),
            group.widgets().no_duplicates(),
            within(group.widgets(), old(ctx)@.len() as int, final(ctx)@.len() as int),
            group.ids() == ids@,
            forall|k: int|
                0 <= k < ids@.len() ==> (#[trigger] group.editors@[k]).1 == editor_at(
                    old(ctx)@.len() as int,
                    k,
                ),
    {
        let ghost before = ctx@;
        let ghost base = before.len() as int;
        let mut editors: Vec<(u128, TileEditorRef)> = Vec::new();
        make_editors(ids, &mut editors, ctx);
        let ghost made_editors = ctx@;
        let mut handles: Vec<Handle> = Vec::new();
        let mut i: usize = 0;
        while i < editors.len()
            invariant
                0 <= i <= editors@.len(),
                handles@ == editors@.take(i as int).map_values(
                    |e: (u128, TileEditorRef)| e.1.handle,
                ),
            decreases editors@.len() - i,
        {
            handles.push(editors[i].1.handle);
            proof {
                assert(editors@.take(i + 1) =~= editors@.take(i as int).push(editors@[i as int]));
                assert(handles@ =~= editors@.take(i + 1).map_values(
                    |e: (u128, TileEditorRef)| e.1.handle,
                ));
            }
            i += 1;
        }
        proof {
            assert(editors@.take(i as int) =~= editors@);
            assert forall|k: int| 0 <= k < handles@.len() implies (#[trigger] handles@[k]).is_some()
                && loose(made_editors, handles@[k]) && handles@[k] == editor_at(base, k).handle by {
                assert(editors@[k] == (ids@[k], editor_at(base, k)));
            }
            crate::widget::lemma_named_all(handles@);
        }
        let content_builder = WidgetBuilder::new().with_children(&handles);
        proof {
            assert(content_builder.children@ =~= handles@);
            assert forall|c: Handle| #[trigger] content_builder.adopts(c) implies loose(
                made_editors,
                c,
            ) && c.index >= before.len() by {
                let k = choose|k: int| 0 <= k < handles@.len() && handles@[k] == c;
                assert(loose(made_editors, handles@[k]));
            }
        }
        let content = spawn(ctx, WidgetKind::StackPanel, content_builder);
        let ghost with_content = ctx@;
        let header = make_label(title, ctx);
        let handle = spawn(
            ctx,
            WidgetKind::Expander,
            WidgetBuilder::new().with_child(header).with_child(content),
        );
        let group = EditorGroup { handle, content, editors };
        proof {
            assert forall|x: Handle| loose(ctx@, x) implies x == handle || loose(before, x) by {
                if x != handle && !loose(before, x) {
                    assert(loose(with_content, x));
                    assert(x != content);
                    assert(loose(made_editors, x) && !content_builder.adopts(x));
                    let k = choose|k: int|
                        0 <= k < ids@.len() && x == #[trigger] editor_at(base, k).handle;
                    assert(handles@[k] == x);
                }
            }
            lemma_dialog(before, ctx@, handle);
            assert(group.ids() =~= ids@);
            let n = ids@.len() as int;
            let w = group.widgets();
            assert(w.len() == 2 * n + 2);
            assert forall|k: int| 0 <= k < w.len() implies (#[trigger] w[k]).index == base + (if k
                < n {
                2 * k + 1
            } else if k < 2 * n {
                2 * (k - n)
            } else if k == 2 * n {
                2 * n
            } else {
                2 * n + 2
            }) by {
                if k < n {
                    assert(w[k] == group.editors@[k].1.handle);
                    assert(group.editors@[k].1 == editor_at(base, k));
                } else if k < 2 * n {
                    assert(w[k] == group.editors@[k - n].1.draw_button);
                    assert(group.editors@[k - n].1 == editor_at(base, k - n));
                } else if k == 2 * n {
                    assert(w[k] == content);
                } else {
                    assert(w[k] == handle);
                }
            }
            lemma_apart(w);
            assert forall|k: int| 0 <= k < group.editors@.len() implies holder(
                ctx@,
                (#[trigger] group.editors@[k]).1.handle,
            ) == content by {
                assert(handles@[k] == group.editors@[k].1.handle);
                assert(content_builder.adopts(handles@[k]));
            }
        }
        group
    }

    /// Whether the editors of the group are not those for `ids`, in their
    /// order, so that the group has to be built anew.
    pub fn needs_rebuild(&self, ids: &Vec<u128>) -> (b: bool)
        ensures
            b == (self.ids() != ids@),
    {
        if self.editors.len() != ids.len() {
            proof {
                assert(self.ids().len() != ids@.len());
            }
            return true;
        }
        let mut i: usize = 0;
        while i < ids.len()
            invariant
                0 <= i <= ids@.len(),
                self.editors@.len() == ids@.len(),
                forall|j: int| 0 <= j < i ==> self.ids()[j] == ids@[j],
            decreases ids@.len() - i,
        {
            if self.editors[i].0 != ids[i] {
                proof {
                    assert(self.ids()[i as int] != ids@[i as int]);
                }
                return true;
            }
            i += 1;
        }
        proof {
            assert(self.ids() =~= ids@);
        }
        false
    }

    /// The editors of the group, in their order.
    pub fn iter(&self) -> (refs: Vec<TileEditorRef>)
        ensures
            refs@ == self.editors@.map_values(|e: (u128, TileEditorRef)| e.1),
    {
        let mut refs: Vec<TileEditorRef> = Vec::new();
        let mut i: usize = 0;
        while i < self.editors.len()
            invariant
                0 <= i <= self.editors@.len(),
                refs@ == self.editors@.take(i as int).map_values(|e: (u128, TileEditorRef)| e.1),
            decreases self.editors@.len() - i,
        {
            refs.push(self.editors[i].1);
            proof {
                assert(self.editors@.take(i + 1) =~= self.editors@.take(i as int).push(
                    self.editors@[i as int],
                ));
                assert(refs@ =~= self.editors@.take(i + 1).map_values(
                    |e: (u128, TileEditorRef)| e.1,
                ));
            }
            i += 1;
        }
        proof {
            assert(self.editors@.take(i as int) =~= self.editors@);
        }
        refs
    }
}

/// A list holds something exactly if it is not empty.
pub proof fn lemma_holds_some<T>(v: Seq<T>)
    ensures
        (v.len() > 0) == (exists|x: T| v.contains(x)),
{
    if v.len() > 0 {
        assert(v.contains(v[0]));
    }
    if exists|x: T| v.contains(x) {
        let x = choose|x: T| v.contains(x);
        let k = choose|k: int| 0 <= k < v.len() && v[k] == x;
    }
}

impl<'a> TileEditorState<'a> {
    /// Whether a selected tile holds no tile yet in the tile set at hand.
    pub open spec fn any_empty_tiles(&self) -> bool {
        exists|h: TileDefinitionHandle| self.selects_with(h, true)
    }

    /// Whether a selected tile holds a tile in the tile set at hand.
    pub open spec fn any_tile_data(&self) -> bool {
        exists|h: TileDefinitionHandle| self.selects_with(h, false)
    }

    /// Whether a selected place in the list of pages holds no page.
    pub open spec fn any_empty_pages(&self) -> bool {
        exists|p: Cell| #[trigger] self.pages().contains(p) && self.vacant(p)
    }

    /// Whether a page of the tile set at hand, or of the brush at hand, is
    /// selected.
    pub open spec fn any_pages(&self) -> bool {
        (exists|p: Cell| self.shows_page(p)) || (exists|p: Cell| self.shows_brush_page(p))
    }

    /// The tile that stands for the page at `p`, in the tile set or the
    /// brush at hand.
    pub open spec fn icon_at(&self, p: Cell) -> TileDefinitionHandle {
        match self.data {
            TileResourceData::TileSet(t) => t.page(p)->0.icon,
            TileResourceData::Brush(b) => b.page(p)->0.icon,
            TileResourceData::Empty => TileDefinitionHandle {
                page_x: 0,
                page_y: 0,
                tile_x: 0,
                tile_y: 0,
            },
        }
    }

    /// Whether `p` is a selected page of what is at hand.
    pub open spec fn shows_any(&self, p: Cell) -> bool {
        self.shows_page(p) || self.shows_brush_page(p)
    }

    /// Whether `p` is a selected page and every selected page has the tile
    /// of `p` to stand for it.
    pub open spec fn speaks_for_all(&self, p: Cell) -> bool {
        self.shows_any(p) && forall|q: Cell|
            #[trigger] self.shows_any(q) ==> self.icon_at(q) == self.icon_at(p)
    }

    /// The tile that stands for every selected page, if pages are selected
    /// and one tile stands for them all.
    pub open spec fn common_icon(&self) -> Option<TileDefinitionHandle> {
        if exists|p: Cell| self.speaks_for_all(p) {
            Some(self.icon_at(choose|p: Cell| self.speaks_for_all(p)))
        } else {
            None
        }
    }
}

/// The panel that shows what is selected in the editor of tiles, and
/// changes it.
#[derive(Debug)]
pub struct TileInspector {
    pub handle: Handle,
    pub pages_palette: Handle,
    pub tiles_palette: Handle,
    pub tile_resource: TileResource,
    pub tile_set_page_creator: Handle,
    pub brush_page_creator: Handle,
    pub tile_size_inspector: InspectorField,
    pub create_tile: Handle,
    pub create_page: Handle,
    pub create_atlas: Handle,
    pub create_free: Handle,
    pub create_transform: Handle,
    pub tile_editors: Vec<TileEditorRef>,
    pub page_material_inspector: InspectorField,
    pub page_material_field: Handle,
    pub page_icon_field: Handle,
    pub property_editors: PropertyEditors,
    pub collider_editors: ColliderEditors,
}

/// The icon that new pages of a brush get.
pub open spec fn blank_icon() -> TileDefinitionHandle {
    TileDefinitionHandle { page_x: 0, page_y: 0, tile_x: 0, tile_y: -1i16 }
}

impl TileInspector {
    /// Whether `h` is a widget of `tree` of the given kind.
    pub open spec fn is_a(tree: Nodes, h: Handle, kind: WidgetKind) -> bool {
        info(tree, h) matches Some(i) && i.kind == kind
    }

    /// The panel is a column of `tree` that holds, in this order: what
    /// makes pages of a tile set and what makes pages of a brush, both
    /// hidden; the field of the page's icon; the fields of material and of
    /// tile size; the button that makes tiles; the three editors that every
    /// tile has; and the editors of properties and of colliders.
    pub open spec fn shape(&self, tree: Nodes) -> bool {
        &&& info(tree, self.handle) matches Some(column) && column.kind == WidgetKind::StackPanel
            && self.tile_editors@.len() == 3 && column.children == seq![
            self.tile_set_page_creator,
            self.brush_page_creator,
            self.page_icon_field,
            self.page_material_inspector.handle,
            self.tile_size_inspector.handle,
            self.create_tile,
            self.tile_editors@[0].handle,
            self.tile_editors@[1].handle,
            self.tile_editors@[2].handle,
            self.property_editors.handle,
            self.collider_editors.handle,
        ]
        &&& info(tree, self.tile_set_page_creator) matches Some(c) && c.kind == WidgetKind::Grid
            && !c.visibility && c.children.len() == 4 && c.children[1] == self.create_atlas
            && c.children[2] == self.create_free && c.children[3] == self.create_transform
        &&& info(tree, self.brush_page_creator) matches Some(c) && c.kind == WidgetKind::StackPanel
            && !c.visibility && c.row == 1 && c.children.len() == 2 && c.children[1]
            == self.create_page
        &&& Self::is_a(tree, self.create_tile, WidgetKind::Button)
        &&& Self::is_a(tree, self.create_page, WidgetKind::Button)
        &&& Self::is_a(tree, self.create_atlas, WidgetKind::Button)
        &&& Self::is_a(tree, self.create_free, WidgetKind::Button)
        &&& Self::is_a(tree, self.create_transform, WidgetKind::Button)
        &&& Self::is_a(tree, self.page_icon_field, WidgetKind::TileHandleField)
        &&& Self::is_a(tree, self.page_material_field, WidgetKind::MaterialField)
        &&& self.page_material_inspector.field == self.page_material_field
        &&& Self::is_a(tree, self.tile_size_inspector.field, WidgetKind::Vec2Editor)
        &&& Self::is_a(tree, self.page_material_inspector.handle, WidgetKind::Grid)
        &&& Self::is_a(tree, self.tile_size_inspector.handle, WidgetKind::Grid)
        &&& holder(tree, self.page_material_field) == self.page_material_inspector.handle
        &&& holder(tree, self.tile_size_inspector.field) == self.tile_size_inspector.handle
        &&& holder(tree, self.create_atlas) == self.tile_set_page_creator
        &&& holder(tree, self.create_free) == self.tile_set_page_creator
        &&& holder(tree, self.create_transform) == self.tile_set_page_creator
        &&& holder(tree, self.create_page) == self.brush_page_creator
        &&& holder(tree, self.create_tile) == self.handle
        &&& holder(tree, self.tile_set_page_creator) == self.handle
        &&& holder(tree, self.brush_page_creator) == self.handle
        &&& holder(tree, self.page_icon_field) == self.handle
        &&& holder(tree, self.property_editors.handle) == self.handle
        &&& holder(tree, self.collider_editors.handle) == self.handle
        &&& Self::is_a(tree, self.property_editors.handle, WidgetKind::Expander)
        &&& Self::is_a(tree, self.collider_editors.handle, WidgetKind::Expander)
    }

    /// Whether `h` is a button of `tree` in the given row that says `title`
    /// and, of itself, `tooltip`.
    pub open spec fn says(tree: Nodes, h: Handle, title: Seq<char>, tooltip: Seq<char>, row: usize) -> bool {
        info(tree, h) == Some(
            WidgetInfo { row, text: title, tooltip, ..WidgetInfo::bare(WidgetKind::Button) },
        )
    }

    /// Whether the first child of `h` is a text that says `title`.
    pub open spec fn titled(tree: Nodes, h: Handle, title: Seq<char>) -> bool {
        let first = info(tree, h)->0.children[0];
        holder(tree, first) == h && info(tree, first) == Some(
            WidgetInfo { text: title, ..WidgetInfo::bare(WidgetKind::Text) },
        )
    }

    /// What the widgets of the panel say: the buttons their captions and
    /// tooltips, the makers of pages and the fields of the page the titles
    /// over them, the groups of editors their headings.
    pub open spec fn labelled(&self, tree: Nodes) -> bool {
        &&& Self::says(tree, self.create_page, "Add Page"@, "Create a brush tile page."@, 0)
        &&& Self::says(tree, self.create_tile, "Create Tile"@, "Add a tile to this page."@, 0)
        &&& Self::says(
            tree,
            self.create_atlas,
            "Tile Atlas"@,
            "Create a atlas texture tile page."@,
            1,
        )
        &&& Self::says(
            tree,
            self.create_free,
            "Free Tiles"@,
            "Create an arbitrary tile page, with no limits on material and uv coordinates."@,
            2,
        )
        &&& Self::says(
            tree,
            self.create_transform,
            "Transform"@,
            "Create a page that controls how tiles flip and rotate."@,
            3,
        )
        &&& Self::titled(tree, self.tile_set_page_creator, "Create New Page"@)
        &&& Self::titled(tree, self.brush_page_creator, "Create New Page"@)
        &&& Self::titled(tree, self.page_material_inspector.handle, "Material"@)
        &&& Self::titled(tree, self.tile_size_inspector.handle, "Tile Size"@)
        &&& info(tree, self.page_icon_field) == Some(
            WidgetInfo { text: "Page Icon"@, ..WidgetInfo::bare(WidgetKind::TileHandleField) },
        )
        &&& info(tree, self.page_material_field) == Some(
            WidgetInfo { column: 1, ..WidgetInfo::bare(WidgetKind::MaterialField) },
        )
        &&& info(tree, self.tile_size_inspector.field) == Some(
            WidgetInfo { column: 1, ..WidgetInfo::bare(WidgetKind::Vec2Editor) },
        )
        &&& self.property_editors.headed(tree, "Properties"@)
        &&& self.collider_editors.headed(tree, "Colliders"@)
    }

    /// Whether nothing is set on the widgets that hold others but what the
    /// shape of the panel says, and each editor is as it is built.
    pub open spec fn as_built(&self, tree: Nodes) -> bool {
        &&& info(tree, self.handle) matches Some(i) && i.is_like(
            WidgetInfo::bare(WidgetKind::StackPanel),
        )
        &&& info(tree, self.tile_set_page_creator) matches Some(i) && i.is_like(
            WidgetInfo { visibility: false, ..WidgetInfo::bare(WidgetKind::Grid) },
        )
        &&& info(tree, self.brush_page_creator) matches Some(i) && i.is_like(
            WidgetInfo { visibility: false, row: 1, ..WidgetInfo::bare(WidgetKind::StackPanel) },
        )
        &&& info(tree, self.page_material_inspector.handle) matches Some(i) && i.is_like(
            WidgetInfo::bare(WidgetKind::Grid),
        ) && i.children.len() == 2 && i.children[1] == self.page_material_field
        &&& info(tree, self.tile_size_inspector.handle) matches Some(i) && i.is_like(
            WidgetInfo::bare(WidgetKind::Grid),
        ) && i.children.len() == 2 && i.children[1] == self.tile_size_inspector.field
        &&& is_new_editor(tree, self.tile_editors@[0])
        &&& is_new_editor(tree, self.tile_editors@[1])
        &&& is_new_editor(tree, self.tile_editors@[2])
        &&& self.property_editors.as_built(tree)
        &&& self.collider_editors.as_built(tree)
    }

    /// The widgets that the panel names but for those of the two groups
    /// of editors and its own: the three editors of tiles with their
    /// buttons, the makers of pages with their buttons, the button that
    /// makes tiles, and the fields of the page with the grids around them.
    pub open spec fn parts(&self) -> Seq<Handle> {
        seq![
            self.tile_editors@[0].draw_button,
            self.tile_editors@[0].handle,
            self.tile_editors@[1].draw_button,
            self.tile_editors@[1].handle,
            self.tile_editors@[2].draw_button,
            self.tile_editors@[2].handle,
            self.create_page,
            self.brush_page_creator,
            self.create_tile,
            self.create_atlas,
            self.create_free,
            self.create_transform,
            self.tile_set_page_creator,
            self.page_material_field,
            self.page_material_inspector.handle,
            self.tile_size_inspector.field,
            self.tile_size_inspector.handle,
            self.page_icon_field,
        ]
    }

    /// All the widgets that the panel names: its parts, those of the
    /// editors of properties, those of the editors of colliders, and its
    /// own.
    pub open spec fn widgets(&self) -> Seq<Handle> {
        self.parts() + self.property_editors.widgets() + self.collider_editors.widgets() + seq![
            self.handle,
        ]
    }

    /// Builds the panel into the tree, for what `state` has at hand.
    #[verifier::rlimit(40)]
    pub fn new(
        state: &TileEditorState,
        pages_palette: Handle,
        tiles_palette: Handle,
        tile_resource: TileResource,
        ctx: &mut BuildContext,
    ) -> (inspector: TileInspector)
        requires
            sound(old(ctx)@),
            old(ctx)@.len() + 29 + 2 * state.property_layers().len() + 2
                * state.collider_layers().len() <= u32::MAX,
        ensures
            built(old(ctx)@, final(ctx)@, inspector.handle, Seq::<Handle>::empty()),
            made(old(ctx)@, final(ctx)@, inspector.handle),
            final(ctx)@.len() == old(ctx)@.len() + 29 + 2 * state.property_layers().len() + 2
                * state.collider_layers().len(),
            inspector.shape(final(ctx)@),
            inspector.labelled(final(ctx)@),
            inspector.as_built(final(ctx)@),
            inspector.widgets().no_duplicates(),
            inspector.pages_palette == pages_palette,
            inspector.tiles_palette == tiles_palette,
            inspector.tile_resource == tile_resource,
            inspector.property_editors.ids() == property_ids(state.property_layers()),
            inspector.collider_editors.ids() == collider_ids(state.collider_layers()),
    {
        let ghost before = ctx@;
        proof {
            lemma_words(before, Handle::none_spec());
        }
        let property_ids = property_uuids(state);
        let collider_ids = collider_uuids(state);
        let material_editor = new_tile_editor(ctx);
        let color_editor = new_tile_editor(ctx);
        let handle_editor = new_tile_editor(ctx);
        let creator_label_0 = make_label("Create New Page", ctx);
        let creator_label_1 = make_label("Create New Page", ctx);
        let create_page = make_button("Add Page", "Create a brush tile page.", 0, 0, ctx);
        let brush_page_creator = spawn(
            ctx,
            WidgetKind::StackPanel,
            WidgetBuilder::new().with_visibility(false).on_row(1).with_child(
                creator_label_0,
            ).with_child(create_page),
        );
        let create_tile = make_button("Create Tile", "Add a tile to this page.", 0, 0, ctx);
        let create_atlas = make_button(
            "Tile Atlas",
            "Create a atlas texture tile page.",
            1,
            0,
            ctx,
        );
        let create_free = make_button(
            "Free Tiles",
            "Create an arbitrary tile page, with no limits on material and uv coordinates.",
            2,
            0,
            ctx,
        );
        let create_transform = make_button(
            "Transform",
            "Create a page that controls how tiles flip and rotate.",
            3,
            0,
            ctx,
        );
        let tile_set_page_creator = spawn(
            ctx,
            WidgetKind::Grid,
            WidgetBuilder::new().with_visibility(false).with_child(creator_label_1).with_child(
                create_atlas,
            ).with_child(create_free).with_child(create_transform),
        );
        let page_material_field = spawn(
            ctx,
            WidgetKind::MaterialField,
            WidgetBuilder::new().on_column(1),
        );
        let page_material_inspector = InspectorField::new("Material", page_material_field, ctx);
        let tile_size_field = spawn(ctx, WidgetKind::Vec2Editor, WidgetBuilder::new().on_column(1));
        let tile_size_inspector = InspectorField::new("Tile Size", tile_size_field, ctx);
        let page_icon_field = spawn(
            ctx,
            WidgetKind::TileHandleField,
            WidgetBuilder::new().with_text("Page Icon"),
        );
        let ghost low = before.len() as int;
        let ghost first = ctx@.len() as int;
        let property_editors = EditorGroup::new("Properties", &property_ids, ctx);
        let ghost second = ctx@.len() as int;
        let collider_editors = EditorGroup::new("Colliders", &collider_ids, ctx);
        let ghost third = ctx@.len() as int;
        let mut tile_editors: Vec<TileEditorRef> = Vec::new();
        tile_editors.push(material_editor);
        tile_editors.push(color_editor);
        tile_editors.push(handle_editor);
        let ghost parts = ctx@;
        let handle = spawn(
            ctx,
            WidgetKind::StackPanel,
            WidgetBuilder::new().with_child(tile_set_page_creator).with_child(
                brush_page_creator,
            ).with_child(page_icon_field).with_child(page_material_inspector.handle).with_child(
                tile_size_inspector.handle,
            ).with_child(create_tile).with_child(material_editor.handle).with_child(
                color_editor.handle,
            ).with_child(handle_editor.handle).with_child(property_editors.handle).with_child(
                collider_editors.handle,
            ),
        );
        let inspector = TileInspector {
            handle,
            pages_palette,
            tiles_palette,
            tile_resource,
            tile_editors,
            brush_page_creator,
            tile_set_page_creator,
            page_material_inspector,
            page_material_field,
            tile_size_inspector,
            create_tile,
            create_page,
            create_atlas,
            create_free,
            create_transform,
            page_icon_field,
            property_editors,
            collider_editors,
        };
        proof {
            let parts = inspector.parts();
            assert(within(parts, low, first));
            lemma_apart(parts);
            lemma_apart_joined(parts, property_editors.widgets(), low, first, second);
            lemma_apart_joined(
                parts + property_editors.widgets(),
                collider_editors.widgets(),
                low,
                second,
                third,
            );
            let own = seq![handle];
            assert(within(own, third, third + 1));
            lemma_apart_joined(
                parts + property_editors.widgets() + collider_editors.widgets(),
                own,
                low,
                third,
                third + 1,
            );
        }
        proof {
            lemma_dialog(before, ctx@, handle);
            assert(info(ctx@, handle)->0.children =~= seq![
                inspector.tile_set_page_creator,
                inspector.brush_page_creator,
                inspector.page_icon_field,
                inspector.page_material_inspector.handle,
                inspector.tile_size_inspector.handle,
                inspector.create_tile,
                inspector.tile_editors@[0].handle,
                inspector.tile_editors@[1].handle,
                inspector.tile_editors@[2].handle,
                inspector.property_editors.handle,
                inspector.collider_editors.handle,
            ]);
        }
        inspector
    }

    pub fn handle(&self) -> (h: Handle)
        ensures
            h == self.handle,
    {
        self.handle
    }

    /// What the inspector looks at, where the palette of tiles shows the
    /// page `palette_page`: that page where the selection is in the palette
    /// of tiles, and none otherwise.
    pub fn tile_editor_state(&self, state: &TileDrawState, palette_page: Option<Cell>) -> (r:
        TileEditorStateRef)
        ensures
            r.page == if state.palette() != self.tiles_palette {
                None
            } else {
                palette_page
            },
            r.pages_palette == self.pages_palette,
            r.tiles_palette == self.tiles_palette,
            r.tile_resource == self.tile_resource,
    {
        let page = if state.selection_palette() != self.tiles_palette {
            None
        } else {
            palette_page
        };
        TileEditorStateRef {
            page,
            pages_palette: self.pages_palette,
            tiles_palette: self.tiles_palette,
            tile_resource: self.tile_resource,
        }
    }

    /// The tile that stands for every selected page, if pages are selected
    /// and one tile stands for them all.
    #[verifier::loop_isolation(false)]
    pub fn find_page_icon(&self, state: &TileEditorState) -> (icon: Option<TileDefinitionHandle>)
        ensures
            icon == state.common_icon(),
    {
        if state.is_tile_set() {
            let pages = state.tile_set_pages();
            if pages.len() == 0 {
                proof {
                    assert forall|p: Cell| !state.speaks_for_all(p) by {
                        if state.shows_any(p) {
                            assert(state.pages().contains(p));
                        }
                    }
                }
                return None;
            }
            let icon = pages[0].1.icon;
            let mut k: usize = 1;
            proof {
                assert(state.pages().contains(pages@[0].0));
            }
            while k < pages.len()
                invariant
                    1 <= k <= pages@.len(),
                    icon == pages@[0].1.icon,
                    forall|j: int| 0 <= j < k ==> (#[trigger] pages@[j]).1.icon == icon,
                decreases pages@.len() - k,
            {
                if pages[k].1.icon != icon {
                    proof {
                        assert(state.pages().contains(pages@[0].0));
                        assert(state.pages().contains(pages@[k as int].0));
                        assert forall|p: Cell| !state.speaks_for_all(p) by {
                            if state.speaks_for_all(p) {
                                assert(state.shows_any(pages@[0].0));
                                assert(state.shows_any(pages@[k as int].0));
                            }
                        }
                    }
                    return None;
                }
                k += 1;
            }
            proof {
                let p0 = pages@[0].0;
                assert(state.shows_any(p0));
                assert forall|q: Cell| #[trigger] state.shows_any(q) implies state.icon_at(q)
                    == state.icon_at(p0) by {
                    assert(state.pages().contains(q));
                    let j = choose|j: int| 0 <= j < pages@.len() && (#[trigger] pages@[j]).0 == q;
                    assert(pages@[j].1.icon == icon);
                }
                assert(state.speaks_for_all(p0));
                let c = choose|p: Cell| state.speaks_for_all(p);
                assert(state.speaks_for_all(c));
                assert(state.shows_any(c));
            }
            Some(icon)
        } else if state.is_brush() {
            let pages = state.brush_pages();
            if pages.len() == 0 {
                proof {
                    assert forall|p: Cell| !state.speaks_for_all(p) by {
                        if state.shows_any(p) {
                            assert(state.pages().contains(p));
                        }
                    }
                }
                return None;
            }
            let icon = pages[0].1.icon;
            let mut k: usize = 1;
            proof {
                assert(state.pages().contains(pages@[0].0));
            }
            while k < pages.len()
                invariant
                    1 <= k <= pages@.len(),
                    icon == pages@[0].1.icon,
                    forall|j: int| 0 <= j < k ==> (#[trigger] pages@[j]).1.icon == icon,
                decreases pages@.len() - k,
            {
                if pages[k].1.icon != icon {
                    proof {
                        assert(state.pages().contains(pages@[0].0));
                        assert(state.pages().contains(pages@[k as int].0));
                        assert forall|p: Cell| !state.speaks_for_all(p) by {
                            if state.speaks_for_all(p) {
                                assert(state.shows_any(pages@[0].0));
                                assert(state.shows_any(pages@[k as int].0));
                            }
                        }
                    }
                    return None;
                }
                k += 1;
            }
            proof {
                let p0 = pages@[0].0;
                assert(state.shows_any(p0));
                assert forall|q: Cell| #[trigger] state.shows_any(q) implies state.icon_at(q)
                    == state.icon_at(p0) by {
                    assert(state.pages().contains(q));
                    let j = choose|j: int| 0 <= j < pages@.len() && (#[trigger] pages@[j]).0 == q;
                    assert(pages@[j].1.icon == icon);
                }
                assert(state.speaks_for_all(p0));
                let c = choose|p: Cell| state.speaks_for_all(p);
                assert(state.speaks_for_all(c));
                assert(state.shows_any(c));
            }
            Some(icon)
        } else {
            None
        }
    }

    /// A message that only brings a widget in line.
    pub open spec fn quiet(message: UiMessageView) -> UiMessageView {
        message.flagged(MSG_SYNC_FLAG)
    }

    /// What the fields of the page are told where one page of a picture is
    /// selected: its tile size and its material.
    pub open spec fn page_messages(&self, material: Option<(Cell, TileMaterial)>) -> Seq<
        UiMessageView,
    > {
        match material {
            Some((_, m)) => seq![
                Self::quiet(
                    plain(
                        self.tile_size_inspector.field,
                        MessageDirection::ToWidget,
                        MessageDataView::Vec2Editor(
                            Vec2EditorMessage::Value { x: m.tile_width, y: m.tile_height },
                        ),
                    ),
                ),
                Self::quiet(
                    plain(
                        self.page_material_inspector.field,
                        MessageDirection::ToWidget,
                        MessageDataView::MaterialField(MaterialFieldMessage::Material(m.material)),
                    ),
                ),
            ],
            None => Seq::<UiMessageView>::empty(),
        }
    }

    /// Tells the fields of the page what the one selected page of a picture
    /// has, where there is such a page.
    pub fn sync_to_page(&self, state: &TileEditorState, ui: &mut UserInterface)
        ensures
            final(ui).tree() == old(ui).tree(),
            final(ui).sent() == old(ui).sent() + self.page_messages(state.material_of()),
    {
        if let Some((_, mat)) = state.material_page() {
            send_sync_message(
                ui,
                Vec2EditorMessage::value(
                    self.tile_size_inspector.field,
                    MessageDirection::ToWidget,
                    mat.tile_width,
                    mat.tile_height,
                ),
            );
            send_sync_message(
                ui,
                MaterialFieldMessage::material(
                    self.page_material_inspector.field,
                    MessageDirection::ToWidget,
                    mat.material,
                ),
            );
            proof {
                assert(ui.sent() =~= old(ui).sent() + self.page_messages(state.material_of()));
            }
        } else {
            proof {
                assert(old(ui).sent() + Seq::<UiMessageView>::empty() =~= old(ui).sent());
            }
        }
    }

    /// What the tools are told: the button of each of the first `n` of
    /// `editors` that has a button, whether its editor is the tool to draw
    /// with.
    pub open spec fn tool_messages(
        editors: Seq<TileEditorRef>,
        mode: DrawingMode,
        active: Option<TileEditorRef>,
        n: nat,
    ) -> Seq<UiMessageView>
        decreases n,
    {
        if n == 0 {
            Seq::<UiMessageView>::empty()
        } else {
            let rest = Self::tool_messages(editors, mode, active, (n - 1) as nat);
            let editor = editors[n - 1];
            if editor.draw_button.is_none() {
                rest
            } else {
                rest.push(
                    plain(
                        editor.draw_button,
                        MessageDirection::ToWidget,
                        MessageDataView::Decorator(
                            DecoratorMessage::Select(
                                mode == DrawingMode::Editor && active == Some(editor),
                            ),
                        ),
                    ),
                )
            }
        }
    }

    /// The editors of the panel: those that every tile has, then those of
    /// the properties, then those of the colliders.
    pub open spec fn all_editors(&self) -> Seq<TileEditorRef> {
        self.tile_editors@ + self.property_editors.editors@.map_values(
            |e: (u128, TileEditorRef)| e.1,
        ) + self.collider_editors.editors@.map_values(|e: (u128, TileEditorRef)| e.1)
    }

    /// The editors of the panel: those that every tile has, then those of
    /// the properties, then those of the colliders.
    pub fn editors(&self) -> (all: Vec<TileEditorRef>)
        ensures
            all@ == self.all_editors(),
    {
        let mut all: Vec<TileEditorRef> = Vec::new();
        let mut i: usize = 0;
        while i < self.tile_editors.len()
            invariant
                0 <= i <= self.tile_editors@.len(),
                all@ == self.tile_editors@.take(i as int),
            decreases self.tile_editors@.len() - i,
        {
            all.push(self.tile_editors[i]);
            proof {
                assert(self.tile_editors@.take(i + 1) =~= self.tile_editors@.take(i as int).push(
                    self.tile_editors@[i as int],
                ));
            }
            i += 1;
        }
        proof {
            assert(self.tile_editors@.take(i as int) =~= self.tile_editors@);
        }
        let mut properties = self.property_editors.iter();
        let mut colliders = self.collider_editors.iter();
        all.append(&mut properties);
        all.append(&mut colliders);
        all
    }

    /// What the panel tells its widgets so that they fit what is selected:
    /// which of them are shown, what the one selected page of a picture
    /// has, which tile stands for the selected pages, and which tool is
    /// chosen.
    pub open spec fn state_messages(&self, state: &TileEditorState) -> Seq<UiMessageView> {
        self.shown_messages(state) + self.page_messages(state.material_of()) + seq![
            Self::quiet(
                plain(
                    self.page_icon_field,
                    MessageDirection::ToWidget,
                    MessageDataView::TileHandleEditor(
                        TileHandleEditorMessage::Value(state.common_icon()),
                    ),
                ),
            ),
        ] + Self::tool_messages(
            self.all_editors(),
            state.draw().drawing_mode,
            state.draw().active_editor,
            self.all_editors().len(),
        )
    }

    /// Whether there are selected tiles without a tile, selected places
    /// without a page, selected tiles with a tile, and selected pages.
    fn selected_kinds(state: &TileEditorState) -> (r: (bool, bool, bool, bool))
        ensures
            r.0 == state.any_empty_tiles(),
            r.1 == state.any_empty_pages(),
            r.2 == state.any_tile_data(),
            r.3 == state.any_pages(),
    {
        let empty_tile_list = state.empty_tiles();
        let empty_page_list = state.empty_page_positions();
        let tile_data_list = state.tile_data();
        let tile_set_page_list = state.tile_set_pages();
        let brush_page_list = state.brush_pages();
        proof {
            lemma_holds_some(empty_tile_list@);
            lemma_holds_some(empty_page_list@);
            lemma_holds_some(tile_data_list@);
            if tile_set_page_list@.len() > 0 {
                assert(state.pages().contains(tile_set_page_list@[0].0));
                assert(state.shows_page(tile_set_page_list@[0].0));
            }
            if brush_page_list@.len() > 0 {
                assert(state.pages().contains(brush_page_list@[0].0));
                assert(state.shows_brush_page(brush_page_list@[0].0));
            }
            if exists|p: Cell| state.shows_page(p) {
                let p = choose|p: Cell| state.shows_page(p);
                assert(state.pages().contains(p));
            }
            if exists|p: Cell| state.shows_brush_page(p) {
                let p = choose|p: Cell| state.shows_brush_page(p);
                assert(state.pages().contains(p));
            }
            if state.any_empty_pages() {
                let p = choose|p: Cell| #[trigger] state.pages().contains(p) && state.vacant(p);
                assert(empty_page_list@.contains(p));
            }
            if empty_page_list@.len() > 0 {
                let p = choose|p: Cell| empty_page_list@.contains(p);
                assert(state.pages().contains(p) && state.vacant(p));
            }
            if state.any_empty_tiles() {
                let h = choose|h: TileDefinitionHandle| state.selects_with(h, true);
                assert(empty_tile_list@.contains(h));
            }
            if empty_tile_list@.len() > 0 {
                let h = choose|h: TileDefinitionHandle| empty_tile_list@.contains(h);
                assert(state.selects_with(h, true));
            }
            if state.any_tile_data() {
                let h = choose|h: TileDefinitionHandle| state.selects_with(h, false);
                assert(tile_data_list@.contains(h));
            }
            if tile_data_list@.len() > 0 {
                let h = choose|h: TileDefinitionHandle| tile_data_list@.contains(h);
                assert(state.selects_with(h, false));
            }
        }
        (
            empty_tile_list.len() > 0,
            empty_page_list.len() > 0,
            tile_data_list.len() > 0,
            tile_set_page_list.len() > 0 || brush_page_list.len() > 0,
        )
    }

    /// Tells the button of every tool whether its editor is the tool to
    /// draw with.
    fn highlight_tools(&self, state: &TileEditorState, ui: &mut UserInterface)
        ensures
            final(ui).tree() == old(ui).tree(),
            final(ui).sent() == old(ui).sent() + Self::tool_messages(
                self.all_editors(),
                state.draw().drawing_mode,
                state.draw().active_editor,
                self.all_editors().len(),
            ),
    {
        let ghost shown = ui.sent();
        let all = self.editors();
        let mode = state.drawing_mode();
        let mut i: usize = 0;
        proof {
            assert(shown + Self::tool_messages(
                all@,
                state.draw().drawing_mode,
                state.draw().active_editor,
                0,
            ) =~= shown);
        }
        while i < all.len()
            invariant
                0 <= i <= all@.len(),
                mode == state.draw().drawing_mode,
                ui.tree() == old(ui).tree(),
                ui.sent() == shown + Self::tool_messages(
                    all@,
                    state.draw().drawing_mode,
                    state.draw().active_editor,
                    i as nat,
                ),
            decreases all@.len() - i,
        {
            let editor = all[i];
            highlight_tool_button(
                editor.draw_button,
                matches!(mode, DrawingMode::Editor) && state.is_active_editor(&editor),
                ui,
            );
            proof {
                assert(ui.sent() =~= shown + Self::tool_messages(
                    all@,
                    state.draw().drawing_mode,
                    state.draw().active_editor,
                    (i + 1) as nat,
                ));
            }
            i += 1;
        }
    }

    /// What the panel tells its widgets about which of them are shown.
    pub open spec fn shown_messages(&self, state: &TileEditorState) -> Seq<UiMessageView> {
        let tile_set_empty_pages = state.set() is Some && state.any_empty_pages();
        let brush_empty_pages = state.the_brush() is Some && state.any_empty_pages();
        let page_selected = state.material_of() is Some;
        seq![
            visibility(self.tile_set_page_creator, tile_set_empty_pages),
            visibility(self.brush_page_creator, brush_empty_pages),
            visibility(self.create_tile, state.any_empty_tiles()),
            visibility(self.tile_set_page_creator, tile_set_empty_pages),
            visibility(self.tile_size_inspector.handle, page_selected),
            visibility(self.page_material_inspector.handle, page_selected),
            visibility(self.page_icon_field, state.any_pages()),
            visibility(self.property_editors.handle, state.any_tile_data()),
            visibility(self.collider_editors.handle, state.any_tile_data()),
        ]
    }

    /// Shows and hides the widgets of the panel as fits what is selected.
    fn show_parts(&self, state: &TileEditorState, ui: &mut UserInterface)
        ensures
            final(ui).tree() == old(ui).tree(),
            final(ui).sent() == old(ui).sent() + self.shown_messages(state),
    {
        let (empty_tiles, empty_pages, tile_data_selected, any_pages) = Self::selected_kinds(state);
        let tile_set_empty_pages = state.tile_set().is_some() && empty_pages;
        let brush_empty_pages = state.brush().is_some() && empty_pages;
        let mat_page_selected = state.material_page().is_some();
        send_visibility(ui, self.tile_set_page_creator, tile_set_empty_pages);
        send_visibility(ui, self.brush_page_creator, brush_empty_pages);
        send_visibility(ui, self.create_tile, empty_tiles);
        send_visibility(ui, self.tile_set_page_creator, tile_set_empty_pages);
        send_visibility(ui, self.tile_size_inspector.handle, mat_page_selected);
        send_visibility(ui, self.page_material_inspector.handle, mat_page_selected);
        send_visibility(ui, self.page_icon_field, any_pages);
        send_visibility(ui, self.property_editors.handle, tile_data_selected);
        send_visibility(ui, self.collider_editors.handle, tile_data_selected);
        proof {
            assert(ui.sent() =~= old(ui).sent() + self.shown_messages(state));
        }
    }

    /// Brings the widgets of the panel in line with what is selected.
    pub fn sync_to_state(&mut self, state: &TileEditorState, ui: &mut UserInterface)
        ensures
            *final(self) == *old(self),
            final(ui).tree() == old(ui).tree(),
            final(ui).sent() == old(ui).sent() + old(self).state_messages(state),
    {
        self.show_parts(state, ui);
        self.sync_to_page(state, ui);
        let page_icon = self.find_page_icon(state);
        send_sync_message(
            ui,
            TileHandleEditorMessage::value(
                self.page_icon_field,
                MessageDirection::ToWidget,
                page_icon,
            ),
        );
        self.highlight_tools(state, ui);
        proof {
            assert(ui.sent() =~= old(ui).sent() + old(self).state_messages(state));
        }
    }
}

impl EditorGroup {
    /// The messages that ask for each of `editors` to leave the tree.
    pub open spec fn removals(editors: Seq<(u128, TileEditorRef)>) -> Seq<UiMessageView> {
        Seq::new(
            editors.len(),
            |k: int|
                plain(
                    editors[k].1.handle,
                    MessageDirection::ToWidget,
                    MessageDataView::Widget(WidgetMessage::Remove),
                ),
        )
    }

    /// The messages that ask for each of `n` new editors to go under
    /// `content`.
    pub open spec fn links(base: int, n: nat, content: Handle) -> Seq<UiMessageView> {
        Seq::new(
            n,
            |k: int|
                plain(
                    editor_at(base, k).handle,
                    MessageDirection::ToWidget,
                    MessageDataView::Widget(WidgetMessage::Link(content)),
                ),
        )
    }

    /// Brings the group in line with the tile set: where its editors are
    /// not those for `ids`, they are asked to leave, new ones are built, and
    /// these are asked to go under the heading of the group.
    pub fn sync_to_model(&mut self, ids: &Vec<u128>, ui: &mut UserInterface)
        requires
            sound(old(ui).tree()),
            old(ui).tree().len() + 2 * ids@.len() <= u32::MAX,
        ensures
            final(self).handle == old(self).handle,
            final(self).content == old(self).content,
            sound(final(ui).tree()),
            if old(self).ids() == ids@ {
                final(self).editors == old(self).editors && final(ui).tree() == old(ui).tree()
                    && final(ui).sent() == old(ui).sent()
            } else {
                final(self).ids() == ids@ && final(ui).tree().len() == old(ui).tree().len() + 2
                    * ids@.len() && kept(old(ui).tree(), final(ui).tree()) && (forall|k: int|
                    0 <= k < ids@.len() ==> (#[trigger] final(self).editors@[k]).1 == editor_at(
                        old(ui).tree().len() as int,
                        k,
                    )) && final(ui).sent() == old(ui).sent() + Self::removals(old(self).editors@)
                    + Self::links(old(ui).tree().len() as int, ids@.len(), old(self).content)
            },
    {
        if self.needs_rebuild(ids) {
            let ghost start = ui.sent();
            let ghost base = ui.tree().len() as int;
            let ghost leaving = self.editors@;
            let mut i: usize = 0;
            proof {
                assert(start + Self::removals(leaving.take(0)) =~= start);
            }
            while i < self.editors.len()
                invariant
                    0 <= i <= self.editors@.len(),
                    leaving == self.editors@,
                    ui.tree() == old(ui).tree(),
                    ui.sent() == start + Self::removals(leaving.take(i as int)),
                decreases self.editors@.len() - i,
            {
                ui.send_message(
                    WidgetMessage::remove(self.editors[i].1.handle, MessageDirection::ToWidget),
                );
                proof {
                    assert(ui.sent() =~= start + Self::removals(leaving.take(i + 1)));
                }
                i += 1;
            }
            proof {
                assert(leaving.take(i as int) =~= leaving);
            }
            let ghost removed = ui.sent();
            make_editors(ids, &mut self.editors, ui.build_ctx());
            let mut i: usize = 0;
            proof {
                assert(removed + Self::links(base, 0, self.content) =~= removed);
            }
            while i < self.editors.len()
                invariant
                    0 <= i <= self.editors@.len(),
                    self.editors@.len() == ids@.len(),
                    self.content == old(self).content,
                    forall|k: int|
                        0 <= k < ids@.len() ==> #[trigger] self.editors@[k] == (
                            ids@[k],
                            editor_at(base, k),
                        ),
                    ui.tree().len() == base + 2 * ids@.len(),
                    kept(old(ui).tree(), ui.tree()),
                    sound(ui.tree()),
                    ui.sent() == removed + Self::links(base, i as nat, self.content),
                decreases self.editors@.len() - i,
            {
                ui.send_message(
                    WidgetMessage::link(
                        self.editors[i].1.handle,
                        MessageDirection::ToWidget,
                        self.content,
                    ),
                );
                proof {
                    assert(self.editors@[i as int] == (ids@[i as int], editor_at(base, i as int)));
                    assert(ui.sent() =~= removed + Self::links(base, (i + 1) as nat, self.content));
                }
                i += 1;
            }
            proof {
                assert(self.ids() =~= ids@);
                assert(ui.sent() =~= old(ui).sent() + Self::removals(leaving) + Self::links(
                    base,
                    ids@.len(),
                    self.content,
                ));
            }
        }
    }
}

/// Whether `cells` lists each of the selected places in the list of pages
/// once, and nothing else.
pub open spec fn lists_pages(cells: Seq<Cell>, state: &TileEditorState) -> bool {
    cells.no_duplicates() && forall|p: Cell| #[trigger] cells.contains(p) == state.pages().contains(p)
}

/// Whether `cells` lists each of the selected places in the list of pages
/// that holds no page once, and nothing else.
pub open spec fn lists_vacant(cells: Seq<Cell>, state: &TileEditorState) -> bool {
    cells.no_duplicates() && forall|p: Cell|
        #[trigger] cells.contains(p) == (state.pages().contains(p) && state.vacant(p))
}

impl TileInspector {
    /// Whether the panel passes over `message`: a message that only brings
    /// a widget in line, a message to a widget, and a message from a widget
    /// that is not a part of the panel.
    pub open spec fn ignores(&self, message: UiMessageView, tree: Nodes) -> bool {
        message.flags == MSG_SYNC_FLAG || message.direction == MessageDirection::ToWidget || !(
        message.destination != self.handle && under(tree, self.handle, message.destination))
    }

    /// The request to the editor to do the group of `commands` under the
    /// name `name`.
    pub open spec fn group(commands: Seq<CommandView>, name: Seq<char>) -> MessageView {
        MessageView::DoCommandGroup(CommandGroupView { commands, custom_name: name })
    }

    /// What giving the selected pages the icon `icon` asks of the editor:
    /// for each selected place in the list of pages, in the order `cells`,
    /// that the page there takes the icon; nothing where neither a tile set
    /// nor a brush is at work.
    pub open spec fn icon_requests(
        &self,
        icon: TileDefinitionHandle,
        cells: Seq<Cell>,
    ) -> Seq<MessageView> {
        match self.tile_resource {
            TileResource::Empty => Seq::<MessageView>::empty(),
            TileResource::TileSet(tile_set) => seq![
                Self::group(
                    Seq::new(
                        cells.len(),
                        |k: int| CommandView::ModifyPageIcon { tile_set, page: cells[k], icon },
                    ),
                    "Modify Tile Page Icon"@,
                ),
            ],
            TileResource::Brush(brush) => seq![
                Self::group(
                    Seq::new(
                        cells.len(),
                        |k: int| CommandView::ModifyBrushPageIcon { brush, page: cells[k], icon },
                    ),
                    "Modify Tile Page Icon"@,
                ),
            ],
        }
    }

    /// Gives every selected page the icon `icon`.
    pub fn apply_page_icon(
        &self,
        icon: TileDefinitionHandle,
        state: &TileEditorState,
        sender: &mut MessageSender,
    )
        ensures
            exists|cells: Seq<Cell>|
                #![trigger lists_pages(cells, state)]
                lists_pages(cells, state) && final(sender).sent() == old(sender).sent() + self.icon_requests(icon, cells),
    {
        let cells = state.page_positions();
        proof {
            assert forall|p: Cell| #[trigger] cells@.contains(p) == state.pages().contains(p) by {
                assert(cells@.to_set().contains(p) == cells@.contains(p));
            }
            assert(lists_pages(cells@, state));
            assert(old(sender).sent() + Seq::<MessageView>::empty() =~= old(sender).sent());
        }
        match self.tile_resource {
            TileResource::Empty => {},
            TileResource::TileSet(tile_set) => {
                let mut commands: Vec<Command> = Vec::new();
                let mut i: usize = 0;
                while i < cells.len()
                    invariant
                        0 <= i <= cells@.len(),
                        commands@.map_values(|c: Command| c@) == Seq::new(
                            i as nat,
                            |k: int| CommandView::ModifyPageIcon { tile_set, page: cells@[k], icon },
                        ),
                    decreases cells@.len() - i,
                {
                    let ghost before = commands@;
                    commands.push(Command::ModifyPageIcon { tile_set, page: cells[i], icon });
                    proof {
                        assert(commands@.map_values(|c: Command| c@) =~= before.map_values(
                            |c: Command| c@,
                        ).push(CommandView::ModifyPageIcon { tile_set, page: cells@[i as int], icon }));
                        assert(commands@.map_values(|c: Command| c@) =~= Seq::new(
                            (i + 1) as nat,
                            |k: int| CommandView::ModifyPageIcon { tile_set, page: cells@[k], icon },
                        ));
                    }
                    i += 1;
                }
                sender.do_command_group(
                    CommandGroup::from(commands).with_custom_name("Modify Tile Page Icon"),
                );
                proof {
                    assert(sender.sent() =~= old(sender).sent() + self.icon_requests(icon, cells@));
                }
            },
            TileResource::Brush(brush) => {
                let mut commands: Vec<Command> = Vec::new();
                let mut i: usize = 0;
                while i < cells.len()
                    invariant
                        0 <= i <= cells@.len(),
                        commands@.map_values(|c: Command| c@) == Seq::new(
                            i as nat,
                            |k: int| CommandView::ModifyBrushPageIcon { brush, page: cells@[k], icon },
                        ),
                    decreases cells@.len() - i,
                {
                    let ghost before = commands@;
                    commands.push(Command::ModifyBrushPageIcon { brush, page: cells[i], icon });
                    proof {
                        assert(commands@.map_values(|c: Command| c@) =~= before.map_values(
                            |c: Command| c@,
                        ).push(
                            CommandView::ModifyBrushPageIcon { brush, page: cells@[i as int], icon },
                        ));
                        assert(commands@.map_values(|c: Command| c@) =~= Seq::new(
                            (i + 1) as nat,
                            |k: int| CommandView::ModifyBrushPageIcon { brush, page: cells@[k], icon },
                        ));
                    }
                    i += 1;
                }
                sender.do_command_group(
                    CommandGroup::from(commands).with_custom_name("Modify Tile Page Icon"),
                );
                proof {
                    assert(sender.sent() =~= old(sender).sent() + self.icon_requests(icon, cells@));
                }
            },
        }
    }

    /// What making pages of a brush asks of the editor: a new page, with
    /// the icon that new pages get, at each of `cells`.
    pub open spec fn brush_page_requests(&self, cells: Seq<Cell>) -> Seq<MessageView> {
        match self.tile_resource {
            TileResource::Brush(brush) => seq![
                Self::group(
                    Seq::new(
                        cells.len(),
                        |k: int|
                            CommandView::SetBrushPage { brush, position: cells[k], icon: blank_icon() },
                    ),
                    "Create Brush Page"@,
                ),
            ],
            _ => Seq::<MessageView>::empty(),
        }
    }

    /// Makes a page of the brush at each selected place in the list of
    /// pages that holds none.
    pub fn create_brush_page(&self, state: &TileEditorState, sender: &mut MessageSender)
        ensures
            exists|cells: Seq<Cell>|
                #![trigger lists_vacant(cells, state)]
                lists_vacant(cells, state) && final(sender).sent() == old(sender).sent() + self.brush_page_requests(cells),
    {
        let cells = state.empty_page_positions();
        proof {
            assert(lists_vacant(cells@, state));
            assert(old(sender).sent() + Seq::<MessageView>::empty() =~= old(sender).sent());
        }
        if let TileResource::Brush(brush) = self.tile_resource {
            let mut commands: Vec<Command> = Vec::new();
            let mut i: usize = 0;
            while i < cells.len()
                invariant
                    0 <= i <= cells@.len(),
                    commands@.map_values(|c: Command| c@) == Seq::new(
                        i as nat,
                        |k: int|
                            CommandView::SetBrushPage {
                                brush,
                                position: cells@[k],
                                icon: blank_icon(),
                            },
                    ),
                decreases cells@.len() - i,
            {
                let ghost before = commands@;
                commands.push(
                    Command::SetBrushPage {
                        brush,
                        position: cells[i],
                        icon: TileDefinitionHandle::new(0, 0, 0, -1),
                    },
                );
                proof {
                    assert(commands@.map_values(|c: Command| c@) =~= before.map_values(
                        |c: Command| c@,
                    ).push(
                        CommandView::SetBrushPage {
                            brush,
                            position: cells@[i as int],
                            icon: blank_icon(),
                        },
                    ));
                    assert(commands@.map_values(|c: Command| c@) =~= Seq::new(
                        (i + 1) as nat,
                        |k: int|
                            CommandView::SetBrushPage {
                                brush,
                                position: cells@[k],
                                icon: blank_icon(),
                            },
                    ));
                }
                i += 1;
            }
            sender.do_command_group(
                CommandGroup::from(commands).with_custom_name("Create Brush Page"),
            );
            proof {
                assert(sender.sent() =~= old(sender).sent() + self.brush_page_requests(cells@));
            }
        }
    }

    /// The icon that a new page of a tile set at `position` gets: the tile
    /// just above the first of the page, if its coordinates fit.
    pub open spec fn first_icon(position: Cell) -> Option<TileDefinitionHandle> {
        TileDefinitionHandle::try_new_spec(position, (0i32, -1i32))
    }

    /// The commands that put a new page from `source` at each of the first
    /// `n` of `cells` for which there is an icon.
    pub open spec fn page_commands(
        tile_set: u64,
        source: TileSetPageSource,
        cells: Seq<Cell>,
        n: nat,
    ) -> Seq<CommandView>
        decreases n,
    {
        if n == 0 {
            Seq::<CommandView>::empty()
        } else {
            let rest = Self::page_commands(tile_set, source, cells, (n - 1) as nat);
            match Self::first_icon(cells[n - 1]) {
                Some(icon) => rest.push(
                    CommandView::SetTileSetPage { tile_set, position: cells[n - 1], icon, source },
                ),
                None => rest,
            }
        }
    }

    /// What making pages of a tile set asks of the editor.
    pub open spec fn page_requests(&self, source: TileSetPageSource, cells: Seq<Cell>) -> Seq<
        MessageView,
    > {
        match self.tile_resource {
            TileResource::TileSet(tile_set) => seq![
                Self::group(
                    Self::page_commands(tile_set, source, cells, cells.len()),
                    "Create Tile Set Page"@,
                ),
            ],
            _ => Seq::<MessageView>::empty(),
        }
    }

    /// Makes a page of the tile set, with tiles from `source`, at each
    /// selected place in the list of pages that holds none.
    pub fn create_tile_set_page(
        &self,
        source: TileSetPageSource,
        state: &TileEditorState,
        sender: &mut MessageSender,
    )
        ensures
            exists|cells: Seq<Cell>|
                #![trigger lists_vacant(cells, state)]
                lists_vacant(cells, state) && final(sender).sent() == old(sender).sent() + self.page_requests(source, cells),
    {
        let cells = state.empty_page_positions();
        proof {
            assert(lists_vacant(cells@, state));
            assert(old(sender).sent() + Seq::<MessageView>::empty() =~= old(sender).sent());
        }
        if let TileResource::TileSet(tile_set) = self.tile_resource {
            let mut commands: Vec<Command> = Vec::new();
            let mut i: usize = 0;
            while i < cells.len()
                invariant
                    0 <= i <= cells@.len(),
                    commands@.map_values(|c: Command| c@) == Self::page_commands(
                        tile_set,
                        source,
                        cells@,
                        i as nat,
                    ),
                decreases cells@.len() - i,
            {
                let ghost before = commands@;
                let position = cells[i];
                if let Some(icon) = TileDefinitionHandle::try_new(position, (0, -1)) {
                    commands.push(Command::SetTileSetPage { tile_set, position, icon, source });
                    proof {
                        assert(commands@.map_values(|c: Command| c@) =~= before.map_values(
                            |c: Command| c@,
                        ).push(CommandView::SetTileSetPage { tile_set, position, icon, source }));
                    }
                }
                i += 1;
            }
            sender.do_command_group(
                CommandGroup::from(commands).with_custom_name("Create Tile Set Page"),
            );
            proof {
                assert(sender.sent() =~= old(sender).sent() + self.page_requests(source, cells@));
            }
        }
    }

    /// The new tiles for the first `n` of `handles`: a tile cut from the
    /// picture where the page of the handle is a page of a picture, a tile
    /// of its own where the page is a page of such tiles, and none
    /// otherwise.
    pub open spec fn new_tiles(
        state: &TileEditorState,
        handles: Seq<TileDefinitionHandle>,
        n: nat,
    ) -> Seq<(TileDefinitionHandle, NewTile)>
        decreases n,
    {
        if n == 0 {
            Seq::<(TileDefinitionHandle, NewTile)>::empty()
        } else {
            let rest = Self::new_tiles(state, handles, (n - 1) as nat);
            let h = handles[n - 1];
            match state.set() {
                Some(t) => match t.page(h.page_spec()) {
                    Some(page) => match page.source {
                        TileSetPageSource::Material(_) => rest.push((h, NewTile::MaterialTile)),
                        TileSetPageSource::Freeform => rest.push((h, NewTile::FreeformTile)),
                        TileSetPageSource::Transform => rest,
                    },
                    None => rest,
                },
                None => rest,
            }
        }
    }

    /// Makes a tile at each selected place that holds none, as the page of
    /// the place has them.
    pub fn create_tile(&self, state: &TileEditorState, sender: &mut MessageSender)
        ensures
            match self.tile_resource {
                TileResource::TileSet(tile_set) => exists|handles: Seq<TileDefinitionHandle>|
                    #![trigger Self::new_tiles(state, handles, handles.len())]
                    handles.no_duplicates() && (forall|h: TileDefinitionHandle|
                        #[trigger] handles.contains(h) == state.selects_with(h, true)) && final(sender).sent() == old(sender).sent().push(
                        MessageView::DoCommand(
                            CommandView::SetTileSetTiles {
                                tile_set,
                                tiles: Self::new_tiles(state, handles, handles.len()),
                            },
                        ),
                    ),
                _ => final(sender).sent() == old(sender).sent(),
            },
    {
        if let TileResource::TileSet(tile_set) = self.tile_resource {
            let handles = state.empty_tiles();
            let mut update: Vec<(TileDefinitionHandle, NewTile)> = Vec::new();
            let mut i: usize = 0;
            while i < handles.len()
                invariant
                    0 <= i <= handles@.len(),
                    update@ == Self::new_tiles(state, handles@, i as nat),
                decreases handles@.len() - i,
            {
                let handle = handles[i];
                if state.is_material_page(handle.page()) {
                    update.push((handle, NewTile::MaterialTile));
                } else if state.is_freeform_page(handle.page()) {
                    update.push((handle, NewTile::FreeformTile));
                }
                i += 1;
            }
            sender.do_command(Command::SetTileSetTiles { tile_set, tiles: update });
        }
    }

    /// What giving the one selected page a material, or a tile size, asks
    /// of the editor; nothing where no tile set is at work or not one page
    /// of a picture is selected.
    pub open spec fn page_request(
        &self,
        state: &TileEditorState,
        change: spec_fn(u64, Cell) -> CommandView,
    ) -> Seq<MessageView> {
        match self.tile_resource {
            TileResource::TileSet(tile_set) => match state.material_of() {
                Some((page, _)) => seq![MessageView::DoCommand(change(tile_set, page))],
                None => Seq::<MessageView>::empty(),
            },
            _ => Seq::<MessageView>::empty(),
        }
    }

    /// Gives the one selected page of a picture another material.
    pub fn set_page_material(
        &self,
        material: u64,
        state: &TileEditorState,
        sender: &mut MessageSender,
    )
        ensures
            final(sender).sent() == old(sender).sent() + self.page_request(
                state,
                |tile_set: u64, page: Cell|
                    CommandView::ModifyPageMaterial { tile_set, page, material },
            ),
    {
        proof {
            assert(old(sender).sent() + Seq::<MessageView>::empty() =~= old(sender).sent());
        }
        if let TileResource::TileSet(tile_set) = self.tile_resource {
            if let Some((page, _)) = state.material_page() {
                sender.do_command(Command::ModifyPageMaterial { tile_set, page, material });
                proof {
                    assert(sender.sent() =~= old(sender).sent() + self.page_request(
                        state,
                        |tile_set: u64, page: Cell|
                            CommandView::ModifyPageMaterial { tile_set, page, material },
                    ));
                }
            }
        }
    }

    /// Gives the tiles of the one selected page of a picture another size.
    pub fn set_page_tile_size(
        &self,
        width: u32,
        height: u32,
        state: &TileEditorState,
        sender: &mut MessageSender,
    )
        ensures
            final(sender).sent() == old(sender).sent() + self.page_request(
                state,
                |tile_set: u64, page: Cell|
                    CommandView::ModifyPageTileSize { tile_set, page, width, height },
            ),
    {
        proof {
            assert(old(sender).sent() + Seq::<MessageView>::empty() =~= old(sender).sent());
        }
        if let TileResource::TileSet(tile_set) = self.tile_resource {
            if let Some((page, _)) = state.material_page() {
                sender.do_command(Command::ModifyPageTileSize { tile_set, page, width, height });
                proof {
                    assert(sender.sent() =~= old(sender).sent() + self.page_request(
                        state,
                        |tile_set: u64, page: Cell|
                            CommandView::ModifyPageTileSize { tile_set, page, width, height },
                    ));
                }
            }
        }
    }

    /// The state of drawing after a click on `clicked`, as far as the first
    /// `n` of `editors` go: each editor whose button was clicked becomes
    /// the tool to draw with, or, if it is that already, ceases to be, and
    /// the tool that picks takes over.
    pub open spec fn chosen(
        draw: TileDrawStateView,
        editors: Seq<TileEditorRef>,
        clicked: Handle,
        n: nat,
    ) -> TileDrawStateView
        decreases n,
    {
        if n == 0 {
            draw
        } else {
            let before = Self::chosen(draw, editors, clicked, (n - 1) as nat);
            let editor = editors[n - 1];
            if clicked != editor.draw_button {
                before
            } else if before.active_editor == Some(editor) {
                TileDrawStateView {
                    dirty: true,
                    active_editor: None,
                    drawing_mode: DrawingMode::Pick,
                    ..before
                }
            } else {
                TileDrawStateView {
                    dirty: true,
                    active_editor: Some(editor),
                    drawing_mode: DrawingMode::Editor,
                    ..before
                }
            }
        }
    }

    /// Whether a click on `clicked` is a click on one of the buttons that
    /// make pages or tiles.
    pub open spec fn makes(&self, clicked: Handle) -> bool {
        clicked == self.create_atlas || clicked == self.create_free || clicked
            == self.create_transform || clicked == self.create_page || clicked == self.create_tile
    }

    /// Lets the editors whose button was clicked take their turn as the
    /// tool to draw with.
    pub fn choose_tool(&self, clicked: Handle, state: &mut TileEditorState)
        ensures
            final(state).draw() == Self::chosen(
                old(state).draw(),
                self.all_editors(),
                clicked,
                self.all_editors().len(),
            ),
            final(state).page == old(state).page,
            final(state).pages_palette == old(state).pages_palette,
            final(state).tiles_palette == old(state).tiles_palette,
            final(state).data == old(state).data,
            *final(final(state).state) == *final(old(state).state),
    {
        let all = self.editors();
        let mut i: usize = 0;
        while i < all.len()
            invariant
                0 <= i <= all@.len(),
                all@ == self.all_editors(),
                state.draw() == Self::chosen(old(state).draw(), all@, clicked, i as nat),
                state.page == old(state).page,
                state.pages_palette == old(state).pages_palette,
                state.tiles_palette == old(state).tiles_palette,
                state.data == old(state).data,
                *final(state.state) == *final(old(state).state),
            decreases all@.len() - i,
        {
            let editor = all[i];
            if clicked == editor.draw_button {
                if state.is_active_editor(&editor) {
                    state.set_active_editor(None);
                    state.set_drawing_mode(DrawingMode::Pick);
                } else {
                    state.set_active_editor(Some(editor));
                    state.set_drawing_mode(DrawingMode::Editor);
                }
            }
            i += 1;
        }
    }

    /// Reacts to a message that passes the panel.
    ///
    /// A click on one of the buttons that make pages or tiles asks the
    /// editor for them. A click on the button of an editor makes that
    /// editor the tool to draw with, or ends its turn. A new material, a new
    /// tile size and a new icon that the fields of the page report are asked
    /// of the editor for the selected pages.
    pub fn handle_ui_message(
        &self,
        message: &UiMessage,
        ui: &UserInterface,
        sender: &mut MessageSender,
        state: &mut TileEditorState,
    )
        requires
            sound(ui.tree()),
            info(ui.tree(), self.handle) is Some,
        ensures
            final(state).page == old(state).page,
            final(state).pages_palette == old(state).pages_palette,
            final(state).tiles_palette == old(state).tiles_palette,
            final(state).data == old(state).data,
            *final(final(state).state) == *final(old(state).state),
            final(state).draw() == if !self.ignores(message@, ui.tree()) && message@.data
                == MessageDataView::Button(ButtonMessage::Click) && !self.makes(
                message.destination,
            ) {
                Self::chosen(
                    old(state).draw(),
                    self.all_editors(),
                    message.destination,
                    self.all_editors().len(),
                )
            } else {
                old(state).draw()
            },
            self.ignores(message@, ui.tree()) ==> final(sender).sent() == old(sender).sent(),
            !self.ignores(message@, ui.tree()) ==> match message@.data {
                MessageDataView::Button(ButtonMessage::Click) => if message.destination
                    == self.create_atlas || message.destination == self.create_free
                    || message.destination == self.create_transform {
                    exists|cells: Seq<Cell>|
                        #![trigger lists_vacant(cells, old(state))]
                        lists_vacant(cells, old(state)) && final(sender).sent() == old(sender).sent() + self.page_requests(
                            if message.destination == self.create_atlas {
                                TileSetPageSource::Material(
                                    TileMaterial { material: 0, tile_width: 16, tile_height: 16 },
                                )
                            } else if message.destination == self.create_free {
                                TileSetPageSource::Freeform
                            } else {
                                TileSetPageSource::Transform
                            },
                            cells,
                        )
                } else if message.destination == self.create_page {
                    exists|cells: Seq<Cell>|
                        #![trigger lists_vacant(cells, old(state))]
                        lists_vacant(cells, old(state)) && final(sender).sent() == old(sender).sent() + self.brush_page_requests(cells)
                } else if message.destination == self.create_tile {
                    match self.tile_resource {
                        TileResource::TileSet(tile_set) => exists|
                            handles: Seq<TileDefinitionHandle>,
                        |
                            #![trigger Self::new_tiles(old(state), handles, handles.len())]
                            handles.no_duplicates() && (forall|h: TileDefinitionHandle|
                                #[trigger] handles.contains(h) == old(state).selects_with(h, true))
                                && final(sender).sent() == old(sender).sent().push(
                                MessageView::DoCommand(
                                    CommandView::SetTileSetTiles {
                                        tile_set,
                                        tiles: Self::new_tiles(old(state), handles, handles.len()),
                                    },
                                ),
                            ),
                        _ => final(sender).sent() == old(sender).sent(),
                    }
                } else {
                    final(sender).sent() == old(sender).sent()
                },
                MessageDataView::MaterialField(MaterialFieldMessage::Material(material)) => final(sender).sent() == old(sender).sent() + if message.destination
                    == self.page_material_inspector.field {
                    self.page_request(
                        old(state),
                        |tile_set: u64, page: Cell|
                            CommandView::ModifyPageMaterial { tile_set, page, material },
                    )
                } else {
                    Seq::<MessageView>::empty()
                },
                MessageDataView::Vec2Editor(Vec2EditorMessage::Value { x, y }) => final(sender).sent() == old(sender).sent() + if message.destination
                    == self.tile_size_inspector.field {
                    self.page_request(
                        old(state),
                        |tile_set: u64, page: Cell|
                            CommandView::ModifyPageTileSize { tile_set, page, width: x, height: y },
                    )
                } else {
                    Seq::<MessageView>::empty()
                },
                MessageDataView::TileHandleEditor(
                    TileHandleEditorMessage::Value(Some(icon)),
                ) => if message.destination == self.page_icon_field {
                    exists|cells: Seq<Cell>|
                        #![trigger lists_pages(cells, old(state))]
                        lists_pages(cells, old(state)) && final(sender).sent()
                            == old(sender).sent() + self.icon_requests(icon, cells)
                } else {
                    final(sender).sent() == old(sender).sent()
                },
                _ => final(sender).sent() == old(sender).sent(),
            },
    {
        proof {
            lemma_words(ui.tree(), self.handle);
            reveal(sound);
            assert(old(sender).sent() + Seq::<MessageView>::empty() =~= old(sender).sent());
        }
        if message.flags == MSG_SYNC_FLAG || message.to_widget() {
            return ;
        }
        if !ui.is_node_child_of(message.destination, self.handle()) {
            return ;
        }
        match &message.data {
            MessageData::Button(ButtonMessage::Click) => {
                if message.is_for(self.create_atlas) {
                    self.create_tile_set_page(TileSetPageSource::new_material(), state, sender);
                } else if message.is_for(self.create_free) {
                    self.create_tile_set_page(TileSetPageSource::new_free(), state, sender);
                } else if message.is_for(self.create_transform) {
                    self.create_tile_set_page(TileSetPageSource::new_transform(), state, sender);
                } else if message.is_for(self.create_page) {
                    self.create_brush_page(state, sender);
                } else if message.is_for(self.create_tile) {
                    self.create_tile(state, sender);
                } else {
                    self.choose_tool(message.destination, state);
                }
            },
            MessageData::MaterialField(MaterialFieldMessage::Material(material)) => {
                if message.is_for(self.page_material_inspector.field) {
                    self.set_page_material(*material, state, sender);
                }
            },
            MessageData::Vec2Editor(Vec2EditorMessage::Value { x, y }) => {
                if message.is_for(self.tile_size_inspector.field) {
                    self.set_page_tile_size(*x, *y, state, sender);
                }
            },
            MessageData::TileHandleEditor(TileHandleEditorMessage::Value(Some(handle))) => {
                if message.is_for(self.page_icon_field) {
                    self.apply_page_icon(*handle, state, sender);
                }
            },
            _ => {},
        }
    }

    /// Brings the panel in line with the tile set or brush at hand: the
    /// editors of properties and of colliders follow the tile set, and then
    /// the widgets follow what is selected.
    pub fn sync_to_model(&mut self, state: &TileEditorState, ui: &mut UserInterface)
        requires
            sound(old(ui).tree()),
            old(ui).tree().len() + 2 * state.property_layers().len() + 2
                * state.collider_layers().len() <= u32::MAX,
        ensures
            sound(final(ui).tree()),
            final(self).handle == old(self).handle,
            final(self).tile_resource == old(self).tile_resource,
            final(self).tile_editors == old(self).tile_editors,
            final(self).property_editors.ids() == property_ids(state.property_layers()),
            final(self).collider_editors.ids() == collider_ids(state.collider_layers()),
            final(ui).sent().len() >= old(ui).sent().len(),
            exists|between: Seq<UiMessageView>|
                #![trigger old(ui).sent() + between]
                final(ui).sent() == old(ui).sent() + between + final(self).state_messages(state),
    {
        let property_ids = property_uuids(state);
        let collider_ids = collider_uuids(state);
        let ghost start = ui.sent();
        self.property_editors.sync_to_model(&property_ids, ui);
        self.collider_editors.sync_to_model(&collider_ids, ui);
        let ghost rebuilt = ui.sent();
        self.sync_to_state(state, ui);
        proof {
            let between = rebuilt.subrange(start.len() as int, rebuilt.len() as int);
            assert(rebuilt =~= start + between);
            assert(ui.sent() == start + between + self.state_messages(state));
        }
    }

    /// Lets the panel work on another tile set or brush.
    pub fn set_tile_resource(
        &mut self,
        tile_resource: TileResource,
        state: &TileEditorState,
        ui: &mut UserInterface,
    )
        requires
            sound(old(ui).tree()),
            old(ui).tree().len() + 2 * state.property_layers().len() + 2
                * state.collider_layers().len() <= u32::MAX,
        ensures
            sound(final(ui).tree()),
            final(self).handle == old(self).handle,
            final(self).tile_resource == tile_resource,
            final(self).tile_editors == old(self).tile_editors,
            final(self).property_editors.ids() == property_ids(state.property_layers()),
            final(self).collider_editors.ids() == collider_ids(state.collider_layers()),
            exists|between: Seq<UiMessageView>|
                #![trigger old(ui).sent() + between]
                final(ui).sent() == old(ui).sent() + between + final(self).state_messages(state),
    {
        self.tile_resource = tile_resource;
        self.sync_to_model(state, ui);
    }
}

} // verus!
