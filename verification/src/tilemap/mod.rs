//! The editor of tile maps: what the user has selected and draws with, and
//! the plugin that keeps the panels of the editor in step with it.

pub mod tile_inspector;
pub mod tiles;

use crate::collections::{
    cells_clear, cells_insert, cells_is_empty, cells_items, cells_new, cells_of, ids_insert, ids_new, ids_of,
    ids_remove,
};
use crate::command::Message;
use crate::handle::Handle;
use crate::message::{
    DelayedMessage, MessageData, MessageDataView, OpenTilePanelMessage, UiMessage, UiMessageView,
};
use crate::scene::Selection;
use crate::tree::{built, holder, info, lemma_dialog, lemma_words, made, sound};
use crate::ui::{spawn, BuildContext};
use crate::widget::{WidgetBuilder, WidgetInfo, WidgetKind};
use crate::tilemap::tiles::{Cell, Stamp, TileDefinitionHandle, TileResource};
use crate::ui::UserInterface;
use fxhash::FxHashSet;
use vstd::prelude::*;

verus! {

/// The tool that the user has chosen for editing tiles.
#[derive(Clone, Copy, Debug, PartialEq, Eq, Structural)]
pub enum DrawingMode {
    Draw,
    Erase,
    FloodFill,
    Pick,
    RectFill,
    NineSlice,
    Line,
    Editor,
}

impl Default for DrawingMode {
    fn default() -> (m: DrawingMode)
        ensures
            m == DrawingMode::Draw,
    {
        DrawingMode::Draw
    }
}

/// Where the selected tiles are: in a palette widget, in a tile map node,
/// or nowhere.
#[derive(Clone, Copy, Debug, PartialEq, Eq, Structural)]
pub enum SelectionSource {
    Unset,
    Widget(Handle),
    Node(Handle),
}

impl Default for SelectionSource {
    fn default() -> (s: SelectionSource)
        ensures
            s == SelectionSource::Unset,
    {
        SelectionSource::Unset
    }
}

/// An editor of one property of tiles, by its widget and by the button
/// that makes it the tool to draw with.
#[derive(Clone, Copy, Debug, PartialEq, Eq, Structural)]
pub struct TileEditorRef {
    pub handle: Handle,
    pub draw_button: Handle,
}

/// The currently selected tiles.
#[derive(Debug)]
pub struct TileDrawSelection {
    /// The selection either comes from a palette widget or a tile map node.
    pub source: SelectionSource,
    /// The page of the currently selected tiles.
    pub page: Cell,
    /// The currently selected cells.
    pub positions: FxHashSet<Cell>,
}

/// What the user has selected and draws with.
#[derive(Debug)]
pub struct TileDrawState {
    /// True if the state has been changed and the change has not yet caused
    /// the UI to update.
    pub dirty: bool,
    /// The tile set that contains the definitions of the tiles that are
    /// being edited.
    pub tile_set: Option<u64>,
    /// The current stamp that the user uses when drawing tiles.
    pub stamp: Stamp,
    /// The tool that the user has selected for editing tiles.
    pub drawing_mode: DrawingMode,
    /// If the user is editing a tile set by drawing an editor value, then
    /// this is the editor.
    pub active_editor: Option<TileEditorRef>,
    /// The identifiers of the colliders that are currently visible.
    pub visible_colliders: FxHashSet<u128>,
    /// Does the user want tiles to be randomized?
    pub random_mode: bool,
    /// The currently selected tiles.
    pub selection: TileDrawSelection,
}

pub struct TileDrawStateView {
    pub dirty: bool,
    pub tile_set: Option<u64>,
    pub stamp: Seq<(Cell, TileDefinitionHandle)>,
    pub drawing_mode: DrawingMode,
    pub active_editor: Option<TileEditorRef>,
    pub visible_colliders: Set<u128>,
    pub random_mode: bool,
    pub source: SelectionSource,
    pub page: Cell,
    pub positions: Set<Cell>,
}

impl View for TileDrawState {
    type V = TileDrawStateView;

    open spec fn view(&self) -> TileDrawStateView {
        TileDrawStateView {
            dirty: self.dirty,
            tile_set: self.tile_set,
            stamp: self.stamp@,
            drawing_mode: self.drawing_mode,
            active_editor: self.active_editor,
            visible_colliders: ids_of(self.visible_colliders),
            random_mode: self.random_mode,
            source: self.selection.source,
            page: self.selection.page,
            positions: cells_of(self.selection.positions),
        }
    }
}

impl Default for TileDrawState {
    /// A clean state: nothing selected, nothing to draw with, the tool that
    /// draws.
    fn default() -> (s: TileDrawState)
        ensures
            s@ == (TileDrawStateView {
                dirty: false,
                tile_set: None,
                stamp: Seq::<(Cell, TileDefinitionHandle)>::empty(),
                drawing_mode: DrawingMode::Draw,
                active_editor: None,
                visible_colliders: Set::<u128>::empty(),
                random_mode: false,
                source: SelectionSource::Unset,
                page: (0i32, 0i32),
                positions: Set::<Cell>::empty(),
            }),
    {
        TileDrawState {
            dirty: false,
            tile_set: None,
            stamp: Stamp::new(),
            drawing_mode: DrawingMode::Draw,
            active_editor: None,
            visible_colliders: ids_new(),
            random_mode: false,
            selection: TileDrawSelection {
                source: SelectionSource::Unset,
                page: (0, 0),
                positions: cells_new(),
            },
        }
    }
}

/// Whether `tiles` is a stamp of the selected `positions` as `tile_handle`
/// sees them: it holds each position for which `tile_handle` gives a tile,
/// once, with that tile, and no other position.
pub open spec fn stamped<F: Fn(Cell) -> Option<TileDefinitionHandle>>(
    tiles: Seq<(Cell, TileDefinitionHandle)>,
    positions: Set<Cell>,
    tile_handle: F,
) -> bool {
    &&& forall|k: int|
        0 <= k < tiles.len() ==> positions.contains((#[trigger] tiles[k]).0) && tile_handle.ensures(
            (tiles[k].0,),
            Some(tiles[k].1),
        )
    &&& forall|i: int, j: int|
        0 <= i < j < tiles.len() ==> (#[trigger] tiles[i]).0 != (#[trigger] tiles[j]).0
    &&& forall|p: Cell|
        #[trigger] positions.contains(p) ==> (exists|k: int|
            0 <= k < tiles.len() && (#[trigger] tiles[k]).0 == p) || tile_handle.ensures((p,), None)
}

impl TileDrawState {
    /// The state that drawing starts with: clean, nothing selected, nothing
    /// to draw with, no collider shown, the tool that draws.
    pub open spec fn clean() -> TileDrawStateView {
        TileDrawStateView {
            dirty: false,
            tile_set: None,
            stamp: Seq::<(Cell, TileDefinitionHandle)>::empty(),
            drawing_mode: DrawingMode::Draw,
            active_editor: None,
            visible_colliders: Set::<u128>::empty(),
            random_mode: false,
            source: SelectionSource::Unset,
            page: (0i32, 0i32),
            positions: Set::<Cell>::empty(),
        }
    }

    /// The palette that the selection is in, or the handle that names
    /// nothing.
    pub open spec fn palette(&self) -> Handle {
        match self.selection.source {
            SelectionSource::Widget(w) => w,
            _ => Handle::none_spec(),
        }
    }

    /// True if the given editor is the active editor.
    #[inline]
    pub fn is_active_editor(&self, editor: &TileEditorRef) -> (b: bool)
        ensures
            b == (self.active_editor == Some(*editor)),
    {
        if let Some(active) = &self.active_editor {
            *editor == *active
        } else {
            false
        }
    }

    /// Set whether the given collider is visible.
    pub fn set_visible_collider(&mut self, uuid: u128, visible: bool)
        ensures
            final(self)@ == (TileDrawStateView {
                visible_colliders: if visible {
                    old(self)@.visible_colliders.insert(uuid)
                } else {
                    old(self)@.visible_colliders.remove(uuid)
                },
                ..old(self)@
            }),
    {
        if visible {
            let _ = ids_insert(&mut self.visible_colliders, uuid);
        } else {
            let _ = ids_remove(&mut self.visible_colliders, uuid);
        }
    }

    /// True if the current selection is not empty.
    #[inline]
    pub fn has_selection(&self) -> (b: bool)
        ensures
            b == (self@.positions != Set::<Cell>::empty()),
    {
        !cells_is_empty(&self.selection.positions)
    }

    /// The handle of the palette widget that is currently being used to
    /// select tiles, or else the handle that names nothing.
    #[inline]
    pub fn selection_palette(&self) -> (h: Handle)
        ensures
            h == self.palette(),
    {
        match self.selection.source {
            SelectionSource::Widget(h) => h,
            _ => Handle::none(),
        }
    }

    /// The handle of the tile map node that is currently being used to
    /// select tiles, or else the handle that names nothing.
    #[inline]
    pub fn selection_node(&self) -> (h: Handle)
        ensures
            h == match self.selection.source {
                SelectionSource::Node(n) => n,
                _ => Handle::none_spec(),
            },
    {
        match self.selection.source {
            SelectionSource::Node(h) => h,
            _ => Handle::none(),
        }
    }

    #[inline]
    pub fn set_palette(&mut self, handle: Handle)
        ensures
            final(self)@ == (TileDrawStateView {
                source: SelectionSource::Widget(handle),
                ..old(self)@
            }),
    {
        self.selection.source = SelectionSource::Widget(handle);
    }

    #[inline]
    pub fn set_node(&mut self, handle: Handle)
        ensures
            final(self)@ == (TileDrawStateView {
                source: SelectionSource::Node(handle),
                ..old(self)@
            }),
    {
        self.selection.source = SelectionSource::Node(handle);
    }

    #[inline]
    pub fn selection_positions(&self) -> (positions: &FxHashSet<Cell>)
        ensures
            cells_of(*positions) == self@.positions,
    {
        &self.selection.positions
    }

    /// The selected cells, for changing them. The state does not become
    /// dirty by it.
    #[inline]
    pub fn selection_positions_mut(&mut self) -> (positions: &mut FxHashSet<Cell>)
        ensures
            cells_of(*positions) == old(self)@.positions,
            final(self)@ == (TileDrawStateView {
                positions: cells_of(*final(positions)),
                ..old(self)@
            }),
    {
        &mut self.selection.positions
    }

    /// Adds a cell to the selection. Returns whether the cell was not yet
    /// selected. The state does not become dirty by it.
    pub fn select(&mut self, position: Cell) -> (fresh: bool)
        ensures
            fresh == !old(self)@.positions.contains(position),
            final(self)@ == (TileDrawStateView {
                positions: old(self)@.positions.insert(position),
                ..old(self)@
            }),
    {
        cells_insert(&mut self.selection.positions, position)
    }

    /// Forgets the selection and the stamp.
    #[inline]
    pub fn clear_selection(&mut self)
        ensures
            final(self)@ == (TileDrawStateView {
                stamp: Seq::<(Cell, TileDefinitionHandle)>::empty(),
                positions: Set::<Cell>::empty(),
                source: SelectionSource::Unset,
                ..old(self)@
            }),
    {
        self.stamp.clear();
        cells_clear(&mut self.selection.positions);
        self.selection.source = SelectionSource::Unset;
    }

    /// Takes note of the tile set and makes the stamp of the selected
    /// cells: each cell for which `tile_handle` gives a tile, with that tile.
    #[inline]
    pub fn update_stamp<F>(&mut self, tile_set: Option<u64>, tile_handle: F) where
        F: Fn(Cell) -> Option<TileDefinitionHandle>,

        requires
            forall|p: Cell|
                old(self)@.positions.contains(p) ==> #[trigger] tile_handle.requires((p,)),
        ensures
            stamped(final(self)@.stamp, old(self)@.positions, tile_handle),
            final(self)@ == (TileDrawStateView {
                tile_set,
                stamp: final(self)@.stamp,
                ..old(self)@
            }),
    {
        self.tile_set = tile_set;
        let items = cells_items(&self.selection.positions);
        let ghost positions = cells_of(self.selection.positions);
        let mut tiles: Vec<(Cell, TileDefinitionHandle)> = Vec::new();
        let mut i: usize = 0;
        while i < items.len()
            invariant
                0 <= i <= items@.len(),
                items@.no_duplicates(),
                items@.to_set() == positions,
                forall|p: Cell| positions.contains(p) ==> #[trigger] tile_handle.requires((p,)),
                forall|k: int|
                    0 <= k < tiles@.len() ==> items@.take(i as int).contains(
                        (#[trigger] tiles@[k]).0,
                    ) && tile_handle.ensures((tiles@[k].0,), Some(tiles@[k].1)),
                forall|a: int, b: int|
                    0 <= a < b < tiles@.len() ==> (#[trigger] tiles@[a]).0 != (
                    #[trigger] tiles@[b]).0,
                forall|j: int|
                    0 <= j < i ==> (exists|k: int|
                        0 <= k < tiles@.len() && (#[trigger] tiles@[k]).0 == items@[j])
                        || tile_handle.ensures((#[trigger] items@[j],), None),
            decreases items@.len() - i,
        {
            let p = items[i];
            let ghost before = tiles@;
            proof {
                assert(items@.contains(p));
                assert(positions.contains(p));
            }
            let found = tile_handle(p);
            if let Some(h) = found {
                tiles.push((p, h));
            }
            proof {
                let prev = items@.take(i as int);
                let next = items@.take(i + 1);
                assert(next =~= prev.push(p));
                assert forall|k: int| 0 <= k < tiles@.len() implies next.contains(
                    (#[trigger] tiles@[k]).0,
                ) && tile_handle.ensures((tiles@[k].0,), Some(tiles@[k].1)) by {
                    if k < before.len() {
                        assert(tiles@[k] == before[k]);
                        let c = choose|c: int| 0 <= c < prev.len() && prev[c] == before[k].0;
                        assert(next[c] == before[k].0);
                    } else {
                        assert(next[i as int] == p);
                    }
                }
                assert forall|a: int, b: int| 0 <= a < b < tiles@.len() implies (
                #[trigger] tiles@[a]).0 != (#[trigger] tiles@[b]).0 by {
                    if b == before.len() {
                        assert(tiles@[a] == before[a]);
                        let c = choose|c: int| 0 <= c < prev.len() && prev[c] == before[a].0;
                        assert(items@[c] == before[a].0);
                        assert(items@[i as int] == p);
                    } else {
                        assert(tiles@[a] == before[a]);
                        assert(tiles@[b] == before[b]);
                    }
                }
                assert forall|j: int| 0 <= j < i + 1 implies (exists|k: int|
                    0 <= k < tiles@.len() && (#[trigger] tiles@[k]).0 == items@[j])
                    || tile_handle.ensures((#[trigger] items@[j],), None) by {
                    if j < i {
                        if exists|k: int| 0 <= k < before.len() && (#[trigger] before[k]).0 == items@[j] {
                            let k = choose|k: int|
                                0 <= k < before.len() && (#[trigger] before[k]).0 == items@[j];
                            assert(tiles@[k].0 == items@[j]);
                        }
                    } else if found is Some {
                        assert(tiles@[before.len() as int].0 == items@[j]);
                    }
                }
            }
            i += 1;
        }
        proof {
            assert(items@.take(i as int) =~= items@);
            assert forall|k: int| 0 <= k < tiles@.len() implies positions.contains(
                (#[trigger] tiles@[k]).0,
            ) by {
                assert(items@.contains(tiles@[k].0));
            }
            assert forall|p: Cell| #[trigger] positions.contains(p) implies (exists|k: int|
                0 <= k < tiles@.len() && (#[trigger] tiles@[k]).0 == p) || tile_handle.ensures(
                (p,),
                None,
            ) by {
                assert(items@.contains(p));
                let j = choose|j: int| 0 <= j < items@.len() && items@[j] == p;
                assert((exists|k: int| 0 <= k < tiles@.len() && (#[trigger] tiles@[k]).0 == items@[j])
                    || tile_handle.ensures((items@[j],), None));
            }
        }
        self.stamp.build(tiles);
    }
}

/// The state of drawing, with the mark that tells the panels when to look
/// at it again.
///
/// There is one holder of the state. Who reads it borrows a
/// [`TileDrawStateGuard`]; who changes it borrows a
/// [`TileDrawStateGuardMut`], and borrowing that marks the state dirty.
#[derive(Debug)]
pub struct TileDrawStateRef(pub TileDrawState);

/// The state, for reading. While it is held nobody else reads or changes
/// the state.
pub struct TileDrawStateGuard<'a>(pub &'a mut TileDrawState);

/// The state, for changing.
pub struct TileDrawStateGuardMut<'a>(pub &'a mut TileDrawState);

impl Default for TileDrawStateRef {
    /// The holder of the state that drawing starts with.
    fn default() -> (r: TileDrawStateRef)
        ensures
            r.0@ == TileDrawState::clean(),
    {
        TileDrawStateRef(TileDrawState::default())
    }
}

impl TileDrawStateRef {
    /// The state, for reading.
    pub fn lock(&mut self) -> (guard: TileDrawStateGuard<'_>)
        ensures
            *guard.0 == old(self).0,
            final(self).0 == *final(guard.0),
    {
        TileDrawStateGuard(&mut self.0)
    }

    /// The state, for changing; it is dirty from now on. The reason is for
    /// those who follow the changes, and changes nothing.
    pub fn lock_mut(&mut self, reason: &str) -> (guard: TileDrawStateGuardMut<'_>)
        ensures
            guard.0@ == (TileDrawStateView { dirty: true, ..old(self).0@ }),
            final(self).0 == *final(guard.0),
    {
        self.lock().into_mut(reason)
    }

    /// Whether the state has changed since this was asked last.
    pub fn check_dirty(&mut self) -> (dirty: bool)
        ensures
            dirty == old(self).0@.dirty,
            final(self).0@ == (TileDrawStateView { dirty: false, ..old(self).0@ }),
    {
        let dirty = self.0.dirty;
        self.0.dirty = false;
        dirty
    }
}

impl<'a> std::ops::Deref for TileDrawStateGuard<'a> {
    type Target = TileDrawState;

    fn deref(&self) -> (s: &TileDrawState)
        ensures
            *s == *old(self.0),
    {
        self.0
    }
}

impl<'a> TileDrawStateGuard<'a> {
    /// The state.
    pub fn state(&self) -> (s: &TileDrawState)
        ensures
            *s == *old(self.0),
    {
        self.0
    }

    /// Takes the right to change the state; it is dirty from now on. The
    /// reason is for those who follow the changes, and changes nothing.
    pub fn into_mut(self, reason: &str) -> (guard: TileDrawStateGuardMut<'a>)
        ensures
            guard.0@ == (TileDrawStateView { dirty: true, ..old(self.0)@ }),
            *final(guard.0) == *final(self.0),
    {
        let state = self.0;
        state.dirty = true;
        TileDrawStateGuardMut(state)
    }
}

impl<'a> std::ops::Deref for TileDrawStateGuardMut<'a> {
    type Target = TileDrawState;

    fn deref(&self) -> (s: &TileDrawState)
        ensures
            *s == *old(self.0),
    {
        self.0
    }
}

impl<'a> std::ops::DerefMut for TileDrawStateGuardMut<'a> {
    fn deref_mut(&mut self) -> (s: &mut TileDrawState)
        ensures
            *s == *old(self).0,
            *final(self).0 == *final(s),
            *final(final(self).0) == *final(old(self).0),
    {
        self.0
    }
}

impl<'a> TileDrawStateGuardMut<'a> {
    /// Gives up the right to change the state and keeps the right to read
    /// it.
    pub fn into_const(self) -> (guard: TileDrawStateGuard<'a>)
        ensures
            *guard.0 == *old(self.0),
            *final(guard.0) == *final(self.0),
    {
        TileDrawStateGuard(self.0)
    }

    /// The state.
    pub fn state(&self) -> (s: &TileDrawState)
        ensures
            *s == *old(self.0),
    {
        self.0
    }

    /// The state, for changing.
    pub fn state_mut(&mut self) -> (s: &mut TileDrawState)
        ensures
            *s == *old(self).0,
            *final(self).0 == *final(s),
            *final(final(self).0) == *final(old(self).0),
    {
        self.0
    }
}

/// Builds a button of the panels of the editor of tile maps.
pub fn make_button(title: &str, tooltip: &str, enabled: bool, ctx: &mut BuildContext) -> (h: Handle)
    requires
        sound(old(ctx)@),
        old(ctx).has_room(1),
    ensures
        built(old(ctx)@, final(ctx)@, h, Seq::<Handle>::empty()),
        made(old(ctx)@, final(ctx)@, h),
        final(ctx)@.len() == old(ctx)@.len() + 1,
        info(final(ctx)@, h) == Some(
            WidgetInfo {
                enabled,
                text: title@,
                tooltip: tooltip@,
                ..WidgetInfo::bare(WidgetKind::Button)
            },
        ),
{
    let ghost before = ctx@;
    proof {
        lemma_words(before, Handle::none_spec());
    }
    let h = spawn(
        ctx,
        WidgetKind::Button,
        WidgetBuilder::new().with_enabled(enabled).with_tooltip(tooltip).with_text(title),
    );
    proof {
        lemma_dialog(before, ctx@, h);
    }
    h
}

/// Builds the button of a tool: a button with a frame behind it that
/// shows whether the tool is chosen, and the picture of the tool in it. The
/// name says which picture.
pub fn make_drawing_mode_button(ctx: &mut BuildContext, image: &str, tooltip: &str) -> (h: Handle)
    requires
        sound(old(ctx)@),
        old(ctx).has_room(3),
    ensures
        built(old(ctx)@, final(ctx)@, h, Seq::<Handle>::empty()),
        made(old(ctx)@, final(ctx)@, h),
        final(ctx)@.len() == old(ctx)@.len() + 3,
        info(final(ctx)@, h) matches Some(i) && i.is_like(
            WidgetInfo { tooltip: tooltip@, ..WidgetInfo::bare(WidgetKind::Button) },
        ) && i.children.len() == 2 && holder(final(ctx)@, i.children[0]) == h && holder(
            final(ctx)@,
            i.children[1],
        ) == h && info(final(ctx)@, i.children[0]) == Some(
            WidgetInfo::bare(WidgetKind::Decorator),
        ) && info(final(ctx)@, i.children[1]) == Some(
            WidgetInfo { name: image@, ..WidgetInfo::bare(WidgetKind::Image) },
        ),
{
    let ghost before = ctx@;
    proof {
        lemma_words(before, Handle::none_spec());
    }
    let back = spawn(ctx, WidgetKind::Decorator, WidgetBuilder::new());
    let picture = spawn(ctx, WidgetKind::Image, WidgetBuilder::new().with_name(image));
    let h = spawn(
        ctx,
        WidgetKind::Button,
        WidgetBuilder::new().with_tooltip(tooltip).with_child(back).with_child(picture),
    );
    proof {
        lemma_dialog(before, ctx@, h);
    }
    h
}

/// The editor of tile sets, as far as the plugin knows it: its window.
#[derive(Clone, Copy, Debug, PartialEq, Eq, Structural)]
pub struct TileSetEditor {
    pub window: Handle,
}

/// The panel of tiles, as far as the plugin knows it: its window.
#[derive(Clone, Copy, Debug, PartialEq, Eq, Structural)]
pub struct TileMapPanel {
    pub window: Handle,
}

/// What the plugin asks of the host.
#[derive(Clone, Copy, Debug, PartialEq, Eq, Structural)]
pub enum PluginRequest {
    /// Let previews of tile sets be made.
    RegisterPreview,
    /// Save the tile set that the editor of tile sets works on.
    SaveTileSet,
    /// Give the editor of tile sets its turn.
    UpdateTileSetEditor,
    /// Let the palette that holds the selection follow the tile set.
    SyncPaletteSelection(Handle),
    SyncTileSetEditorToModel,
    SyncPanelToModel,
    SyncTileSetEditorToState,
    SyncPanelToState,
    SyncInteractionModeToState,
    /// Build the editor of tile sets for a tile set or brush.
    BuildTileSetEditor(TileResource),
    SetTileSetEditorResource(TileResource),
    /// Build the panel of tiles beside the widget given.
    BuildPanel { beside: Handle },
    PanelToTop,
    SetPanelResource(TileResource),
    SetPanelFocus(TileDefinitionHandle),
    /// Hand the message to the editor of tile sets.
    ToTileSetEditor,
    /// Hand the message to the panel of tiles.
    ToPanel,
    /// End the way of working on tile maps.
    RemoveInteractionMode,
    /// Let the tile map draw itself as usual again.
    DetachEditorData(Handle),
    /// Let the tile map draw itself as being edited.
    AttachEditorData(Handle),
    /// Begin the way of working on the tile map.
    AddInteractionMode(Handle),
}

/// The plugin that edits tile maps.
pub struct TileMapEditorPlugin {
    pub state: TileDrawStateRef,
    pub tile_set_editor: Option<TileSetEditor>,
    pub panel: Option<TileMapPanel>,
    pub tile_map: Handle,
    pub delayed_messages: Vec<DelayedMessage>,
}

/// Each delay one frame shorter, but none shorter than none.
pub open spec fn ticked(messages: Seq<DelayedMessage>) -> Seq<DelayedMessage> {
    Seq::new(
        messages.len(),
        |i: int|
            DelayedMessage {
                delay_frames: if messages[i].delay_frames == 0 {
                    0
                } else {
                    (messages[i].delay_frames - 1) as usize
                },
                content: messages[i].content,
            },
    )
}

/// The messages among those from place `i` on whose delay is over, in the
/// order in which the sweep meets them. The sweep goes up from `i`; when it
/// takes a message out it puts the last message in its place and looks at
/// that one next.
pub open spec fn due(messages: Seq<DelayedMessage>, i: int) -> Seq<UiMessageView>
    decreases messages.len() - i,
{
    if i < 0 || i >= messages.len() {
        Seq::<UiMessageView>::empty()
    } else if messages[i].delay_frames == 0 {
        seq![messages[i].content@] + due(messages.update(i, messages.last()).drop_last(), i)
    } else {
        due(messages, i + 1)
    }
}

/// The messages that are left after the sweep from place `i` on.
pub open spec fn waiting(messages: Seq<DelayedMessage>, i: int) -> Seq<DelayedMessage>
    decreases messages.len() - i,
{
    if i < 0 || i >= messages.len() {
        messages
    } else if messages[i].delay_frames == 0 {
        waiting(messages.update(i, messages.last()).drop_last(), i)
    } else {
        waiting(messages, i + 1)
    }
}

/// How often `x` occurs in `s`.
pub open spec fn occurs<T>(s: Seq<T>, x: T) -> nat
    decreases s.len(),
{
    if s.len() == 0 {
        0
    } else {
        occurs(s.drop_last(), x) + if s.last() == x {
            1nat
        } else {
            0nat
        }
    }
}

/// What a waiting message is to the sweep: its content, if its delay is
/// over, and nothing otherwise.
pub open spec fn mark(m: DelayedMessage) -> Option<UiMessageView> {
    if m.delay_frames == 0 {
        Some(m.content@)
    } else {
        None
    }
}

/// The marks of the messages, in their order.
pub open spec fn marks(messages: Seq<DelayedMessage>) -> Seq<Option<UiMessageView>> {
    Seq::new(messages.len(), |k: int| mark(messages[k]))
}

/// What does not occur at any place does not occur.
pub proof fn lemma_occurs_none<T>(s: Seq<T>, x: T)
    requires
        forall|k: int| 0 <= k < s.len() ==> s[k] != x,
    ensures
        occurs(s, x) == 0,
    decreases s.len(),
{
    if s.len() > 0 {
        assert forall|k: int| 0 <= k < s.drop_last().len() implies s.drop_last()[k] != x by {
            assert(s.drop_last()[k] == s[k]);
        }
        lemma_occurs_none(s.drop_last(), x);
        assert(s.last() == s[s.len() - 1]);
    }
}

/// An item put before the others occurs once more than among them.
pub proof fn lemma_occurs_front<T>(a: T, s: Seq<T>, x: T)
    ensures
        occurs(seq![a] + s, x) == occurs(s, x) + if a == x {
            1nat
        } else {
            0nat
        },
    decreases s.len(),
{
    let all = seq![a] + s;
    if s.len() == 0 {
        assert(all.drop_last() =~= Seq::<T>::empty());
        assert(all.last() == a);
        assert(occurs(all.drop_last(), x) == 0);
    } else {
        assert(all.drop_last() =~= seq![a] + s.drop_last());
        assert(all.last() == s.last());
        lemma_occurs_front(a, s.drop_last(), x);
    }
}

/// Putting `a` in the place `i` takes one occurrence of what was there
/// and gives one of `a`.
pub proof fn lemma_occurs_update<T>(s: Seq<T>, i: int, a: T, x: T)
    requires
        0 <= i < s.len(),
    ensures
        occurs(s.update(i, a), x) + (if s[i] == x {
            1nat
        } else {
            0nat
        }) == occurs(s, x) + if a == x {
            1nat
        } else {
            0nat
        },
    decreases s.len(),
{
    let u = s.update(i, a);
    if i == s.len() - 1 {
        assert(u.drop_last() =~= s.drop_last());
        assert(u.last() == a);
        assert(s.last() == s[i]);
    } else {
        assert(u.drop_last() =~= s.drop_last().update(i, a));
        assert(u.last() == s.last());
        assert(s.drop_last()[i] == s[i]);
        lemma_occurs_update(s.drop_last(), i, a, x);
    }
}

/// Taking the item at `i` out by putting the last in its place takes one
/// occurrence of that item and nothing else.
pub proof fn lemma_occurs_swap<T>(s: Seq<T>, i: int, x: T)
    requires
        0 <= i < s.len(),
    ensures
        occurs(s.update(i, s.last()).drop_last(), x) + (if s[i] == x {
            1nat
        } else {
            0nat
        }) == occurs(s, x),
{
    let u = s.update(i, s.last());
    lemma_occurs_update(s, i, s.last(), x);
    assert(u.last() == s.last());
}

/// The sweep from the place `i` on, where no delay before `i` is over:
/// see [`lemma_sweep`].
pub proof fn lemma_sweep_from(messages: Seq<DelayedMessage>, i: int)
    requires
        0 <= i <= messages.len(),
        forall|k: int| 0 <= k < i ==> (#[trigger] messages[k]).delay_frames != 0,
    ensures
        due(messages, i).len() + waiting(messages, i).len() == messages.len(),
        forall|v: UiMessageView| #[trigger]
            occurs(due(messages, i), v) == occurs(marks(messages), Some(v)),
        forall|d: DelayedMessage| #[trigger]
            occurs(waiting(messages, i), d) == if d.delay_frames == 0 {
                0
            } else {
                occurs(messages, d)
            },
    decreases messages.len() - i,
{
    if i >= messages.len() {
        assert forall|v: UiMessageView| #[trigger]
            occurs(due(messages, i), v) == occurs(marks(messages), Some(v)) by {
            lemma_occurs_none(marks(messages), Some(v));
        }
        assert forall|d: DelayedMessage| #[trigger]
            occurs(waiting(messages, i), d) == if d.delay_frames == 0 {
                0
            } else {
                occurs(messages, d)
            } by {
            if d.delay_frames == 0 {
                lemma_occurs_none(messages, d);
            }
        }
    } else if messages[i].delay_frames == 0 {
        let rest = messages.update(i, messages.last()).drop_last();
        assert forall|k: int| 0 <= k < i implies (#[trigger] rest[k]).delay_frames != 0 by {
            assert(rest[k] == messages[k]);
        }
        lemma_sweep_from(rest, i);
        assert(marks(rest) =~= marks(messages).update(i, marks(messages).last()).drop_last());
        assert forall|v: UiMessageView| #[trigger]
            occurs(due(messages, i), v) == occurs(marks(messages), Some(v)) by {
            lemma_occurs_front(messages[i].content@, due(rest, i), v);
            lemma_occurs_swap(marks(messages), i, Some(v));
            assert(occurs(due(rest, i), v) == occurs(marks(rest), Some(v)));
        }
        assert forall|d: DelayedMessage| #[trigger]
            occurs(waiting(messages, i), d) == if d.delay_frames == 0 {
                0
            } else {
                occurs(messages, d)
            } by {
            lemma_occurs_swap(messages, i, d);
            assert(occurs(waiting(rest, i), d) == if d.delay_frames == 0 {
                0
            } else {
                occurs(rest, d)
            });
        }
    } else {
        lemma_sweep_from(messages, i + 1);
        assert forall|v: UiMessageView| #[trigger]
            occurs(due(messages, i), v) == occurs(marks(messages), Some(v)) by {
            assert(occurs(due(messages, i + 1), v) == occurs(marks(messages), Some(v)));
        }
        assert forall|d: DelayedMessage| #[trigger]
            occurs(waiting(messages, i), d) == if d.delay_frames == 0 {
                0
            } else {
                occurs(messages, d)
            } by {
            assert(occurs(waiting(messages, i + 1), d) == if d.delay_frames == 0 {
                0
            } else {
                occurs(messages, d)
            });
        }
    }
}

/// What a frame does to the waiting messages, whatever the order in which
/// the sweep meets them. The delay of a message is over in this frame if it
/// was one frame or none. Each message whose delay is over is sent, as
/// often as it was waiting; each other message goes on waiting, as often as
/// it was waiting, with its delay one frame shorter; and no message is
/// lost or made.
pub proof fn lemma_sweep(messages: Seq<DelayedMessage>)
    ensures
        ticked(messages).len() == messages.len(),
        forall|k: int|
            0 <= k < messages.len() ==> (#[trigger] ticked(messages)[k]).content == messages[k].content
                && (ticked(messages)[k].delay_frames == 0 <==> messages[k].delay_frames <= 1)
                && (messages[k].delay_frames > 0 ==> ticked(messages)[k].delay_frames
                == messages[k].delay_frames - 1),
        due(ticked(messages), 0).len() + waiting(ticked(messages), 0).len() == messages.len(),
        forall|v: UiMessageView| #[trigger]
            occurs(due(ticked(messages), 0), v) == occurs(marks(ticked(messages)), Some(v)),
        forall|d: DelayedMessage| #[trigger]
            occurs(waiting(ticked(messages), 0), d) == if d.delay_frames == 0 {
                0
            } else {
                occurs(ticked(messages), d)
            },
{
    lemma_sweep_from(ticked(messages), 0);
}

/// The tool after the plugin has looked at it: a tool that needs a panel
/// or an editor that is not there gives way to the tool that picks.
pub open spec fn settled(
    draw: TileDrawStateView,
    has_editor: bool,
    has_panel: bool,
) -> TileDrawStateView {
    let lost = match draw.drawing_mode {
        DrawingMode::Pick => false,
        DrawingMode::Editor => !has_editor,
        _ => !has_panel,
    };
    if lost {
        TileDrawStateView {
            dirty: true,
            drawing_mode: DrawingMode::Pick,
            active_editor: None,
            ..draw
        }
    } else if draw.drawing_mode != DrawingMode::Editor && draw.active_editor is Some {
        TileDrawStateView { dirty: true, active_editor: None, ..draw }
    } else {
        draw
    }
}

impl Default for TileMapEditorPlugin {
    /// The plugin at the start: see [`TileMapEditorPlugin::new`].
    fn default() -> (plugin: TileMapEditorPlugin)
        ensures
            plugin.tile_set_editor is None,
            plugin.panel is None,
            plugin.tile_map == Handle::none_spec(),
            plugin.delayed_messages@ == Seq::<DelayedMessage>::empty(),
            plugin.state.0@ == TileDrawState::clean(),
    {
        TileMapEditorPlugin::new()
    }
}

impl TileMapEditorPlugin {
    /// The plugin at the start: nothing open, nothing selected, nothing
    /// waiting.
    pub fn new() -> (plugin: TileMapEditorPlugin)
        ensures
            plugin.tile_set_editor is None,
            plugin.panel is None,
            plugin.tile_map == Handle::none_spec(),
            plugin.delayed_messages@ == Seq::<DelayedMessage>::empty(),
            plugin.state.0@ == TileDrawState::clean(),
    {
        TileMapEditorPlugin {
            state: TileDrawStateRef::default(),
            tile_set_editor: None,
            panel: None,
            tile_map: Handle::none(),
            delayed_messages: Vec::new(),
        }
    }

    /// Lets the tool follow what is open: see [`settled`].
    pub fn update_state(&mut self)
        ensures
            final(self).tile_set_editor == old(self).tile_set_editor,
            final(self).panel == old(self).panel,
            final(self).tile_map == old(self).tile_map,
            final(self).delayed_messages == old(self).delayed_messages,
            final(self).state.0@ == settled(
                old(self).state.0@,
                old(self).tile_set_editor is Some,
                old(self).panel is Some,
            ),
    {
        let mode = self.state.0.drawing_mode;
        let lost = match mode {
            DrawingMode::Pick => false,
            DrawingMode::Editor => self.tile_set_editor.is_none(),
            _ => self.panel.is_none(),
        };
        if lost {
            let state = self.state.lock_mut("update_state");
            state.0.drawing_mode = DrawingMode::Pick;
            state.0.active_editor = None;
        } else if !matches!(mode, DrawingMode::Editor) && self.state.0.active_editor.is_some() {
            let state = self.state.lock_mut("update_state: drawing_mode != Editor");
            state.0.active_editor = None;
        }
    }

    /// Counts a frame off the delay of every waiting message and sends
    /// those whose delay is over.
    pub fn send_delayed_messages(&mut self, ui: &mut crate::ui::UserInterface)
        ensures
            final(self).tile_set_editor == old(self).tile_set_editor,
            final(self).panel == old(self).panel,
            final(self).tile_map == old(self).tile_map,
            final(self).state == old(self).state,
            final(ui).tree() == old(ui).tree(),
            final(ui).sent() == old(ui).sent() + due(ticked(old(self).delayed_messages@), 0),
            final(self).delayed_messages@ == waiting(ticked(old(self).delayed_messages@), 0),
    {
        let ghost start = self.delayed_messages@;
        let mut k: usize = 0;
        while k < self.delayed_messages.len()
            invariant
                0 <= k <= self.delayed_messages@.len(),
                self.delayed_messages@.len() == start.len(),
                self.tile_set_editor == old(self).tile_set_editor,
                self.panel == old(self).panel,
                self.tile_map == old(self).tile_map,
                self.state == old(self).state,
                forall|j: int| 0 <= j < k ==> #[trigger] self.delayed_messages@[j] == ticked(start)[j],
                forall|j: int| k <= j < start.len() ==> #[trigger] self.delayed_messages@[j] == start[j],
            decreases self.delayed_messages@.len() - k,
        {
            let delay = self.delayed_messages[k].delay_frames;
            self.delayed_messages[k].delay_frames = delay.saturating_sub(1);
            k += 1;
        }
        proof {
            assert(self.delayed_messages@ =~= ticked(start));
        }
        let ghost counted = self.delayed_messages@;
        let mut i: usize = 0;
        proof {
            assert(ui.sent() + due(counted, 0) =~= old(ui).sent() + due(counted, 0));
        }
        while i < self.delayed_messages.len()
            invariant
                0 <= i <= self.delayed_messages@.len(),
                self.tile_set_editor == old(self).tile_set_editor,
                self.panel == old(self).panel,
                self.tile_map == old(self).tile_map,
                self.state == old(self).state,
                ui.tree() == old(ui).tree(),
                ui.sent() + due(self.delayed_messages@, i as int) == old(ui).sent() + due(
                    counted,
                    0,
                ),
                waiting(self.delayed_messages@, i as int) == waiting(counted, 0),
            decreases self.delayed_messages@.len() - i,
        {
            let ghost here = self.delayed_messages@;
            let ghost sent = ui.sent();
            if self.delayed_messages[i].delay_frames == 0 {
                let m = self.delayed_messages.swap_remove(i);
                ui.send_message(m.content);
                proof {
                    assert(sent + due(here, i as int) =~= sent.push(here[i as int].content@) + due(
                        self.delayed_messages@,
                        i as int,
                    ));
                }
            } else {
                i += 1;
            }
        }
        proof {
            assert(ui.sent() + due(self.delayed_messages@, i as int) =~= ui.sent());
        }
    }

    /// What opening the panel of tiles on a resource asks of the host: the
    /// panel comes to the top, or, where there is none but an editor of tile
    /// sets, is built beside the editor; then it takes the resource and, if
    /// one is given, the tile to show in its middle.
    pub open spec fn panel_requests(
        &self,
        resource: TileResource,
        center: Option<TileDefinitionHandle>,
    ) -> Seq<PluginRequest> {
        let opened = self.panel is Some || self.tile_set_editor is Some;
        (match self.panel {
            Some(_) => seq![PluginRequest::PanelToTop],
            None => match self.tile_set_editor {
                Some(editor) => seq![PluginRequest::BuildPanel { beside: editor.window }],
                None => Seq::<PluginRequest>::empty(),
            },
        }) + (if opened {
            seq![PluginRequest::SetPanelResource(resource)] + match center {
                Some(focus) => seq![PluginRequest::SetPanelFocus(focus)],
                None => Seq::<PluginRequest>::empty(),
            }
        } else {
            Seq::<PluginRequest>::empty()
        })
    }

    /// Opens the panel of tiles on a resource, for the editor of tile sets.
    /// `new_panel` is the panel that the host builds if one has to be built.
    pub fn open_panel_for_tile_set(
        &mut self,
        resource: TileResource,
        center: Option<TileDefinitionHandle>,
        new_panel: TileMapPanel,
    ) -> (requests: Vec<PluginRequest>)
        ensures
            requests@ == old(self).panel_requests(resource, center),
            final(self).tile_set_editor == old(self).tile_set_editor,
            final(self).tile_map == old(self).tile_map,
            final(self).state == old(self).state,
            final(self).delayed_messages == old(self).delayed_messages,
            final(self).panel == match old(self).panel {
                Some(p) => Some(p),
                None => if old(self).tile_set_editor is Some {
                    Some(new_panel)
                } else {
                    None
                },
            },
    {
        let mut requests: Vec<PluginRequest> = Vec::new();
        if self.panel.is_some() {
            requests.push(PluginRequest::PanelToTop);
        } else if let Some(editor) = &self.tile_set_editor {
            requests.push(PluginRequest::BuildPanel { beside: editor.window });
            self.panel = Some(new_panel);
        }
        if self.panel.is_some() {
            requests.push(PluginRequest::SetPanelResource(resource));
            if let Some(focus) = center {
                requests.push(PluginRequest::SetPanelFocus(focus));
            }
        }
        proof {
            assert(requests@ =~= old(self).panel_requests(resource, center));
        }
        requests
    }

    /// Opens the panel of tiles on the resource of the tile map, beside
    /// the view of the scene: the panel comes to the top, or is built, and
    /// takes the resource.
    pub fn open_panel_for_tile_map(
        &mut self,
        resource: TileResource,
        scene_viewer: Handle,
        new_panel: TileMapPanel,
    ) -> (requests: Vec<PluginRequest>)
        ensures
            requests@ == if old(self).panel is Some {
                seq![PluginRequest::PanelToTop, PluginRequest::SetPanelResource(resource)]
            } else {
                seq![
                    PluginRequest::BuildPanel { beside: scene_viewer },
                    PluginRequest::SetPanelResource(resource),
                ]
            },
            final(self).tile_set_editor == old(self).tile_set_editor,
            final(self).tile_map == old(self).tile_map,
            final(self).state == old(self).state,
            final(self).delayed_messages == old(self).delayed_messages,
            final(self).panel == match old(self).panel {
                Some(p) => Some(p),
                None => Some(new_panel),
            },
    {
        let mut requests: Vec<PluginRequest> = Vec::new();
        if self.panel.is_some() {
            requests.push(PluginRequest::PanelToTop);
            requests.push(PluginRequest::SetPanelResource(resource));
        } else {
            requests.push(PluginRequest::BuildPanel { beside: scene_viewer });
            requests.push(PluginRequest::SetPanelResource(resource));
            self.panel = Some(new_panel);
        }
        requests
    }

    /// Makes `handle` the tile map that is edited.
    pub fn on_tile_map_selected(&mut self, handle: Handle) -> (requests: Vec<PluginRequest>)
        ensures
            requests@ == seq![
                PluginRequest::AttachEditorData(handle),
                PluginRequest::AddInteractionMode(handle),
            ],
            final(self).tile_map == handle,
            final(self).tile_set_editor == old(self).tile_set_editor,
            final(self).panel == old(self).panel,
            final(self).state == old(self).state,
            final(self).delayed_messages == old(self).delayed_messages,
    {
        self.tile_map = handle;
        let mut requests: Vec<PluginRequest> = Vec::new();
        requests.push(PluginRequest::AttachEditorData(handle));
        requests.push(PluginRequest::AddInteractionMode(handle));
        requests
    }

    pub fn on_start(&mut self) -> (requests: Vec<PluginRequest>)
        ensures
            requests@ == seq![PluginRequest::RegisterPreview],
            *final(self) == *old(self),
    {
        let mut requests: Vec<PluginRequest> = Vec::new();
        requests.push(PluginRequest::RegisterPreview);
        requests
    }

    /// What saving asks of the host: that the tile set is saved, where an
    /// editor of tile sets is open.
    pub open spec fn save_requests(&self) -> Seq<PluginRequest> {
        if self.tile_set_editor is Some {
            seq![PluginRequest::SaveTileSet]
        } else {
            Seq::<PluginRequest>::empty()
        }
    }

    pub fn on_exit(&mut self) -> (requests: Vec<PluginRequest>)
        ensures
            requests@ == old(self).save_requests(),
            *final(self) == *old(self),
    {
        let mut requests: Vec<PluginRequest> = Vec::new();
        if self.tile_set_editor.is_some() {
            requests.push(PluginRequest::SaveTileSet);
        }
        requests
    }

    pub fn on_suspended(&mut self)
        ensures
            *final(self) == *old(self),
    {
    }

    pub fn on_mode_changed(&mut self) -> (requests: Vec<PluginRequest>)
        ensures
            requests@ == old(self).save_requests(),
            *final(self) == *old(self),
    {
        self.on_exit()
    }

    /// What is open follows the scene: the palette that holds the
    /// selection, the editor of tile sets, and the panel.
    pub fn on_sync_to_model(&mut self) -> (requests: Vec<PluginRequest>)
        ensures
            *final(self) == *old(self),
            requests@ == seq![PluginRequest::SyncPaletteSelection(old(self).state.0.palette())] + (
            if old(self).tile_set_editor is Some {
                seq![PluginRequest::SyncTileSetEditorToModel]
            } else {
                Seq::<PluginRequest>::empty()
            }) + (if old(self).panel is Some {
                seq![PluginRequest::SyncPanelToModel]
            } else {
                Seq::<PluginRequest>::empty()
            }),
    {
        let mut requests: Vec<PluginRequest> = Vec::new();
        let palette = self.state.lock().state().selection_palette();
        requests.push(PluginRequest::SyncPaletteSelection(palette));
        if self.tile_set_editor.is_some() {
            requests.push(PluginRequest::SyncTileSetEditorToModel);
        }
        if self.panel.is_some() {
            requests.push(PluginRequest::SyncPanelToModel);
        }
        proof {
            assert(requests@ =~= seq![
                PluginRequest::SyncPaletteSelection(old(self).state.0.palette()),
            ] + (if old(self).tile_set_editor is Some {
                seq![PluginRequest::SyncTileSetEditorToModel]
            } else {
                Seq::<PluginRequest>::empty()
            }) + (if old(self).panel is Some {
                seq![PluginRequest::SyncPanelToModel]
            } else {
                Seq::<PluginRequest>::empty()
            }));
        }
        requests
    }

    /// What a message of the user interface, other than a delayed one,
    /// asks of the host: the editor of tile sets sees it, if one is open;
    /// a request for the panel of tiles opens the panel; and the panel sees
    /// it, if one is open by then.
    pub open spec fn ui_requests(&self, message: UiMessageView) -> Seq<PluginRequest> {
        (if self.tile_set_editor is Some {
            seq![PluginRequest::ToTileSetEditor]
        } else {
            Seq::<PluginRequest>::empty()
        }) + (match message.data {
            MessageDataView::OpenTilePanel(open) => self.panel_requests(
                open.resource,
                open.center,
            ),
            _ => Seq::<PluginRequest>::empty(),
        }) + (if self.panel is Some || (message.data is OpenTilePanel && self.tile_set_editor
            is Some) {
            seq![PluginRequest::ToPanel]
        } else {
            Seq::<PluginRequest>::empty()
        })
    }

    /// Takes a message of the user interface. A delayed message is kept
    /// until its time comes. Any other message is for the editor of tile
    /// sets and for the panel; see [`TileMapEditorPlugin::ui_requests`].
    pub fn on_ui_message(&mut self, message: UiMessage, new_panel: TileMapPanel) -> (requests: Vec<
        PluginRequest,
    >)
        ensures
            final(self).tile_set_editor == old(self).tile_set_editor,
            final(self).tile_map == old(self).tile_map,
            final(self).state == old(self).state,
            match message.data {
                MessageData::Delayed(delayed) => requests@.len() == 0 && final(self).delayed_messages@ == old(self).delayed_messages@.push(*delayed) && final(self).panel == old(self).panel,
                _ => requests@ == old(self).ui_requests(message@) && final(self).delayed_messages
                    == old(self).delayed_messages && final(self).panel == if message@.data
                    is OpenTilePanel && old(self).panel is None && old(self).tile_set_editor
                    is Some {
                    Some(new_panel)
                } else {
                    old(self).panel
                },
            },
    {
        let mut requests: Vec<PluginRequest> = Vec::new();
        match message.data {
            MessageData::Delayed(delayed) => {
                self.delayed_messages.push(*delayed);
                return requests;
            },
            MessageData::OpenTilePanel(open) => {
                if self.tile_set_editor.is_some() {
                    requests.push(PluginRequest::ToTileSetEditor);
                }
                let mut more = self.open_panel_for_tile_set(open.resource, open.center, new_panel);
                requests.append(&mut more);
                if self.panel.is_some() {
                    requests.push(PluginRequest::ToPanel);
                }
                proof {
                    assert(requests@ =~= old(self).ui_requests(message@));
                }
            },
            _ => {
                if self.tile_set_editor.is_some() {
                    requests.push(PluginRequest::ToTileSetEditor);
                }
                if self.panel.is_some() {
                    requests.push(PluginRequest::ToPanel);
                }
                proof {
                    assert(requests@ =~= old(self).ui_requests(message@));
                }
            },
        }
        requests
    }

    /// What a frame asks of the host, apart from the messages whose time
    /// has come: the editor of tile sets has its turn, and, where the state
    /// of drawing has changed since the frame before, everything that shows
    /// it follows.
    pub open spec fn frame_requests(&self) -> Seq<PluginRequest> {
        let has_editor = self.tile_set_editor is Some;
        let has_panel = self.panel is Some;
        (if has_editor {
            seq![PluginRequest::UpdateTileSetEditor]
        } else {
            Seq::<PluginRequest>::empty()
        }) + (if settled(self.state.0@, has_editor, has_panel).dirty {
            (if has_editor {
                seq![PluginRequest::SyncTileSetEditorToState]
            } else {
                Seq::<PluginRequest>::empty()
            }) + (if has_panel {
                seq![PluginRequest::SyncPanelToState]
            } else {
                Seq::<PluginRequest>::empty()
            }) + seq![PluginRequest::SyncInteractionModeToState]
        } else {
            Seq::<PluginRequest>::empty()
        })
    }

    /// One frame: the delayed messages whose time has come are sent, the
    /// tool follows what is open, and what shows the state of drawing
    /// follows it if it has changed. The state is clean afterwards.
    pub fn on_update(&mut self, ui: &mut crate::ui::UserInterface) -> (requests: Vec<PluginRequest>)
        ensures
            requests@ == old(self).frame_requests(),
            final(self).tile_set_editor == old(self).tile_set_editor,
            final(self).panel == old(self).panel,
            final(self).tile_map == old(self).tile_map,
            final(ui).tree() == old(ui).tree(),
            final(ui).sent() == old(ui).sent() + due(ticked(old(self).delayed_messages@), 0),
            final(self).delayed_messages@ == waiting(ticked(old(self).delayed_messages@), 0),
            final(self).state.0@ == (TileDrawStateView {
                dirty: false,
                ..settled(
                    old(self).state.0@,
                    old(self).tile_set_editor is Some,
                    old(self).panel is Some,
                )
            }),
    {
        let mut requests: Vec<PluginRequest> = Vec::new();
        if self.tile_set_editor.is_some() {
            requests.push(PluginRequest::UpdateTileSetEditor);
        }
        self.send_delayed_messages(ui);
        self.update_state();
        if self.state.check_dirty() {
            if self.tile_set_editor.is_some() {
                requests.push(PluginRequest::SyncTileSetEditorToState);
            }
            if self.panel.is_some() {
                requests.push(PluginRequest::SyncPanelToState);
            }
            requests.push(PluginRequest::SyncInteractionModeToState);
        }
        proof {
            assert(requests@ =~= old(self).frame_requests());
        }
        requests
    }
}

/// What the host knows of the scene when a message of the editor comes.
pub struct SceneFacts<'a> {
    /// The nodes that are selected in the scene, where there is a scene
    /// and nodes are what is selected in it.
    pub selected_nodes: Option<&'a Vec<Handle>>,
    /// What the tile map that is edited draws with: its brush, else its
    /// tile set, else nothing. `None` where no tile map is edited.
    pub tile_map_resource: Option<TileResource>,
    /// The view of the scene, beside which the panel opens.
    pub scene_viewer: Handle,
    /// The identifier of the way of working on tile maps.
    pub tile_map_mode: u128,
}

impl TileMapEditorPlugin {
    /// The tile set or brush that `message` asks to open, if it asks for
    /// one.
    pub open spec fn asked(message: crate::command::MessageView) -> Option<TileResource> {
        match message {
            crate::command::MessageView::OpenTileSetEditor(t) => Some(TileResource::TileSet(t)),
            crate::command::MessageView::OpenTileMapBrushEditor(b) => Some(TileResource::Brush(b)),
            _ => None,
        }
    }

    /// What opening a tile set or brush asks of the host: the editor of
    /// tile sets is built if there is none, and takes the resource.
    pub open spec fn editor_requests(&self, message: crate::command::MessageView) -> Seq<
        PluginRequest,
    > {
        match Self::asked(message) {
            Some(resource) => if self.tile_set_editor is None {
                seq![
                    PluginRequest::BuildTileSetEditor(resource),
                    PluginRequest::SetTileSetEditorResource(resource),
                ]
            } else {
                seq![PluginRequest::SetTileSetEditorResource(resource)]
            },
            None => Seq::<PluginRequest>::empty(),
        }
    }

    /// Whether `message` opens the panel of tiles: the way of working has
    /// become the one on tile maps, no panel is open, and the tile map that
    /// is edited has something to draw with.
    pub open spec fn opens_panel(
        &self,
        message: crate::command::MessageView,
        facts: &SceneFacts,
    ) -> bool {
        message == crate::command::MessageView::SetInteractionMode(facts.tile_map_mode)
            && self.panel is None && (facts.tile_map_resource matches Some(r) && r
            != TileResource::Empty)
    }

    /// Whether `k` is the place of the first tile map among `nodes`, as
    /// `is_tile_map` sees them.
    pub open spec fn first_tile_map<F: Fn(Handle) -> bool>(
        nodes: Seq<Handle>,
        is_tile_map: F,
        k: int,
    ) -> bool {
        &&& 0 <= k < nodes.len()
        &&& is_tile_map.ensures((nodes[k],), true)
        &&& forall|j: int| 0 <= j < k ==> is_tile_map.ensures((#[trigger] nodes[j],), false)
    }

    /// The first tile map among `nodes`, as `is_tile_map` sees them, if
    /// there is one.
    pub open spec fn found<F: Fn(Handle) -> bool>(nodes: Seq<Handle>, is_tile_map: F) -> Option<
        Handle,
    > {
        if exists|k: int| Self::first_tile_map(nodes, is_tile_map, k) {
            Some(nodes[choose|k: int| Self::first_tile_map(nodes, is_tile_map, k)])
        } else {
            None
        }
    }

    /// The tile map that is edited after `message`: where the selection has
    /// changed, in a scene in which nodes are selected, and a tile map is
    /// among them, the first of those; else the one that was.
    pub open spec fn edited<F: Fn(Handle) -> bool>(
        tile_map: Handle,
        message: crate::command::MessageView,
        selected: Option<&Vec<Handle>>,
        is_tile_map: F,
    ) -> Handle {
        match selected {
            Some(nodes) => if message is SelectionChanged {
                match Self::found(nodes@, is_tile_map) {
                    Some(h) => h,
                    None => tile_map,
                }
            } else {
                tile_map
            },
            None => tile_map,
        }
    }

    /// What a change of the selection asks of the host: the way of working
    /// on tile maps ends, the tile map that was edited draws itself as usual
    /// again, and the first tile map among the selected nodes, if there is
    /// one, is edited from now on.
    pub open spec fn selection_requests<F: Fn(Handle) -> bool>(
        tile_map: Handle,
        message: crate::command::MessageView,
        selected: Option<&Vec<Handle>>,
        is_tile_map: F,
    ) -> Seq<PluginRequest> {
        match selected {
            Some(nodes) => if message is SelectionChanged {
                seq![
                    PluginRequest::RemoveInteractionMode,
                    PluginRequest::DetachEditorData(tile_map),
                ] + match Self::found(nodes@, is_tile_map) {
                    Some(h) => seq![
                        PluginRequest::AttachEditorData(h),
                        PluginRequest::AddInteractionMode(h),
                    ],
                    None => Seq::<PluginRequest>::empty(),
                }
            } else {
                Seq::<PluginRequest>::empty()
            },
            None => Seq::<PluginRequest>::empty(),
        }
    }

    /// What a change to the way of working on tile maps asks of the host:
    /// the panel of tiles, built beside the view of the scene, on what the
    /// tile map draws with; see [`TileMapEditorPlugin::opens_panel`].
    pub open spec fn mode_requests(
        &self,
        message: crate::command::MessageView,
        facts: &SceneFacts,
    ) -> Seq<PluginRequest> {
        if self.opens_panel(message, facts) {
            seq![
                PluginRequest::BuildPanel { beside: facts.scene_viewer },
                PluginRequest::SetPanelResource(facts.tile_map_resource->0),
            ]
        } else {
            Seq::<PluginRequest>::empty()
        }
    }

    /// Takes a message of the editor.
    ///
    /// A message that asks for a tile set or a brush opens the editor of
    /// tile sets on it. A change to the way of working on tile maps opens
    /// the panel of tiles. A change of the selection ends the editing of the
    /// tile map that was edited and begins the editing of the first tile
    /// map among the selected nodes, if there is one; that needs a scene in
    /// which nodes are selected. `is_tile_map` says of a node whether it is
    /// a tile map; it has one answer for each node.
    #[verifier::loop_isolation(false)]
    pub fn on_message<F: Fn(Handle) -> bool>(
        &mut self,
        message: &Message,
        facts: &SceneFacts,
        new_editor: TileSetEditor,
        new_panel: TileMapPanel,
        is_tile_map: F,
    ) -> (requests: Vec<PluginRequest>)
        requires
            forall|h: Handle| #[trigger] is_tile_map.requires((h,)),
            forall|h: Handle, a: bool, b: bool|
                #![trigger is_tile_map.ensures((h,), a), is_tile_map.ensures((h,), b)]
                is_tile_map.ensures((h,), a) && is_tile_map.ensures((h,), b) ==> a == b,
        ensures
            final(self).state == old(self).state,
            final(self).delayed_messages == old(self).delayed_messages,
            final(self).tile_set_editor == if Self::asked(message@) is Some && old(
                self,
            ).tile_set_editor is None {
                Some(new_editor)
            } else {
                old(self).tile_set_editor
            },
            final(self).panel == if old(self).opens_panel(message@, facts) {
                Some(new_panel)
            } else {
                old(self).panel
            },
            final(self).tile_map == Self::edited(
                old(self).tile_map,
                message@,
                facts.selected_nodes,
                is_tile_map,
            ),
            requests@ == old(self).editor_requests(message@) + old(self).mode_requests(
                message@,
                facts,
            ) + Self::selection_requests(
                old(self).tile_map,
                message@,
                facts.selected_nodes,
                is_tile_map,
            ),
    {
        let mut requests: Vec<PluginRequest> = Vec::new();
        let tile_resource: Option<TileResource> = match message {
            Message::OpenTileSetEditor(tile_set) => Some(TileResource::TileSet(*tile_set)),
            Message::OpenTileMapBrushEditor(brush) => Some(TileResource::Brush(*brush)),
            _ => None,
        };
        if let Some(tile_resource) = tile_resource {
            if self.tile_set_editor.is_none() {
                requests.push(PluginRequest::BuildTileSetEditor(tile_resource));
                requests.push(PluginRequest::SetTileSetEditorResource(tile_resource));
                self.tile_set_editor = Some(new_editor);
            } else {
                requests.push(PluginRequest::SetTileSetEditorResource(tile_resource));
            }
        }
        proof {
            assert(requests@ =~= old(self).editor_requests(message@));
        }
        if let Message::SetInteractionMode(uuid) = message {
            if *uuid == facts.tile_map_mode && self.panel.is_none() {
                if let Some(resource) = facts.tile_map_resource {
                    if !resource.is_empty() {
                        let mut more = self.open_panel_for_tile_map(
                            resource,
                            facts.scene_viewer,
                            new_panel,
                        );
                        requests.append(&mut more);
                    }
                }
            }
        }
        let ghost head = requests@;
        proof {
            assert(head =~= old(self).editor_requests(message@) + old(self).mode_requests(
                message@,
                facts,
            ));
            assert(head + Seq::<PluginRequest>::empty() =~= head);
        }
        let nodes = match facts.selected_nodes {
            Some(nodes) => nodes,
            None => {
                return requests;
            },
        };
        if let Message::SelectionChanged = message {
            requests.push(PluginRequest::RemoveInteractionMode);
            // The tile map that was edited draws itself as usual again.
            requests.push(PluginRequest::DetachEditorData(self.tile_map));
            let ghost swept = requests@;
            let ghost entered = *self;
            let mut i: usize = 0;
            while i < nodes.len()
                invariant
                    0 <= i <= nodes@.len(),
                    requests@ == swept,
                    *self == entered,
                    forall|j: int| 0 <= j < i ==> is_tile_map.ensures((#[trigger] nodes@[j],), false),
                decreases nodes@.len() - i,
            {
                let handle = nodes[i];
                if is_tile_map(handle) {
                    let old_map = self.tile_map;
                    let mut more = self.on_tile_map_selected(handle);
                    requests.append(&mut more);
                    proof {
                        assert(Self::first_tile_map(nodes@, is_tile_map, i as int));
                        let k = choose|k: int| Self::first_tile_map(nodes@, is_tile_map, k);
                        assert(Self::first_tile_map(nodes@, is_tile_map, k));
                        // One place cannot be the first for two answers:
                        // what is found first is what is chosen.
                        if k < i {
                            assert(is_tile_map.ensures((nodes@[k],), false));
                        }
                        if i < k {
                            assert(is_tile_map.ensures((nodes@[i as int],), false));
                        }
                        assert(k == i);
                        assert(Self::found(nodes@, is_tile_map) == Some(handle));
                        assert(requests@ =~= head + Self::selection_requests(
                            old(self).tile_map,
                            message@,
                            facts.selected_nodes,
                            is_tile_map,
                        ));
                    }
                    return requests;
                }
                i += 1;
            }
            proof {
                assert forall|k: int| !Self::first_tile_map(nodes@, is_tile_map, k) by {
                    if 0 <= k < nodes@.len() {
                        assert(is_tile_map.ensures((nodes@[k],), false));
                    }
                }
                assert(requests@ =~= head + Self::selection_requests(
                    old(self).tile_map,
                    message@,
                    facts.selected_nodes,
                    is_tile_map,
                ));
            }
        }
        requests
    }
}

} // verus!
