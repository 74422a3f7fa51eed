use editor_core::command::{Command, CommandGroup, Message, MessageSender, NewTile};
use editor_core::handle::Handle;
use editor_core::message::{
    ButtonMessage, DecoratorMessage, MaterialFieldMessage, MessageData, MessageDirection,
    TileHandleEditorMessage, UiMessage, Vec2EditorMessage, WidgetMessage,
};
use editor_core::tilemap::tile_inspector::{
    collider_uuids, highlight_tool_button, make_button, make_label, new_tile_editor, pick,
    property_uuids, send_visibility, EditorGroup, InspectorField, TileEditorState,
    TileEditorStateRef, TileInspector, FIELD_LABEL_WIDTH,
};
use editor_core::tilemap::tiles::{
    find_entry, find_tile_entry, Corner, TileDefinitionHandle, TileMaterialBounds, TileMapBrush, TileMapBrushPage, TileMaterial, TileResource,
    TileResourceData, TileSet, TileSetColliderLayer, TileSetPage, TileSetPageSource,
    TileSetPropertyLayer,
};
use editor_core::tilemap::{DrawingMode, TileDrawState, TileEditorRef};
use editor_core::ui::{UserInterface, MSG_SYNC_FLAG};
use editor_core::widget::{WidgetBuilder, WidgetKind};

const PAGES: Handle = Handle {
    index: 200,
    generation: 1,
};
const TILES: Handle = Handle {
    index: 201,
    generation: 1,
};

fn icon(n: i16) -> TileDefinitionHandle {
    TileDefinitionHandle::new(0, 0, n, 0)
}

fn material(id: u64) -> TileMaterial {
    TileMaterial {
        material: id,
        tile_width: 32,
        tile_height: 24,
    }
}

fn tile_set() -> TileSet {
    TileSet {
        pages: vec![
            (
                (0, 0),
                TileSetPage {
                    icon: icon(1),
                    source: TileSetPageSource::Material(material(7)),
                },
            ),
            (
                (1, 0),
                TileSetPage {
                    icon: icon(1),
                    source: TileSetPageSource::Freeform,
                },
            ),
            (
                (2, 0),
                TileSetPage {
                    icon: icon(2),
                    source: TileSetPageSource::Transform,
                },
            ),
            // A second page at the same place is never found.
            (
                (0, 0),
                TileSetPage {
                    icon: icon(9),
                    source: TileSetPageSource::Transform,
                },
            ),
        ],
        properties: vec![
            TileSetPropertyLayer { uuid: 11 },
            TileSetPropertyLayer { uuid: 12 },
        ],
        colliders: vec![TileSetColliderLayer { uuid: 21 }],
        tiles: vec![
            TileDefinitionHandle::new(0, 0, 5, 5),
            TileDefinitionHandle::new(1, 0, 5, 5),
        ],
        bounds: vec![
            (TileDefinitionHandle::new(0, 0, 5, 5), square(160, 160, 32)),
            (TileDefinitionHandle::new(0, 0, 7, 7), square(224, 224, 32)),
            (TileDefinitionHandle::new(0, 0, 5, 5), square(0, 0, 1)),
        ],
        redirects: vec![
            (
                TileDefinitionHandle::new(2, 0, 6, 6),
                TileDefinitionHandle::new(0, 0, 5, 5),
            ),
            (
                TileDefinitionHandle::new(2, 0, 8, 8),
                TileDefinitionHandle::new(1, 0, 5, 5),
            ),
        ],
    }
}

fn square(x: u32, y: u32, side: u32) -> TileMaterialBounds {
    TileMaterialBounds {
        left_top_corner: Corner { x, y },
        right_top_corner: Corner { x: x + side, y },
        right_bottom_corner: Corner {
            x: x + side,
            y: y + side,
        },
        left_bottom_corner: Corner { x, y: y + side },
    }
}

fn brush() -> TileMapBrush {
    TileMapBrush {
        pages: vec![
            ((0, 0), TileMapBrushPage { icon: icon(3) }),
            ((0, 1), TileMapBrushPage { icon: icon(4) }),
        ],
        redirects: vec![(
            TileDefinitionHandle::new(0, 1, 6, 6),
            TileDefinitionHandle::new(1, 0, 5, 5),
        )],
    }
}

fn look(page: Option<(i32, i32)>) -> TileEditorStateRef {
    TileEditorStateRef {
        page,
        pages_palette: PAGES,
        tiles_palette: TILES,
        tile_resource: TileResource::TileSet(1),
    }
}

fn select(state: &mut TileDrawState, palette: Handle, cells: &[(i32, i32)]) {
    state.clear_selection();
    state.set_palette(palette);
    for c in cells {
        state.selection_positions_mut().insert(*c);
    }
}

fn sorted<T: Ord>(mut v: Vec<T>) -> Vec<T> {
    v.sort();
    v
}

fn drain_ui(ui: &mut UserInterface) -> Vec<UiMessage> {
    let mut out = Vec::new();
    while let Some(m) = ui.poll_message() {
        out.push(m);
    }
    out
}

fn drain(sender: &mut MessageSender) -> Vec<Message> {
    let mut out = Vec::new();
    while let Some(m) = sender.poll() {
        out.push(m);
    }
    out
}

#[test]
fn the_first_entry_at_a_place_is_the_one_that_is_found() {
    let set = tile_set();
    assert_eq!(find_entry(&set.pages, (0, 0)).unwrap().icon, icon(1));
    assert_eq!(find_entry(&set.pages, (2, 0)).unwrap().icon, icon(2));
    assert_eq!(find_entry(&set.pages, (0, 2)), None);
    assert!(set.is_free_at(TileDefinitionHandle::new(0, 0, 5, 6)));
    assert!(!set.is_free_at(TileDefinitionHandle::new(1, 0, 5, 5)));
    assert!(find_entry(&set.pages, (0, 0)).unwrap().is_material());
    assert!(find_entry(&set.pages, (1, 0)).unwrap().is_freeform());
    assert!(find_entry(&set.pages, (2, 0)).unwrap().is_transform_set());
    assert_eq!(FIELD_LABEL_WIDTH, 100);
}

#[test]
fn what_is_selected_counts_as_pages_or_as_tiles_by_its_palette() {
    let set = tile_set();
    let mut draw = TileDrawState::default();
    select(&mut draw, PAGES, &[(0, 0), (5, 5)]);
    let s = look(None).lock(&mut draw, TileResourceData::TileSet(&set));
    assert!(s.has_pages());
    assert!(!s.has_tiles());
    assert_eq!((s.pages_count(), s.tiles_count()), (2, 0));
    assert_eq!(sorted(s.selected_positions()), vec![(0, 0), (5, 5)]);
    assert_eq!(sorted(s.page_positions()), vec![(0, 0), (5, 5)]);
    assert_eq!(s.empty_page_positions(), vec![(5, 5)]);
    assert!(s.is_tile_set() && !s.is_brush());
    assert!(s.tile_set().is_some() && s.brush().is_none());
    assert_eq!(s.page(), None);
    assert_eq!(s.drawing_mode(), DrawingMode::Draw);
    drop(s);
    select(&mut draw, TILES, &[(0, 0), (5, 5), (6, 6)]);
    let s = look(Some((1, 0))).lock(&mut draw, TileResourceData::TileSet(&set));
    assert!(!s.has_pages());
    assert!(s.has_tiles());
    assert_eq!((s.pages_count(), s.tiles_count()), (0, 3));
    assert!(s.page_positions().is_empty());
    assert!(s.empty_page_positions().is_empty());
    assert!(s.tile_set_pages().is_empty());
    assert_eq!(s.page(), Some((1, 0)));
    drop(s);
    // A selection in a node is a selection in no palette.
    draw.set_node(Handle::new(5, 1));
    let s = look(None).lock(&mut draw, TileResourceData::Empty);
    assert!(!s.has_pages() && !s.has_tiles());
    assert_eq!((s.pages_count(), s.tiles_count()), (0, 0));
    assert!(!s.is_tile_set() && !s.is_brush());
    drop(s);
    // With nothing selected nothing is there.
    select(&mut draw, PAGES, &[]);
    let s = look(None).lock(&mut draw, TileResourceData::TileSet(&set));
    assert!(!s.has_pages());
}

#[test]
fn the_kinds_of_page_are_told_apart() {
    let set = tile_set();
    let b = brush();
    let mut draw = TileDrawState::default();
    let s = look(None).lock(&mut draw, TileResourceData::TileSet(&set));
    assert!(s.is_material_page((0, 0)));
    assert!(!s.is_material_page((1, 0)));
    assert!(s.is_freeform_page((1, 0)));
    assert!(s.is_transform_page((2, 0)));
    assert!(!s.is_transform_page((0, 0)));
    assert!(!s.is_material_page((9, 9)));
    assert!(!s.is_brush_page((0, 0)));
    assert!(!s.is_vacant((0, 0)));
    assert!(s.is_vacant((9, 9)));
    drop(s);
    let s = look(None).lock(&mut draw, TileResourceData::Brush(&b));
    assert!(s.is_brush_page((0, 1)));
    assert!(!s.is_brush_page((1, 1)));
    assert!(!s.is_material_page((0, 0)));
    assert!(!s.is_freeform_page((0, 0)));
    assert!(!s.is_transform_page((0, 0)));
    assert!(s.is_vacant((1, 1)));
    drop(s);
    let s = look(None).lock(&mut draw, TileResourceData::Empty);
    assert!(!s.is_vacant((1, 1)));
    assert!(!s.is_brush_page((0, 0)));
}

#[test]
fn layers_are_found_by_their_identifier() {
    let set = tile_set();
    let mut draw = TileDrawState::default();
    let s = look(None).lock(&mut draw, TileResourceData::TileSet(&set));
    assert_eq!(s.find_property(12), Some(TileSetPropertyLayer { uuid: 12 }));
    assert_eq!(s.find_property(21), None);
    assert_eq!(s.find_collider(21), Some(TileSetColliderLayer { uuid: 21 }));
    assert_eq!(s.find_collider(11), None);
    assert_eq!(s.properties(), set.properties);
    assert_eq!(s.colliders(), set.colliders);
    assert_eq!(property_uuids(&s), vec![11, 12]);
    assert_eq!(collider_uuids(&s), vec![21]);
    drop(s);
    let b = brush();
    let s = look(None).lock(&mut draw, TileResourceData::Brush(&b));
    assert_eq!(s.find_property(12), None);
    assert!(s.properties().is_empty() && s.colliders().is_empty());
}

#[test]
fn the_state_is_changed_through_the_inspector_and_becomes_dirty() {
    let mut draw = TileDrawState::default();
    let a = TileEditorRef {
        handle: Handle::new(1, 1),
        draw_button: Handle::new(2, 1),
    };
    {
        let mut s = look(None).lock(&mut draw, TileResourceData::Empty);
        assert!(!s.is_active_editor(&a));
        assert!(!s.state().dirty);
        s.set_active_editor(Some(a));
        assert!(s.state().dirty);
        assert_eq!(s.state().active_editor, Some(a));
        assert!(s.is_active_editor(&a));
        s.set_drawing_mode(DrawingMode::Editor);
        assert_eq!(s.drawing_mode(), DrawingMode::Editor);
        s.set_visible_collider(5, true);
        s.set_visible_collider(6, true);
        s.set_visible_collider(5, false);
        assert!(s.is_visible_collider(6));
        assert!(!s.is_visible_collider(5));
        assert_eq!(s.visible_colliders(), vec![6]);
    }
    assert!(draw.dirty);
    assert_eq!(draw.active_editor, Some(a));
    assert_eq!(draw.drawing_mode, DrawingMode::Editor);
    draw.dirty = false;
    look(None).lock(&mut draw, TileResourceData::Empty).touch();
    assert!(draw.dirty);
}

#[test]
fn selected_pages_come_with_their_places() {
    let set = tile_set();
    let b = brush();
    let mut draw = TileDrawState::default();
    select(&mut draw, PAGES, &[(0, 0), (2, 0), (7, 7)]);
    let s = look(None).lock(&mut draw, TileResourceData::TileSet(&set));
    let mut pages: Vec<((i32, i32), TileDefinitionHandle)> = s
        .tile_set_pages()
        .into_iter()
        .map(|(p, page)| (p, page.icon))
        .collect();
    pages.sort_by_key(|p| p.0);
    assert_eq!(pages, vec![((0, 0), icon(1)), ((2, 0), icon(2))]);
    assert!(s.brush_pages().is_empty());
    // Two pages of the tile set are selected: no one page of a picture.
    assert_eq!(s.material_page(), None);
    drop(s);
    let s = look(None).lock(&mut draw, TileResourceData::Brush(&b));
    assert_eq!(
        s.brush_pages(),
        vec![((0, 0), TileMapBrushPage { icon: icon(3) })]
    );
    assert!(s.tile_set_pages().is_empty());
    assert_eq!(s.material_page(), None);
    drop(s);
    select(&mut draw, PAGES, &[(0, 0), (7, 7)]);
    let s = look(None).lock(&mut draw, TileResourceData::TileSet(&set));
    assert_eq!(s.material_page(), Some(((0, 0), material(7))));
    drop(s);
    select(&mut draw, PAGES, &[(1, 0)]);
    let s = look(None).lock(&mut draw, TileResourceData::TileSet(&set));
    assert_eq!(s.material_page(), None);
}

#[test]
fn selected_tiles_are_named_on_the_page_that_the_palette_shows() {
    let set = tile_set();
    let mut draw = TileDrawState::default();
    select(&mut draw, TILES, &[(5, 5), (6, 6), (40000, 0)]);
    let s = look(Some((1, 0))).lock(&mut draw, TileResourceData::TileSet(&set));
    let on = |x, y| TileDefinitionHandle::new(1, 0, x, y);
    assert_eq!(sorted(s.tile_handles().iter().map(|h| h.tile()).collect()), vec![(5, 5), (6, 6)]);
    assert_eq!(s.empty_tiles(), vec![on(6, 6)]);
    assert_eq!(s.tile_data(), vec![on(5, 5)]);
    drop(s);
    // Without a page there are no tiles to name.
    let s = look(None).lock(&mut draw, TileResourceData::TileSet(&set));
    assert!(s.tile_handles().is_empty());
    assert!(s.empty_tiles().is_empty());
    drop(s);
    // Without a tile set no tile is empty and none holds anything.
    let b = brush();
    let s = look(Some((1, 0))).lock(&mut draw, TileResourceData::Brush(&b));
    assert_eq!(s.tile_handles().len(), 2);
    assert!(s.empty_tiles().is_empty());
    assert!(s.tile_data().is_empty());
}

#[test]
fn the_small_parts_of_the_inspector() {
    let mut ui = UserInterface::new();
    let b = make_button("Tile Atlas", "tip", 1, 0, ui.build_ctx());
    let w = ui.node(b);
    assert_eq!((w.kind, w.row, w.column), (WidgetKind::Button, 1, 0));
    assert_eq!((w.text.as_str(), w.tooltip.as_str()), ("Tile Atlas", "tip"));
    let l = make_label("Colliders", ui.build_ctx());
    assert_eq!(ui.node(l).kind, WidgetKind::Text);
    assert_eq!(ui.node(l).text, "Colliders");
    let e = new_tile_editor(ui.build_ctx());
    assert_eq!(ui.node(e.handle).kind, WidgetKind::TileEditor);
    assert_eq!(ui.node(e.handle).children, vec![e.draw_button]);
    assert_eq!(ui.node(e.draw_button).parent, e.handle);
    let field = ui
        .build_ctx()
        .add_node(WidgetKind::Vec2Editor, WidgetBuilder::new().on_column(1));
    let f = InspectorField::new("Tile Size", field, ui.build_ctx());
    assert_eq!(f.field, field);
    let grid = ui.node(f.handle);
    assert_eq!(grid.kind, WidgetKind::Grid);
    assert_eq!(grid.children.len(), 2);
    assert_eq!(grid.children[1], field);
    assert_eq!(ui.node(grid.children[0]).text, "Tile Size");
    assert_eq!(ui.node(field).parent, f.handle);
    let to = MessageDirection::ToWidget;
    highlight_tool_button(Handle::none(), true, &mut ui);
    highlight_tool_button(b, true, &mut ui);
    send_visibility(&mut ui, l, false);
    assert_eq!(
        drain_ui(&mut ui),
        vec![
            DecoratorMessage::select(b, to, true),
            WidgetMessage::visibility(l, to, false),
        ]
    );
}

#[test]
fn a_group_of_editors_is_rebuilt_when_the_layers_change() {
    let mut ui = UserInterface::new();
    let mut g = EditorGroup::new("Properties", &vec![11, 12], ui.build_ctx());
    assert_eq!(ui.alive_count(), 1 + 2 * 2 + 3);
    let expander = ui.node(g.handle);
    assert_eq!(expander.kind, WidgetKind::Expander);
    assert_eq!(ui.node(expander.children[0]).text, "Properties");
    assert_eq!(expander.children[1], g.content);
    assert_eq!(
        ui.node(g.content).children,
        g.editors.iter().map(|e| e.1.handle).collect::<Vec<_>>()
    );
    assert_eq!(g.editors.iter().map(|e| e.0).collect::<Vec<_>>(), vec![11, 12]);
    assert_eq!(g.iter(), g.editors.iter().map(|e| e.1).collect::<Vec<_>>());
    assert!(!g.needs_rebuild(&vec![11, 12]));
    assert!(g.needs_rebuild(&vec![12, 11]));
    assert!(g.needs_rebuild(&vec![11]));
    assert!(g.needs_rebuild(&vec![11, 12, 13]));
    // In line already: nothing happens.
    g.sync_to_model(&vec![11, 12], &mut ui);
    assert_eq!(drain_ui(&mut ui), vec![]);
    let old: Vec<Handle> = g.editors.iter().map(|e| e.1.handle).collect();
    g.sync_to_model(&vec![12, 13, 14], &mut ui);
    assert_eq!(g.editors.iter().map(|e| e.0).collect::<Vec<_>>(), vec![12, 13, 14]);
    assert_eq!(ui.alive_count(), 8 + 6);
    let to = MessageDirection::ToWidget;
    let mut expected: Vec<UiMessage> = old.iter().map(|h| WidgetMessage::remove(*h, to)).collect();
    expected.extend(
        g.editors
            .iter()
            .map(|e| WidgetMessage::link(e.1.handle, to, g.content)),
    );
    assert_eq!(drain_ui(&mut ui), expected);
    // Taking the group away takes what was built with it.
    ui.remove_node(g.handle);
    assert_eq!(ui.alive_count(), 1 + 6);
}

struct Bench {
    ui: UserInterface,
    inspector: TileInspector,
    draw: TileDrawState,
    set: TileSet,
    brush: TileMapBrush,
    sender: MessageSender,
}

fn bench(resource: TileResource) -> Bench {
    let set = tile_set();
    let mut draw = TileDrawState::default();
    let mut ui = UserInterface::new();
    let inspector = {
        let state = look(None).lock(&mut draw, TileResourceData::TileSet(&set));
        TileInspector::new(&state, PAGES, TILES, resource, ui.build_ctx())
    };
    Bench {
        ui,
        inspector,
        draw,
        set,
        brush: brush(),
        sender: MessageSender::new(),
    }
}

#[test]
fn the_inspector_is_built_as_one_column() {
    let b = bench(TileResource::TileSet(1));
    let (ui, i) = (&b.ui, &b.inspector);
    // Two properties and one collider: 29 widgets and two for each editor.
    assert_eq!(ui.alive_count(), 1 + 29 + 2 * 3);
    assert_eq!(i.handle(), i.handle);
    let column = ui.node(i.handle);
    assert_eq!(column.kind, WidgetKind::StackPanel);
    assert_eq!(
        column.children,
        vec![
            i.tile_set_page_creator,
            i.brush_page_creator,
            i.page_icon_field,
            i.page_material_inspector.handle,
            i.tile_size_inspector.handle,
            i.create_tile,
            i.tile_editors[0].handle,
            i.tile_editors[1].handle,
            i.tile_editors[2].handle,
            i.property_editors.handle,
            i.collider_editors.handle,
        ]
    );
    assert!(!ui.node(i.tile_set_page_creator).visibility);
    assert!(!ui.node(i.brush_page_creator).visibility);
    assert_eq!(ui.node(i.brush_page_creator).row, 1);
    let creator = ui.node(i.tile_set_page_creator);
    assert_eq!(ui.node(creator.children[0]).text, "Create New Page");
    assert_eq!(
        creator.children[1..],
        [i.create_atlas, i.create_free, i.create_transform]
    );
    assert_eq!(ui.node(i.create_atlas).text, "Tile Atlas");
    assert_eq!(ui.node(i.create_atlas).row, 1);
    assert_eq!(ui.node(i.create_free).text, "Free Tiles");
    assert_eq!(ui.node(i.create_free).row, 2);
    assert_eq!(ui.node(i.create_transform).text, "Transform");
    assert_eq!(ui.node(i.create_transform).row, 3);
    assert_eq!(ui.node(i.create_page).text, "Add Page");
    assert_eq!(ui.node(i.create_tile).text, "Create Tile");
    assert_eq!(ui.node(i.create_tile).tooltip, "Add a tile to this page.");
    assert_eq!(ui.node(i.page_icon_field).text, "Page Icon");
    assert_eq!(i.page_material_inspector.field, i.page_material_field);
    assert_eq!(ui.node(i.page_material_field).kind, WidgetKind::MaterialField);
    assert_eq!(ui.node(i.page_material_field).column, 1);
    assert_eq!(
        ui.node(i.tile_size_inspector.field).kind,
        WidgetKind::Vec2Editor
    );
    assert_eq!(i.property_editors.editors.len(), 2);
    assert_eq!(i.collider_editors.editors.len(), 1);
    assert_eq!(i.editors().len(), 6);
    assert_eq!(i.editors()[..3], i.tile_editors[..]);
    let mut ui = b.ui;
    ui.remove_node(b.inspector.handle);
    assert_eq!(ui.alive_count(), 1);
}

#[test]
fn the_page_that_the_inspector_looks_at() {
    let b = bench(TileResource::TileSet(1));
    let mut draw = TileDrawState::default();
    assert_eq!(b.inspector.tile_editor_state(&draw, Some((3, 3))).page, None);
    draw.set_palette(PAGES);
    assert_eq!(b.inspector.tile_editor_state(&draw, Some((3, 3))).page, None);
    draw.set_palette(TILES);
    let r = b.inspector.tile_editor_state(&draw, Some((3, 3)));
    assert_eq!(r.page, Some((3, 3)));
    assert_eq!((r.pages_palette, r.tiles_palette), (PAGES, TILES));
    assert_eq!(r.tile_resource, TileResource::TileSet(1));
    assert_eq!(b.inspector.tile_editor_state(&draw, None).page, None);
}

#[test]
fn one_icon_stands_for_the_selected_pages_or_none_does() {
    let mut b = bench(TileResource::TileSet(1));
    let cases: [(&[(i32, i32)], Option<TileDefinitionHandle>); 5] = [
        (&[(0, 0), (1, 0)], Some(icon(1))),
        (&[(0, 0), (1, 0), (2, 0)], None),
        (&[(2, 0), (9, 9)], Some(icon(2))),
        (&[(9, 9)], None),
        (&[], None),
    ];
    for (cells, expected) in cases {
        select(&mut b.draw, PAGES, cells);
        let s = look(None).lock(&mut b.draw, TileResourceData::TileSet(&b.set));
        assert_eq!(b.inspector.find_page_icon(&s), expected);
    }
    select(&mut b.draw, PAGES, &[(0, 1)]);
    let s = look(None).lock(&mut b.draw, TileResourceData::Brush(&b.brush));
    assert_eq!(b.inspector.find_page_icon(&s), Some(icon(4)));
    drop(s);
    select(&mut b.draw, PAGES, &[(0, 0), (0, 1)]);
    let s = look(None).lock(&mut b.draw, TileResourceData::Brush(&b.brush));
    assert_eq!(b.inspector.find_page_icon(&s), None);
    drop(s);
    let s = look(None).lock(&mut b.draw, TileResourceData::Empty);
    assert_eq!(b.inspector.find_page_icon(&s), None);
    drop(s);
    // Tiles are not pages.
    select(&mut b.draw, TILES, &[(0, 0)]);
    let s = look(None).lock(&mut b.draw, TileResourceData::TileSet(&b.set));
    assert_eq!(b.inspector.find_page_icon(&s), None);
}

fn shown(sent: &[UiMessage]) -> Vec<(Handle, bool)> {
    sent.iter()
        .map(|m| match m.data {
            MessageData::Widget(WidgetMessage::Visibility(v)) => (m.destination, v),
            ref other => panic!("not a message of visibility: {:?}", other),
        })
        .collect()
}

#[test]
fn the_inspector_shows_what_fits_the_selection() {
    let mut b = bench(TileResource::TileSet(1));
    let to = MessageDirection::ToWidget;
    // One page of a picture and one place without a page.
    select(&mut b.draw, PAGES, &[(0, 0), (9, 9)]);
    b.draw.drawing_mode = DrawingMode::Editor;
    b.draw.active_editor = Some(b.inspector.tile_editors[1]);
    {
        let s = look(None).lock(&mut b.draw, TileResourceData::TileSet(&b.set));
        b.inspector.sync_to_state(&s, &mut b.ui);
    }
    let i = &b.inspector;
    let sent = drain_ui(&mut b.ui);
    assert_eq!(
        shown(&sent[..9]),
        vec![
            (i.tile_set_page_creator, true),
            (i.brush_page_creator, false),
            (i.create_tile, false),
            (i.tile_set_page_creator, true),
            (i.tile_size_inspector.handle, true),
            (i.page_material_inspector.handle, true),
            (i.page_icon_field, true),
            (i.property_editors.handle, false),
            (i.collider_editors.handle, false),
        ]
    );
    assert_eq!(
        sent[9..12],
        [
            Vec2EditorMessage::value(i.tile_size_inspector.field, to, 32, 24)
                .with_flags(MSG_SYNC_FLAG),
            MaterialFieldMessage::material(i.page_material_inspector.field, to, 7)
                .with_flags(MSG_SYNC_FLAG),
            TileHandleEditorMessage::value(i.page_icon_field, to, Some(icon(1)))
                .with_flags(MSG_SYNC_FLAG),
        ]
    );
    let tools: Vec<UiMessage> = i
        .editors()
        .iter()
        .map(|e| DecoratorMessage::select(e.draw_button, to, *e == i.tile_editors[1]))
        .collect();
    assert_eq!(sent[12..], tools[..]);

    // Tiles: one with a tile, one without.
    select(&mut b.draw, TILES, &[(5, 5), (6, 6)]);
    b.draw.drawing_mode = DrawingMode::Draw;
    {
        let s = look(Some((0, 0))).lock(&mut b.draw, TileResourceData::TileSet(&b.set));
        b.inspector.sync_to_state(&s, &mut b.ui);
    }
    let sent = drain_ui(&mut b.ui);
    assert_eq!(
        shown(&sent[..9]).iter().map(|s| s.1).collect::<Vec<_>>(),
        vec![false, false, true, false, false, false, false, true, true]
    );
    assert_eq!(
        sent[9],
        TileHandleEditorMessage::value(b.inspector.page_icon_field, to, None)
            .with_flags(MSG_SYNC_FLAG)
    );
    // No tool is chosen outside of the mode of the editors.
    assert!(sent[10..]
        .iter()
        .all(|m| m.data == MessageData::Decorator(DecoratorMessage::Select(false))));
    assert_eq!(sent.len(), 10 + 6);

    // A brush with a place without a page.
    select(&mut b.draw, PAGES, &[(0, 0), (9, 9)]);
    {
        let s = look(None).lock(&mut b.draw, TileResourceData::Brush(&b.brush));
        b.inspector.sync_to_state(&s, &mut b.ui);
    }
    let sent = drain_ui(&mut b.ui);
    assert_eq!(
        shown(&sent[..9]).iter().map(|s| s.1).collect::<Vec<_>>(),
        vec![false, true, false, false, false, false, true, false, false]
    );
}

fn click(on: Handle) -> UiMessage {
    UiMessage::with_data(
        on,
        MessageDirection::FromWidget,
        MessageData::Button(ButtonMessage::Click),
    )
}

fn pass(b: &mut Bench, message: &UiMessage, tile_set_at_hand: bool) {
    let data = if tile_set_at_hand {
        TileResourceData::TileSet(&b.set)
    } else {
        TileResourceData::Brush(&b.brush)
    };
    let page = if b.draw.selection_palette() == TILES {
        Some((0, 0))
    } else {
        None
    };
    let mut s: TileEditorState = look(page).lock(&mut b.draw, data);
    b.inspector
        .handle_ui_message(message, &b.ui, &mut b.sender, &mut s);
}

#[test]
fn the_inspector_passes_over_what_is_not_its_business() {
    let mut b = bench(TileResource::TileSet(1));
    select(&mut b.draw, PAGES, &[(9, 9)]);
    let atlas = b.inspector.create_atlas;
    let mut to_widget = click(atlas);
    to_widget.direction = MessageDirection::ToWidget;
    pass(&mut b, &to_widget, true);
    pass(&mut b, &click(atlas).with_flags(MSG_SYNC_FLAG), true);
    // A widget that is no part of the panel, and the panel itself.
    let stranger = b
        .ui
        .build_ctx()
        .add_node(WidgetKind::Button, WidgetBuilder::new());
    pass(&mut b, &click(stranger), true);
    let own = b.inspector.handle;
    pass(&mut b, &click(own), true);
    pass(&mut b, &click(Handle::new(5000, 1)), true);
    assert_eq!(drain(&mut b.sender), vec![]);
    assert!(!b.draw.dirty);
}

#[test]
fn the_buttons_that_make_pages_ask_for_them_where_none_are() {
    let mut b = bench(TileResource::TileSet(1));
    select(&mut b.draw, PAGES, &[(0, 0), (9, 9), (40000, 1)]);
    let sources = [
        (
            b.inspector.create_atlas,
            TileSetPageSource::Material(TileMaterial {
                material: 0,
                tile_width: 16,
                tile_height: 16,
            }),
        ),
        (b.inspector.create_free, TileSetPageSource::Freeform),
        (b.inspector.create_transform, TileSetPageSource::Transform),
    ];
    for (button, source) in sources {
        pass(&mut b, &click(button), true);
        // The place beyond the range of an icon gets no page.
        assert_eq!(
            drain(&mut b.sender),
            vec![Message::DoCommandGroup(CommandGroup {
                commands: vec![Command::SetTileSetPage {
                    tile_set: 1,
                    position: (9, 9),
                    icon: TileDefinitionHandle::new(9, 9, 0, -1),
                    source,
                }],
                custom_name: "Create Tile Set Page".to_string(),
            })]
        );
    }
    // The button for brushes does nothing on a tile set.
    let page = b.inspector.create_page;
    pass(&mut b, &click(page), true);
    assert_eq!(drain(&mut b.sender), vec![]);

    let mut b = bench(TileResource::Brush(2));
    select(&mut b.draw, PAGES, &[(0, 0), (3, 3)]);
    let page = b.inspector.create_page;
    pass(&mut b, &click(page), false);
    assert_eq!(
        drain(&mut b.sender),
        vec![Message::DoCommandGroup(CommandGroup {
            commands: vec![Command::SetBrushPage {
                brush: 2,
                position: (3, 3),
                icon: TileDefinitionHandle::new(0, 0, 0, -1),
            }],
            custom_name: "Create Brush Page".to_string(),
        })]
    );
    let atlas = b.inspector.create_atlas;
    pass(&mut b, &click(atlas), false);
    assert_eq!(drain(&mut b.sender), vec![]);
}

#[test]
fn the_button_that_makes_tiles_makes_them_as_the_page_has_them() {
    let mut b = bench(TileResource::TileSet(1));
    select(&mut b.draw, TILES, &[(5, 5), (6, 6)]);
    let create = b.inspector.create_tile;
    pass(&mut b, &click(create), true);
    assert_eq!(
        drain(&mut b.sender),
        vec![Message::DoCommand(Command::SetTileSetTiles {
            tile_set: 1,
            tiles: vec![(
                TileDefinitionHandle::new(0, 0, 6, 6),
                NewTile::MaterialTile
            )],
        })]
    );
    // On a page of free tiles the tiles are free; on a page of transforms
    // there are none to make.
    let state = look(Some((1, 0)));
    {
        let s = state.lock(&mut b.draw, TileResourceData::TileSet(&b.set));
        b.inspector.create_tile(&s, &mut b.sender);
    }
    let state = look(Some((2, 0)));
    {
        let s = state.lock(&mut b.draw, TileResourceData::TileSet(&b.set));
        b.inspector.create_tile(&s, &mut b.sender);
    }
    assert_eq!(
        drain(&mut b.sender),
        vec![
            Message::DoCommand(Command::SetTileSetTiles {
                tile_set: 1,
                tiles: vec![(
                    TileDefinitionHandle::new(1, 0, 6, 6),
                    NewTile::FreeformTile
                )],
            }),
            Message::DoCommand(Command::SetTileSetTiles {
                tile_set: 1,
                tiles: vec![],
            }),
        ]
    );
    let mut b = bench(TileResource::Brush(2));
    select(&mut b.draw, TILES, &[(6, 6)]);
    let create = b.inspector.create_tile;
    pass(&mut b, &click(create), true);
    assert_eq!(drain(&mut b.sender), vec![]);
}

#[test]
fn the_button_of_an_editor_makes_it_the_tool_or_ends_its_turn() {
    let mut b = bench(TileResource::TileSet(1));
    let first = b.inspector.tile_editors[0];
    let other = b.inspector.property_editors.editors[1].1;
    pass(&mut b, &click(first.draw_button), true);
    assert_eq!(b.draw.active_editor, Some(first));
    assert_eq!(b.draw.drawing_mode, DrawingMode::Editor);
    assert!(b.draw.dirty);
    pass(&mut b, &click(other.draw_button), true);
    assert_eq!(b.draw.active_editor, Some(other));
    assert_eq!(b.draw.drawing_mode, DrawingMode::Editor);
    b.draw.dirty = false;
    pass(&mut b, &click(other.draw_button), true);
    assert_eq!(b.draw.active_editor, None);
    assert_eq!(b.draw.drawing_mode, DrawingMode::Pick);
    assert!(b.draw.dirty);
    // A click on something else in the panel changes nothing.
    b.draw.dirty = false;
    let label = b.ui.node(b.inspector.tile_set_page_creator).children[0];
    pass(&mut b, &click(label), true);
    assert!(!b.draw.dirty);
    assert_eq!(drain(&mut b.sender), vec![]);
}

#[test]
fn the_fields_of_the_page_ask_for_what_they_report() {
    let mut b = bench(TileResource::TileSet(1));
    select(&mut b.draw, PAGES, &[(0, 0), (9, 9)]);
    let from = MessageDirection::FromWidget;
    let i = (
        b.inspector.page_material_inspector.field,
        b.inspector.tile_size_inspector.field,
        b.inspector.page_icon_field,
    );
    pass(&mut b, &MaterialFieldMessage::material(i.0, from, 44), true);
    pass(&mut b, &Vec2EditorMessage::value(i.1, from, 8, 12), true);
    pass(
        &mut b,
        &TileHandleEditorMessage::value(i.2, from, Some(icon(6))),
        true,
    );
    let sent = drain(&mut b.sender);
    assert_eq!(
        sent[..2],
        [
            Message::DoCommand(Command::ModifyPageMaterial {
                tile_set: 1,
                page: (0, 0),
                material: 44
            }),
            Message::DoCommand(Command::ModifyPageTileSize {
                tile_set: 1,
                page: (0, 0),
                width: 8,
                height: 12
            }),
        ]
    );
    match &sent[2] {
        Message::DoCommandGroup(group) => {
            assert_eq!(group.custom_name, "Modify Tile Page Icon");
            let mut pages: Vec<(i32, i32)> = group
                .commands
                .iter()
                .map(|c| match c {
                    Command::ModifyPageIcon {
                        tile_set: 1,
                        page,
                        icon: i,
                    } if *i == icon(6) => *page,
                    other => panic!("not a change of icon: {:?}", other),
                })
                .collect();
            pages.sort();
            assert_eq!(pages, vec![(0, 0), (9, 9)]);
        }
        other => panic!("not a group: {:?}", other),
    }
    assert_eq!(sent.len(), 3);
    // Reports from other fields, an icon that is none, and a selection
    // without one page of a picture ask for nothing.
    pass(&mut b, &MaterialFieldMessage::material(i.1, from, 44), true);
    pass(&mut b, &Vec2EditorMessage::value(i.0, from, 8, 12), true);
    pass(&mut b, &TileHandleEditorMessage::value(i.2, from, None), true);
    select(&mut b.draw, PAGES, &[(0, 0), (1, 0)]);
    pass(&mut b, &MaterialFieldMessage::material(i.0, from, 44), true);
    pass(&mut b, &Vec2EditorMessage::value(i.1, from, 8, 12), true);
    assert_eq!(drain(&mut b.sender), vec![]);
    // On a brush the icon goes to the pages of the brush.
    let mut b = bench(TileResource::Brush(2));
    select(&mut b.draw, PAGES, &[(0, 1)]);
    let field = b.inspector.page_icon_field;
    pass(
        &mut b,
        &TileHandleEditorMessage::value(field, from, Some(icon(6))),
        false,
    );
    assert_eq!(
        drain(&mut b.sender),
        vec![Message::DoCommandGroup(CommandGroup {
            commands: vec![Command::ModifyBrushPageIcon {
                brush: 2,
                page: (0, 1),
                icon: icon(6)
            }],
            custom_name: "Modify Tile Page Icon".to_string(),
        })]
    );
    let mut b = bench(TileResource::Empty);
    select(&mut b.draw, PAGES, &[(0, 1)]);
    let field = b.inspector.page_icon_field;
    pass(
        &mut b,
        &TileHandleEditorMessage::value(field, from, Some(icon(6))),
        false,
    );
    assert_eq!(drain(&mut b.sender), vec![]);
}

#[test]
fn another_resource_brings_the_editors_in_line() {
    let mut b = bench(TileResource::TileSet(1));
    drain_ui(&mut b.ui);
    let mut other = tile_set();
    other.properties = vec![TileSetPropertyLayer { uuid: 12 }];
    let before = b.ui.alive_count();
    {
        let s = look(None).lock(&mut b.draw, TileResourceData::TileSet(&other));
        b.inspector
            .set_tile_resource(TileResource::TileSet(3), &s, &mut b.ui);
    }
    assert_eq!(b.inspector.tile_resource, TileResource::TileSet(3));
    assert_eq!(
        b.inspector
            .property_editors
            .editors
            .iter()
            .map(|e| e.0)
            .collect::<Vec<_>>(),
        vec![12]
    );
    assert_eq!(b.inspector.collider_editors.editors.len(), 1);
    assert_eq!(b.ui.alive_count(), before + 2);
    let sent = drain_ui(&mut b.ui);
    // Two editors leave, one comes, and then the widgets follow the state.
    let to = MessageDirection::ToWidget;
    assert_eq!(sent[0].data, MessageData::Widget(WidgetMessage::Remove));
    assert_eq!(sent[1].data, MessageData::Widget(WidgetMessage::Remove));
    assert_eq!(
        sent[2],
        WidgetMessage::link(
            b.inspector.property_editors.editors[0].1.handle,
            to,
            b.inspector.property_editors.content
        )
    );
    assert_eq!(sent.len(), 3 + 10 + 5);
    {
        let s = look(None).lock(&mut b.draw, TileResourceData::TileSet(&other));
        b.inspector.sync_to_model(&s, &mut b.ui);
    }
    assert_eq!(drain_ui(&mut b.ui).len(), 10 + 5);
}

#[test]
fn the_entries_for_some_tiles_come_in_the_order_of_the_tiles() {
    let on = |x, y| TileDefinitionHandle::new(0, 0, x, y);
    let entries = vec![(on(1, 1), 10), (on(2, 2), 20), (on(1, 1), 11), (on(3, 3), 30)];
    assert_eq!(find_tile_entry(&entries, on(1, 1)), Some(10));
    assert_eq!(find_tile_entry(&entries, on(3, 3)), Some(30));
    assert_eq!(find_tile_entry(&entries, on(4, 4)), None);
    assert_eq!(
        pick(&vec![on(3, 3), on(9, 9), on(1, 1), on(3, 3)], &entries),
        vec![(on(3, 3), 30), (on(1, 1), 10), (on(3, 3), 30)]
    );
    assert_eq!(pick(&vec![], &entries), vec![]);
    assert_eq!(pick(&vec![on(1, 1)], &Vec::<(TileDefinitionHandle, u8)>::new()), vec![]);
    let set = tile_set();
    assert_eq!(set.tile_bounds(on(5, 5)), Some(square(160, 160, 32)));
    assert_eq!(set.tile_bounds(on(6, 6)), None);
    assert_eq!(
        set.tile_redirect(TileDefinitionHandle::new(2, 0, 8, 8)),
        Some(TileDefinitionHandle::new(1, 0, 5, 5))
    );
    assert_eq!(set.tile_redirect(on(5, 5)), None);
    assert_eq!(
        brush().tile_redirect(TileDefinitionHandle::new(0, 1, 6, 6)),
        Some(TileDefinitionHandle::new(1, 0, 5, 5))
    );
}

#[test]
fn selected_tiles_come_with_their_place_in_the_picture() {
    let set = tile_set();
    let mut draw = TileDrawState::default();
    select(&mut draw, TILES, &[(5, 5), (6, 6), (7, 7), (40000, 7)]);
    let s = look(Some((0, 0))).lock(&mut draw, TileResourceData::TileSet(&set));
    let mut bounds = s.tile_material_bounds();
    bounds.sort_by_key(|b| b.0.tile());
    assert_eq!(
        bounds,
        vec![
            (TileDefinitionHandle::new(0, 0, 5, 5), square(160, 160, 32)),
            (TileDefinitionHandle::new(0, 0, 7, 7), square(224, 224, 32)),
        ]
    );
    drop(s);
    // On another page, without a page, or without a tile set: none.
    let s = look(Some((1, 0))).lock(&mut draw, TileResourceData::TileSet(&set));
    assert!(s.tile_material_bounds().is_empty());
    drop(s);
    let s = look(None).lock(&mut draw, TileResourceData::TileSet(&set));
    assert!(s.tile_material_bounds().is_empty());
    drop(s);
    let b = brush();
    let s = look(Some((0, 0))).lock(&mut draw, TileResourceData::Brush(&b));
    assert!(s.tile_material_bounds().is_empty());
}

#[test]
fn selected_tiles_come_with_the_tiles_that_they_stand_for() {
    let set = tile_set();
    let b = brush();
    let mut draw = TileDrawState::default();
    select(&mut draw, TILES, &[(5, 5), (6, 6), (8, 8)]);
    let s = look(Some((2, 0))).lock(&mut draw, TileResourceData::TileSet(&set));
    let mut pairs = s.tile_redirect();
    pairs.sort_by_key(|p| p.0.tile());
    assert_eq!(
        pairs,
        vec![
            (
                TileDefinitionHandle::new(2, 0, 6, 6),
                TileDefinitionHandle::new(0, 0, 5, 5)
            ),
            (
                TileDefinitionHandle::new(2, 0, 8, 8),
                TileDefinitionHandle::new(1, 0, 5, 5)
            ),
        ]
    );
    drop(s);
    // With a brush at hand the tiles of the brush are asked.
    let s = look(Some((0, 1))).lock(&mut draw, TileResourceData::Brush(&b));
    assert_eq!(
        s.tile_redirect(),
        vec![(
            TileDefinitionHandle::new(0, 1, 6, 6),
            TileDefinitionHandle::new(1, 0, 5, 5)
        )]
    );
    drop(s);
    let s = look(Some((0, 1))).lock(&mut draw, TileResourceData::Empty);
    assert!(s.tile_redirect().is_empty());
    drop(s);
    let s = look(None).lock(&mut draw, TileResourceData::TileSet(&set));
    assert!(s.tile_redirect().is_empty());
}

#[test]
fn the_widgets_that_the_inspector_names_are_different_widgets() {
    let b = bench(TileResource::TileSet(1));
    let i = &b.inspector;
    let mut all = vec![
        i.handle,
        i.tile_set_page_creator,
        i.brush_page_creator,
        i.create_tile,
        i.create_page,
        i.create_atlas,
        i.create_free,
        i.create_transform,
        i.page_material_field,
        i.page_material_inspector.handle,
        i.tile_size_inspector.field,
        i.tile_size_inspector.handle,
        i.page_icon_field,
    ];
    assert_ne!(i.page_material_inspector.handle, i.page_material_inspector.field);
    for group in [&i.property_editors, &i.collider_editors] {
        all.push(group.handle);
        all.push(group.content);
    }
    for editor in i.editors() {
        assert_ne!(editor.handle, editor.draw_button);
        all.push(editor.handle);
        all.push(editor.draw_button);
    }
    assert_eq!(all.len(), 13 + 4 + 2 * 6);
    let different: std::collections::HashSet<Handle> = all.iter().copied().collect();
    assert_eq!(different.len(), all.len());
    assert!(all.iter().all(|h| b.ui.try_get(*h).is_some()));
}
