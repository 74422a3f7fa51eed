use editor_core::command::Message;
use editor_core::handle::Handle;
use editor_core::message::{
    DelayedMessage, MessageData, MessageDirection, OpenTilePanelMessage, UiMessage, WidgetMessage,
};
use editor_core::tilemap::tiles::{Stamp, TileDefinitionHandle, TileResource};
use editor_core::tilemap::{
    make_button, make_drawing_mode_button, DrawingMode, PluginRequest, SceneFacts,
    SelectionSource, TileDrawState, TileDrawStateRef, TileEditorRef, TileMapEditorPlugin,
    TileMapPanel, TileSetEditor,
};
use editor_core::ui::UserInterface;
use editor_core::widget::WidgetKind;

fn drain_ui(ui: &mut UserInterface) -> Vec<UiMessage> {
    let mut out = Vec::new();
    while let Some(m) = ui.poll_message() {
        out.push(m);
    }
    out
}

fn tile(x: i16, y: i16) -> TileDefinitionHandle {
    TileDefinitionHandle::new(0, 0, x, y)
}

#[test]
fn a_tile_handle_takes_only_coordinates_that_fit() {
    assert_eq!(
        TileDefinitionHandle::try_new((1, -2), (3, 4)),
        Some(TileDefinitionHandle::new(1, -2, 3, 4))
    );
    assert_eq!(
        TileDefinitionHandle::try_new((32767, -32768), (-32768, 32767)),
        Some(TileDefinitionHandle::new(32767, -32768, -32768, 32767))
    );
    assert_eq!(TileDefinitionHandle::try_new((32768, 0), (0, 0)), None);
    assert_eq!(TileDefinitionHandle::try_new((0, -32769), (0, 0)), None);
    assert_eq!(TileDefinitionHandle::try_new((0, 0), (i32::MAX, 0)), None);
    assert_eq!(TileDefinitionHandle::try_new((0, 0), (0, i32::MIN)), None);
    let h = TileDefinitionHandle::new(1, -2, 3, 4);
    assert_eq!(h.page(), (1, -2));
    assert_eq!(h.tile(), (3, 4));
    assert!(TileResource::Empty.is_empty());
    assert!(!TileResource::TileSet(1).is_empty());
    assert!(!TileResource::Brush(1).is_empty());
}

#[test]
fn the_state_of_drawing_starts_clean() {
    let s = TileDrawState::default();
    assert!(!s.dirty);
    assert_eq!(s.tile_set, None);
    assert!(s.stamp.is_empty());
    assert_eq!(s.drawing_mode, DrawingMode::Draw);
    assert_eq!(s.active_editor, None);
    assert!(s.visible_colliders.is_empty());
    assert!(!s.random_mode);
    assert!(!s.has_selection());
    assert_eq!(s.selection.page, (0, 0));
    assert_eq!(s.selection_palette(), Handle::none());
    assert_eq!(s.selection_node(), Handle::none());
    assert_eq!(DrawingMode::default(), DrawingMode::Draw);
    assert_eq!(SelectionSource::default(), SelectionSource::Unset);
}

#[test]
fn the_selection_comes_from_a_palette_or_from_a_node() {
    let mut s = TileDrawState::default();
    s.set_palette(Handle::new(3, 1));
    assert_eq!(s.selection.source, SelectionSource::Widget(Handle::new(3, 1)));
    assert_eq!(s.selection_palette(), Handle::new(3, 1));
    assert_eq!(s.selection_node(), Handle::none());
    s.set_node(Handle::new(4, 2));
    assert_eq!(s.selection_palette(), Handle::none());
    assert_eq!(s.selection_node(), Handle::new(4, 2));
    assert!(!s.dirty);
}

#[test]
fn selected_cells_can_be_read_changed_and_cleared() {
    let mut s = TileDrawState::default();
    assert!(s.selection_positions().is_empty());
    s.selection_positions_mut().insert((1, 2));
    s.selection_positions_mut().insert((3, 4));
    s.selection_positions_mut().insert((1, 2));
    assert!(s.has_selection());
    assert_eq!(s.selection_positions().len(), 2);
    assert!(s.selection_positions().contains(&(3, 4)));
    assert!(!s.dirty);
    s.set_palette(Handle::new(3, 1));
    s.stamp.build(vec![((1, 2), tile(0, 0))]);
    s.clear_selection();
    assert!(!s.has_selection());
    assert!(s.selection_positions().is_empty());
    assert!(s.stamp.is_empty());
    assert_eq!(s.selection.source, SelectionSource::Unset);
}

#[test]
fn colliders_are_shown_and_hidden_one_by_one() {
    let mut s = TileDrawState::default();
    s.set_visible_collider(7, true);
    s.set_visible_collider(8, true);
    s.set_visible_collider(7, true);
    assert_eq!(s.visible_colliders.len(), 2);
    s.set_visible_collider(7, false);
    s.set_visible_collider(9, false);
    assert_eq!(
        s.visible_colliders.iter().copied().collect::<Vec<u128>>(),
        vec![8]
    );
    assert!(!s.dirty);
}

#[test]
fn the_active_editor_is_the_one_that_was_set() {
    let mut s = TileDrawState::default();
    let a = TileEditorRef {
        handle: Handle::new(1, 1),
        draw_button: Handle::new(2, 1),
    };
    let b = TileEditorRef {
        handle: Handle::new(3, 1),
        draw_button: Handle::new(2, 1),
    };
    assert!(!s.is_active_editor(&a));
    s.active_editor = Some(a);
    assert!(s.is_active_editor(&a));
    assert!(!s.is_active_editor(&b));
}

#[test]
fn the_stamp_holds_the_selected_cells_that_have_a_tile() {
    let mut s = TileDrawState::default();
    for p in [(0, 0), (1, 0), (2, 0), (3, 7)] {
        s.selection_positions_mut().insert(p);
    }
    s.update_stamp(Some(5), |p: (i32, i32)| {
        if p.0 % 2 == 0 {
            TileDefinitionHandle::try_new((9, 9), p)
        } else {
            None
        }
    });
    assert_eq!(s.tile_set, Some(5));
    let mut tiles = s.stamp.tiles.clone();
    tiles.sort_by_key(|t| t.0);
    assert_eq!(
        tiles,
        vec![
            ((0, 0), TileDefinitionHandle::new(9, 9, 0, 0)),
            ((2, 0), TileDefinitionHandle::new(9, 9, 2, 0)),
        ]
    );
    assert_eq!(s.selection_positions().len(), 4);
    s.update_stamp(None, |_p: (i32, i32)| None);
    assert!(s.stamp.is_empty());
    assert_eq!(s.tile_set, None);
    let mut stamp = Stamp::new();
    stamp.build(vec![((1, 1), tile(1, 1))]);
    assert!(!stamp.is_empty());
    stamp.clear();
    assert!(stamp.is_empty());
}

#[test]
fn borrowing_the_state_for_change_marks_it_dirty() {
    let mut r = TileDrawStateRef::default();
    assert!(!r.lock().state().dirty);
    assert!(!r.check_dirty());
    {
        let guard = r.lock_mut("a change");
        assert!(guard.state().dirty);
        guard.0.drawing_mode = DrawingMode::Line;
    }
    assert_eq!(r.lock().state().drawing_mode, DrawingMode::Line);
    assert!(r.check_dirty());
    assert!(!r.check_dirty());
    {
        let mut guard = r.lock_mut("another");
        guard.state_mut().random_mode = true;
        let read = guard.into_const();
        assert!(read.state().random_mode);
        assert!(read.0.dirty);
    }
    assert!(r.0.random_mode);
    assert!(r.check_dirty());
    assert!(!r.lock().0.dirty);
    // Who reads may take the right to change, and the state is dirty then.
    {
        let read = r.lock();
        assert!(!read.state().dirty);
        let mut change = read.into_mut("a change after all");
        assert!(change.state().dirty);
        change.state_mut().drawing_mode = DrawingMode::Pick;
    }
    assert_eq!(r.0.drawing_mode, DrawingMode::Pick);
    assert!(r.check_dirty());
    // A guard stands for the state that it guards.
    {
        let read = r.lock();
        assert_eq!(read.drawing_mode, DrawingMode::Pick);
        assert!(!read.has_selection());
        let mut change = read.into_mut("one more");
        assert!(change.dirty);
        change.random_mode = false;
        change.set_palette(Handle::new(9, 1));
        assert_eq!(change.selection_palette(), Handle::new(9, 1));
    }
    assert!(!r.0.random_mode);
    assert_eq!(r.0.selection_palette(), Handle::new(9, 1));
}

#[test]
fn the_buttons_of_the_panels() {
    let mut ui = UserInterface::new();
    let b = make_button("Flip", "Flip the tiles", false, ui.build_ctx());
    let w = ui.node(b);
    assert_eq!(w.kind, WidgetKind::Button);
    assert_eq!((w.text.as_str(), w.tooltip.as_str()), ("Flip", "Flip the tiles"));
    assert!(!w.enabled);
    let tool = make_drawing_mode_button(ui.build_ctx(), "brush", "Draw with tiles");
    let w = ui.node(tool);
    assert_eq!(w.tooltip, "Draw with tiles");
    assert_eq!(w.children.len(), 2);
    assert_eq!(ui.node(w.children[0]).kind, WidgetKind::Decorator);
    assert_eq!(ui.node(w.children[1]).kind, WidgetKind::Image);
    assert_eq!(ui.node(w.children[1]).name, "brush");
    assert_eq!(ui.alive_count(), 5);
    ui.remove_node(tool);
    assert_eq!(ui.alive_count(), 2);
}

fn plugin() -> TileMapEditorPlugin {
    let p = TileMapEditorPlugin::new();
    assert!(p.tile_set_editor.is_none() && p.panel.is_none());
    assert!(p.tile_map.is_none());
    p
}

const EDITOR: TileSetEditor = TileSetEditor {
    window: Handle {
        index: 60,
        generation: 1,
    },
};
const PANEL: TileMapPanel = TileMapPanel {
    window: Handle {
        index: 61,
        generation: 1,
    },
};
const SPARE: TileMapPanel = TileMapPanel {
    window: Handle {
        index: 62,
        generation: 1,
    },
};

#[test]
fn a_tool_that_has_lost_its_panel_gives_way_to_the_pick() {
    let a = TileEditorRef {
        handle: Handle::new(1, 1),
        draw_button: Handle::new(2, 1),
    };
    // (mode, active editor, editor open, panel open) -> (mode, active, dirty)
    let cases = [
        (DrawingMode::Pick, None, false, false, DrawingMode::Pick, None, false),
        (DrawingMode::Pick, Some(a), false, false, DrawingMode::Pick, None, true),
        (DrawingMode::Draw, None, false, false, DrawingMode::Pick, None, true),
        (DrawingMode::Draw, None, true, false, DrawingMode::Pick, None, true),
        (DrawingMode::Draw, None, false, true, DrawingMode::Draw, None, false),
        (DrawingMode::Line, Some(a), false, true, DrawingMode::Line, None, true),
        (DrawingMode::Editor, Some(a), true, false, DrawingMode::Editor, Some(a), false),
        (DrawingMode::Editor, Some(a), false, true, DrawingMode::Pick, None, true),
        (DrawingMode::Editor, None, true, true, DrawingMode::Editor, None, false),
    ];
    for (mode, active, editor, panel, mode_after, active_after, dirty) in cases {
        let mut p = plugin();
        p.state.0.drawing_mode = mode;
        p.state.0.active_editor = active;
        p.tile_set_editor = if editor { Some(EDITOR) } else { None };
        p.panel = if panel { Some(PANEL) } else { None };
        p.update_state();
        assert_eq!(p.state.0.drawing_mode, mode_after);
        assert_eq!(p.state.0.active_editor, active_after);
        assert_eq!(p.state.0.dirty, dirty);
    }
}

fn note(index: u32) -> UiMessage {
    WidgetMessage::remove(Handle::new(index, 1), MessageDirection::ToWidget)
}

fn delayed(frames: usize, index: u32) -> DelayedMessage {
    DelayedMessage {
        delay_frames: frames,
        content: note(index),
    }
}

#[test]
fn delayed_messages_are_sent_when_their_time_has_come() {
    let mut ui = UserInterface::new();
    let mut p = plugin();
    p.delayed_messages = vec![
        delayed(1, 1),
        delayed(3, 2),
        delayed(0, 3),
        delayed(2, 4),
        delayed(1, 5),
    ];
    p.send_delayed_messages(&mut ui);
    // The sweep takes a message out by putting the last in its place, and
    // looks at that one next: 1 goes, 5 takes its place and goes, 4 takes
    // its place and stays, and then 3 goes.
    assert_eq!(drain_ui(&mut ui), vec![note(1), note(5), note(3)]);
    assert_eq!(p.delayed_messages, vec![delayed(1, 4), delayed(2, 2)]);
    p.send_delayed_messages(&mut ui);
    assert_eq!(drain_ui(&mut ui), vec![note(4)]);
    assert_eq!(p.delayed_messages, vec![delayed(1, 2)]);
    p.send_delayed_messages(&mut ui);
    assert_eq!(drain_ui(&mut ui), vec![note(2)]);
    assert!(p.delayed_messages.is_empty());
    p.send_delayed_messages(&mut ui);
    assert_eq!(drain_ui(&mut ui), vec![]);
}

#[test]
fn a_delayed_message_is_kept_and_any_other_is_handed_on() {
    let mut p = plugin();
    let wrapped = DelayedMessage::message(2, note(9));
    assert_eq!(wrapped.destination, Handle::none());
    assert!(p.on_ui_message(wrapped, SPARE).is_empty());
    assert_eq!(p.delayed_messages, vec![delayed(2, 9)]);
    // Nothing is open: nobody to hand a message to.
    assert!(p.on_ui_message(note(1), SPARE).is_empty());
    p.tile_set_editor = Some(EDITOR);
    assert_eq!(
        p.on_ui_message(note(1), SPARE),
        vec![PluginRequest::ToTileSetEditor]
    );
    p.panel = Some(PANEL);
    assert_eq!(
        p.on_ui_message(note(1), SPARE),
        vec![PluginRequest::ToTileSetEditor, PluginRequest::ToPanel]
    );
    assert_eq!(p.panel, Some(PANEL));
    assert_eq!(p.delayed_messages.len(), 1);
}

#[test]
fn a_request_for_the_panel_opens_it_beside_the_editor() {
    let focus = TileDefinitionHandle::new(1, 2, 3, 4);
    let open = |center| OpenTilePanelMessage::message(TileResource::TileSet(8), center);
    assert_eq!(
        open(Some(focus)).data,
        MessageData::OpenTilePanel(OpenTilePanelMessage {
            resource: TileResource::TileSet(8),
            center: Some(focus)
        })
    );
    // Without an editor of tile sets there is nothing to open it beside.
    let mut p = plugin();
    assert!(p.on_ui_message(open(Some(focus)), SPARE).is_empty());
    assert_eq!(p.panel, None);
    p.tile_set_editor = Some(EDITOR);
    assert_eq!(
        p.on_ui_message(open(Some(focus)), SPARE),
        vec![
            PluginRequest::ToTileSetEditor,
            PluginRequest::BuildPanel {
                beside: EDITOR.window
            },
            PluginRequest::SetPanelResource(TileResource::TileSet(8)),
            PluginRequest::SetPanelFocus(focus),
            PluginRequest::ToPanel,
        ]
    );
    assert_eq!(p.panel, Some(SPARE));
    assert_eq!(
        p.on_ui_message(open(None), PANEL),
        vec![
            PluginRequest::ToTileSetEditor,
            PluginRequest::PanelToTop,
            PluginRequest::SetPanelResource(TileResource::TileSet(8)),
            PluginRequest::ToPanel,
        ]
    );
    assert_eq!(p.panel, Some(SPARE));
    assert_eq!(
        p.open_panel_for_tile_set(TileResource::Brush(2), None, PANEL),
        vec![
            PluginRequest::PanelToTop,
            PluginRequest::SetPanelResource(TileResource::Brush(2))
        ]
    );
}

#[test]
fn the_panel_for_a_tile_map_opens_beside_the_view_of_the_scene() {
    let viewer = Handle::new(70, 1);
    let mut p = plugin();
    assert_eq!(
        p.open_panel_for_tile_map(TileResource::Brush(3), viewer, SPARE),
        vec![
            PluginRequest::BuildPanel { beside: viewer },
            PluginRequest::SetPanelResource(TileResource::Brush(3)),
        ]
    );
    assert_eq!(p.panel, Some(SPARE));
    assert_eq!(
        p.open_panel_for_tile_map(TileResource::TileSet(4), viewer, PANEL),
        vec![
            PluginRequest::PanelToTop,
            PluginRequest::SetPanelResource(TileResource::TileSet(4)),
        ]
    );
    assert_eq!(p.panel, Some(SPARE));
}

#[test]
fn a_frame_sends_what_is_due_and_syncs_what_has_changed() {
    let mut ui = UserInterface::new();
    let mut p = plugin();
    p.tile_set_editor = Some(EDITOR);
    p.panel = Some(PANEL);
    p.delayed_messages = vec![delayed(1, 1)];
    // Nothing has changed: only the editor has its turn.
    assert_eq!(p.on_update(&mut ui), vec![PluginRequest::UpdateTileSetEditor]);
    assert_eq!(drain_ui(&mut ui), vec![note(1)]);
    p.state.lock_mut("a change");
    assert_eq!(
        p.on_update(&mut ui),
        vec![
            PluginRequest::UpdateTileSetEditor,
            PluginRequest::SyncTileSetEditorToState,
            PluginRequest::SyncPanelToState,
            PluginRequest::SyncInteractionModeToState,
        ]
    );
    assert!(!p.state.0.dirty);
    assert_eq!(p.on_update(&mut ui), vec![PluginRequest::UpdateTileSetEditor]);
    // A tool that loses its panel makes the state dirty by itself.
    p.panel = None;
    p.tile_set_editor = None;
    assert_eq!(
        p.on_update(&mut ui),
        vec![PluginRequest::SyncInteractionModeToState]
    );
    assert_eq!(p.state.0.drawing_mode, DrawingMode::Pick);
    assert!(p.on_update(&mut ui).is_empty());
}

#[test]
fn the_plugin_saves_on_exit_and_registers_on_start() {
    let mut p = plugin();
    assert_eq!(p.on_start(), vec![PluginRequest::RegisterPreview]);
    assert!(p.on_exit().is_empty());
    assert!(p.on_mode_changed().is_empty());
    p.on_suspended();
    p.tile_set_editor = Some(EDITOR);
    assert_eq!(p.on_exit(), vec![PluginRequest::SaveTileSet]);
    assert_eq!(p.on_mode_changed(), vec![PluginRequest::SaveTileSet]);
    p.state.0.set_palette(Handle::new(5, 1));
    assert_eq!(
        p.on_sync_to_model(),
        vec![
            PluginRequest::SyncPaletteSelection(Handle::new(5, 1)),
            PluginRequest::SyncTileSetEditorToModel,
        ]
    );
    p.panel = Some(PANEL);
    p.tile_set_editor = None;
    p.state.0.set_node(Handle::new(5, 1));
    assert_eq!(
        p.on_sync_to_model(),
        vec![
            PluginRequest::SyncPaletteSelection(Handle::none()),
            PluginRequest::SyncPanelToModel,
        ]
    );
}

const MODE: u128 = 0xabcdef;

fn facts<'a>(
    selected: Option<&'a Vec<Handle>>,
    resource: Option<TileResource>,
) -> SceneFacts<'a> {
    SceneFacts {
        selected_nodes: selected,
        tile_map_resource: resource,
        scene_viewer: Handle::new(70, 1),
        tile_map_mode: MODE,
    }
}

#[test]
fn opening_a_tile_set_builds_the_editor_once() {
    let mut p = plugin();
    let never = |_h: Handle| false;
    let f = facts(None, None);
    assert_eq!(
        p.on_message(&Message::OpenTileSetEditor(3), &f, EDITOR, SPARE, never),
        vec![
            PluginRequest::BuildTileSetEditor(TileResource::TileSet(3)),
            PluginRequest::SetTileSetEditorResource(TileResource::TileSet(3)),
        ]
    );
    assert_eq!(p.tile_set_editor, Some(EDITOR));
    let other = TileSetEditor {
        window: Handle::new(99, 1),
    };
    assert_eq!(
        p.on_message(&Message::OpenTileMapBrushEditor(4), &f, other, SPARE, never),
        vec![PluginRequest::SetTileSetEditorResource(TileResource::Brush(4))]
    );
    assert_eq!(p.tile_set_editor, Some(EDITOR));
    assert!(p
        .on_message(&Message::RedoCurrentSceneCommand, &f, other, SPARE, never)
        .is_empty());
}

#[test]
fn the_way_of_working_on_tile_maps_opens_the_panel() {
    let never = |_h: Handle| false;
    let mode = Message::SetInteractionMode(MODE);
    let mut p = plugin();
    // No tile map, or a tile map with nothing to draw with: no panel.
    assert!(p
        .on_message(&mode, &facts(None, None), EDITOR, SPARE, never)
        .is_empty());
    let empty = facts(None, Some(TileResource::Empty));
    assert!(p.on_message(&mode, &empty, EDITOR, SPARE, never).is_empty());
    let other_mode = Message::SetInteractionMode(MODE + 1);
    let brush = facts(None, Some(TileResource::Brush(6)));
    assert!(p.on_message(&other_mode, &brush, EDITOR, SPARE, never).is_empty());
    assert_eq!(p.panel, None);
    assert_eq!(
        p.on_message(&mode, &brush, EDITOR, SPARE, never),
        vec![
            PluginRequest::BuildPanel {
                beside: Handle::new(70, 1)
            },
            PluginRequest::SetPanelResource(TileResource::Brush(6)),
        ]
    );
    assert_eq!(p.panel, Some(SPARE));
    // With a panel open nothing more is asked.
    assert!(p.on_message(&mode, &brush, EDITOR, PANEL, never).is_empty());
    assert_eq!(p.panel, Some(SPARE));
}

#[test]
fn a_change_of_the_selection_moves_the_editing_to_the_first_tile_map() {
    let mut p = plugin();
    p.tile_map = Handle::new(1, 1);
    let nodes = vec![
        Handle::new(5, 1),
        Handle::new(6, 1),
        Handle::new(7, 1),
        Handle::new(8, 1),
    ];
    let is_tile_map = |h: Handle| h.index == 6 || h.index == 8;
    let f = facts(Some(&nodes), None);
    assert_eq!(
        p.on_message(&Message::SelectionChanged, &f, EDITOR, SPARE, is_tile_map),
        vec![
            PluginRequest::RemoveInteractionMode,
            PluginRequest::DetachEditorData(Handle::new(1, 1)),
            PluginRequest::AttachEditorData(Handle::new(6, 1)),
            PluginRequest::AddInteractionMode(Handle::new(6, 1)),
        ]
    );
    assert_eq!(p.tile_map, Handle::new(6, 1));
    // No tile map among the selected nodes: the editing ends.
    let never = |_h: Handle| false;
    assert_eq!(
        p.on_message(&Message::SelectionChanged, &f, EDITOR, SPARE, never),
        vec![
            PluginRequest::RemoveInteractionMode,
            PluginRequest::DetachEditorData(Handle::new(6, 1)),
        ]
    );
    assert_eq!(p.tile_map, Handle::new(6, 1));
    // Without a scene in which nodes are selected nothing happens, and
    // another message changes nothing.
    let none = facts(None, None);
    assert!(p
        .on_message(&Message::SelectionChanged, &none, EDITOR, SPARE, is_tile_map)
        .is_empty());
    assert!(p
        .on_message(&Message::UndoCurrentSceneCommand, &f, EDITOR, SPARE, is_tile_map)
        .is_empty());
    assert_eq!(
        p.on_tile_map_selected(Handle::new(8, 1)),
        vec![
            PluginRequest::AttachEditorData(Handle::new(8, 1)),
            PluginRequest::AddInteractionMode(Handle::new(8, 1)),
        ]
    );
    assert_eq!(p.tile_map, Handle::new(8, 1));
}

#[test]
fn the_plugin_starts_with_the_state_that_drawing_starts_with() {
    let p = TileMapEditorPlugin::new();
    assert_eq!(p.tile_set_editor, None);
    assert_eq!(p.panel, None);
    assert_eq!(p.tile_map, Handle::none());
    assert!(p.delayed_messages.is_empty());
    let s = &p.state.0;
    assert!(!s.dirty && !s.random_mode);
    assert_eq!(s.tile_set, None);
    assert!(s.stamp.is_empty());
    assert_eq!(s.drawing_mode, DrawingMode::Draw);
    assert_eq!(s.active_editor, None);
    assert!(s.visible_colliders.is_empty());
    assert_eq!(s.selection.source, SelectionSource::Unset);
    assert_eq!(s.selection.page, (0, 0));
    assert!(s.selection.positions.is_empty());
}

#[test]
fn the_plugin_that_default_gives_is_the_new_plugin() {
    let p = TileMapEditorPlugin::default();
    assert_eq!(p.tile_set_editor, None);
    assert_eq!(p.panel, None);
    assert_eq!(p.tile_map, Handle::none());
    assert!(p.delayed_messages.is_empty());
    assert!(!p.state.0.dirty);
    assert_eq!(p.state.0.drawing_mode, DrawingMode::Draw);
    assert!(!p.state.0.has_selection());
}

#[test]
fn the_stamp_asks_for_the_tiles_of_the_selected_cells_only() {
    let mut s = TileDrawState::default();
    s.selection_positions_mut().insert((1, 1));
    s.selection_positions_mut().insert((2, 2));
    // A way to tiles that knows only the selected cells.
    s.update_stamp(Some(1), |p: (i32, i32)| match p {
        (1, 1) => Some(TileDefinitionHandle::new(0, 0, 1, 1)),
        (2, 2) => None,
        other => panic!("the cell {:?} is not selected", other),
    });
    assert_eq!(
        s.stamp.tiles,
        vec![((1, 1), TileDefinitionHandle::new(0, 0, 1, 1))]
    );
}

#[test]
fn cells_are_added_to_the_selection_one_by_one() {
    let mut s = TileDrawState::default();
    assert!(s.select((1, 2)));
    assert!(s.select((3, 4)));
    assert!(!s.select((1, 2)));
    assert!(s.has_selection());
    assert_eq!(s.selection_positions().len(), 2);
    assert!(s.selection_positions().contains(&(3, 4)));
    assert!(!s.dirty);
    s.clear_selection();
    assert!(s.select((1, 2)));
}

#[test]
fn a_sweep_sends_what_is_due_and_keeps_the_rest_whatever_the_order() {
    let mut ui = UserInterface::new();
    let mut p = TileMapEditorPlugin::new();
    // Two messages of the same content are due, and two wait with the
    // same delay.
    p.delayed_messages = vec![
        delayed(3, 7),
        delayed(1, 1),
        delayed(0, 1),
        delayed(3, 7),
        delayed(1, 2),
        delayed(2, 3),
    ];
    p.send_delayed_messages(&mut ui);
    let mut sent: Vec<u32> = drain_ui(&mut ui)
        .iter()
        .map(|m| m.destination.index)
        .collect();
    sent.sort();
    assert_eq!(sent, vec![1, 1, 2]);
    let mut waiting: Vec<(usize, u32)> = p
        .delayed_messages
        .iter()
        .map(|d| (d.delay_frames, d.content.destination.index))
        .collect();
    waiting.sort();
    assert_eq!(waiting, vec![(1, 3), (2, 7), (2, 7)]);
}
