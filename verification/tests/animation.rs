use editor_core::animation::curve::{
    send_text, send_value, send_visible, CurveData, CurveDataView, CurveKeyKind,
};
use editor_core::animation::data::{AnimationDataEditor, SceneRequest};
use editor_core::animation::thumb::{
    new_button, new_icon, new_icon_button, new_text_button, new_time_box, new_time_button,
    set_thumb, Icon, ThumbDataView,
};
use editor_core::animation::toolbar::{Toolbar, ToolbarAction, ToolbarInput};
use editor_core::animation::track::{
    TrackDataList, ValueBinding, EXPANDER_COLUMN, INTERP_TO_KEY, KEY_SIZE, LEFT_TAN_COLUMN,
    MODEL_COLUMN, MODEL_TO_VALUE, NAME_COLUMN, NEXT_COLUMN, PREV_COLUMN, RIGHT_TAN_COLUMN,
    VALUE_COLUMN, VALUE_TO_MODEL,
};
use editor_core::animation::{Animation, AnimationContainer};
use editor_core::command::{Command, CommandGroup, Message, MessageSender, SliceBound};
use editor_core::handle::Handle;
use editor_core::message::{
    ButtonMessage, CheckBoxMessage, CurveEditorMessage, DropdownListMessage, MessageData,
    MessageDirection, Number, NumericUpDownMessage, TextMessage, UiMessage, WidgetMessage,
    WindowMessage,
};
use editor_core::scene::{
    fetch_selection, AnimationSelection, SelectedEntity, Selection,
};
use editor_core::ui::{UserInterface, MSG_SYNC_FLAG};
use editor_core::widget::WidgetKind;
use fxhash::FxHashSet;

fn number(v: f32) -> Number {
    Number { bits: v.to_bits() }
}

fn animation(index: u32, name: &str, targets: &[u32]) -> Animation {
    Animation {
        handle: Handle::new(index, 1),
        name: name.to_string(),
        enabled: true,
        length: number(2.0),
        speed: number(1.5),
        time_position: number(0.75),
        targets: targets.iter().map(|t| Handle::new(*t, 1)).collect(),
    }
}

fn container() -> AnimationContainer {
    AnimationContainer {
        animations: vec![
            animation(1, "Idle", &[10, 11]),
            animation(2, "Walk", &[12, 10, 12]),
            animation(3, "Run", &[]),
        ],
    }
}

fn drain_ui(ui: &mut UserInterface) -> Vec<UiMessage> {
    let mut out = Vec::new();
    while let Some(m) = ui.poll_message() {
        out.push(m);
    }
    out
}

fn drain(sender: &mut MessageSender) -> Vec<Message> {
    let mut out = Vec::new();
    while let Some(m) = sender.poll() {
        out.push(m);
    }
    out
}

fn click(on: Handle) -> UiMessage {
    UiMessage::with_data(
        on,
        MessageDirection::FromWidget,
        MessageData::Button(ButtonMessage::Click),
    )
}

fn typed(into: Handle, value: f32) -> UiMessage {
    NumericUpDownMessage::value(into, MessageDirection::FromWidget, number(value))
}

fn input(name: &str, chosen: Option<Handle>) -> ToolbarInput {
    ToolbarInput {
        typed_name: name.to_string(),
        chosen_animation: chosen,
    }
}

fn quiet(m: UiMessage) -> UiMessage {
    m.with_flags(MSG_SYNC_FLAG)
}

const PLAYER: Handle = Handle {
    index: 100,
    generation: 1,
};

fn selected(animation: u32) -> Selection {
    Selection::Animation(AnimationSelection::new(PLAYER, Handle::new(animation, 1)))
}

#[test]
fn the_animation_that_a_selection_names() {
    let s = AnimationSelection {
        animation_player: PLAYER,
        animation: Handle::new(2, 1),
        entities: vec![SelectedEntity::Track(7), SelectedEntity::Curve(8)],
    };
    assert_eq!(fetch_selection(&Selection::Animation(s.clone())), s);
    assert_eq!(s.duplicate(), s);
    let nothing = AnimationSelection::new(Handle::none(), Handle::none());
    assert_eq!(fetch_selection(&Selection::Empty), nothing);
    let nodes = Selection::Graph(vec![Handle::new(5, 1)]);
    assert_eq!(fetch_selection(&nodes), nothing);
    assert_eq!(nodes.as_graph(), Some(&vec![Handle::new(5, 1)]));
    assert_eq!(Selection::Empty.as_graph(), None);
    assert_eq!(nodes.duplicate(), nodes);
}

#[test]
fn animations_are_found_by_their_handle() {
    let c = container();
    assert_eq!(c.find(Handle::new(2, 1)), Some(1));
    assert_eq!(c.find(Handle::new(2, 2)), None);
    assert_eq!(c.try_get(Handle::new(3, 1)).unwrap().name, "Run");
    assert!(c.try_get(Handle::none()).is_none());
    let mut c = c;
    c.enable_only(Handle::new(2, 1));
    assert_eq!(
        c.animations.iter().map(|a| a.enabled).collect::<Vec<_>>(),
        vec![false, true, false]
    );
    c.set_enabled(0, true);
    c.set_time_position(2, number(9.0));
    assert!(c.animations[0].enabled);
    assert_eq!(c.animations[2].time_position, number(9.0));
    c.animations[2].rewind();
    assert_eq!(c.animations[2].time_position, Number::zero());
    assert_eq!(Number::zero().bits, 0.0f32.to_bits());
    assert_eq!(Number::one().bits, 1.0f32.to_bits());
}

#[test]
fn the_toolbar_is_built_at_rest() {
    let mut ui = UserInterface::new();
    let t = Toolbar::new(ui.build_ctx());
    assert_eq!(ui.alive_count(), 22);
    let panel = ui.node(t.panel);
    assert_eq!(panel.kind, WidgetKind::Border);
    assert_eq!(panel.row, 0);
    let row = ui.node(panel.children[0]);
    assert_eq!(row.kind, WidgetKind::StackPanel);
    assert_eq!(row.children.len(), 13);
    assert_eq!(
        [
            row.children[0],
            row.children[1],
            row.children[2],
            row.children[3],
            row.children[4],
            row.children[5],
            row.children[7],
            row.children[9],
            row.children[10],
            row.children[11],
            row.children[12]
        ],
        [
            t.animation_name,
            t.add_animation,
            t.rename_current_animation,
            t.animations,
            t.remove_current_animation,
            t.clone_current_animation,
            t.speed,
            t.length,
            t.preview,
            t.play_pause,
            t.stop
        ]
    );
    assert_eq!(ui.node(row.children[6]).kind, WidgetKind::Image);
    assert_eq!(ui.node(row.children[8]).kind, WidgetKind::Image);
    assert_eq!(ui.node(t.animation_name).kind, WidgetKind::TextBox);
    assert_eq!(ui.node(t.animation_name).text, "New Animation");
    assert_eq!(ui.node(t.add_animation).text, "+");
    assert_eq!(ui.node(t.add_animation).tooltip, "Add New Animation");
    assert_eq!(
        ui.node(t.rename_current_animation).tooltip,
        "Rename Selected Animation"
    );
    assert_eq!(
        ui.node(t.remove_current_animation).tooltip,
        "Remove Selected Animation"
    );
    assert_eq!(
        ui.node(t.clone_current_animation).tooltip,
        "Clone Selected Animation"
    );
    assert_eq!(ui.node(t.speed).tooltip, "Animation Playback Speed");
    assert_eq!(ui.node(t.length).tooltip, "Animation Length in Seconds");
    assert_eq!(ui.node(t.stop).tooltip, "Stop Playback");
    assert_eq!(ui.node(t.animations).kind, WidgetKind::DropdownList);
    assert_eq!(ui.node(t.preview).kind, WidgetKind::CheckBox);
    assert_eq!(ui.node(t.preview).checked, Some(false));
    assert_eq!(ui.node(ui.node(t.preview).children[0]).text, "Preview");
    for h in [t.animation_name, t.add_animation, t.animations] {
        assert!(ui.node(h).enabled);
    }
    for h in [
        t.rename_current_animation,
        t.remove_current_animation,
        t.clone_current_animation,
        t.speed,
        t.length,
        t.preview,
        t.play_pause,
        t.stop,
    ] {
        assert!(!ui.node(h).enabled);
    }
    // Taking the panel away takes the whole toolbar away.
    ui.remove_node(t.panel);
    assert_eq!(ui.alive_count(), 1);
}

struct Bench {
    ui: UserInterface,
    toolbar: Toolbar,
    sender: MessageSender,
    animations: AnimationContainer,
}

fn bench() -> Bench {
    let mut ui = UserInterface::new();
    let toolbar = Toolbar::new(ui.build_ctx());
    Bench {
        ui,
        toolbar,
        sender: MessageSender::new(),
        animations: container(),
    }
}

fn handle(b: &mut Bench, message: &UiMessage, input: &ToolbarInput, animation: u32) -> ToolbarAction {
    let scene = Selection::Graph(vec![Handle::new(7, 1)]);
    let selection = AnimationSelection::new(PLAYER, Handle::new(animation, 1));
    b.toolbar.handle_ui_message(
        message,
        &mut b.sender,
        input,
        PLAYER,
        &b.animations,
        &scene,
        &selection,
    )
}

#[test]
fn the_toolbar_turns_clicks_into_actions() {
    let mut b = bench();
    let none = input("", None);
    let (play, stop, preview) = (b.toolbar.play_pause, b.toolbar.stop, b.toolbar.preview);
    assert_eq!(handle(&mut b, &click(play), &none, 1), ToolbarAction::PlayPause);
    assert_eq!(handle(&mut b, &click(stop), &none, 1), ToolbarAction::Stop);
    let on = CheckBoxMessage::checked(preview, MessageDirection::FromWidget, Some(true));
    assert_eq!(handle(&mut b, &on, &none, 1), ToolbarAction::EnterPreviewMode);
    let off = CheckBoxMessage::checked(preview, MessageDirection::FromWidget, Some(false));
    assert_eq!(handle(&mut b, &off, &none, 1), ToolbarAction::LeavePreviewMode);
    // A request to the box, a box that is undetermined, and another box
    // call for nothing.
    let request = CheckBoxMessage::checked(preview, MessageDirection::ToWidget, Some(true));
    assert_eq!(handle(&mut b, &request, &none, 1), ToolbarAction::Nothing);
    let unknown = CheckBoxMessage::checked(preview, MessageDirection::FromWidget, None);
    assert_eq!(handle(&mut b, &unknown, &none, 1), ToolbarAction::Nothing);
    let other = CheckBoxMessage::checked(play, MessageDirection::FromWidget, Some(true));
    assert_eq!(handle(&mut b, &other, &none, 1), ToolbarAction::Nothing);
    assert_eq!(drain(&mut b.sender), vec![]);
}

#[test]
fn a_choice_in_the_list_selects_the_animation() {
    let mut b = bench();
    let list = b.toolbar.animations;
    let choice = UiMessage::with_data(
        list,
        MessageDirection::FromWidget,
        MessageData::DropdownList(DropdownListMessage::SelectionChanged(Some(1))),
    );
    let chosen = Handle::new(2, 1);
    assert_eq!(
        handle(&mut b, &choice, &input("", Some(chosen)), 1),
        ToolbarAction::SelectAnimation(chosen)
    );
    assert_eq!(
        drain(&mut b.sender),
        vec![Message::DoCommand(Command::ChangeSelection {
            new: Selection::Animation(AnimationSelection::new(PLAYER, chosen)),
            old: Selection::Graph(vec![Handle::new(7, 1)]),
        })]
    );
    // No choice, and a choice in another list, select nothing.
    let cleared = UiMessage::with_data(
        list,
        MessageDirection::FromWidget,
        MessageData::DropdownList(DropdownListMessage::SelectionChanged(None)),
    );
    assert_eq!(handle(&mut b, &cleared, &input("", None), 1), ToolbarAction::Nothing);
    let elsewhere = UiMessage::with_data(
        b.toolbar.stop,
        MessageDirection::FromWidget,
        MessageData::DropdownList(DropdownListMessage::SelectionChanged(Some(0))),
    );
    assert_eq!(
        handle(&mut b, &elsewhere, &input("", None), 1),
        ToolbarAction::Nothing
    );
    assert_eq!(drain(&mut b.sender), vec![]);
}

#[test]
fn the_buttons_of_the_toolbar_ask_the_editor_for_commands() {
    let mut b = bench();
    let t = (
        b.toolbar.add_animation,
        b.toolbar.rename_current_animation,
        b.toolbar.remove_current_animation,
        b.toolbar.clone_current_animation,
    );
    let name = input("Jump", None);
    assert_eq!(handle(&mut b, &click(t.0), &name, 2), ToolbarAction::Nothing);
    assert_eq!(
        drain(&mut b.sender),
        vec![Message::DoCommand(Command::AddAnimation {
            animation_player: PLAYER,
            copy_of: None,
            name: "Jump".to_string(),
        })]
    );
    handle(&mut b, &click(t.1), &name, 2);
    assert_eq!(
        drain(&mut b.sender),
        vec![Message::DoCommand(Command::SetAnimationName {
            node_handle: PLAYER,
            animation_handle: Handle::new(2, 1),
            value: "Jump".to_string(),
        })]
    );
    handle(&mut b, &click(t.2), &name, 2);
    assert_eq!(
        drain(&mut b.sender),
        vec![Message::DoCommandGroup(CommandGroup {
            commands: vec![
                Command::ChangeSelection {
                    new: Selection::Animation(AnimationSelection::new(PLAYER, Handle::none())),
                    old: Selection::Graph(vec![Handle::new(7, 1)]),
                },
                Command::RemoveAnimation {
                    animation_player: PLAYER,
                    animation: Handle::new(2, 1),
                },
            ],
            custom_name: String::new(),
        })]
    );
    handle(&mut b, &click(t.3), &name, 2);
    assert_eq!(
        drain(&mut b.sender),
        vec![Message::DoCommand(Command::AddAnimation {
            animation_player: PLAYER,
            copy_of: Some(Handle::new(2, 1)),
            name: "Walk Copy".to_string(),
        })]
    );
    // Without a selected animation there is nothing to remove or to copy.
    handle(&mut b, &click(t.2), &name, 9);
    handle(&mut b, &click(t.3), &name, 9);
    assert_eq!(drain(&mut b.sender), vec![]);
}

#[test]
fn length_and_speed_typed_into_the_toolbar_become_commands() {
    let mut b = bench();
    let (length, speed) = (b.toolbar.length, b.toolbar.speed);
    let none = input("", None);
    handle(&mut b, &typed(length, 3.5), &none, 1);
    handle(&mut b, &typed(speed, 0.25), &none, 1);
    let to_widget = NumericUpDownMessage::value(length, MessageDirection::ToWidget, number(1.0));
    handle(&mut b, &to_widget, &none, 1);
    let stop = b.toolbar.stop;
    handle(&mut b, &typed(stop, 1.0), &none, 1);
    assert_eq!(
        drain(&mut b.sender),
        vec![
            Message::DoCommand(Command::SetAnimationLength {
                node_handle: PLAYER,
                animation_handle: Handle::new(1, 1),
                value: number(3.5),
            }),
            Message::DoCommand(Command::SetAnimationSpeed {
                node_handle: PLAYER,
                animation_handle: Handle::new(1, 1),
                value: number(0.25),
            }),
        ]
    );
}

#[test]
fn the_toolbar_follows_the_model() {
    let mut b = bench();
    let t = &b.toolbar;
    let selection = AnimationSelection::new(PLAYER, Handle::new(2, 1));
    t.sync_to_model(&b.animations, &selection, &mut b.ui, true);
    // One new item for each animation, loose, with the name as its text.
    assert_eq!(b.ui.alive_count(), 25);
    let items: Vec<Handle> = (22..25).map(|i| Handle::new(i, 1)).collect();
    for (item, name) in items.iter().zip(["Idle", "Walk", "Run"]) {
        assert_eq!(b.ui.node(*item).text, name);
        assert_eq!(b.ui.node(*item).parent, Handle::new(0, 1));
    }
    let to = MessageDirection::ToWidget;
    let mut expected = vec![
        DropdownListMessage::items(t.animations, to, items),
        TextMessage::text(t.animation_name, to, "Walk".to_string()),
        NumericUpDownMessage::value(t.length, to, number(2.0)),
        NumericUpDownMessage::value(t.speed, to, number(1.5)),
    ];
    for h in [
        t.preview,
        t.speed,
        t.rename_current_animation,
        t.remove_current_animation,
        t.length,
        t.clone_current_animation,
        t.play_pause,
        t.stop,
    ] {
        expected.push(WidgetMessage::enabled(h, to, true));
    }
    assert_eq!(drain_ui(&mut b.ui), expected);

    // Without a selected animation everything but the list is disabled;
    // outside of the preview the buttons that play and stop are too.
    let nothing = AnimationSelection::new(PLAYER, Handle::none());
    t.sync_to_model(&b.animations, &nothing, &mut b.ui, true);
    let sent = drain_ui(&mut b.ui);
    assert_eq!(sent.len(), 9);
    for m in &sent[1..] {
        assert_eq!(m.data, MessageData::Widget(WidgetMessage::Enabled(false)));
    }
    t.sync_to_model(&b.animations, &selection, &mut b.ui, false);
    let sent = drain_ui(&mut b.ui);
    assert_eq!(sent.len(), 12);
    assert_eq!(sent[9], WidgetMessage::enabled(t.clone_current_animation, to, true));
    assert_eq!(sent[10], WidgetMessage::enabled(t.play_pause, to, false));
    assert_eq!(sent[11], WidgetMessage::enabled(t.stop, to, false));
}

#[test]
fn clear_and_preview_of_the_toolbar() {
    let mut b = bench();
    b.toolbar.clear(&mut b.ui);
    b.toolbar.on_preview_mode_changed(&mut b.ui, true);
    let to = MessageDirection::ToWidget;
    assert_eq!(
        drain_ui(&mut b.ui),
        vec![
            DropdownListMessage::items(b.toolbar.animations, to, vec![]),
            WidgetMessage::enabled(b.toolbar.play_pause, to, true),
            WidgetMessage::enabled(b.toolbar.stop, to, true),
        ]
    );
}

#[test]
fn the_columns_of_the_track_list() {
    assert_eq!(
        [
            EXPANDER_COLUMN,
            NAME_COLUMN,
            MODEL_COLUMN,
            VALUE_TO_MODEL,
            MODEL_TO_VALUE,
            VALUE_COLUMN,
            INTERP_TO_KEY,
            LEFT_TAN_COLUMN,
            RIGHT_TAN_COLUMN,
            PREV_COLUMN,
            NEXT_COLUMN
        ],
        [0, 1, 2, 3, 4, 5, 6, 7, 8, 9, 10]
    );
    assert_eq!(KEY_SIZE, 50);
    let mut ui = UserInterface::new();
    let mut list = TrackDataList::new(ui.build_ctx());
    assert_eq!(ui.node(list.content).kind, WidgetKind::Grid);
    assert_eq!(ui.node(list.content).row, 1);
    assert!(list.targets.is_empty());
    list.clear();
    assert!(list.targets.is_empty());
}

fn curve_data(key: Option<CurveKeyKind>) -> CurveData {
    CurveData {
        id: 77,
        binding: ValueBinding::Position,
        curve_index: 1,
        key_kind: key,
        model_value: number(1.0),
        value: number(2.0),
        left_tan: number(3.0),
        right_tan: number(4.0),
        prev: number(0.5),
        next: number(1.5),
        value_text: "2.000".to_string(),
        prev_text: "0.50s".to_string(),
        next_text: "1.50s".to_string(),
    }
}

#[test]
fn the_row_of_a_curve_is_built_into_its_columns() {
    let mut ui = UserInterface::new();
    let v = CurveDataView::new(4, curve_data(None), ui.build_ctx());
    assert_eq!(ui.alive_count(), 17);
    let placed = |h: Handle| (ui.node(h).kind, ui.node(h).row, ui.node(h).column);
    assert_eq!(placed(v.label), (WidgetKind::Text, 4, 1));
    assert_eq!(placed(v.model_value), (WidgetKind::NumericUpDown, 4, 2));
    assert_eq!(placed(v.set_value_to_model), (WidgetKind::Button, 4, 3));
    assert_eq!(placed(v.set_model_to_value), (WidgetKind::Button, 4, 4));
    assert_eq!(placed(v.value_key), (WidgetKind::Grid, 4, 5));
    assert_eq!(placed(v.key_field), (WidgetKind::NumericUpDown, 0, 0));
    assert_eq!(placed(v.key_kind), (WidgetKind::Button, 0, 1));
    assert_eq!(placed(v.interp_text), (WidgetKind::Text, 4, 5));
    assert_eq!(placed(v.set_value_to_interp), (WidgetKind::Button, 4, 6));
    assert_eq!(placed(v.remove_key), (WidgetKind::Button, 4, 6));
    assert_eq!(placed(v.left_tan), (WidgetKind::NumericUpDown, 4, 7));
    assert_eq!(placed(v.right_tan), (WidgetKind::NumericUpDown, 4, 8));
    assert_eq!(placed(v.prev_key), (WidgetKind::Button, 4, 9));
    assert_eq!(placed(v.next_key), (WidgetKind::Button, 4, 10));
    assert_eq!(ui.node(v.value_key).children, vec![v.key_field, v.key_kind]);
    assert_eq!(ui.node(v.key_field).parent, v.value_key);
    assert_eq!(
        v.children(),
        vec![
            v.label,
            v.model_value,
            v.value_key,
            v.interp_text,
            v.set_value_to_interp,
            v.remove_key,
            v.left_tan,
            v.right_tan,
            v.prev_key,
            v.next_key,
            v.set_model_to_value,
            v.set_value_to_model
        ]
    );
    assert_eq!(v.data.value_string(), "2.000");
    assert_eq!(v.data.prev_string(), "0.50s");
    assert_eq!(v.data.next_string(), "1.50s");
}

#[test]
fn the_row_of_a_curve_shows_a_key_or_a_value_between_keys() {
    let mut ui = UserInterface::new();
    let v = CurveDataView::new(0, curve_data(None), ui.build_ctx());
    let to = MessageDirection::ToWidget;
    v.sync(curve_data(Some(CurveKeyKind::Linear)), &mut ui);
    assert_eq!(
        drain_ui(&mut ui),
        vec![
            NumericUpDownMessage::value(v.model_value, to, number(1.0)),
            NumericUpDownMessage::value(v.key_field, to, number(2.0)),
            WidgetMessage::visibility(v.value_key, to, true),
            WidgetMessage::visibility(v.remove_key, to, true),
            WidgetMessage::visibility(v.interp_text, to, false),
            WidgetMessage::visibility(v.set_value_to_interp, to, false),
            NumericUpDownMessage::value(v.left_tan, to, number(3.0)),
            NumericUpDownMessage::value(v.right_tan, to, number(4.0)),
            TextMessage::text(v.prev_key, to, "0.50s".to_string()),
            TextMessage::text(v.next_key, to, "1.50s".to_string()),
        ]
    );
    v.sync(curve_data(None), &mut ui);
    let sent = drain_ui(&mut ui);
    assert_eq!(sent[1], TextMessage::text(v.interp_text, to, "2.000".to_string()));
    assert_eq!(sent[2], WidgetMessage::visibility(v.value_key, to, false));
    assert_eq!(sent[4], WidgetMessage::visibility(v.interp_text, to, true));
    v.sync_to_data(curve_data(None), &mut ui);
    assert_eq!(drain_ui(&mut ui), vec![]);
}

#[test]
fn showing_and_hiding_the_row_of_a_curve() {
    let mut ui = UserInterface::new();
    let v = CurveDataView::new(0, curve_data(Some(CurveKeyKind::Cubic)), ui.build_ctx());
    let to = MessageDirection::ToWidget;
    v.send_visibility(true, &mut ui);
    let shown: Vec<(Handle, bool)> = drain_ui(&mut ui)
        .into_iter()
        .map(|m| match m.data {
            MessageData::Widget(WidgetMessage::Visibility(v)) => (m.destination, v),
            other => panic!("not a message of visibility: {:?}", other),
        })
        .collect();
    assert_eq!(
        shown,
        vec![
            (v.label, true),
            (v.model_value, true),
            (v.value_key, true),
            (v.remove_key, true),
            (v.interp_text, false),
            (v.set_value_to_interp, false),
            (v.left_tan, true),
            (v.right_tan, true),
            (v.next_key, true),
            (v.prev_key, true),
            (v.set_model_to_value, true),
            (v.set_value_to_model, true),
        ]
    );
    v.send_visibility(false, &mut ui);
    assert!(drain_ui(&mut ui)
        .iter()
        .all(|m| m.data == MessageData::Widget(WidgetMessage::Visibility(false))));
    send_visible(v.label, true, &mut ui);
    send_value(v.left_tan, number(7.0), &mut ui);
    send_text(v.prev_key, "x".to_string(), &mut ui);
    assert_eq!(
        drain_ui(&mut ui),
        vec![
            WidgetMessage::visibility(v.label, to, true),
            NumericUpDownMessage::value(v.left_tan, to, number(7.0)),
            TextMessage::text(v.prev_key, to, "x".to_string()),
        ]
    );
}

#[test]
fn the_parts_of_the_thumb() {
    let mut ui = UserInterface::new();
    let icon = new_icon(Icon::Clear, ui.build_ctx());
    assert_eq!(ui.node(icon).kind, WidgetKind::Image);
    assert_eq!(ui.node(icon).name, "clear");
    assert_eq!((Icon::Key.name(), Icon::Time.name()), ("key", "time"));
    let time_box = new_time_box("tip", ui.build_ctx());
    assert_eq!(ui.node(time_box).kind, WidgetKind::NumericUpDown);
    assert!(!ui.node(time_box).enabled);
    assert_eq!(ui.node(time_box).tooltip, "tip");
    let button = new_button("tip", "<", ui.build_ctx());
    assert_eq!((ui.node(button).text.as_str(), ui.node(button).tooltip.as_str()), ("<", "tip"));
    let time_button = new_time_button("next", ui.build_ctx());
    assert_eq!(ui.node(time_button).text, "0s");
    let text_button = new_text_button("End", ui.build_ctx());
    assert_eq!(ui.node(text_button).text, "End");
    assert_eq!(ui.node(text_button).tooltip, "");
    let icon_button = new_icon_button("tip", Icon::Key, ui.build_ctx());
    assert_eq!(ui.node(icon_button).kind, WidgetKind::Button);
    let picture = ui.node(icon_button).children[0];
    assert_eq!(ui.node(picture).name, "key");
    assert_eq!(ui.node(picture).parent, icon_button);
}

#[test]
fn the_thumb_is_built_as_one_row() {
    let mut ui = UserInterface::new();
    let t = ThumbDataView::new(ui.build_ctx());
    assert_eq!(ui.alive_count(), 17);
    let row = ui.node(t.content);
    assert_eq!(row.kind, WidgetKind::StackPanel);
    assert_eq!(ui.node(row.children[0]).name, "time");
    assert_eq!(
        row.children[1..],
        [
            t.position_box,
            t.value_to_model,
            t.model_to_value,
            t.value_to_interp,
            t.remove_key,
            t.goto_start,
            t.start_box,
            t.goto_end,
            t.end_box,
            t.prev_key,
            t.next_key
        ]
    );
    assert_eq!(ui.node(t.position_box).tooltip, "Current Time within Animation");
    assert_eq!(ui.node(t.start_box).tooltip, "Start Time of Animation");
    assert_eq!(ui.node(t.end_box).tooltip, "End Time of Animation");
    assert_eq!(ui.node(t.goto_start).text, "Start");
    assert_eq!(ui.node(t.goto_end).text, "End");
    assert_eq!(ui.node(t.model_to_value).text, "<");
    assert_eq!(ui.node(t.prev_key).tooltip, "Go to previous key");
    assert_eq!(ui.node(t.next_key).tooltip, "Go to next key");
    assert_eq!((t.prev, t.next), (Number::zero(), Number::zero()));
    ui.remove_node(t.content);
    assert_eq!(ui.alive_count(), 1);
}

#[test]
fn the_thumb_moves_only_when_it_shows_another_time() {
    let mut ui = UserInterface::new();
    let t = ThumbDataView::new(ui.build_ctx());
    assert!(!t.update_thumb(false, number(1.0), &mut ui));
    assert_eq!(drain_ui(&mut ui), vec![]);
    assert!(t.update_thumb(true, number(1.0), &mut ui));
    assert_eq!(
        drain_ui(&mut ui),
        vec![NumericUpDownMessage::value(
            t.position_box,
            MessageDirection::ToWidget,
            number(1.0)
        )]
    );
}

#[test]
fn times_typed_into_the_thumb_move_the_animation_or_its_ends() {
    let mut ui = UserInterface::new();
    let mut t = ThumbDataView::new(ui.build_ctx());
    let mut sender = MessageSender::new();
    let mut animations = container();
    let selection = AnimationSelection::new(PLAYER, Handle::new(2, 1));
    t.handle_ui_message(
        &typed(t.position_box, 1.25),
        &mut sender,
        PLAYER,
        &mut animations,
        &selection,
    );
    assert_eq!(animations.animations[1].time_position, number(1.25));
    assert_eq!(animations.animations[0].time_position, number(0.75));
    assert_eq!(drain(&mut sender), vec![]);
    t.handle_ui_message(
        &typed(t.start_box, 0.5),
        &mut sender,
        PLAYER,
        &mut animations,
        &selection,
    );
    t.handle_ui_message(
        &typed(t.end_box, 4.0),
        &mut sender,
        PLAYER,
        &mut animations,
        &selection,
    );
    // A request to a box, and a time typed elsewhere, move nothing.
    let request = NumericUpDownMessage::value(t.start_box, MessageDirection::ToWidget, number(9.0));
    t.handle_ui_message(&request, &mut sender, PLAYER, &mut animations, &selection);
    t.handle_ui_message(
        &typed(t.goto_end, 9.0),
        &mut sender,
        PLAYER,
        &mut animations,
        &selection,
    );
    assert_eq!(
        drain(&mut sender),
        vec![
            Message::DoCommand(Command::SetAnimationTimeSlice {
                node_handle: PLAYER,
                animation_handle: Handle::new(2, 1),
                bound: SliceBound::Start(number(0.5)),
            }),
            Message::DoCommand(Command::SetAnimationTimeSlice {
                node_handle: PLAYER,
                animation_handle: Handle::new(2, 1),
                bound: SliceBound::End(number(4.0)),
            }),
        ]
    );
    assert_eq!(animations.animations[1].time_position, number(1.25));
    // A time for an animation that is not there goes nowhere.
    let nothing = AnimationSelection::new(PLAYER, Handle::none());
    set_thumb(&mut animations, &nothing, number(8.0));
    assert_eq!(animations.animations[1].time_position, number(1.25));
    set_thumb(&mut animations, &selection, number(8.0));
    assert_eq!(animations.animations[1].time_position, number(8.0));
}

#[test]
fn the_editor_of_animations_is_built_with_its_parts() {
    let mut ui = UserInterface::new();
    let e = AnimationDataEditor::new(ui.build_ctx());
    assert_eq!(ui.alive_count(), 41);
    let window = ui.node(e.window);
    assert_eq!(window.kind, WidgetKind::Window);
    assert_eq!(window.name, "AnimationData");
    assert_eq!(window.text, "Animation Data");
    assert!(!window.visibility);
    assert_eq!(window.children, vec![e.content]);
    assert_eq!(
        ui.node(e.content).children,
        vec![e.toolbar.panel, e.track_list.content]
    );
    assert_eq!(ui.node(e.toolbar.panel).parent, e.content);
    // The thumb stands aside.
    assert_eq!(ui.node(e.thumb.content).parent, Handle::new(0, 1));
    assert!(!e.is_in_preview_mode());
    assert!(e.curve_editor.is_none());
    e.open(&mut ui);
    assert_eq!(
        drain_ui(&mut ui),
        vec![WindowMessage::open(
            e.window,
            MessageDirection::ToWidget,
            true,
            true
        )]
    );
    ui.remove_node(e.window);
    assert_eq!(ui.alive_count(), 17);
}

fn enter_preview(
    e: &mut AnimationDataEditor,
    ui: &mut UserInterface,
    animations: &mut AnimationContainer,
    overrides: &mut FxHashSet<(u32, u32)>,
    animation: u32,
) -> Vec<SceneRequest> {
    let mut sender = MessageSender::new();
    let on = CheckBoxMessage::checked(e.toolbar.preview, MessageDirection::FromWidget, Some(true));
    e.handle_ui_message(
        &on,
        &selected(animation),
        animations,
        &input("", None),
        ui,
        &mut sender,
        overrides,
    )
}

#[test]
fn the_preview_saves_the_nodes_that_the_animation_moves() {
    let mut ui = UserInterface::new();
    let mut e = AnimationDataEditor::new(ui.build_ctx());
    let mut animations = container();
    let mut overrides: FxHashSet<(u32, u32)> = FxHashSet::default();
    overrides.insert((55, 1));
    let requests = enter_preview(&mut e, &mut ui, &mut animations, &mut overrides, 2);
    assert!(e.is_in_preview_mode());
    // Only the selected animation plays, from its start.
    assert_eq!(
        animations
            .animations
            .iter()
            .map(|a| (a.enabled, a.time_position))
            .collect::<Vec<_>>(),
        vec![
            (false, number(0.75)),
            (true, Number::zero()),
            (false, number(0.75))
        ]
    );
    assert_eq!(
        requests[..2],
        [
            SceneRequest::SetAutoApply(PLAYER),
            SceneRequest::SaveNode(PLAYER)
        ]
    );
    // The two nodes that the tracks move are saved once each.
    let mut saved: Vec<Handle> = requests[2..]
        .iter()
        .map(|r| match r {
            SceneRequest::SaveNode(h) => *h,
            other => panic!("not a request to save: {:?}", other),
        })
        .collect();
    saved.sort_by_key(|h| h.index);
    assert_eq!(saved, vec![Handle::new(10, 1), Handle::new(12, 1)]);
    let nodes = &e.preview_mode_data.as_ref().unwrap().nodes;
    assert_eq!(nodes.len(), 3);
    assert_eq!(nodes[2], PLAYER);
    assert_eq!(
        overrides,
        [(55, 1), (100, 1), (10, 1), (12, 1)].into_iter().collect()
    );
    let to = MessageDirection::ToWidget;
    assert_eq!(
        drain_ui(&mut ui),
        vec![
            WidgetMessage::enabled(e.toolbar.play_pause, to, true),
            WidgetMessage::enabled(e.toolbar.stop, to, true),
        ]
    );

    // Play and pause toggle the selected animation; stop rewinds and halts.
    let mut sender = MessageSender::new();
    let play = click(e.toolbar.play_pause);
    let none = input("", None);
    animations.animations[1].time_position = number(0.3);
    let r = e.handle_ui_message(
        &play, &selected(2), &mut animations, &none, &mut ui, &mut sender, &mut overrides,
    );
    assert!(r.is_empty());
    assert!(!animations.animations[1].enabled);
    e.handle_ui_message(
        &play, &selected(2), &mut animations, &none, &mut ui, &mut sender, &mut overrides,
    );
    assert!(animations.animations[1].enabled);
    assert_eq!(animations.animations[1].time_position, number(0.3));
    let stop = click(e.toolbar.stop);
    e.handle_ui_message(
        &stop, &selected(2), &mut animations, &none, &mut ui, &mut sender, &mut overrides,
    );
    assert!(!animations.animations[1].enabled);
    assert_eq!(animations.animations[1].time_position, Number::zero());

    // Leaving puts the nodes back, in the order in which they were noted.
    let off = CheckBoxMessage::checked(e.toolbar.preview, MessageDirection::FromWidget, Some(false));
    let noted = e.preview_mode_data.as_ref().unwrap().nodes.clone();
    let r = e.handle_ui_message(
        &off, &selected(2), &mut animations, &none, &mut ui, &mut sender, &mut overrides,
    );
    assert_eq!(
        r,
        noted
            .iter()
            .map(|h| SceneRequest::RestoreNode(*h))
            .collect::<Vec<_>>()
    );
    assert!(!e.is_in_preview_mode());
    assert_eq!(overrides, [(55, 1)].into_iter().collect());
    assert_eq!(
        drain_ui(&mut ui),
        vec![
            WidgetMessage::enabled(e.toolbar.play_pause, to, false),
            WidgetMessage::enabled(e.toolbar.stop, to, false),
        ]
    );
    // Leaving again, and playing outside of a preview, do nothing.
    let r = e.handle_ui_message(
        &off, &selected(2), &mut animations, &none, &mut ui, &mut sender, &mut overrides,
    );
    assert!(r.is_empty());
    let was = animations.clone();
    e.handle_ui_message(
        &play, &selected(2), &mut animations, &none, &mut ui, &mut sender, &mut overrides,
    );
    e.handle_ui_message(
        &stop, &selected(2), &mut animations, &none, &mut ui, &mut sender, &mut overrides,
    );
    assert_eq!(animations, was);
    assert_eq!(drain_ui(&mut ui), vec![]);
    assert_eq!(drain(&mut sender), vec![]);
}

#[test]
fn a_preview_without_a_selected_animation_saves_the_player_alone() {
    let mut ui = UserInterface::new();
    let mut e = AnimationDataEditor::new(ui.build_ctx());
    let mut animations = container();
    let mut overrides: FxHashSet<(u32, u32)> = FxHashSet::default();
    let requests = enter_preview(&mut e, &mut ui, &mut animations, &mut overrides, 9);
    assert_eq!(
        requests,
        vec![
            SceneRequest::SetAutoApply(PLAYER),
            SceneRequest::SaveNode(PLAYER)
        ]
    );
    assert!(!e.is_in_preview_mode());
    assert!(animations.animations.iter().all(|a| !a.enabled));
    assert_eq!(overrides, [(100, 1)].into_iter().collect());
    assert_eq!(drain_ui(&mut ui), vec![]);
}

#[test]
fn a_command_of_the_editor_ends_the_preview() {
    let mut ui = UserInterface::new();
    let mut e = AnimationDataEditor::new(ui.build_ctx());
    let mut animations = container();
    let mut overrides: FxHashSet<(u32, u32)> = FxHashSet::default();
    enter_preview(&mut e, &mut ui, &mut animations, &mut overrides, 3);
    drain_ui(&mut ui);
    assert!(e.is_in_preview_mode());
    let r = e.handle_message(&Message::SelectionChanged, &mut ui, &mut overrides);
    assert!(r.is_empty());
    assert!(e.is_in_preview_mode());
    let r = e.handle_message(&Message::UndoCurrentSceneCommand, &mut ui, &mut overrides);
    assert_eq!(r, vec![SceneRequest::RestoreNode(PLAYER)]);
    assert!(!e.is_in_preview_mode());
    assert!(overrides.is_empty());
    assert_eq!(drain_ui(&mut ui).len(), 2);
    for message in [
        Message::RedoCurrentSceneCommand,
        Message::DoCommand(Command::RemoveAnimation {
            animation_player: PLAYER,
            animation: Handle::new(1, 1),
        }),
    ] {
        enter_preview(&mut e, &mut ui, &mut animations, &mut overrides, 3);
        assert!(e.is_in_preview_mode());
        e.handle_message(&message, &mut ui, &mut overrides);
        assert!(!e.is_in_preview_mode());
    }
    assert!(e
        .try_leave_preview_mode(&mut ui, &mut overrides)
        .is_empty());
}

#[test]
fn the_editor_of_animations_follows_a_model_without_a_selected_animation() {
    let mut ui = UserInterface::new();
    let mut e = AnimationDataEditor::new(ui.build_ctx());
    let to = MessageDirection::ToWidget;
    let idle = |e: &AnimationDataEditor, player: bool| {
        let mut v = vec![
            quiet(CurveEditorMessage::message(
                e.curve_editor,
                to,
                CurveEditorMessage::Zoom {
                    x: Number::one(),
                    y: Number::one(),
                },
            )),
            quiet(CurveEditorMessage::message(
                e.curve_editor,
                to,
                CurveEditorMessage::ViewPosition {
                    x: Number::zero(),
                    y: Number::zero(),
                },
            )),
            quiet(CurveEditorMessage::message(
                e.curve_editor,
                to,
                CurveEditorMessage::SyncEmpty,
            )),
        ];
        if !player {
            v.push(DropdownListMessage::items(e.toolbar.animations, to, vec![]));
        }
        v.extend([
            quiet(WidgetMessage::visibility(e.content, to, player)),
            quiet(WidgetMessage::enabled(e.track_list.content, to, false)),
            quiet(CheckBoxMessage::checked(e.toolbar.preview, to, Some(false))),
            quiet(WidgetMessage::enabled(e.curve_editor, to, false)),
        ]);
        v
    };
    e.sync_to_model(&Selection::Empty, None, &mut ui);
    assert_eq!(drain_ui(&mut ui), idle(&e, false));
    assert_eq!(ui.alive_count(), 41);
    let animations = container();
    e.sync_to_model(&selected(9), Some(&animations), &mut ui);
    assert_eq!(ui.alive_count(), 44);
    let sent = drain_ui(&mut ui);
    assert_eq!(sent.len(), 9 + 7);
    assert_eq!(sent[9..], idle(&e, true));
    e.clear(&mut ui);
    assert_eq!(
        drain_ui(&mut ui),
        vec![DropdownListMessage::items(e.toolbar.animations, to, vec![])]
    );
}

#[test]
fn a_frame_in_which_the_thumb_stands_right_sends_nothing() {
    let mut ui = UserInterface::new();
    let mut e = AnimationDataEditor::new(ui.build_ctx());
    let animations = container();
    let found = animations.animations[0].handle.index;
    e.update(&selected(found), Some(&animations), false, &mut ui);
    e.update(&selected(9), Some(&animations), true, &mut ui);
    e.update(&selected(found), None, true, &mut ui);
    e.update(&Selection::Empty, Some(&animations), true, &mut ui);
    assert_eq!(drain_ui(&mut ui), vec![]);
    assert_eq!(ui.alive_count(), 41);
}

fn all_different(handles: &[Handle]) -> bool {
    let set: std::collections::HashSet<Handle> = handles.iter().copied().collect();
    set.len() == handles.len()
}

#[test]
fn the_widgets_that_the_editor_of_animations_names_are_different_widgets() {
    let mut ui = UserInterface::new();
    let e = AnimationDataEditor::new(ui.build_ctx());
    let t = &e.toolbar;
    let row = ui.node(t.panel).children[0];
    let toolbar = [
        t.panel,
        row,
        t.animation_name,
        t.add_animation,
        t.rename_current_animation,
        t.animations,
        t.remove_current_animation,
        t.clone_current_animation,
        t.speed,
        t.length,
        t.preview,
        t.play_pause,
        t.stop,
    ];
    assert!(all_different(&toolbar));
    let th = &e.thumb;
    let thumb = [
        th.content,
        th.position_box,
        th.value_to_model,
        th.model_to_value,
        th.value_to_interp,
        th.remove_key,
        th.goto_start,
        th.start_box,
        th.goto_end,
        th.end_box,
        th.prev_key,
        th.next_key,
    ];
    assert!(all_different(&thumb));
    let mut all = toolbar.to_vec();
    all.extend(thumb);
    all.extend([e.track_list.content, e.content, e.window]);
    assert_eq!(all.len(), 28);
    assert!(all_different(&all));
    assert!(all.iter().all(|h| ui.try_get(*h).is_some()));
    let v = CurveDataView::new(3, curve_data(None), ui.build_ctx());
    let row = [
        v.label,
        v.model_value,
        v.value_key,
        v.key_field,
        v.key_kind,
        v.interp_text,
        v.left_tan,
        v.right_tan,
        v.next_key,
        v.prev_key,
        v.remove_key,
        v.set_model_to_value,
        v.set_value_to_model,
        v.set_value_to_interp,
    ];
    assert!(all_different(&row));
    all.extend(row);
    assert!(all_different(&all));
}

#[test]
fn a_preview_begins_only_where_the_scene_lets_it() {
    let mut ui = UserInterface::new();
    let mut e = AnimationDataEditor::new(ui.build_ctx());
    let set = |items: &[(u32, u32)]| items.iter().copied().collect::<FxHashSet<(u32, u32)>>();
    assert!(AnimationDataEditor::are_free(&set(&[(1, 1), (2, 1)]), &set(&[(3, 1), (1, 2)])));
    assert!(!AnimationDataEditor::are_free(&set(&[(1, 1), (2, 1)]), &set(&[(2, 1)])));
    assert!(AnimationDataEditor::are_free(&set(&[]), &set(&[(2, 1)])));
    assert!(AnimationDataEditor::are_free(&set(&[(2, 1)]), &set(&[])));
    // A target that the scene must not touch: nothing happens.
    let mut overrides = set(&[(11, 1)]);
    let targets = set(&[(10, 1), (11, 1)]);
    assert_eq!(
        e.try_enter_preview_mode(PLAYER, &targets, &mut ui, &mut overrides),
        None
    );
    assert!(!e.is_in_preview_mode());
    assert_eq!(overrides, set(&[(11, 1)]));
    assert_eq!(drain_ui(&mut ui), vec![]);
    // Free targets: the preview begins.
    let mut overrides = set(&[(12, 1)]);
    let requests = e
        .try_enter_preview_mode(PLAYER, &targets, &mut ui, &mut overrides)
        .unwrap();
    assert!(e.is_in_preview_mode());
    assert_eq!(requests.len(), 2);
    assert!(requests.contains(&SceneRequest::SaveNode(Handle::new(10, 1))));
    assert!(requests.contains(&SceneRequest::SaveNode(Handle::new(11, 1))));
    assert_eq!(overrides, set(&[(10, 1), (11, 1), (12, 1)]));
    assert_eq!(drain_ui(&mut ui).len(), 2);
    // There is a preview already: nothing happens.
    let mut free = set(&[]);
    assert_eq!(
        e.try_enter_preview_mode(PLAYER, &set(&[(20, 1)]), &mut ui, &mut free),
        None
    );
    assert!(free.is_empty());
    assert_eq!(drain_ui(&mut ui), vec![]);
}

#[test]
fn a_message_that_asks_for_a_preview_that_cannot_begin_is_left_alone() {
    let mut ui = UserInterface::new();
    let mut e = AnimationDataEditor::new(ui.build_ctx());
    let mut animations = container();
    let mut sender = MessageSender::new();
    let none = input("", None);
    let from = MessageDirection::FromWidget;
    let on = CheckBoxMessage::checked(e.toolbar.preview, from, Some(true));
    let off = CheckBoxMessage::checked(e.toolbar.preview, from, Some(false));
    let elsewhere = CheckBoxMessage::checked(e.toolbar.stop, from, Some(true));
    let to = CheckBoxMessage::checked(e.toolbar.preview, MessageDirection::ToWidget, Some(true));
    assert!(e.asks_for_preview(&on, &none));
    assert!(!e.asks_for_preview(&off, &none));
    assert!(!e.asks_for_preview(&elsewhere, &none));
    assert!(!e.asks_for_preview(&to, &none));
    assert!(!e.asks_for_preview(&click(e.toolbar.preview), &none));

    let set = |items: &[(u32, u32)]| items.iter().copied().collect::<FxHashSet<(u32, u32)>>();
    // Animation 2 moves the nodes 12 and 10.
    assert!(e.is_ready_for_preview(&selected(2), &animations, &set(&[(11, 1)])));
    assert!(!e.is_ready_for_preview(&selected(2), &animations, &set(&[(10, 1)])));
    assert!(!e.is_ready_for_preview(&selected(2), &animations, &set(&[(PLAYER.index, 1)])));
    // No animation is found: only the player has to be free.
    assert!(e.is_ready_for_preview(&selected(9), &animations, &set(&[(10, 1)])));
    assert!(e.is_ready_for_preview(&Selection::Empty, &animations, &set(&[(10, 1)])));
    // An animation that moves its own player cannot be previewed.
    let mut odd = container();
    odd.animations[0].targets.push(PLAYER);
    assert!(!e.is_ready_for_preview(&selected(1), &odd, &set(&[])));
    assert!(e.is_ready_for_preview(&selected(2), &odd, &set(&[])));

    let mut overrides = set(&[(10, 1)]);
    let before: Vec<(bool, Number)> = animations
        .animations
        .iter()
        .map(|a| (a.enabled, a.time_position))
        .collect();
    let answer = e.try_handle_ui_message(
        &on,
        &selected(2),
        &mut animations,
        &none,
        &mut ui,
        &mut sender,
        &mut overrides,
    );
    assert_eq!(answer, None);
    assert!(!e.is_in_preview_mode());
    assert_eq!(overrides, set(&[(10, 1)]));
    assert_eq!(drain_ui(&mut ui), vec![]);
    assert_eq!(drain(&mut sender), vec![]);
    assert_eq!(
        animations
            .animations
            .iter()
            .map(|a| (a.enabled, a.time_position))
            .collect::<Vec<_>>(),
        before
    );
    // Any other message is handled as ever.
    let answer = e.try_handle_ui_message(
        &click(e.toolbar.add_animation),
        &selected(2),
        &mut animations,
        &input("Jump", None),
        &mut ui,
        &mut sender,
        &mut overrides,
    );
    assert_eq!(answer, Some(vec![]));
    assert_eq!(drain(&mut sender).len(), 1);
    // Where the scene lets it, the preview begins.
    let mut overrides = set(&[(11, 1)]);
    let requests = e
        .try_handle_ui_message(
            &on,
            &selected(2),
            &mut animations,
            &none,
            &mut ui,
            &mut sender,
            &mut overrides,
        )
        .unwrap();
    assert!(e.is_in_preview_mode());
    assert_eq!(requests.len(), 4);
    assert_eq!(
        overrides,
        set(&[(10, 1), (11, 1), (12, 1), (PLAYER.index, 1)])
    );
    // And a second preview does not begin on top of it.
    let mut free = set(&[]);
    assert!(!e.is_ready_for_preview(&selected(2), &animations, &free));
    assert_eq!(
        e.try_handle_ui_message(
            &on,
            &selected(2),
            &mut animations,
            &none,
            &mut ui,
            &mut sender,
            &mut free,
        ),
        None
    );
}

#[test]
fn the_number_boxes_start_with_their_numbers_and_take_nothing_below_zero() {
    let mut ui = UserInterface::new();
    let e = AnimationDataEditor::new(ui.build_ctx());
    for h in [e.toolbar.speed, e.toolbar.length] {
        let w = ui.node(h);
        assert_eq!(w.kind, WidgetKind::NumericUpDown);
        assert_eq!(w.value, Some(number(1.0)));
        assert_eq!(w.min_value, Some(number(0.0)));
        assert!(!w.enabled);
    }
    for h in [e.thumb.position_box, e.thumb.start_box, e.thumb.end_box] {
        let w = ui.node(h);
        assert_eq!(w.kind, WidgetKind::NumericUpDown);
        assert_eq!(w.value, Some(number(0.0)));
        assert_eq!(w.min_value, Some(number(0.0)));
        assert!(!w.enabled);
    }
    let time_box = new_time_box("A time", ui.build_ctx());
    assert_eq!(ui.node(time_box).value, Some(Number::zero()));
    assert_eq!(ui.node(time_box).min_value, Some(Number::zero()));
    assert_eq!(ui.node(time_box).tooltip, "A time");
    // No other widget has a number.
    assert_eq!(ui.node(e.toolbar.preview).value, None);
    assert_eq!(ui.node(e.toolbar.stop).min_value, None);
    // The boxes of a row of a curve are given none.
    let v = CurveDataView::new(0, curve_data(None), ui.build_ctx());
    for h in [v.model_value, v.key_field, v.left_tan, v.right_tan] {
        assert_eq!(ui.node(h).kind, WidgetKind::NumericUpDown);
        assert_eq!((ui.node(h).value, ui.node(h).min_value), (None, None));
    }
}

#[test]
fn the_widgets_of_the_toolbar_and_of_the_thumb_say_what_they_are_for() {
    let mut ui = UserInterface::new();
    let e = AnimationDataEditor::new(ui.build_ctx());
    let t = &e.toolbar;
    let tips = [
        (t.add_animation, "Add New Animation"),
        (t.rename_current_animation, "Rename Selected Animation"),
        (t.remove_current_animation, "Remove Selected Animation"),
        (t.clone_current_animation, "Clone Selected Animation"),
        (t.speed, "Animation Playback Speed"),
        (t.length, "Animation Length in Seconds"),
        (t.stop, "Stop Playback"),
        (t.play_pause, ""),
        (t.animation_name, ""),
        (t.animations, ""),
        (t.preview, ""),
    ];
    for (h, tip) in tips {
        assert_eq!(ui.node(h).tooltip, tip);
    }
    let play = ui.node(t.play_pause);
    assert_eq!(play.children.len(), 1);
    assert_eq!(ui.node(play.children[0]).kind, WidgetKind::VectorImage);
    assert_eq!(ui.node(play.children[0]).tooltip, "Play/Pause");
    let th = &e.thumb;
    let says = [
        (th.position_box, "", "Current Time within Animation"),
        (th.start_box, "", "Start Time of Animation"),
        (th.end_box, "", "End Time of Animation"),
        (th.value_to_model, "", "Key from model for all tracks"),
        (th.value_to_interp, "", "Key from interpolation for all tracks"),
        (th.remove_key, "", "Remove key for all tracks"),
        (th.model_to_value, "<", "Model to value for all tracks"),
        (th.goto_start, "Start", ""),
        (th.goto_end, "End", ""),
        (th.prev_key, "0s", "Go to previous key"),
        (th.next_key, "0s", "Go to next key"),
    ];
    for (h, text, tip) in says {
        assert_eq!((ui.node(h).text.as_str(), ui.node(h).tooltip.as_str()), (text, tip));
    }
    for (h, picture) in [
        (th.value_to_model, Icon::Key),
        (th.value_to_interp, Icon::Key),
        (th.remove_key, Icon::Clear),
    ] {
        let button = ui.node(h);
        assert_eq!(button.children.len(), 1);
        assert_eq!(ui.node(button.children[0]).name, picture.name());
    }
}

#[test]
fn nothing_else_is_set_on_the_widgets_of_the_toolbar() {
    let mut ui = UserInterface::new();
    let t = Toolbar::new(ui.build_ctx());
    let row = ui.node(t.panel).children[0];
    let mut all = ui.node(row).children.clone();
    all.push(row);
    all.push(t.panel);
    for h in all.iter() {
        let w = ui.node(*h);
        assert!(w.visibility);
        assert_eq!((w.row, w.column), (0, 0));
        assert_eq!(w.name, "");
        if *h != t.preview {
            assert_eq!(w.checked, None);
        }
        if *h != t.speed && *h != t.length {
            assert_eq!((w.value, w.min_value), (None, None));
        }
        for child in w.children.iter().filter(|c| !all.contains(*c)) {
            let inner = ui.node(*child);
            assert!(inner.enabled && inner.visibility && inner.children.is_empty());
            assert_eq!((inner.row, inner.column), (0, 0));
        }
    }
    assert_eq!(ui.node(t.animation_name).text, "New Animation");
    assert_eq!(ui.node(t.add_animation).text, "+");
    let preview = ui.node(t.preview);
    assert_eq!(ui.node(preview.children[0]).text, "Preview");
    assert_eq!(ui.node(preview.children[0]).kind, WidgetKind::Text);
}
