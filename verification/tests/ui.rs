use editor_core::handle::Handle;
use editor_core::message::{MessageData, MessageDirection, UiMessage, WidgetMessage};
use editor_core::ui::{send_sync_message, spawn, BuildContext, UserInterface, MSG_SYNC_FLAG};
use editor_core::widget::{WidgetBuilder, WidgetKind};

#[test]
fn the_handle_that_names_nothing_is_none() {
    assert!(Handle::none().is_none());
    assert!(!Handle::none().is_some());
    assert_eq!(Handle::none(), Handle::new(0, 0));
    assert_eq!(Handle::default(), Handle::none());
    assert!(Handle::new(0, 1).is_some());
    assert!(Handle::new(7, 0).is_some());
}

#[test]
fn a_new_tree_holds_the_root_alone() {
    let ctx = BuildContext::new();
    assert_eq!(ctx.alive_count(), 1);
    assert_eq!(ctx.root(), Handle::new(0, 1));
    assert!(ctx.is_valid_handle(ctx.root()));
    assert!(!ctx.is_valid_handle(Handle::none()));
    assert!(!ctx.is_valid_handle(Handle::new(1, 1)));
    assert!(!ctx.is_valid_handle(Handle::new(0, 2)));
    let root = ctx.node(ctx.root());
    assert_eq!(root.kind, WidgetKind::Canvas);
    assert_eq!(root.parent, Handle::none());
    assert!(root.children.is_empty());
    assert!(ctx.try_get(Handle::new(3, 1)).is_none());
}

#[test]
fn a_new_widget_sits_below_the_root_and_takes_its_children() {
    let mut ctx = BuildContext::new();
    let a = ctx.add_node(WidgetKind::Text, WidgetBuilder::new().with_text("a"));
    let b = ctx.add_node(
        WidgetKind::Button,
        WidgetBuilder::new().with_enabled(false).on_row(2).on_column(3),
    );
    assert_eq!(a, Handle::new(1, 1));
    assert_eq!(b, Handle::new(2, 1));
    assert_eq!(ctx.node(a).parent, ctx.root());
    assert_eq!(ctx.node(a).text, "a");
    assert!(!ctx.node(b).enabled());
    assert!(ctx.node(b).visibility());
    assert_eq!((ctx.node(b).row, ctx.node(b).column), (2, 3));
    let panel = ctx.add_node(
        WidgetKind::StackPanel,
        WidgetBuilder::new()
            .with_child(a)
            .with_child(Handle::none())
            .with_child(b),
    );
    assert_eq!(ctx.node(panel).children, vec![a, b]);
    assert_eq!(ctx.node(a).parent, panel);
    assert_eq!(ctx.node(b).parent, panel);
    assert_eq!(ctx.node(panel).parent, ctx.root());
    assert_eq!(ctx.alive_count(), 4);
    assert!(ctx.is_node_child_of(a, panel));
    assert!(ctx.is_node_child_of(a, ctx.root()));
    assert!(ctx.is_node_child_of(panel, ctx.root()));
    assert!(!ctx.is_node_child_of(panel, a));
    assert!(!ctx.is_node_child_of(a, b));
    assert!(!ctx.is_node_child_of(a, a));
    assert!(!ctx.is_node_child_of(Handle::new(9, 1), panel));
}

#[test]
fn spawn_names_widgets_as_add_node_does() {
    let mut ctx = BuildContext::new();
    let a = spawn(&mut ctx, WidgetKind::Image, WidgetBuilder::new().with_name("key"));
    let b = spawn(
        &mut ctx,
        WidgetKind::Button,
        WidgetBuilder::new().with_tooltip("tip").with_child(a),
    );
    assert_eq!((a, b), (Handle::new(1, 1), Handle::new(2, 1)));
    assert_eq!(ctx.node(a).name, "key");
    assert_eq!(ctx.node(b).tooltip, "tip");
    assert_eq!(ctx.node(a).parent, b);
}

#[test]
fn removing_a_widget_removes_what_is_under_it_and_nothing_else() {
    let mut ctx = BuildContext::new();
    let leaf = ctx.add_node(WidgetKind::Text, WidgetBuilder::new());
    let other = ctx.add_node(WidgetKind::Text, WidgetBuilder::new());
    let inner = ctx.add_node(WidgetKind::Border, WidgetBuilder::new().with_child(leaf));
    let outer = ctx.add_node(
        WidgetKind::StackPanel,
        WidgetBuilder::new().with_child(inner).with_child(other),
    );
    let aside = ctx.add_node(WidgetKind::Button, WidgetBuilder::new());
    assert_eq!(ctx.alive_count(), 6);
    ctx.remove_node(inner);
    assert_eq!(ctx.alive_count(), 4);
    assert!(!ctx.is_valid_handle(inner));
    assert!(!ctx.is_valid_handle(leaf));
    assert!(ctx.is_valid_handle(other));
    assert!(ctx.is_valid_handle(outer));
    assert!(ctx.is_valid_handle(aside));
    // The parent no longer lists what has left.
    assert_eq!(ctx.node(outer).children, vec![other]);
    ctx.remove_node(outer);
    assert_eq!(ctx.alive_count(), 2);
    assert!(ctx.is_valid_handle(aside));
    // Slots are not used again: a new widget gets a new name.
    let late = ctx.add_node(WidgetKind::Text, WidgetBuilder::new());
    assert_eq!(late, Handle::new(6, 1));
    assert_eq!(ctx.alive_count(), 3);
}

#[test]
fn with_children_adds_in_order_and_skips_what_names_nothing() {
    let mut ctx = BuildContext::new();
    let a = ctx.add_node(WidgetKind::Text, WidgetBuilder::new());
    let b = ctx.add_node(WidgetKind::Text, WidgetBuilder::new());
    let c = ctx.add_node(WidgetKind::Text, WidgetBuilder::new());
    let builder = WidgetBuilder::new()
        .with_child(c)
        .with_children(&vec![a, Handle::none(), b]);
    assert_eq!(builder.children, vec![c, a, b]);
    let builder = builder
        .with_visibility(false)
        .checked(Some(true))
        .with_name("n")
        .with_text("t")
        .with_tooltip("tt");
    assert_eq!(builder.children, vec![c, a, b]);
    assert!(!builder.visibility);
    assert_eq!(builder.checked, Some(true));
    let h = ctx.add_node(WidgetKind::Grid, builder);
    let w = ctx.node(h);
    assert_eq!(
        (w.name.as_str(), w.text.as_str(), w.tooltip.as_str()),
        ("n", "t", "tt")
    );
    assert_eq!(w.checked, Some(true));
    assert!(!w.visibility);
}

#[test]
fn messages_leave_the_queue_in_the_order_in_which_they_came() {
    let mut ui = UserInterface::new();
    assert!(ui.poll_message().is_none());
    let a = WidgetMessage::visibility(Handle::new(1, 1), MessageDirection::ToWidget, true);
    let b = WidgetMessage::enabled(Handle::new(2, 1), MessageDirection::FromWidget, false);
    let c = WidgetMessage::link(Handle::new(3, 1), MessageDirection::ToWidget, Handle::new(1, 1));
    ui.send_message(a);
    ui.send_message(b);
    send_sync_message(&mut ui, c);
    let first = ui.poll_message().unwrap();
    assert_eq!(first.destination, Handle::new(1, 1));
    assert_eq!(first.data, MessageData::Widget(WidgetMessage::Visibility(true)));
    assert_eq!(first.flags, 0);
    let second = ui.poll_message().unwrap();
    assert_eq!(second.direction, MessageDirection::FromWidget);
    assert_eq!(second.data, MessageData::Widget(WidgetMessage::Enabled(false)));
    let third = ui.poll_message().unwrap();
    assert_eq!(third.flags, MSG_SYNC_FLAG);
    assert_eq!(MSG_SYNC_FLAG, 1);
    assert_eq!(
        third.data,
        MessageData::Widget(WidgetMessage::Link(Handle::new(1, 1)))
    );
    assert!(ui.poll_message().is_none());
    assert_eq!(ui.alive_count(), 1);
}

#[test]
fn a_message_can_be_turned_round_and_flagged() {
    assert_eq!(
        MessageDirection::ToWidget.reverse(),
        MessageDirection::FromWidget
    );
    assert_eq!(
        MessageDirection::FromWidget.reverse(),
        MessageDirection::ToWidget
    );
    let m = UiMessage::with_data(
        Handle::new(4, 1),
        MessageDirection::ToWidget,
        MessageData::Widget(WidgetMessage::Remove),
    );
    assert!(m.is_for(Handle::new(4, 1)));
    assert!(!m.is_for(Handle::new(4, 2)));
    assert!(m.to_widget());
    assert!(!m.from_widget());
    let m = m.with_flags(9);
    assert_eq!(m.flags, 9);
    assert_eq!(m.data, MessageData::Widget(WidgetMessage::Remove));
}

#[test]
fn the_user_interface_shares_the_tree_with_its_build_context() {
    let mut ui = UserInterface::new();
    let a = ui
        .build_ctx()
        .add_node(WidgetKind::Text, WidgetBuilder::new());
    let b = ui
        .build_ctx()
        .add_node(WidgetKind::Border, WidgetBuilder::new().with_child(a));
    assert_eq!(ui.alive_count(), 3);
    assert_eq!(ui.nodes().alive_count(), 3);
    assert_eq!(ui.node(a).parent, b);
    assert!(ui.try_get(b).is_some());
    assert!(ui.is_node_child_of(a, b));
    ui.remove_node(b);
    assert_eq!(ui.alive_count(), 1);
    assert!(ui.try_get(a).is_none());
}

#[test]
fn a_tree_counts_the_room_that_it_has_left() {
    let mut ui = UserInterface::new();
    assert_eq!(ui.room_left(), u32::MAX as usize - 1);
    let h = ui
        .build_ctx()
        .add_node(WidgetKind::Button, WidgetBuilder::new());
    assert_eq!(ui.room_left(), u32::MAX as usize - 2);
    assert_eq!(ui.nodes().room_left(), u32::MAX as usize - 2);
    ui.remove_node(h);
    // A slot that was used is never used again.
    assert_eq!(ui.room_left(), u32::MAX as usize - 2);
}

#[test]
fn a_builder_hands_on_the_numbers_of_a_number_box() {
    let mut ui = UserInterface::new();
    let one = editor_core::message::Number::one();
    let zero = editor_core::message::Number::zero();
    let plain = ui
        .build_ctx()
        .add_node(WidgetKind::NumericUpDown, WidgetBuilder::new());
    assert_eq!((ui.node(plain).value, ui.node(plain).min_value), (None, None));
    let with_value = ui.build_ctx().add_node(
        WidgetKind::NumericUpDown,
        WidgetBuilder::new().with_value(one).with_enabled(false),
    );
    assert_eq!(
        (ui.node(with_value).value, ui.node(with_value).min_value),
        (Some(one), None)
    );
    assert!(!ui.node(with_value).enabled);
    let with_both = ui.build_ctx().add_node(
        WidgetKind::NumericUpDown,
        WidgetBuilder::new()
            .with_min_value(zero)
            .with_value(one)
            .with_tooltip("both"),
    );
    assert_eq!(
        (ui.node(with_both).value, ui.node(with_both).min_value),
        (Some(one), Some(zero))
    );
    assert_eq!(ui.node(with_both).tooltip, "both");
}
