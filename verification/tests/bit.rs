use editor_core::bit::{
    is_bit_set, reset_bit, set_bit, BitContainer, BitField, BitFieldBuilder, BitFieldMessage,
    BitValue,
};
use editor_core::handle::Handle;
use editor_core::message::{
    CheckBoxMessage, MessageData, MessageDirection, MouseButton, UiMessage, WidgetMessage,
};
use editor_core::ui::{BuildContext, UserInterface};
use editor_core::widget::{WidgetBuilder, WidgetKind};

/// Builds a widget into a fresh user interface, asks for its removal, lets
/// the request take effect and expects that only the root is left.
fn test_widget_deletion(constructor: impl FnOnce(&mut BuildContext) -> Handle) {
    let mut ui = UserInterface::new();
    let widget = constructor(ui.build_ctx());
    ui.send_message(WidgetMessage::remove(widget, MessageDirection::ToWidget));
    while let Some(message) = ui.poll_message() {
        if message.data == MessageData::Widget(WidgetMessage::Remove)
            && ui.try_get(message.destination).is_some()
        {
            ui.remove_node(message.destination);
        }
    }
    // Only root node must be alive.
    assert_eq!(ui.alive_count(), 1);
}

#[test]
fn test_deletion() {
    test_widget_deletion(|ctx| {
        BitFieldBuilder::<usize>::new(WidgetBuilder::new())
            .build(ctx)
            .handle
    });
}

#[test]
fn set_bit_sets_one_bit() {
    assert_eq!(set_bit(0u8, 0), 1);
    assert_eq!(set_bit(0u8, 3), 8);
    assert_eq!(set_bit(0u8, 7), 128);
    assert_eq!(set_bit(0b1010u8, 1), 0b1010);
    assert_eq!(set_bit(0u64, 63), 1u64 << 63);
    assert_eq!(set_bit(0i8, 7), i8::MIN);
    assert_eq!(set_bit(5usize, 1), 7);
}

#[test]
fn set_bit_beyond_the_range_of_the_container_touches_bit_zero() {
    // No u8 stands for 300, so the shift is by zero places.
    assert_eq!(set_bit(0u8, 300), 1);
    assert_eq!(reset_bit(0xffu8, 300), 0xfe);
    assert!(is_bit_set(1u8, 300));
}

#[test]
fn reset_bit_clears_one_bit() {
    assert_eq!(reset_bit(0xffu8, 0), 0xfe);
    assert_eq!(reset_bit(0xffu8, 7), 0x7f);
    assert_eq!(reset_bit(0u16, 5), 0);
    assert_eq!(reset_bit(-1i32, 31), i32::MAX);
    assert_eq!(reset_bit(u64::MAX, 63), u64::MAX >> 1);
}

#[test]
fn is_bit_set_reads_one_bit() {
    assert!(is_bit_set(0b100u8, 2));
    assert!(!is_bit_set(0b100u8, 1));
    assert!(is_bit_set(-1i64, 63));
    assert!(!is_bit_set(i64::MAX, 63));
    assert!(is_bit_set(1usize << 9, 9));
}

#[test]
fn set_then_reset_gives_back_a_clear_bit() {
    for value in [0u8, 1, 0x55, 0xaa, 0xff] {
        for index in 0..8 {
            assert!(is_bit_set(set_bit(value, index), index));
            assert!(!is_bit_set(reset_bit(value, index), index));
            assert_eq!(reset_bit(set_bit(value, index), index), reset_bit(value, index));
            for other in 0..8 {
                if other != index {
                    assert_eq!(
                        is_bit_set(set_bit(value, index), other),
                        is_bit_set(value, other)
                    );
                }
            }
        }
    }
}

#[test]
fn containers_know_their_width() {
    assert_eq!(<u8 as BitContainer>::bits(), 8);
    assert_eq!(<i16 as BitContainer>::bits(), 16);
    assert_eq!(<u32 as BitContainer>::bits(), 32);
    assert_eq!(<i64 as BitContainer>::bits(), 64);
    assert_eq!(<usize as BitContainer>::bits(), std::mem::size_of::<usize>() * 8);
}

#[test]
fn a_message_carries_a_number_for_its_own_width_only() {
    let m = BitFieldMessage::value(Handle::new(3, 1), MessageDirection::ToWidget, 5u16);
    assert_eq!(m.data, MessageData::BitField(BitValue::U16(5)));
    assert_eq!(BitFieldMessage::<u16>::read(&m), Some(BitFieldMessage::Value(5)));
    assert_eq!(BitFieldMessage::<u8>::read(&m), None);
    assert_eq!(BitFieldMessage::<i16>::read(&m), None);
}

fn build_u8(ui: &mut UserInterface, value: u8) -> BitField<u8> {
    BitFieldBuilder::<u8>::new(WidgetBuilder::new())
        .with_value(value)
        .build(ui.build_ctx())
}

fn drain(ui: &mut UserInterface) -> Vec<UiMessage> {
    let mut out = Vec::new();
    while let Some(m) = ui.poll_message() {
        out.push(m);
    }
    out
}

#[test]
fn build_makes_one_checked_box_for_each_set_bit() {
    let mut ui = UserInterface::new();
    let field = build_u8(&mut ui, 0b1000_0101);
    assert_eq!(field.value, 0b1000_0101);
    assert_eq!(field.bit_switches.len(), 8);
    // Eight boxes, a panel, the field and the root.
    assert_eq!(ui.alive_count(), 11);
    let expected = [true, false, true, false, false, false, false, true];
    for (i, switch) in field.bit_switches.iter().enumerate() {
        let w = ui.node(*switch);
        assert_eq!(w.kind, WidgetKind::CheckBox);
        assert_eq!(w.checked, Some(expected[i]));
    }
    let own = ui.node(field.handle);
    assert_eq!(own.kind, WidgetKind::BitField);
    assert_eq!(own.children.len(), 1);
    let panel = ui.node(own.children[0]);
    assert_eq!(panel.kind, WidgetKind::WrapPanel);
    assert_eq!(panel.children, field.bit_switches);
    assert_eq!(panel.parent, field.handle);
    assert!(ui.is_node_child_of(field.bit_switches[3], field.handle));
    assert!(!ui.is_node_child_of(field.handle, field.bit_switches[3]));
    assert!(!ui.is_node_child_of(field.handle, field.handle));
}

#[test]
fn a_builder_without_a_value_builds_a_field_of_zero() {
    let mut ui = UserInterface::new();
    let field = BitFieldBuilder::<u32>::new(WidgetBuilder::new()).build(ui.build_ctx());
    assert_eq!(field.value, 0);
    assert_eq!(field.bit_switches.len(), 32);
    for switch in &field.bit_switches {
        assert_eq!(ui.node(*switch).checked, Some(false));
    }
}

#[test]
fn a_switch_that_reports_a_state_asks_for_the_changed_number() {
    let mut ui = UserInterface::new();
    let mut field = build_u8(&mut ui, 0b0000_0100);
    let on = CheckBoxMessage::checked(
        field.bit_switches[1],
        MessageDirection::FromWidget,
        Some(true),
    );
    field.handle_routed_message(&mut ui, &on);
    assert_eq!(field.value, 0b100);
    assert_eq!(
        drain(&mut ui),
        vec![BitFieldMessage::value(field.handle, MessageDirection::ToWidget, 0b110u8)]
    );
    let off = CheckBoxMessage::checked(
        field.bit_switches[2],
        MessageDirection::FromWidget,
        Some(false),
    );
    field.handle_routed_message(&mut ui, &off);
    assert_eq!(
        drain(&mut ui),
        vec![BitFieldMessage::value(field.handle, MessageDirection::ToWidget, 0u8)]
    );
    // A request to a switch is not a report from it, and a box of no field
    // is none of the field's business.
    let request =
        CheckBoxMessage::checked(field.bit_switches[1], MessageDirection::ToWidget, Some(true));
    field.handle_routed_message(&mut ui, &request);
    let stranger = CheckBoxMessage::checked(field.handle, MessageDirection::FromWidget, Some(true));
    field.handle_routed_message(&mut ui, &stranger);
    let undetermined =
        CheckBoxMessage::checked(field.bit_switches[1], MessageDirection::FromWidget, None);
    field.handle_routed_message(&mut ui, &undetermined);
    assert_eq!(drain(&mut ui), vec![]);
}

#[test]
fn a_new_number_is_taken_shown_and_reported() {
    let mut ui = UserInterface::new();
    let mut field = build_u8(&mut ui, 0);
    let set = BitFieldMessage::value(field.handle, MessageDirection::ToWidget, 0b11u8);
    field.handle_routed_message(&mut ui, &set);
    assert_eq!(field.value, 0b11);
    let sent = drain(&mut ui);
    assert_eq!(sent.len(), 9);
    for i in 0..8 {
        assert_eq!(
            sent[i],
            CheckBoxMessage::checked(
                field.bit_switches[i],
                MessageDirection::ToWidget,
                Some(i < 2)
            )
        );
    }
    assert_eq!(
        sent[8],
        BitFieldMessage::value(field.handle, MessageDirection::FromWidget, 0b11u8)
    );
    // The same number again changes nothing, nor does a number for another
    // widget, a report, or a number of another width.
    field.handle_routed_message(&mut ui, &set);
    let elsewhere = BitFieldMessage::value(field.bit_switches[0], MessageDirection::ToWidget, 1u8);
    field.handle_routed_message(&mut ui, &elsewhere);
    let report = BitFieldMessage::value(field.handle, MessageDirection::FromWidget, 1u8);
    field.handle_routed_message(&mut ui, &report);
    let wide = BitFieldMessage::value(field.handle, MessageDirection::ToWidget, 1u16);
    field.handle_routed_message(&mut ui, &wide);
    assert_eq!(field.value, 0b11);
    assert_eq!(drain(&mut ui), vec![]);
}

#[test]
fn a_right_click_that_lands_in_no_switch_asks_for_nothing() {
    let mut ui = UserInterface::new();
    let mut field = build_u8(&mut ui, 0b0000_1000);
    // Something inside switch 5, as the mark of a check box is.
    let mark = ui
        .build_ctx()
        .add_node(WidgetKind::Image, WidgetBuilder::new());
    let inner = ui.build_ctx().add_node(
        WidgetKind::Border,
        WidgetBuilder::new().with_child(mark),
    );
    // A widget cannot be given to a switch after the switch was built, so
    // the click lands on widgets under a box of their own.
    let click = |target: Handle, button: MouseButton| UiMessage {
        destination: target,
        direction: MessageDirection::FromWidget,
        flags: 0,
        data: MessageData::Widget(WidgetMessage::MouseDown { button }),
    };
    field.handle_routed_message(&mut ui, &click(mark, MouseButton::Right));
    field.handle_routed_message(&mut ui, &click(inner, MouseButton::Right));
    // On the switch itself the click is on no descendant of the switch.
    field.handle_routed_message(&mut ui, &click(field.bit_switches[5], MouseButton::Right));
    field.handle_routed_message(&mut ui, &click(field.bit_switches[5], MouseButton::Left));
    assert_eq!(drain(&mut ui), vec![]);
    assert_eq!(field.value, 0b1000);
}

#[test]
fn a_right_click_inside_a_switch_sets_or_clears_its_bit_alone() {
    let mut ui = UserInterface::new();
    // The switches of this field are boxes with a mark inside.
    let mut switches = Vec::new();
    let mut marks = Vec::new();
    for _ in 0..8 {
        let mark = ui
            .build_ctx()
            .add_node(WidgetKind::Image, WidgetBuilder::new());
        let switch = ui.build_ctx().add_node(
            WidgetKind::CheckBox,
            WidgetBuilder::new().with_child(mark),
        );
        marks.push(mark);
        switches.push(switch);
    }
    let handle = ui.build_ctx().add_node(
        WidgetKind::BitField,
        WidgetBuilder::new().with_children(&switches),
    );
    let mut field = BitField {
        handle,
        value: 0b0000_1000u8,
        bit_switches: switches,
    };
    let click = |target: Handle| UiMessage {
        destination: target,
        direction: MessageDirection::FromWidget,
        flags: 0,
        data: MessageData::Widget(WidgetMessage::MouseDown {
            button: MouseButton::Right,
        }),
    };
    field.handle_routed_message(&mut ui, &click(marks[5]));
    assert_eq!(
        drain(&mut ui),
        vec![BitFieldMessage::value(handle, MessageDirection::ToWidget, 0b0010_0000u8)]
    );
    field.handle_routed_message(&mut ui, &click(marks[3]));
    assert_eq!(
        drain(&mut ui),
        vec![BitFieldMessage::value(handle, MessageDirection::ToWidget, 0b1111_0111u8)]
    );
    assert_eq!(field.value, 0b1000);
}

#[test]
fn sync_switches_tells_every_switch() {
    let mut ui = UserInterface::new();
    let field = build_u8(&mut ui, 0xf0);
    field.sync_switches(&mut ui);
    let sent = drain(&mut ui);
    assert_eq!(sent.len(), 8);
    for i in 0..8 {
        assert_eq!(
            sent[i],
            CheckBoxMessage::checked(
                field.bit_switches[i],
                MessageDirection::ToWidget,
                Some(i >= 4)
            )
        );
    }
}

#[test]
fn the_switches_are_different_boxes_in_one_panel() {
    let mut ui = UserInterface::new();
    let top = ui
        .build_ctx()
        .add_node(WidgetKind::Text, WidgetBuilder::new());
    let field = BitFieldBuilder::<u16>::new(WidgetBuilder::new().with_child(top))
        .with_value(5)
        .build(ui.build_ctx());
    assert_eq!(field.bit_switches.len(), 16);
    let different: std::collections::HashSet<Handle> = field.bit_switches.iter().copied().collect();
    assert_eq!(different.len(), 16);
    // The panel comes after the children that the builder was given.
    let own = ui.node(field.handle);
    assert_eq!(own.children.len(), 2);
    assert_eq!(own.children[0], top);
    let panel = own.children[1];
    assert_eq!(ui.node(panel).kind, WidgetKind::WrapPanel);
    assert_eq!(ui.node(panel).parent, field.handle);
    assert_eq!(ui.node(panel).children, field.bit_switches);
    for (i, switch) in field.bit_switches.iter().enumerate() {
        assert_eq!(ui.node(*switch).parent, panel);
        assert_eq!(ui.node(*switch).checked, Some(i == 0 || i == 2));
    }
    assert!(!field.bit_switches.contains(&panel));
    assert!(!field.bit_switches.contains(&field.handle));
}
