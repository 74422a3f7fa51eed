//! Messages between widgets.
//!
//! A message is for one widget, or from one. What it carries depends on the
//! kind of widget. Contracts speak of a message by its view, in which text
//! is a sequence of characters and a list a sequence.

use crate::bit::BitValue;
use crate::handle::Handle;
use crate::tilemap::tiles::{TileDefinitionHandle, TileResource};
use vstd::prelude::*;

verus! {

/// Whether a message asks a widget to do something or reports what a widget
/// has done.
#[derive(Clone, Copy, Debug, PartialEq, Eq, Structural)]
pub enum MessageDirection {
    ToWidget,
    FromWidget,
}

impl MessageDirection {
    /// The other direction.
    pub open spec fn reversed(self) -> MessageDirection {
        match self {
            MessageDirection::ToWidget => MessageDirection::FromWidget,
            MessageDirection::FromWidget => MessageDirection::ToWidget,
        }
    }

    /// The other direction.
    #[verifier::when_used_as_spec(reversed)]
    pub fn reverse(self) -> (d: MessageDirection)
        ensures
            d == self.reversed(),
    {
        match self {
            MessageDirection::ToWidget => MessageDirection::FromWidget,
            MessageDirection::FromWidget => MessageDirection::ToWidget,
        }
    }
}

#[derive(Clone, Copy, Debug, PartialEq, Eq, Structural)]
pub enum MouseButton {
    Left,
    Right,
    Middle,
    Back,
    Forward,
}

/// A real number of the host, in the single format of IEEE 754. The logic
/// hands such numbers on and never looks into them.
#[derive(Clone, Copy, Debug, PartialEq, Eq, Structural)]
pub struct Number {
    pub bits: u32,
}

impl Number {
    pub open spec fn zero_spec() -> Number {
        Number { bits: 0 }
    }

    /// The number zero.
    #[verifier::when_used_as_spec(zero_spec)]
    pub fn zero() -> (n: Number)
        ensures
            n == Number::zero_spec(),
    {
        Number { bits: 0 }
    }

    pub open spec fn one_spec() -> Number {
        Number { bits: 0x3f80_0000 }
    }

    /// The number one.
    #[verifier::when_used_as_spec(one_spec)]
    pub fn one() -> (n: Number)
        ensures
            n == Number::one_spec(),
    {
        Number { bits: 0x3f80_0000 }
    }
}

/// Messages that every widget understands.
#[derive(Clone, Copy, Debug, PartialEq, Eq, Structural)]
pub enum WidgetMessage {
    Visibility(bool),
    Enabled(bool),
    Remove,
    Link(Handle),
    MouseDown { button: MouseButton },
}

#[derive(Clone, Copy, Debug, PartialEq, Eq, Structural)]
pub enum CheckBoxMessage {
    Check(Option<bool>),
}

#[derive(Clone, Copy, Debug, PartialEq, Eq, Structural)]
pub enum ButtonMessage {
    Click,
}

#[derive(Clone, Debug, PartialEq, Eq)]
pub enum DropdownListMessage {
    SelectionChanged(Option<usize>),
    Items(Vec<Handle>),
}

#[derive(Clone, Copy, Debug, PartialEq, Eq, Structural)]
pub enum NumericUpDownMessage {
    Value(Number),
}

#[derive(Clone, Debug, PartialEq, Eq)]
pub enum TextMessage {
    Text(String),
}

#[derive(Clone, Copy, Debug, PartialEq, Eq, Structural)]
pub enum ProgressBarMessage {
    /// How far the work has come, in hundredths.
    Progress { percent: u32 },
}

#[derive(Clone, Copy, Debug, PartialEq, Eq, Structural)]
pub enum WindowMessage {
    Open { center: bool, focus_content: bool },
    OpenModal { center: bool, focus_content: bool },
}

#[derive(Clone, Copy, Debug, PartialEq, Eq, Structural)]
pub enum CurveEditorMessage {
    Zoom { x: Number, y: Number },
    ViewPosition { x: Number, y: Number },
    /// Shows no curve.
    SyncEmpty,
}

#[derive(Clone, Copy, Debug, PartialEq, Eq, Structural)]
pub enum DecoratorMessage {
    Select(bool),
}

#[derive(Clone, Copy, Debug, PartialEq, Eq, Structural)]
pub enum Vec2EditorMessage {
    Value { x: u32, y: u32 },
}

#[derive(Clone, Copy, Debug, PartialEq, Eq, Structural)]
pub enum TileHandleEditorMessage {
    Value(Option<TileDefinitionHandle>),
}

#[derive(Clone, Copy, Debug, PartialEq, Eq, Structural)]
pub enum MaterialFieldMessage {
    /// The material, by the number that names the resource.
    Material(u64),
}

/// Asks for the panel of tiles to open on a resource, with a tile in the
/// middle of it if one is given.
#[derive(Clone, Copy, Debug, PartialEq, Eq, Structural)]
pub struct OpenTilePanelMessage {
    pub resource: TileResource,
    pub center: Option<TileDefinitionHandle>,
}

/// A value of a field of an object that an inspector shows.
#[derive(Clone, Debug, PartialEq, Eq)]
pub enum FieldValue {
    Unsigned(u32),
    Real(Number),
    Text(String),
}

pub enum FieldValueView {
    Unsigned(u32),
    Real(Number),
    Text(Seq<char>),
}

impl View for FieldValue {
    type V = FieldValueView;

    open spec fn view(&self) -> FieldValueView {
        match *self {
            FieldValue::Unsigned(v) => FieldValueView::Unsigned(v),
            FieldValue::Real(v) => FieldValueView::Real(v),
            FieldValue::Text(v) => FieldValueView::Text(v@),
        }
    }
}

#[derive(Clone, Debug, PartialEq, Eq)]
pub enum InspectorMessage {
    /// The user has given the field `name` a new value.
    PropertyChanged { name: String, value: FieldValue },
}

/// A message that is to be delivered some frames later.
#[derive(Debug, PartialEq, Eq)]
pub struct DelayedMessage {
    pub delay_frames: usize,
    pub content: UiMessage,
}

/// What a message carries.
#[derive(Debug, PartialEq, Eq)]
pub enum MessageData {
    Widget(WidgetMessage),
    CheckBox(CheckBoxMessage),
    BitField(BitValue),
    Button(ButtonMessage),
    DropdownList(DropdownListMessage),
    NumericUpDown(NumericUpDownMessage),
    Text(TextMessage),
    ProgressBar(ProgressBarMessage),
    Window(WindowMessage),
    CurveEditor(CurveEditorMessage),
    Decorator(DecoratorMessage),
    Vec2Editor(Vec2EditorMessage),
    TileHandleEditor(TileHandleEditorMessage),
    MaterialField(MaterialFieldMessage),
    OpenTilePanel(OpenTilePanelMessage),
    Inspector(InspectorMessage),
    Delayed(Box<DelayedMessage>),
}

/// What a message carries, as contracts see it.
pub enum MessageDataView {
    Widget(WidgetMessage),
    CheckBox(CheckBoxMessage),
    BitField(BitValue),
    Button(ButtonMessage),
    DropdownSelection(Option<usize>),
    DropdownItems(Seq<Handle>),
    NumericUpDown(NumericUpDownMessage),
    Text(Seq<char>),
    ProgressBar(ProgressBarMessage),
    Window(WindowMessage),
    CurveEditor(CurveEditorMessage),
    Decorator(DecoratorMessage),
    Vec2Editor(Vec2EditorMessage),
    TileHandleEditor(TileHandleEditorMessage),
    MaterialField(MaterialFieldMessage),
    OpenTilePanel(OpenTilePanelMessage),
    PropertyChanged { name: Seq<char>, value: FieldValueView },
    /// A message to be delivered later. It is seen as it is; what it holds
    /// has a view of its own.
    Delayed(DelayedMessage),
}

impl View for MessageData {
    type V = MessageDataView;

    open spec fn view(&self) -> MessageDataView {
        match *self {
            MessageData::Widget(m) => MessageDataView::Widget(m),
            MessageData::CheckBox(m) => MessageDataView::CheckBox(m),
            MessageData::BitField(v) => MessageDataView::BitField(v),
            MessageData::Button(m) => MessageDataView::Button(m),
            MessageData::DropdownList(DropdownListMessage::SelectionChanged(i)) => MessageDataView::DropdownSelection(i),
            MessageData::DropdownList(DropdownListMessage::Items(items)) => MessageDataView::DropdownItems(items@),
            MessageData::NumericUpDown(m) => MessageDataView::NumericUpDown(m),
            MessageData::Text(TextMessage::Text(text)) => MessageDataView::Text(text@),
            MessageData::ProgressBar(m) => MessageDataView::ProgressBar(m),
            MessageData::Window(m) => MessageDataView::Window(m),
            MessageData::CurveEditor(m) => MessageDataView::CurveEditor(m),
            MessageData::Decorator(m) => MessageDataView::Decorator(m),
            MessageData::Vec2Editor(m) => MessageDataView::Vec2Editor(m),
            MessageData::TileHandleEditor(m) => MessageDataView::TileHandleEditor(m),
            MessageData::MaterialField(m) => MessageDataView::MaterialField(m),
            MessageData::OpenTilePanel(m) => MessageDataView::OpenTilePanel(m),
            MessageData::Inspector(InspectorMessage::PropertyChanged { name, value }) => MessageDataView::PropertyChanged {
                name: name@,
                value: value@,
            },
            MessageData::Delayed(delayed) => MessageDataView::Delayed(*delayed),
        }
    }
}

/// A message for, or from, one widget.
#[derive(Debug, PartialEq, Eq)]
pub struct UiMessage {
    pub destination: Handle,
    pub direction: MessageDirection,
    pub flags: u64,
    pub data: MessageData,
}

/// A message as contracts see it.
pub struct UiMessageView {
    pub destination: Handle,
    pub direction: MessageDirection,
    pub flags: u64,
    pub data: MessageDataView,
}

impl View for UiMessage {
    type V = UiMessageView;

    open spec fn view(&self) -> UiMessageView {
        UiMessageView {
            destination: self.destination,
            direction: self.direction,
            flags: self.flags,
            data: self.data@,
        }
    }
}

impl UiMessageView {
    /// The same message with other flags.
    pub open spec fn flagged(self, flags: u64) -> UiMessageView {
        UiMessageView { flags, ..self }
    }

    /// The same message going the other way.
    pub open spec fn reversed(self) -> UiMessageView {
        UiMessageView { direction: self.direction.reversed(), ..self }
    }
}

/// The message without flags that carries `data` to or from `destination`.
pub open spec fn plain(destination: Handle, direction: MessageDirection, data: MessageDataView) -> UiMessageView {
    UiMessageView { destination, direction, flags: 0, data }
}

impl UiMessage {
    /// The message without flags that carries `data` to or from `destination`.
    pub fn with_data(destination: Handle, direction: MessageDirection, data: MessageData) -> (m:
        UiMessage)
        ensures
            m@ == plain(destination, direction, data@),
            m.data == data,
    {
        UiMessage { destination, direction, flags: 0, data }
    }

    /// The same message with other flags.
    pub fn with_flags(self, flags: u64) -> (m: UiMessage)
        ensures
            m@ == self@.flagged(flags),
            m.data == self.data,
    {
        let mut m = self;
        m.flags = flags;
        m
    }

    /// Whether the message is for, or from, `handle`.
    pub fn is_for(&self, handle: Handle) -> (b: bool)
        ensures
            b == (self.destination == handle),
    {
        self.destination == handle
    }

    /// Whether the message reports what a widget has done.
    pub fn from_widget(&self) -> (b: bool)
        ensures
            b == (self.direction == MessageDirection::FromWidget),
    {
        matches!(self.direction, MessageDirection::FromWidget)
    }

    /// Whether the message asks a widget to do something.
    pub fn to_widget(&self) -> (b: bool)
        ensures
            b == (self.direction == MessageDirection::ToWidget),
    {
        matches!(self.direction, MessageDirection::ToWidget)
    }
}

impl WidgetMessage {
    /// The message that shows or hides a widget.
    pub fn visibility(destination: Handle, direction: MessageDirection, visible: bool) -> (m:
        UiMessage)
        ensures
            m@ == plain(
                destination,
                direction,
                MessageDataView::Widget(WidgetMessage::Visibility(visible)),
            ),
    {
        UiMessage::with_data(
            destination,
            direction,
            MessageData::Widget(WidgetMessage::Visibility(visible)),
        )
    }

    /// The message that lets a widget react to input, or stops it.
    pub fn enabled(destination: Handle, direction: MessageDirection, enabled: bool) -> (m:
        UiMessage)
        ensures
            m@ == plain(
                destination,
                direction,
                MessageDataView::Widget(WidgetMessage::Enabled(enabled)),
            ),
    {
        UiMessage::with_data(
            destination,
            direction,
            MessageData::Widget(WidgetMessage::Enabled(enabled)),
        )
    }

    /// The message that takes a widget out of the tree.
    pub fn remove(destination: Handle, direction: MessageDirection) -> (m: UiMessage)
        ensures
            m@ == plain(destination, direction, MessageDataView::Widget(WidgetMessage::Remove)),
    {
        UiMessage::with_data(destination, direction, MessageData::Widget(WidgetMessage::Remove))
    }

    /// The message that makes a widget a child of `parent`.
    pub fn link(destination: Handle, direction: MessageDirection, parent: Handle) -> (m: UiMessage)
        ensures
            m@ == plain(
                destination,
                direction,
                MessageDataView::Widget(WidgetMessage::Link(parent)),
            ),
    {
        UiMessage::with_data(
            destination,
            direction,
            MessageData::Widget(WidgetMessage::Link(parent)),
        )
    }
}

impl CheckBoxMessage {
    /// The message that sets, or reports, the state of a check box.
    pub fn checked(destination: Handle, direction: MessageDirection, value: Option<bool>) -> (m:
        UiMessage)
        ensures
            m@ == plain(
                destination,
                direction,
                MessageDataView::CheckBox(CheckBoxMessage::Check(value)),
            ),
    {
        UiMessage::with_data(
            destination,
            direction,
            MessageData::CheckBox(CheckBoxMessage::Check(value)),
        )
    }
}

impl DropdownListMessage {
    /// The message that gives a list its items.
    pub fn items(destination: Handle, direction: MessageDirection, items: Vec<Handle>) -> (m:
        UiMessage)
        ensures
            m@ == plain(destination, direction, MessageDataView::DropdownItems(items@)),
    {
        UiMessage::with_data(
            destination,
            direction,
            MessageData::DropdownList(DropdownListMessage::Items(items)),
        )
    }
}

impl NumericUpDownMessage {
    /// The message that sets, or reports, the number in a number box.
    pub fn value(destination: Handle, direction: MessageDirection, value: Number) -> (m: UiMessage)
        ensures
            m@ == plain(
                destination,
                direction,
                MessageDataView::NumericUpDown(NumericUpDownMessage::Value(value)),
            ),
    {
        UiMessage::with_data(
            destination,
            direction,
            MessageData::NumericUpDown(NumericUpDownMessage::Value(value)),
        )
    }
}

impl ProgressBarMessage {
    /// The message that sets how far a progress bar has come.
    pub fn progress(destination: Handle, direction: MessageDirection, percent: u32) -> (m: UiMessage)
        ensures
            m@ == plain(
                destination,
                direction,
                MessageDataView::ProgressBar(ProgressBarMessage::Progress { percent }),
            ),
    {
        UiMessage::with_data(
            destination,
            direction,
            MessageData::ProgressBar(ProgressBarMessage::Progress { percent }),
        )
    }
}

impl WindowMessage {
    /// The message that opens a window.
    pub fn open(
        destination: Handle,
        direction: MessageDirection,
        center: bool,
        focus_content: bool,
    ) -> (m: UiMessage)
        ensures
            m@ == plain(
                destination,
                direction,
                MessageDataView::Window(WindowMessage::Open { center, focus_content }),
            ),
    {
        UiMessage::with_data(
            destination,
            direction,
            MessageData::Window(WindowMessage::Open { center, focus_content }),
        )
    }

    /// The message that opens a window and keeps everything else from the
    /// user until it is closed.
    pub fn open_modal(
        destination: Handle,
        direction: MessageDirection,
        center: bool,
        focus_content: bool,
    ) -> (m: UiMessage)
        ensures
            m@ == plain(
                destination,
                direction,
                MessageDataView::Window(WindowMessage::OpenModal { center, focus_content }),
            ),
    {
        UiMessage::with_data(
            destination,
            direction,
            MessageData::Window(WindowMessage::OpenModal { center, focus_content }),
        )
    }
}

impl CurveEditorMessage {
    /// The message that carries `data` to or from a curve editor.
    pub fn message(destination: Handle, direction: MessageDirection, data: CurveEditorMessage) -> (m:
        UiMessage)
        ensures
            m@ == plain(destination, direction, MessageDataView::CurveEditor(data)),
    {
        UiMessage::with_data(destination, direction, MessageData::CurveEditor(data))
    }
}

impl DecoratorMessage {
    /// The message that shows a decorator as selected, or not.
    pub fn select(destination: Handle, direction: MessageDirection, selected: bool) -> (m:
        UiMessage)
        ensures
            m@ == plain(
                destination,
                direction,
                MessageDataView::Decorator(DecoratorMessage::Select(selected)),
            ),
    {
        UiMessage::with_data(
            destination,
            direction,
            MessageData::Decorator(DecoratorMessage::Select(selected)),
        )
    }
}

impl Vec2EditorMessage {
    pub fn value(destination: Handle, direction: MessageDirection, x: u32, y: u32) -> (m: UiMessage)
        ensures
            m@ == plain(
                destination,
                direction,
                MessageDataView::Vec2Editor(Vec2EditorMessage::Value { x, y }),
            ),
    {
        UiMessage::with_data(
            destination,
            direction,
            MessageData::Vec2Editor(Vec2EditorMessage::Value { x, y }),
        )
    }
}

impl TileHandleEditorMessage {
    pub fn value(
        destination: Handle,
        direction: MessageDirection,
        handle: Option<TileDefinitionHandle>,
    ) -> (m: UiMessage)
        ensures
            m@ == plain(
                destination,
                direction,
                MessageDataView::TileHandleEditor(TileHandleEditorMessage::Value(handle)),
            ),
    {
        UiMessage::with_data(
            destination,
            direction,
            MessageData::TileHandleEditor(TileHandleEditorMessage::Value(handle)),
        )
    }
}

impl MaterialFieldMessage {
    pub fn material(destination: Handle, direction: MessageDirection, material: u64) -> (m:
        UiMessage)
        ensures
            m@ == plain(
                destination,
                direction,
                MessageDataView::MaterialField(MaterialFieldMessage::Material(material)),
            ),
    {
        UiMessage::with_data(
            destination,
            direction,
            MessageData::MaterialField(MaterialFieldMessage::Material(material)),
        )
    }
}

impl OpenTilePanelMessage {
    /// The message that asks for the panel of tiles. It goes to no widget;
    /// the editor of tile maps takes it.
    pub fn message(resource: TileResource, center: Option<TileDefinitionHandle>) -> (m: UiMessage)
        ensures
            m@ == plain(
                Handle::none_spec(),
                MessageDirection::ToWidget,
                MessageDataView::OpenTilePanel(OpenTilePanelMessage { resource, center }),
            ),
    {
        UiMessage::with_data(
            Handle::none(),
            MessageDirection::ToWidget,
            MessageData::OpenTilePanel(OpenTilePanelMessage { resource, center }),
        )
    }
}

impl DelayedMessage {
    /// The message that asks for `content` to be delivered after
    /// `delay_frames` frames. It goes to no widget; whoever keeps delayed
    /// messages takes it.
    pub fn message(delay_frames: usize, content: UiMessage) -> (m: UiMessage)
        ensures
            m@ == plain(
                Handle::none_spec(),
                MessageDirection::ToWidget,
                MessageDataView::Delayed(DelayedMessage { delay_frames, content }),
            ),
    {
        UiMessage::with_data(
            Handle::none(),
            MessageDirection::ToWidget,
            MessageData::Delayed(Box::new(DelayedMessage { delay_frames, content })),
        )
    }
}

impl TextMessage {
    /// The message that sets, or reports, the text of a widget.
    pub fn text(destination: Handle, direction: MessageDirection, text: String) -> (m: UiMessage)
        ensures
            m@ == plain(destination, direction, MessageDataView::Text(text@)),
    {
        UiMessage::with_data(destination, direction, MessageData::Text(TextMessage::Text(text)))
    }
}

} // verus!
