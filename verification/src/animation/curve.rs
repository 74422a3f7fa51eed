//! The row of one curve in the list of tracks.

use crate::animation::track::{
    ValueBinding, INTERP_TO_KEY, LEFT_TAN_COLUMN, MODEL_COLUMN, MODEL_TO_VALUE, NAME_COLUMN,
    NEXT_COLUMN, PREV_COLUMN, RIGHT_TAN_COLUMN, VALUE_COLUMN, VALUE_TO_MODEL,
};
use crate::handle::Handle;
use crate::message::{
    plain, MessageDataView, MessageDirection, Number, NumericUpDownMessage, TextMessage, UiMessage,
    UiMessageView, WidgetMessage,
};
use crate::tree::{within, lemma_apart, alive, holder, info, kept, lemma_words, loose, sound, widget, Nodes};
use crate::ui::{spawn, BuildContext, UserInterface};
use crate::animation::thumb::leaf;
use crate::widget::{WidgetBuilder, WidgetInfo, WidgetKind};
use vstd::prelude::*;

verus! {

/// How a key of a curve joins its neighbours.
#[derive(Clone, Copy, Debug, PartialEq, Eq, Structural)]
pub enum CurveKeyKind {
    Constant,
    Linear,
    Cubic,
}

/// What a row shows of its curve at the place of the thumb. The texts are
/// the numbers in writing: the value to three places, the times of the keys
/// before and after to two places and with the unit.
#[derive(Debug, Clone)]
pub struct CurveData {
    pub id: u128,
    pub binding: ValueBinding,
    pub curve_index: usize,
    /// The kind of the key under the thumb, if a key is there.
    pub key_kind: Option<CurveKeyKind>,
    pub model_value: Number,
    pub value: Number,
    pub left_tan: Number,
    pub right_tan: Number,
    pub prev: Number,
    pub next: Number,
    pub value_text: String,
    pub prev_text: String,
    pub next_text: String,
}

impl CurveData {
    pub fn value_string(&self) -> (s: String)
        ensures
            s@ == self.value_text@,
    {
        self.value_text.clone()
    }

    pub fn prev_string(&self) -> (s: String)
        ensures
            s@ == self.prev_text@,
    {
        self.prev_text.clone()
    }

    pub fn next_string(&self) -> (s: String)
        ensures
            s@ == self.next_text@,
    {
        self.next_text.clone()
    }
}

/// The message that shows or hides `handle`.
pub open spec fn shows(handle: Handle, visible: bool) -> UiMessageView {
    plain(
        handle,
        MessageDirection::ToWidget,
        MessageDataView::Widget(WidgetMessage::Visibility(visible)),
    )
}

/// The message that puts `value` into the number box `handle`.
pub open spec fn sets(handle: Handle, value: Number) -> UiMessageView {
    plain(
        handle,
        MessageDirection::ToWidget,
        MessageDataView::NumericUpDown(NumericUpDownMessage::Value(value)),
    )
}

/// The message that puts `text` onto `handle`.
pub open spec fn says(handle: Handle, text: Seq<char>) -> UiMessageView {
    plain(handle, MessageDirection::ToWidget, MessageDataView::Text(text))
}

pub fn send_visible(handle: Handle, visible: bool, ui: &mut UserInterface)
    ensures
        final(ui).tree() == old(ui).tree(),
        final(ui).sent() == old(ui).sent().push(shows(handle, visible)),
{
    ui.send_message(WidgetMessage::visibility(handle, MessageDirection::ToWidget, visible));
}

pub fn send_value(handle: Handle, value: Number, ui: &mut UserInterface)
    ensures
        final(ui).tree() == old(ui).tree(),
        final(ui).sent() == old(ui).sent().push(sets(handle, value)),
{
    ui.send_message(NumericUpDownMessage::value(handle, MessageDirection::ToWidget, value));
}

pub fn send_text(handle: Handle, text: String, ui: &mut UserInterface)
    ensures
        final(ui).tree() == old(ui).tree(),
        final(ui).sent() == old(ui).sent().push(says(handle, text@)),
{
    ui.send_message(TextMessage::text(handle, MessageDirection::ToWidget, text));
}

/// The widgets of the row of one curve.
#[derive(Debug)]
pub struct CurveDataView {
    pub data: CurveData,
    pub label: Handle,
    pub model_value: Handle,
    pub value_key: Handle,
    pub key_field: Handle,
    pub key_kind: Handle,
    pub interp_text: Handle,
    pub left_tan: Handle,
    pub right_tan: Handle,
    pub next_key: Handle,
    pub prev_key: Handle,
    pub remove_key: Handle,
    pub set_model_to_value: Handle,
    pub set_value_to_model: Handle,
    pub set_value_to_interp: Handle,
}

impl CurveDataView {
    /// Whether `h` is a widget of `tree` of the given kind in the given
    /// cell of the grid.
    pub open spec fn placed(tree: Nodes, h: Handle, kind: WidgetKind, row: usize, column: usize) -> bool {
        info(tree, h) matches Some(i) && i == (WidgetInfo {
            children: i.children,
            row,
            column,
            ..leaf(kind, true, Seq::empty(), Seq::empty(), Seq::empty())
        })
    }

    /// Whether the widget `h` of `tree` holds no other widget.
    pub open spec fn bare(tree: Nodes, h: Handle) -> bool {
        info(tree, h) matches Some(i) && i.children.len() == 0
    }

    /// Each widget that the row names holds nothing, but for the grid
    /// around the box and the button for a key.
    pub open spec fn bare_but_one(&self, tree: Nodes) -> bool {
        &&& Self::bare(tree, self.label)
        &&& Self::bare(tree, self.model_value)
        &&& Self::bare(tree, self.key_field)
        &&& Self::bare(tree, self.key_kind)
        &&& Self::bare(tree, self.interp_text)
        &&& Self::bare(tree, self.left_tan)
        &&& Self::bare(tree, self.right_tan)
        &&& Self::bare(tree, self.next_key)
        &&& Self::bare(tree, self.prev_key)
        &&& Self::bare(tree, self.remove_key)
        &&& Self::bare(tree, self.set_model_to_value)
        &&& Self::bare(tree, self.set_value_to_model)
        &&& Self::bare(tree, self.set_value_to_interp)
    }

    /// The fourteen widgets are widgets of `tree`, of their kinds, in the
    /// given row and each in its column, with nothing else set on them. The
    /// box and the button for a key are in a grid of their own, in the
    /// column of the value.
    pub open spec fn shape(&self, tree: Nodes, row: usize) -> bool {
        &&& Self::placed(tree, self.label, WidgetKind::Text, row, NAME_COLUMN)
        &&& Self::placed(tree, self.model_value, WidgetKind::NumericUpDown, row, MODEL_COLUMN)
        &&& Self::placed(tree, self.set_value_to_model, WidgetKind::Button, row, VALUE_TO_MODEL)
        &&& Self::placed(tree, self.set_model_to_value, WidgetKind::Button, row, MODEL_TO_VALUE)
        &&& Self::placed(tree, self.key_field, WidgetKind::NumericUpDown, 0, 0)
        &&& Self::placed(tree, self.key_kind, WidgetKind::Button, 0, 1)
        &&& Self::placed(tree, self.value_key, WidgetKind::Grid, row, VALUE_COLUMN)
        &&& info(tree, self.value_key)->0.children == seq![self.key_field, self.key_kind]
        &&& holder(tree, self.key_field) == self.value_key
        &&& holder(tree, self.key_kind) == self.value_key
        &&& Self::placed(tree, self.interp_text, WidgetKind::Text, row, VALUE_COLUMN)
        &&& Self::placed(tree, self.set_value_to_interp, WidgetKind::Button, row, INTERP_TO_KEY)
        &&& Self::placed(tree, self.remove_key, WidgetKind::Button, row, INTERP_TO_KEY)
        &&& Self::placed(tree, self.left_tan, WidgetKind::NumericUpDown, row, LEFT_TAN_COLUMN)
        &&& Self::placed(tree, self.right_tan, WidgetKind::NumericUpDown, row, RIGHT_TAN_COLUMN)
        &&& Self::placed(tree, self.prev_key, WidgetKind::Button, row, PREV_COLUMN)
        &&& Self::placed(tree, self.next_key, WidgetKind::Button, row, NEXT_COLUMN)
    }

    /// The fourteen widgets that the row names.
    pub open spec fn widgets(&self) -> Seq<Handle> {
        seq![
            self.label,
            self.model_value,
            self.value_key,
            self.key_field,
            self.key_kind,
            self.interp_text,
            self.left_tan,
            self.right_tan,
            self.next_key,
            self.prev_key,
            self.remove_key,
            self.set_model_to_value,
            self.set_value_to_model,
            self.set_value_to_interp,
        ]
    }

    /// The widgets of the row that wait, loose, for the list of tracks to
    /// take them.
    pub open spec fn offered(&self) -> Seq<Handle> {
        seq![
            self.label,
            self.model_value,
            self.value_key,
            self.set_value_to_interp,
            self.remove_key,
            self.left_tan,
            self.right_tan,
            self.prev_key,
            self.next_key,
            self.set_model_to_value,
            self.set_value_to_model,
        ]
    }

    /// Builds the widgets of the row into the tree. Sixteen widgets enter
    /// it: the fourteen of the row; a grid around the text that shows a
    /// value between keys; and a button like the one that removes a key,
    /// which nothing names.
    pub fn new(row: usize, data: CurveData, ctx: &mut BuildContext) -> (view: CurveDataView)
        requires
            sound(old(ctx)@),
            old(ctx).has_room(16),
        ensures
            sound(final(ctx)@),
            kept(old(ctx)@, final(ctx)@),
            final(ctx)@.len() == old(ctx)@.len() + 16,
            view.shape(final(ctx)@, row),
            view.bare_but_one(final(ctx)@),
            view.widgets().no_duplicates(),
            within(view.widgets(), old(ctx)@.len() as int, final(ctx)@.len() as int),
            view.data == data,
            forall|k: int| 0 <= k < 11 ==> loose(final(ctx)@, #[trigger] view.offered()[k]),
            forall|x: Handle|
                loose(old(ctx)@, x) ==> #[trigger] loose(final(ctx)@, x),
            forall|x: Handle|
                info(old(ctx)@, x) is Some ==> #[trigger] info(final(ctx)@, x) == info(old(ctx)@, x),
    {
        let ghost before = ctx@;
        proof {
            lemma_words(before, Handle::none_spec());
        }
        let label = spawn(
            ctx,
            WidgetKind::Text,
            WidgetBuilder::new().on_column(NAME_COLUMN).on_row(row),
        );
        let model_value = spawn(
            ctx,
            WidgetKind::NumericUpDown,
            WidgetBuilder::new().on_column(MODEL_COLUMN).on_row(row),
        );
        let set_value_to_model = spawn(
            ctx,
            WidgetKind::Button,
            WidgetBuilder::new().on_column(VALUE_TO_MODEL).on_row(row),
        );
        let set_model_to_value = spawn(
            ctx,
            WidgetKind::Button,
            WidgetBuilder::new().on_column(MODEL_TO_VALUE).on_row(row),
        );
        let key_field = spawn(ctx, WidgetKind::NumericUpDown, WidgetBuilder::new());
        let key_kind = spawn(ctx, WidgetKind::Button, WidgetBuilder::new().on_column(1));
        let _unnamed = spawn(
            ctx,
            WidgetKind::Button,
            WidgetBuilder::new().on_column(INTERP_TO_KEY).on_row(row),
        );
        let value_key = spawn(
            ctx,
            WidgetKind::Grid,
            WidgetBuilder::new().on_column(VALUE_COLUMN).on_row(row).with_child(
                key_field,
            ).with_child(key_kind),
        );
        let interp_text = spawn(
            ctx,
            WidgetKind::Text,
            WidgetBuilder::new().on_column(VALUE_COLUMN).on_row(row),
        );
        let set_value_to_interp = spawn(
            ctx,
            WidgetKind::Button,
            WidgetBuilder::new().on_column(INTERP_TO_KEY).on_row(row),
        );
        let remove_key = spawn(
            ctx,
            WidgetKind::Button,
            WidgetBuilder::new().on_column(INTERP_TO_KEY).on_row(row),
        );
        let _value_interp = spawn(
            ctx,
            WidgetKind::Grid,
            WidgetBuilder::new().on_column(VALUE_COLUMN).on_row(row).with_child(interp_text),
        );
        let left_tan = spawn(
            ctx,
            WidgetKind::NumericUpDown,
            WidgetBuilder::new().on_column(LEFT_TAN_COLUMN).on_row(row),
        );
        let right_tan = spawn(
            ctx,
            WidgetKind::NumericUpDown,
            WidgetBuilder::new().on_column(RIGHT_TAN_COLUMN).on_row(row),
        );
        let prev_key = spawn(
            ctx,
            WidgetKind::Button,
            WidgetBuilder::new().on_column(PREV_COLUMN).on_row(row),
        );
        let next_key = spawn(
            ctx,
            WidgetKind::Button,
            WidgetBuilder::new().on_column(NEXT_COLUMN).on_row(row),
        );
        let view = CurveDataView {
            data,
            label,
            model_value,
            value_key,
            key_field,
            key_kind,
            interp_text,
            set_value_to_interp,
            remove_key,
            left_tan,
            right_tan,
            prev_key,
            next_key,
            set_model_to_value,
            set_value_to_model,
        };
        proof {
            assert(info(ctx@, value_key)->0.children =~= seq![key_field, key_kind]);
            lemma_apart(view.widgets());
        }
        view
    }

    /// The widgets of the row as the list of tracks lays them out.
    pub fn children(&self) -> (handles: Vec<Handle>)
        ensures
            handles@ == seq![
                self.label,
                self.model_value,
                self.value_key,
                self.interp_text,
                self.set_value_to_interp,
                self.remove_key,
                self.left_tan,
                self.right_tan,
                self.prev_key,
                self.next_key,
                self.set_model_to_value,
                self.set_value_to_model,
            ],
    {
        let mut handles: Vec<Handle> = Vec::new();
        handles.push(self.label);
        handles.push(self.model_value);
        handles.push(self.value_key);
        handles.push(self.interp_text);
        handles.push(self.set_value_to_interp);
        handles.push(self.remove_key);
        handles.push(self.left_tan);
        handles.push(self.right_tan);
        handles.push(self.prev_key);
        handles.push(self.next_key);
        handles.push(self.set_model_to_value);
        handles.push(self.set_value_to_model);
        proof {
            assert(handles@ =~= seq![
                self.label,
                self.model_value,
                self.value_key,
                self.interp_text,
                self.set_value_to_interp,
                self.remove_key,
                self.left_tan,
                self.right_tan,
                self.prev_key,
                self.next_key,
                self.set_model_to_value,
                self.set_value_to_model,
            ]);
        }
        handles
    }

    /// What the row tells its widgets so that they show `data`: the value
    /// of the model; the value under the thumb, in the box where a key is
    /// there and as text where none is; where the row is shown
    /// (`label_visible`), which of the widgets for a key and for a value
    /// between keys are; the tangents; and the times of the keys before and
    /// after.
    pub open spec fn sync_messages(&self, data: CurveData, label_visible: bool) -> Seq<
        UiMessageView,
    > {
        let on_key = data.key_kind is Some;
        seq![sets(self.model_value, data.model_value)] + (if on_key {
            seq![sets(self.key_field, data.value)]
        } else {
            seq![says(self.interp_text, data.value_text@)]
        }) + (if label_visible {
            seq![
                shows(self.value_key, on_key),
                shows(self.remove_key, on_key),
                shows(self.interp_text, !on_key),
                shows(self.set_value_to_interp, !on_key),
            ]
        } else {
            Seq::<UiMessageView>::empty()
        }) + seq![
            sets(self.left_tan, data.left_tan),
            sets(self.right_tan, data.right_tan),
            says(self.prev_key, data.prev_text@),
            says(self.next_key, data.next_text@),
        ]
    }

    /// Brings the widgets of the row in line with `data`.
    pub fn sync(&self, data: CurveData, ui: &mut UserInterface)
        requires
            old(ui).alive(self.label),
        ensures
            final(ui).tree() == old(ui).tree(),
            final(ui).sent() == old(ui).sent() + self.sync_messages(
                data,
                widget(old(ui).tree(), self.label).visibility,
            ),
    {
        send_value(self.model_value, data.model_value, ui);
        if data.key_kind.is_some() {
            send_value(self.key_field, data.value, ui);
        } else {
            send_text(self.interp_text, data.value_string(), ui);
        }
        let label_visible = ui.node(self.label).visibility();
        if label_visible {
            let on_key = data.key_kind.is_some();
            send_visible(self.value_key, on_key, ui);
            send_visible(self.remove_key, on_key, ui);
            send_visible(self.interp_text, !on_key, ui);
            send_visible(self.set_value_to_interp, !on_key, ui);
        }
        send_value(self.left_tan, data.left_tan, ui);
        send_value(self.right_tan, data.right_tan, ui);
        send_text(self.prev_key, data.prev_string(), ui);
        send_text(self.next_key, data.next_string(), ui);
        proof {
            assert(ui.sent() =~= old(ui).sent() + self.sync_messages(data, label_visible));
        }
    }

    /// What showing or hiding the row tells its widgets. Of the widgets for
    /// a key and for a value between keys, only those that fit what is
    /// under the thumb are shown.
    pub open spec fn visibility_messages(&self, visible: bool) -> Seq<UiMessageView> {
        let on_key = self.data.key_kind is Some;
        seq![
            shows(self.label, visible),
            shows(self.model_value, visible),
            shows(self.value_key, visible && on_key),
            shows(self.remove_key, visible && on_key),
            shows(self.interp_text, visible && !on_key),
            shows(self.set_value_to_interp, visible && !on_key),
            shows(self.left_tan, visible),
            shows(self.right_tan, visible),
            shows(self.next_key, visible),
            shows(self.prev_key, visible),
            shows(self.set_model_to_value, visible),
            shows(self.set_value_to_model, visible),
        ]
    }

    /// Shows or hides the row.
    pub fn send_visibility(&self, visible: bool, ui: &mut UserInterface)
        ensures
            final(ui).tree() == old(ui).tree(),
            final(ui).sent() == old(ui).sent() + self.visibility_messages(visible),
    {
        let on_key = self.data.key_kind.is_some();
        send_visible(self.label, visible, ui);
        send_visible(self.model_value, visible, ui);
        send_visible(self.value_key, visible && on_key, ui);
        send_visible(self.remove_key, visible && on_key, ui);
        send_visible(self.interp_text, visible && !on_key, ui);
        send_visible(self.set_value_to_interp, visible && !on_key, ui);
        send_visible(self.left_tan, visible, ui);
        send_visible(self.right_tan, visible, ui);
        send_visible(self.next_key, visible, ui);
        send_visible(self.prev_key, visible, ui);
        send_visible(self.set_model_to_value, visible, ui);
        send_visible(self.set_value_to_model, visible, ui);
        proof {
            assert(ui.sent() =~= old(ui).sent() + self.visibility_messages(visible));
        }
    }

    /// Takes the values of the row from what its widgets show. There is
    /// nothing that a row takes yet.
    pub fn sync_to_data(&self, data: CurveData, ui: &mut UserInterface)
        ensures
            final(ui).tree() == old(ui).tree(),
            final(ui).sent() == old(ui).sent(),
    {
    }
}

} // verus!
