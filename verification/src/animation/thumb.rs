//! The thumb of the animation editor: where in time the editor stands, and
//! the buttons that act on all tracks at that time.

use crate::animation::{place, AnimationContainer, AnimationView};
use crate::command::{Command, CommandView, MessageSender, MessageView, SliceBound};
use crate::handle::Handle;
use crate::message::{
    plain, ButtonMessage, MessageData, MessageDataView, MessageDirection, Number,
    NumericUpDownMessage, UiMessage, UiMessageView,
};
use crate::scene::AnimationSelection;
use crate::tree::{within, lemma_apart, built, holder, info, kept, lemma_dialog, lemma_words, loose, made, sound, Nodes};
use crate::ui::{spawn, BuildContext, UserInterface};
use crate::widget::{WidgetBuilder, WidgetInfo, WidgetKind};
use vstd::prelude::*;

verus! {

/// The pictures of the thumb's buttons.
#[derive(Clone, Copy, Debug, PartialEq, Eq, Structural)]
pub enum Icon {
    Key,
    Clear,
    Time,
}

impl Icon {
    pub open spec fn name_spec(self) -> Seq<char> {
        match self {
            Icon::Key => "key"@,
            Icon::Clear => "clear"@,
            Icon::Time => "time"@,
        }
    }

    /// The name by which the host finds the picture.
    pub fn name(self) -> (s: &'static str)
        ensures
            s@ == self.name_spec(),
    {
        match self {
            Icon::Key => "key",
            Icon::Clear => "clear",
            Icon::Time => "time",
        }
    }
}

/// The widgets of the thumb.
#[derive(Debug)]
pub struct ThumbDataView {
    pub content: Handle,
    pub prev: Number,
    pub next: Number,
    pub position_box: Handle,
    pub next_key: Handle,
    pub prev_key: Handle,
    pub goto_start: Handle,
    pub goto_end: Handle,
    pub start_box: Handle,
    pub end_box: Handle,
    pub value_to_model: Handle,
    pub value_to_interp: Handle,
    pub model_to_value: Handle,
    pub remove_key: Handle,
}

/// What a widget without children is: enabled or not, with a name, a text
/// and a tooltip, and nothing else set.
pub open spec fn leaf(
    kind: WidgetKind,
    enabled: bool,
    name: Seq<char>,
    text: Seq<char>,
    tooltip: Seq<char>,
) -> WidgetInfo {
    WidgetInfo {
        kind,
        children: Seq::<Handle>::empty(),
        enabled,
        visibility: true,
        row: 0,
        column: 0,
        checked: None,
        value: None,
        min_value: None,
        name,
        text,
        tooltip,
    }
}

/// What a box for a time is when it is built: a number box that does not
/// work yet, holds zero and takes nothing below zero.
pub open spec fn time_box(tooltip: Seq<char>) -> WidgetInfo {
    WidgetInfo {
        value: Some(Number::zero_spec()),
        min_value: Some(Number::zero_spec()),
        ..leaf(WidgetKind::NumericUpDown, false, Seq::empty(), Seq::empty(), tooltip)
    }
}

/// Builds a picture.
pub fn new_icon(icon: Icon, ctx: &mut BuildContext) -> (h: Handle)
    requires
        sound(old(ctx)@),
        old(ctx).has_room(1),
    ensures
        made(old(ctx)@, final(ctx)@, h),
        final(ctx)@.len() == old(ctx)@.len() + 1,
        info(final(ctx)@, h) == Some(
            leaf(WidgetKind::Image, true, icon.name_spec(), Seq::empty(), Seq::empty()),
        ),
{
    let ghost before = ctx@;
    proof {
        lemma_words(before, Handle::none_spec());
    }
    let h = spawn(ctx, WidgetKind::Image, WidgetBuilder::new().with_name(icon.name()));
    proof {
        lemma_dialog(before, ctx@, h);
    }
    h
}

/// Builds a box for a time, disabled until there is an animation.
pub fn new_time_box(tooltip: &'static str, ctx: &mut BuildContext) -> (h: Handle)
    requires
        sound(old(ctx)@),
        old(ctx).has_room(1),
    ensures
        made(old(ctx)@, final(ctx)@, h),
        final(ctx)@.len() == old(ctx)@.len() + 1,
        info(final(ctx)@, h) == Some(time_box(tooltip@)),
{
    let ghost before = ctx@;
    proof {
        lemma_words(before, Handle::none_spec());
    }
    let h = spawn(
        ctx,
        WidgetKind::NumericUpDown,
        WidgetBuilder::new().with_enabled(false).with_tooltip(tooltip).with_min_value(
            Number::zero(),
        ).with_value(Number::zero()),
    );
    proof {
        lemma_dialog(before, ctx@, h);
    }
    h
}

/// Builds a button with a text and a tooltip.
pub fn new_button(tooltip: &'static str, text: &'static str, ctx: &mut BuildContext) -> (h: Handle)
    requires
        sound(old(ctx)@),
        old(ctx).has_room(1),
    ensures
        made(old(ctx)@, final(ctx)@, h),
        final(ctx)@.len() == old(ctx)@.len() + 1,
        info(final(ctx)@, h) == Some(
            leaf(WidgetKind::Button, true, Seq::empty(), text@, tooltip@),
        ),
{
    let ghost before = ctx@;
    proof {
        lemma_words(before, Handle::none_spec());
    }
    let h = spawn(
        ctx,
        WidgetKind::Button,
        WidgetBuilder::new().with_tooltip(tooltip).with_text(text),
    );
    proof {
        lemma_dialog(before, ctx@, h);
    }
    h
}

/// Builds a button that shows a time, zero seconds at first.
pub fn new_time_button(tooltip: &'static str, ctx: &mut BuildContext) -> (h: Handle)
    requires
        sound(old(ctx)@),
        old(ctx).has_room(1),
    ensures
        made(old(ctx)@, final(ctx)@, h),
        final(ctx)@.len() == old(ctx)@.len() + 1,
        info(final(ctx)@, h) == Some(
            leaf(WidgetKind::Button, true, Seq::empty(), "0s"@, tooltip@),
        ),
{
    new_button(tooltip, "0s", ctx)
}

/// Builds a button with a text.
pub fn new_text_button(text: &'static str, ctx: &mut BuildContext) -> (h: Handle)
    requires
        sound(old(ctx)@),
        old(ctx).has_room(1),
    ensures
        made(old(ctx)@, final(ctx)@, h),
        final(ctx)@.len() == old(ctx)@.len() + 1,
        info(final(ctx)@, h) == Some(
            leaf(WidgetKind::Button, true, Seq::empty(), text@, Seq::empty()),
        ),
{
    let ghost before = ctx@;
    proof {
        lemma_words(before, Handle::none_spec());
    }
    let h = spawn(ctx, WidgetKind::Button, WidgetBuilder::new().with_text(text));
    proof {
        lemma_dialog(before, ctx@, h);
    }
    h
}

/// Builds a button with a picture and a tooltip.
pub fn new_icon_button(tooltip: &'static str, icon: Icon, ctx: &mut BuildContext) -> (h: Handle)
    requires
        sound(old(ctx)@),
        old(ctx).has_room(2),
    ensures
        built(old(ctx)@, final(ctx)@, h, Seq::<Handle>::empty()),
        made(old(ctx)@, final(ctx)@, h),
        final(ctx)@.len() == old(ctx)@.len() + 2,
        info(final(ctx)@, h) matches Some(b) && b.is_like(
            WidgetInfo { tooltip: tooltip@, ..WidgetInfo::bare(WidgetKind::Button) },
        ) && b.children.len() == 1 && holder(
            final(ctx)@,
            b.children[0],
        ) == h && info(final(ctx)@, b.children[0]) == Some(
            leaf(WidgetKind::Image, true, icon.name_spec(), Seq::empty(), Seq::empty()),
        ),
{
    let ghost before = ctx@;
    proof {
        lemma_words(before, Handle::none_spec());
    }
    let picture = new_icon(icon, ctx);
    let h = spawn(
        ctx,
        WidgetKind::Button,
        WidgetBuilder::new().with_tooltip(tooltip).with_child(picture),
    );
    proof {
        lemma_dialog(before, ctx@, h);
    }
    h
}

/// Sets the selected animation to a time, if there is a selected animation.
pub fn set_thumb(animations: &mut AnimationContainer, selection: &AnimationSelection, value: Number)
    ensures
        final(animations)@ == match place(old(animations)@, selection.animation) {
            Some(k) => old(animations)@.update(
                k,
                AnimationView { time_position: value, ..old(animations)@[k] },
            ),
            None => old(animations)@,
        },
{
    if let Some(k) = animations.find(selection.animation) {
        animations.set_time_position(k, value);
    }
}

impl ThumbDataView {
    /// Whether `h` is a widget of `tree` of the given kind that sits in the
    /// row of the thumb.
    pub open spec fn seated(&self, tree: Nodes, h: Handle, kind: WidgetKind) -> bool {
        holder(tree, h) == self.content && (info(tree, h) matches Some(i) && i.kind == kind)
    }

    /// The twelve widgets are widgets of `tree`, of their kinds: a row that
    /// holds a picture of a clock and then the others in their order.
    pub open spec fn shape(&self, tree: Nodes) -> bool {
        &&& info(tree, self.content) matches Some(row) && row.kind == WidgetKind::StackPanel
            && row.children.len() == 12 && row.children[1] == self.position_box && row.children[2]
            == self.value_to_model && row.children[3] == self.model_to_value && row.children[4]
            == self.value_to_interp && row.children[5] == self.remove_key && row.children[6]
            == self.goto_start && row.children[7] == self.start_box && row.children[8]
            == self.goto_end && row.children[9] == self.end_box && row.children[10]
            == self.prev_key && row.children[11] == self.next_key && self.seated(
            tree,
            row.children[0],
            WidgetKind::Image,
        )
        &&& self.seated(tree, self.position_box, WidgetKind::NumericUpDown)
        &&& self.seated(tree, self.value_to_model, WidgetKind::Button)
        &&& self.seated(tree, self.model_to_value, WidgetKind::Button)
        &&& self.seated(tree, self.value_to_interp, WidgetKind::Button)
        &&& self.seated(tree, self.remove_key, WidgetKind::Button)
        &&& self.seated(tree, self.goto_start, WidgetKind::Button)
        &&& self.seated(tree, self.start_box, WidgetKind::NumericUpDown)
        &&& self.seated(tree, self.goto_end, WidgetKind::Button)
        &&& self.seated(tree, self.end_box, WidgetKind::NumericUpDown)
        &&& self.seated(tree, self.prev_key, WidgetKind::Button)
        &&& self.seated(tree, self.next_key, WidgetKind::Button)
    }

    /// Whether `h` is a button of `tree` that works, says `tooltip` of
    /// itself and holds one picture, of the given name.
    pub open spec fn is_icon_button(tree: Nodes, h: Handle, tooltip: Seq<char>, picture: Seq<char>) -> bool {
        info(tree, h) matches Some(b) && b.is_like(
            WidgetInfo { tooltip, ..WidgetInfo::bare(WidgetKind::Button) },
        ) && b.children.len() == 1 && holder(tree, b.children[0]) == h && info(
            tree,
            b.children[0],
        ) == Some(leaf(WidgetKind::Image, true, picture, Seq::empty(), Seq::empty()))
    }

    /// What the widgets of the thumb say and hold when they are built: the
    /// three boxes for times hold zero, take nothing below zero and do not
    /// work yet; each button has its text or its picture, and its tooltip.
    pub open spec fn labelled(&self, tree: Nodes) -> bool {
        &&& info(tree, self.content) matches Some(row) && row.is_like(
            WidgetInfo::bare(WidgetKind::StackPanel),
        ) && info(tree, row.children[0]) == Some(
            leaf(WidgetKind::Image, true, Icon::Time.name_spec(), Seq::empty(), Seq::empty()),
        )
        &&& info(tree, self.position_box) == Some(time_box("Current Time within Animation"@))
        &&& info(tree, self.start_box) == Some(time_box("Start Time of Animation"@))
        &&& info(tree, self.end_box) == Some(time_box("End Time of Animation"@))
        &&& Self::is_icon_button(
            tree,
            self.value_to_model,
            "Key from model for all tracks"@,
            Icon::Key.name_spec(),
        )
        &&& Self::is_icon_button(
            tree,
            self.value_to_interp,
            "Key from interpolation for all tracks"@,
            Icon::Key.name_spec(),
        )
        &&& Self::is_icon_button(
            tree,
            self.remove_key,
            "Remove key for all tracks"@,
            Icon::Clear.name_spec(),
        )
        &&& info(tree, self.model_to_value) == Some(
            leaf(WidgetKind::Button, true, Seq::empty(), "<"@, "Model to value for all tracks"@),
        )
        &&& info(tree, self.goto_start) == Some(
            leaf(WidgetKind::Button, true, Seq::empty(), "Start"@, Seq::empty()),
        )
        &&& info(tree, self.goto_end) == Some(
            leaf(WidgetKind::Button, true, Seq::empty(), "End"@, Seq::empty()),
        )
        &&& info(tree, self.prev_key) == Some(
            leaf(WidgetKind::Button, true, Seq::empty(), "0s"@, "Go to previous key"@),
        )
        &&& info(tree, self.next_key) == Some(
            leaf(WidgetKind::Button, true, Seq::empty(), "0s"@, "Go to next key"@),
        )
    }

    /// The twelve widgets that the thumb names: the row, and the widgets in
    /// it that are no pictures, in their order.
    pub open spec fn widgets(&self) -> Seq<Handle> {
        seq![
            self.content,
            self.position_box,
            self.value_to_model,
            self.model_to_value,
            self.value_to_interp,
            self.remove_key,
            self.goto_start,
            self.start_box,
            self.goto_end,
            self.end_box,
            self.prev_key,
            self.next_key,
        ]
    }

    /// Builds the thumb into the tree.
    pub fn new(ctx: &mut BuildContext) -> (thumb: ThumbDataView)
        requires
            sound(old(ctx)@),
            old(ctx).has_room(16),
        ensures
            built(old(ctx)@, final(ctx)@, thumb.content, Seq::<Handle>::empty()),
            made(old(ctx)@, final(ctx)@, thumb.content),
            final(ctx)@.len() == old(ctx)@.len() + 16,
            thumb.shape(final(ctx)@),
            thumb.labelled(final(ctx)@),
            thumb.widgets().no_duplicates(),
            within(thumb.widgets(), old(ctx)@.len() as int, final(ctx)@.len() as int),
            thumb.prev == Number::zero_spec(),
            thumb.next == Number::zero_spec(),
    {
        let ghost before = ctx@;
        proof {
            lemma_words(before, Handle::none_spec());
        }
        let position_box = new_time_box("Current Time within Animation", ctx);
        let value_to_model = new_icon_button("Key from model for all tracks", Icon::Key, ctx);
        let value_to_interp = new_icon_button(
            "Key from interpolation for all tracks",
            Icon::Key,
            ctx,
        );
        let model_to_value = new_button("Model to value for all tracks", "<", ctx);
        let remove_key = new_icon_button("Remove key for all tracks", Icon::Clear, ctx);
        let goto_start = new_text_button("Start", ctx);
        let goto_end = new_text_button("End", ctx);
        let start_box = new_time_box("Start Time of Animation", ctx);
        let end_box = new_time_box("End Time of Animation", ctx);
        let prev_key = new_time_button("Go to previous key", ctx);
        let next_key = new_time_button("Go to next key", ctx);
        let clock = new_icon(Icon::Time, ctx);
        let content = spawn(
            ctx,
            WidgetKind::StackPanel,
            WidgetBuilder::new().with_child(clock).with_child(position_box).with_child(
                value_to_model,
            ).with_child(model_to_value).with_child(value_to_interp).with_child(
                remove_key,
            ).with_child(goto_start).with_child(start_box).with_child(goto_end).with_child(
                end_box,
            ).with_child(prev_key).with_child(next_key),
        );
        let thumb = ThumbDataView {
            next: Number::zero(),
            prev: Number::zero(),
            content,
            position_box,
            value_to_model,
            model_to_value,
            value_to_interp,
            remove_key,
            goto_start,
            start_box,
            goto_end,
            end_box,
            prev_key,
            next_key,
        };
        proof {
            lemma_dialog(before, ctx@, content);
            lemma_apart(thumb.widgets());
        }
        thumb
    }

    /// Moves the thumb to where the animation stands, if it is not there:
    /// `differs` says whether the box of the thumb shows another time than
    /// `position`. Returns whether the thumb has moved.
    pub fn update_thumb(&self, differs: bool, position: Number, ui: &mut UserInterface) -> (moved:
        bool)
        ensures
            moved == differs,
            final(ui).tree() == old(ui).tree(),
            final(ui).sent() == if differs {
                old(ui).sent().push(
                    plain(
                        self.position_box,
                        MessageDirection::ToWidget,
                        MessageDataView::NumericUpDown(NumericUpDownMessage::Value(position)),
                    ),
                )
            } else {
                old(ui).sent()
            },
    {
        if differs {
            ui.send_message(
                NumericUpDownMessage::value(self.position_box, MessageDirection::ToWidget, position),
            );
            true
        } else {
            false
        }
    }

    /// Whether `message` is a click on one of the buttons of the thumb that
    /// act on all tracks or jump to an end. What these do is not settled.
    pub open spec fn is_unsettled(&self, message: UiMessageView) -> bool {
        message.data == MessageDataView::Button(ButtonMessage::Click) && (message.destination
            == self.goto_start || message.destination == self.goto_end || message.destination
            == self.model_to_value || message.destination == self.value_to_model
            || message.destination == self.value_to_interp || message.destination
            == self.remove_key)
    }

    /// The new time that `message` carries from one of the boxes of the
    /// thumb, with the box; nothing for any other message.
    pub open spec fn typed(&self, message: UiMessageView) -> Option<(Handle, Number)> {
        match message.data {
            MessageDataView::NumericUpDown(NumericUpDownMessage::Value(value)) => if message.direction
                == MessageDirection::FromWidget && (message.destination == self.position_box
                || message.destination == self.start_box || message.destination == self.end_box) {
                Some((message.destination, value))
            } else {
                None
            },
            _ => None,
        }
    }

    /// Whether `message` carries a new start or a new end.
    pub open spec fn moves_slice(&self, message: UiMessageView) -> bool {
        self.typed(message) matches Some(t) && t.0 != self.position_box
    }

    /// What the thumb asks of the editor after `message`: where a new start
    /// or a new end was typed, that the part of the animation that plays
    /// follows.
    pub open spec fn requests(
        &self,
        message: UiMessageView,
        player: Handle,
        animation: Handle,
    ) -> Seq<MessageView> {
        match self.typed(message) {
            Some((from, value)) => if from == self.position_box {
                Seq::<MessageView>::empty()
            } else {
                seq![
                    MessageView::DoCommand(
                        CommandView::SetAnimationTimeSlice {
                            node_handle: player,
                            animation_handle: animation,
                            bound: if from == self.start_box {
                                SliceBound::Start(value)
                            } else {
                                SliceBound::End(value)
                            },
                        },
                    ),
                ]
            },
            None => Seq::<MessageView>::empty(),
        }
    }

    /// Reacts to a message that passes the thumb. A time typed into the box
    /// of the thumb moves the selected animation there. A time typed into
    /// the box of the start or of the end asks the editor to move that end.
    pub fn handle_ui_message(
        &mut self,
        message: &UiMessage,
        sender: &mut MessageSender,
        animation_player_handle: Handle,
        animations: &mut AnimationContainer,
        selection: &AnimationSelection,
    )
        requires
            !old(self).is_unsettled(message@),
            old(self).moves_slice(message@) ==> place(old(animations)@, selection.animation)
                is Some,
        ensures
            *final(self) == *old(self),
            final(sender).sent() == old(sender).sent() + old(self).requests(
                message@,
                animation_player_handle,
                selection.animation,
            ),
            final(animations)@ == match old(self).typed(message@) {
                Some((from, value)) => if from == old(self).position_box {
                    match place(old(animations)@, selection.animation) {
                        Some(k) => old(animations)@.update(
                            k,
                            AnimationView { time_position: value, ..old(animations)@[k] },
                        ),
                        None => old(animations)@,
                    }
                } else {
                    old(animations)@
                },
                None => old(animations)@,
            },
    {
        proof {
            assert(old(sender).sent() + Seq::<MessageView>::empty() =~= old(sender).sent());
        }
        if let MessageData::NumericUpDown(NumericUpDownMessage::Value(value)) = &message.data {
            if message.from_widget() {
                if message.is_for(self.position_box) {
                    set_thumb(animations, selection, *value);
                } else if message.is_for(self.start_box) {
                    sender.do_command(
                        Command::SetAnimationTimeSlice {
                            node_handle: animation_player_handle,
                            animation_handle: selection.animation,
                            bound: SliceBound::Start(*value),
                        },
                    );
                    proof {
                        assert(sender.sent() =~= old(sender).sent() + self.requests(
                            message@,
                            animation_player_handle,
                            selection.animation,
                        ));
                    }
                } else if message.is_for(self.end_box) {
                    sender.do_command(
                        Command::SetAnimationTimeSlice {
                            node_handle: animation_player_handle,
                            animation_handle: selection.animation,
                            bound: SliceBound::End(*value),
                        },
                    );
                    proof {
                        assert(sender.sent() =~= old(sender).sent() + self.requests(
                            message@,
                            animation_player_handle,
                            selection.animation,
                        ));
                    }
                }
            }
        }
    }
}

} // verus!
