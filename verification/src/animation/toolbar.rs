//! The toolbar of the animation editor: the list of animations and the
//! buttons that add, rename, remove, copy and play them.

use crate::animation::{place, AnimationContainer, AnimationView};
use crate::command::{Command, CommandGroup, CommandGroupView, CommandView, MessageSender, MessageView};
use crate::animation::thumb::leaf;
use crate::handle::Handle;
use crate::message::{
    plain, ButtonMessage, CheckBoxMessage, DropdownListMessage, MessageData, MessageDataView,
    MessageDirection, Number, NumericUpDownMessage, TextMessage, UiMessage, UiMessageView,
    WidgetMessage,
};
use crate::scene::{
    AnimationSelection, AnimationSelectionView, SelectedEntity, Selection, SelectionView,
};
use crate::tree::{within, lemma_apart, built, holder, info, kept, lemma_dialog, lemma_words, loose, made, sound, Nodes};
use crate::ui::{spawn, BuildContext, UserInterface};
use crate::widget::{WidgetBuilder, WidgetInfo, WidgetKind};
use vstd::prelude::*;
use vstd::string::StringExecFns;

verus! {

/// The widgets of the toolbar.
pub struct Toolbar {
    pub panel: Handle,
    pub play_pause: Handle,
    pub stop: Handle,
    pub speed: Handle,
    pub animations: Handle,
    pub add_animation: Handle,
    pub remove_current_animation: Handle,
    pub rename_current_animation: Handle,
    pub clone_current_animation: Handle,
    pub animation_name: Handle,
    pub preview: Handle,
    pub length: Handle,
}

/// What the editor of animations has to do after the toolbar has seen a
/// message.
#[must_use]
#[derive(Clone, Copy, Debug, PartialEq, Eq, Structural)]
pub enum ToolbarAction {
    Nothing,
    EnterPreviewMode,
    LeavePreviewMode,
    SelectAnimation(Handle),
    PlayPause,
    Stop,
}

/// What the host reads off the widgets of the toolbar when a message
/// passes: the text in the name box, and, where the message reports a choice
/// in the list of animations, the animation that the chosen item stands for.
pub struct ToolbarInput {
    pub typed_name: String,
    pub chosen_animation: Option<Handle>,
}

impl Toolbar {
    /// The row of the toolbar: the one child of the panel.
    pub open spec fn row(&self, tree: Nodes) -> Handle {
        info(tree, self.panel)->0.children[0]
    }

    /// The twelve widgets are widgets of `tree`, of their kinds; the panel
    /// holds one row, and the row holds the others in their order, with a
    /// picture before the speed and one before the length.
    pub open spec fn shape(&self, tree: Nodes) -> bool {
        let row = self.row(tree);
        &&& info(tree, self.panel) matches Some(panel) && panel.kind == WidgetKind::Border
            && panel.children.len() == 1
        &&& holder(tree, row) == self.panel
        &&& info(tree, row) matches Some(r) && r.kind == WidgetKind::StackPanel && r.children.len()
            == 13 && r.children[0] == self.animation_name && r.children[1] == self.add_animation
            && r.children[2] == self.rename_current_animation && r.children[3] == self.animations
            && r.children[4] == self.remove_current_animation && r.children[5]
            == self.clone_current_animation && r.children[7] == self.speed && r.children[9]
            == self.length && r.children[10] == self.preview && r.children[11] == self.play_pause
            && r.children[12] == self.stop && (info(tree, r.children[6]) matches Some(i) && i.kind
            == WidgetKind::Image) && (info(tree, r.children[8]) matches Some(i) && i.kind
            == WidgetKind::Image) && (forall|k: int|
            0 <= k < 13 ==> holder(tree, #[trigger] r.children[k]) == row)
        &&& info(tree, self.animation_name) matches Some(i) && i.kind == WidgetKind::TextBox
        &&& info(tree, self.add_animation) matches Some(i) && i.kind == WidgetKind::Button
        &&& info(tree, self.rename_current_animation) matches Some(i) && i.kind
            == WidgetKind::Button
        &&& info(tree, self.animations) matches Some(i) && i.kind == WidgetKind::DropdownList
        &&& info(tree, self.remove_current_animation) matches Some(i) && i.kind
            == WidgetKind::Button
        &&& info(tree, self.clone_current_animation) matches Some(i) && i.kind == WidgetKind::Button
        &&& info(tree, self.speed) matches Some(i) && i.kind == WidgetKind::NumericUpDown
        &&& info(tree, self.length) matches Some(i) && i.kind == WidgetKind::NumericUpDown
        &&& info(tree, self.preview) matches Some(i) && i.kind == WidgetKind::CheckBox
        &&& info(tree, self.play_pause) matches Some(i) && i.kind == WidgetKind::Button
        &&& info(tree, self.stop) matches Some(i) && i.kind == WidgetKind::Button
    }

    /// Whether `h` is a widget of `tree` that is as `with` says but for its
    /// one child, which it holds and which is as `child` says.
    pub open spec fn holds_one(tree: Nodes, h: Handle, with: WidgetInfo, child: WidgetInfo) -> bool {
        info(tree, h) matches Some(i) && i.children.len() == 1 && i == (WidgetInfo {
            children: i.children,
            ..with
        }) && holder(tree, i.children[0]) == h && info(tree, i.children[0]) == Some(child)
    }

    /// A number box of the toolbar as it is built: it does not work yet,
    /// holds one and takes nothing below zero.
    pub open spec fn number_box(tooltip: Seq<char>) -> WidgetInfo {
        WidgetInfo {
            value: Some(Number::one_spec()),
            min_value: Some(Number::zero_spec()),
            ..leaf(WidgetKind::NumericUpDown, false, Seq::empty(), Seq::empty(), tooltip)
        }
    }

    /// A picture without a name.
    pub open spec fn picture(kind: WidgetKind, tooltip: Seq<char>) -> WidgetInfo {
        leaf(kind, true, Seq::empty(), Seq::empty(), tooltip)
    }

    /// A button that does not work yet and says `tooltip` of itself.
    pub open spec fn idle_button(tooltip: Seq<char>) -> WidgetInfo {
        leaf(WidgetKind::Button, false, Seq::empty(), Seq::empty(), tooltip)
    }

    /// Everything that the widgets of the toolbar are when the toolbar is
    /// built: each widget with its kind, its text, its tooltip, whether it
    /// works, and the picture or text that it holds; nothing else is set on
    /// any of them.
    pub open spec fn as_built(&self, tree: Nodes) -> bool {
        let row = self.row(tree);
        &&& info(tree, self.animation_name) == Some(
            leaf(WidgetKind::TextBox, true, Seq::empty(), "New Animation"@, Seq::empty()),
        )
        &&& info(tree, self.add_animation) == Some(
            leaf(WidgetKind::Button, true, Seq::empty(), "+"@, "Add New Animation"@),
        )
        &&& Self::holds_one(
            tree,
            self.rename_current_animation,
            Self::idle_button("Rename Selected Animation"@),
            Self::picture(WidgetKind::Image, Seq::empty()),
        )
        &&& info(tree, self.animations) == Some(
            leaf(WidgetKind::DropdownList, true, Seq::empty(), Seq::empty(), Seq::empty()),
        )
        &&& Self::holds_one(
            tree,
            self.remove_current_animation,
            Self::idle_button("Remove Selected Animation"@),
            Self::picture(WidgetKind::VectorImage, Seq::empty()),
        )
        &&& Self::holds_one(
            tree,
            self.clone_current_animation,
            Self::idle_button("Clone Selected Animation"@),
            Self::picture(WidgetKind::Image, Seq::empty()),
        )
        &&& info(tree, self.speed) == Some(Self::number_box("Animation Playback Speed"@))
        &&& info(tree, self.length) == Some(Self::number_box("Animation Length in Seconds"@))
        &&& Self::holds_one(
            tree,
            self.preview,
            WidgetInfo {
                checked: Some(false),
                ..leaf(WidgetKind::CheckBox, false, Seq::empty(), Seq::empty(), Seq::empty())
            },
            leaf(WidgetKind::Text, true, Seq::empty(), "Preview"@, Seq::empty()),
        )
        &&& Self::holds_one(
            tree,
            self.play_pause,
            Self::idle_button(Seq::empty()),
            Self::picture(WidgetKind::VectorImage, "Play/Pause"@),
        )
        &&& Self::holds_one(
            tree,
            self.stop,
            Self::idle_button("Stop Playback"@),
            Self::picture(WidgetKind::VectorImage, Seq::empty()),
        )
        &&& info(tree, info(tree, row)->0.children[6]) == Some(
            Self::picture(WidgetKind::Image, Seq::empty()),
        )
        &&& info(tree, info(tree, row)->0.children[8]) == Some(
            Self::picture(WidgetKind::Image, Seq::empty()),
        )
        &&& info(tree, row) matches Some(r) && r == (WidgetInfo {
            children: r.children,
            ..leaf(WidgetKind::StackPanel, true, Seq::empty(), Seq::empty(), Seq::empty())
        })
        &&& info(tree, self.panel) matches Some(p) && p == (WidgetInfo {
            children: p.children,
            ..leaf(WidgetKind::Border, true, Seq::empty(), Seq::empty(), Seq::empty())
        })
    }

    /// What the widgets of the toolbar say of themselves when asked. The
    /// button that plays and pauses says nothing itself; the picture in it
    /// does.
    pub open spec fn tips(&self, tree: Nodes) -> bool {
        &&& info(tree, self.add_animation) matches Some(i) && i.tooltip == "Add New Animation"@
        &&& info(tree, self.rename_current_animation) matches Some(i) && i.tooltip
            == "Rename Selected Animation"@
        &&& info(tree, self.remove_current_animation) matches Some(i) && i.tooltip
            == "Remove Selected Animation"@
        &&& info(tree, self.clone_current_animation) matches Some(i) && i.tooltip
            == "Clone Selected Animation"@
        &&& info(tree, self.speed) matches Some(i) && i.tooltip == "Animation Playback Speed"@
        &&& info(tree, self.length) matches Some(i) && i.tooltip == "Animation Length in Seconds"@
        &&& info(tree, self.stop) matches Some(i) && i.tooltip == "Stop Playback"@
        &&& info(tree, self.play_pause) matches Some(i) && i.tooltip.len() == 0 && i.children.len()
            == 1 && holder(tree, i.children[0]) == self.play_pause && (info(
            tree,
            i.children[0],
        ) matches Some(picture) && picture.kind == WidgetKind::VectorImage && picture.tooltip
            == "Play/Pause"@)
        &&& info(tree, self.animation_name) matches Some(i) && i.tooltip.len() == 0
        &&& info(tree, self.animations) matches Some(i) && i.tooltip.len() == 0
        &&& info(tree, self.preview) matches Some(i) && i.tooltip.len() == 0
    }

    /// The widgets that the toolbar names, with its row: the panel, the
    /// row, and the row's eleven widgets that are no pictures, in their
    /// order.
    pub open spec fn widgets(&self, tree: Nodes) -> Seq<Handle> {
        seq![
            self.panel,
            self.row(tree),
            self.animation_name,
            self.add_animation,
            self.rename_current_animation,
            self.animations,
            self.remove_current_animation,
            self.clone_current_animation,
            self.speed,
            self.length,
            self.preview,
            self.play_pause,
            self.stop,
        ]
    }

    /// The toolbar as it is when no animation is selected: a name can be
    /// typed and an animation added, the list is open, everything else is
    /// disabled, and the preview is off.
    pub open spec fn at_rest(&self, tree: Nodes) -> bool {
        &&& info(tree, self.animation_name) matches Some(i) && i.enabled && i.text
            == "New Animation"@
        &&& info(tree, self.add_animation) matches Some(i) && i.enabled && i.text == "+"@
        &&& info(tree, self.animations) matches Some(i) && i.enabled
        &&& info(tree, self.rename_current_animation) matches Some(i) && !i.enabled
        &&& info(tree, self.remove_current_animation) matches Some(i) && !i.enabled
        &&& info(tree, self.clone_current_animation) matches Some(i) && !i.enabled
        &&& info(tree, self.speed) matches Some(i) && !i.enabled && i.value == Some(
            Number::one_spec(),
        ) && i.min_value == Some(Number::zero_spec())
        &&& info(tree, self.length) matches Some(i) && !i.enabled && i.value == Some(
            Number::one_spec(),
        ) && i.min_value == Some(Number::zero_spec())
        &&& info(tree, self.preview) matches Some(i) && !i.enabled && i.checked == Some(false)
        &&& info(tree, self.play_pause) matches Some(i) && !i.enabled
        &&& info(tree, self.stop) matches Some(i) && !i.enabled
    }

    /// Builds the toolbar into the tree.
    pub fn new(ctx: &mut BuildContext) -> (toolbar: Toolbar)
        requires
            sound(old(ctx)@),
            old(ctx).has_room(21),
        ensures
            built(old(ctx)@, final(ctx)@, toolbar.panel, Seq::<Handle>::empty()),
            made(old(ctx)@, final(ctx)@, toolbar.panel),
            final(ctx)@.len() == old(ctx)@.len() + 21,
            toolbar.shape(final(ctx)@),
            toolbar.at_rest(final(ctx)@),
            toolbar.tips(final(ctx)@),
            toolbar.as_built(final(ctx)@),
            toolbar.widgets(final(ctx)@).no_duplicates(),
            within(toolbar.widgets(final(ctx)@), old(ctx)@.len() as int, final(ctx)@.len() as int),
    {
        let ghost before = ctx@;
        proof {
            lemma_words(before, Handle::none_spec());
        }
        let animation_name = spawn(ctx, WidgetKind::TextBox, WidgetBuilder::new().with_text("New Animation"));
        let add_animation = spawn(ctx, WidgetKind::Button, WidgetBuilder::new().with_text("+").with_tooltip("Add New Animation"));
        let rename_icon = spawn(ctx, WidgetKind::Image, WidgetBuilder::new());
        let rename_current_animation = spawn(ctx, WidgetKind::Button, WidgetBuilder::new().with_enabled(false).with_tooltip(
                "Rename Selected Animation",
            ).with_child(rename_icon));
        let animations = spawn(ctx, WidgetKind::DropdownList, WidgetBuilder::new());
        let cross = spawn(ctx, WidgetKind::VectorImage, WidgetBuilder::new());
        let remove_current_animation = spawn(ctx, WidgetKind::Button, WidgetBuilder::new().with_enabled(false).with_tooltip(
                "Remove Selected Animation",
            ).with_child(cross));
        let copy_icon = spawn(ctx, WidgetKind::Image, WidgetBuilder::new());
        let clone_current_animation = spawn(ctx, WidgetKind::Button, WidgetBuilder::new().with_enabled(false).with_tooltip(
                "Clone Selected Animation",
            ).with_child(copy_icon));
        let speed_icon = spawn(ctx, WidgetKind::Image, WidgetBuilder::new());
        let speed = spawn(
            ctx,
            WidgetKind::NumericUpDown,
            WidgetBuilder::new().with_enabled(false).with_tooltip(
                "Animation Playback Speed",
            ).with_min_value(Number::zero()).with_value(Number::one()),
        );
        let time_icon = spawn(ctx, WidgetKind::Image, WidgetBuilder::new());
        let length = spawn(
            ctx,
            WidgetKind::NumericUpDown,
            WidgetBuilder::new().with_enabled(false).with_tooltip(
                "Animation Length in Seconds",
            ).with_min_value(Number::zero()).with_value(Number::one()),
        );
        let preview_text = spawn(ctx, WidgetKind::Text, WidgetBuilder::new().with_text("Preview"));
        let preview = spawn(ctx, WidgetKind::CheckBox, WidgetBuilder::new().with_enabled(false).checked(Some(false)).with_child(preview_text));
        let play_image = spawn(ctx, WidgetKind::VectorImage, WidgetBuilder::new().with_tooltip("Play/Pause"));
        let play_pause = spawn(ctx, WidgetKind::Button, WidgetBuilder::new().with_enabled(false).with_child(play_image));
        let stop_image = spawn(ctx, WidgetKind::VectorImage, WidgetBuilder::new());
        let stop = spawn(ctx, WidgetKind::Button, WidgetBuilder::new().with_enabled(false).with_tooltip("Stop Playback").with_child(
                stop_image,
            ));
        let row_builder = WidgetBuilder::new().with_child(animation_name).with_child(
            add_animation,
        ).with_child(rename_current_animation).with_child(animations).with_child(
            remove_current_animation,
        ).with_child(clone_current_animation).with_child(speed_icon).with_child(speed).with_child(
            time_icon,
        ).with_child(length).with_child(preview).with_child(play_pause).with_child(stop);
        let row = spawn(ctx, WidgetKind::StackPanel, row_builder);
        let panel = spawn(ctx, WidgetKind::Border, WidgetBuilder::new().on_row(0).with_child(row));
        let toolbar = Toolbar {
            panel,
            play_pause,
            stop,
            speed,
            animations,
            add_animation,
            rename_current_animation,
            remove_current_animation,
            animation_name,
            preview,
            length,
            clone_current_animation,
        };
        proof {
            lemma_dialog(before, ctx@, panel);
            lemma_apart(toolbar.widgets(ctx@));
        }
        toolbar
    }

    /// What the editor of animations has to do after `message`: play, pause
    /// or stop on a click of those buttons, enter or leave the preview when
    /// the preview box reports a state, and take note of the animation that
    /// was chosen in the list. Nothing on any other message.
    pub open spec fn action(&self, message: UiMessageView, chosen: Option<Handle>) -> ToolbarAction {
        match message.data {
            MessageDataView::DropdownSelection(Some(_)) => if message.destination
                == self.animations && message.direction == MessageDirection::FromWidget {
                ToolbarAction::SelectAnimation(chosen->0)
            } else {
                ToolbarAction::Nothing
            },
            MessageDataView::Button(ButtonMessage::Click) => if message.destination
                == self.play_pause {
                ToolbarAction::PlayPause
            } else if message.destination == self.stop {
                ToolbarAction::Stop
            } else {
                ToolbarAction::Nothing
            },
            MessageDataView::CheckBox(CheckBoxMessage::Check(Some(checked))) => if message.destination
                == self.preview && message.direction == MessageDirection::FromWidget {
                if checked {
                    ToolbarAction::EnterPreviewMode
                } else {
                    ToolbarAction::LeavePreviewMode
                }
            } else {
                ToolbarAction::Nothing
            },
            _ => ToolbarAction::Nothing,
        }
    }

    /// Whether `message` reports a choice in the toolbar's list of
    /// animations.
    pub open spec fn is_choice(&self, message: UiMessageView) -> bool {
        message.data matches MessageDataView::DropdownSelection(Some(_)) && message.destination
            == self.animations && message.direction == MessageDirection::FromWidget
    }

    /// The selection of the animation `animation` of `player`, with no part
    /// of it.
    pub open spec fn selects(player: Handle, animation: Handle) -> SelectionView {
        SelectionView::Animation(
            AnimationSelectionView {
                animation_player: player,
                animation,
                entities: Seq::<SelectedEntity>::empty(),
            },
        )
    }

    /// What the toolbar asks of the editor after a click on one of its
    /// buttons.
    pub open spec fn on_click(
        &self,
        clicked: Handle,
        typed_name: Seq<char>,
        player: Handle,
        animations: Seq<AnimationView>,
        scene_selection: SelectionView,
        selection: AnimationSelectionView,
    ) -> Seq<MessageView> {
        if clicked == self.play_pause || clicked == self.stop {
            Seq::<MessageView>::empty()
        } else if clicked == self.remove_current_animation {
            if place(animations, selection.animation) is Some {
                seq![
                    MessageView::DoCommandGroup(
                        CommandGroupView {
                            commands: seq![
                                CommandView::ChangeSelection {
                                    new: Self::selects(player, Handle::none_spec()),
                                    old: scene_selection,
                                },
                                CommandView::RemoveAnimation {
                                    animation_player: player,
                                    animation: selection.animation,
                                },
                            ],
                            custom_name: Seq::<char>::empty(),
                        },
                    ),
                ]
            } else {
                Seq::<MessageView>::empty()
            }
        } else if clicked == self.rename_current_animation {
            seq![
                MessageView::DoCommand(
                    CommandView::SetAnimationName {
                        node_handle: player,
                        animation_handle: selection.animation,
                        value: typed_name,
                    },
                ),
            ]
        } else if clicked == self.add_animation {
            seq![
                MessageView::DoCommand(
                    CommandView::AddAnimation {
                        animation_player: player,
                        copy_of: None,
                        name: typed_name,
                    },
                ),
            ]
        } else if clicked == self.clone_current_animation {
            match place(animations, selection.animation) {
                Some(k) => seq![
                    MessageView::DoCommand(
                        CommandView::AddAnimation {
                            animation_player: player,
                            copy_of: Some(selection.animation),
                            name: animations[k].name + " Copy"@,
                        },
                    ),
                ],
                None => Seq::<MessageView>::empty(),
            }
        } else {
            Seq::<MessageView>::empty()
        }
    }

    /// What the toolbar asks of the editor after `message`.
    pub open spec fn requests(
        &self,
        message: UiMessageView,
        input: ToolbarInputView,
        player: Handle,
        animations: Seq<AnimationView>,
        scene_selection: SelectionView,
        selection: AnimationSelectionView,
    ) -> Seq<MessageView> {
        match message.data {
            MessageDataView::DropdownSelection(Some(_)) => if self.is_choice(message) {
                seq![
                    MessageView::DoCommand(
                        CommandView::ChangeSelection {
                            new: Self::selects(player, input.chosen_animation->0),
                            old: scene_selection,
                        },
                    ),
                ]
            } else {
                Seq::<MessageView>::empty()
            },
            MessageDataView::Button(ButtonMessage::Click) => self.on_click(
                message.destination,
                input.typed_name,
                player,
                animations,
                scene_selection,
                selection,
            ),
            MessageDataView::NumericUpDown(NumericUpDownMessage::Value(value)) => if message.direction
                != MessageDirection::FromWidget {
                Seq::<MessageView>::empty()
            } else if message.destination == self.length {
                seq![
                    MessageView::DoCommand(
                        CommandView::SetAnimationLength {
                            node_handle: player,
                            animation_handle: selection.animation,
                            value,
                        },
                    ),
                ]
            } else if message.destination == self.speed {
                seq![
                    MessageView::DoCommand(
                        CommandView::SetAnimationSpeed {
                            node_handle: player,
                            animation_handle: selection.animation,
                            value,
                        },
                    ),
                ]
            } else {
                Seq::<MessageView>::empty()
            },
            _ => Seq::<MessageView>::empty(),
        }
    }

    /// Reacts to a message that passes the toolbar: asks the editor for what
    /// the message calls for, and tells the caller what is left for it to do.
    ///
    /// A message that reports a choice in the list of animations needs the
    /// animation that the chosen item stands for.
    pub fn handle_ui_message(
        &self,
        message: &UiMessage,
        sender: &mut MessageSender,
        input: &ToolbarInput,
        animation_player_handle: Handle,
        animations: &AnimationContainer,
        scene_selection: &Selection,
        selection: &AnimationSelection,
    ) -> (action: ToolbarAction)
        requires
            self.is_choice(message@) ==> input.chosen_animation is Some,
        ensures
            action == self.action(message@, input.chosen_animation),
            final(sender).sent() == old(sender).sent() + self.requests(
                message@,
                input@,
                animation_player_handle,
                animations@,
                scene_selection@,
                selection@,
            ),
    {
        proof {
            assert(old(sender).sent() + Seq::<MessageView>::empty() =~= old(sender).sent());
        }
        let ghost wanted = self.requests(
            message@,
            input@,
            animation_player_handle,
            animations@,
            scene_selection@,
            selection@,
        );
        match &message.data {
            MessageData::DropdownList(DropdownListMessage::SelectionChanged(Some(_))) => {
                if message.is_for(self.animations) && message.from_widget() {
                    let animation = match input.chosen_animation {
                        Some(a) => a,
                        None => Handle::none(),
                    };
                    sender.do_command(
                        Command::ChangeSelection {
                            new: Selection::Animation(
                                AnimationSelection::new(animation_player_handle, animation),
                            ),
                            old: scene_selection.duplicate(),
                        },
                    );
                    proof {
                        assert(sender.sent() =~= old(sender).sent() + wanted);
                    }
                    return ToolbarAction::SelectAnimation(animation);
                }
            },
            MessageData::Button(ButtonMessage::Click) => {
                if message.is_for(self.play_pause) {
                    return ToolbarAction::PlayPause;
                } else if message.is_for(self.stop) {
                    return ToolbarAction::Stop;
                } else if message.is_for(self.remove_current_animation) {
                    if animations.try_get(selection.animation).is_some() {
                        let mut group: Vec<Command> = Vec::new();
                        group.push(
                            Command::ChangeSelection {
                                new: Selection::Animation(
                                    AnimationSelection::new(animation_player_handle, Handle::none()),
                                ),
                                old: scene_selection.duplicate(),
                            },
                        );
                        group.push(
                            Command::RemoveAnimation {
                                animation_player: animation_player_handle,
                                animation: selection.animation,
                            },
                        );
                        let group = CommandGroup::from(group);
                        proof {
                            assert(group@.commands =~= seq![
                                CommandView::ChangeSelection {
                                    new: Self::selects(
                                        animation_player_handle,
                                        Handle::none_spec(),
                                    ),
                                    old: scene_selection@,
                                },
                                CommandView::RemoveAnimation {
                                    animation_player: animation_player_handle,
                                    animation: selection.animation,
                                },
                            ]);
                        }
                        sender.do_command_group(group);
                        proof {
                            assert(sender.sent() =~= old(sender).sent() + wanted);
                        }
                    }
                } else if message.is_for(self.rename_current_animation) {
                    sender.do_command(
                        Command::SetAnimationName {
                            node_handle: animation_player_handle,
                            animation_handle: selection.animation,
                            value: input.typed_name.clone(),
                        },
                    );
                    proof {
                        assert(sender.sent() =~= old(sender).sent() + wanted);
                    }
                } else if message.is_for(self.add_animation) {
                    sender.do_command(
                        Command::AddAnimation {
                            animation_player: animation_player_handle,
                            copy_of: None,
                            name: input.typed_name.clone(),
                        },
                    );
                    proof {
                        assert(sender.sent() =~= old(sender).sent() + wanted);
                    }
                } else if message.is_for(self.clone_current_animation) {
                    if let Some(animation) = animations.try_get(selection.animation) {
                        let mut name = animation.name.clone();
                        name.append(" Copy");
                        sender.do_command(
                            Command::AddAnimation {
                                animation_player: animation_player_handle,
                                copy_of: Some(selection.animation),
                                name,
                            },
                        );
                        proof {
                            assert(sender.sent() =~= old(sender).sent() + wanted);
                        }
                    }
                }
            },
            MessageData::CheckBox(CheckBoxMessage::Check(Some(checked))) => {
                if message.is_for(self.preview) && message.from_widget() {
                    return if *checked {
                        ToolbarAction::EnterPreviewMode
                    } else {
                        ToolbarAction::LeavePreviewMode
                    };
                }
            },
            MessageData::NumericUpDown(NumericUpDownMessage::Value(value)) => {
                if message.from_widget() {
                    if message.is_for(self.length) {
                        sender.do_command(
                            Command::SetAnimationLength {
                                node_handle: animation_player_handle,
                                animation_handle: selection.animation,
                                value: *value,
                            },
                        );
                        proof {
                            assert(sender.sent() =~= old(sender).sent() + wanted);
                        }
                    } else if message.is_for(self.speed) {
                        sender.do_command(
                            Command::SetAnimationSpeed {
                                node_handle: animation_player_handle,
                                animation_handle: selection.animation,
                                value: *value,
                            },
                        );
                        proof {
                            assert(sender.sent() =~= old(sender).sent() + wanted);
                        }
                    }
                }
            },
            _ => {},
        }
        ToolbarAction::Nothing
    }

    /// Empties the list of animations.
    pub fn clear(&mut self, ui: &mut UserInterface)
        ensures
            *final(self) == *old(self),
            final(ui).tree() == old(ui).tree(),
            final(ui).sent() == old(ui).sent().push(
                plain(
                    old(self).animations,
                    MessageDirection::ToWidget,
                    MessageDataView::DropdownItems(Seq::<Handle>::empty()),
                ),
            ),
    {
        ui.send_message(
            DropdownListMessage::items(self.animations, MessageDirection::ToWidget, Vec::new()),
        );
    }

    /// The message that enables or disables `widget`.
    pub open spec fn enables(widget: Handle, enabled: bool) -> UiMessageView {
        plain(
            widget,
            MessageDirection::ToWidget,
            MessageDataView::Widget(WidgetMessage::Enabled(enabled)),
        )
    }

    /// Lets the buttons that play and stop follow the preview: they work in
    /// the preview and only there.
    pub fn on_preview_mode_changed(&self, ui: &mut UserInterface, in_preview_mode: bool)
        ensures
            final(ui).tree() == old(ui).tree(),
            final(ui).sent() == old(ui).sent() + seq![
                Self::enables(self.play_pause, in_preview_mode),
                Self::enables(self.stop, in_preview_mode),
            ],
    {
        ui.send_message(
            WidgetMessage::enabled(self.play_pause, MessageDirection::ToWidget, in_preview_mode),
        );
        ui.send_message(
            WidgetMessage::enabled(self.stop, MessageDirection::ToWidget, in_preview_mode),
        );
        proof {
            assert(ui.sent() =~= old(ui).sent() + seq![
                Self::enables(self.play_pause, in_preview_mode),
                Self::enables(self.stop, in_preview_mode),
            ]);
        }
    }

    /// The item of the list that stands for an animation of the given name.
    pub open spec fn item(name: Seq<char>) -> crate::widget::WidgetInfo {
        crate::widget::WidgetInfo {
            kind: WidgetKind::Decorator,
            children: Seq::<Handle>::empty(),
            enabled: true,
            visibility: true,
            row: 0,
            column: 0,
            checked: None,
            value: None,
            min_value: None,
            name: Seq::<char>::empty(),
            text: name,
            tooltip: Seq::<char>::empty(),
        }
    }

    /// What the toolbar tells its widgets so that they show the animations
    /// of the player and the selected one among them: the items of the list;
    /// name, length and speed of the selected animation, if there is one;
    /// and which widgets work. `items` are the widgets that stand for the
    /// animations in the list.
    pub open spec fn shows(
        &self,
        items: Seq<Handle>,
        animations: Seq<AnimationView>,
        selected: Handle,
        in_preview_mode: bool,
    ) -> Seq<UiMessageView> {
        let found = place(animations, selected);
        let valid = found is Some;
        seq![
            plain(self.animations, MessageDirection::ToWidget, MessageDataView::DropdownItems(items)),
        ] + (match found {
            Some(k) => seq![
                plain(
                    self.animation_name,
                    MessageDirection::ToWidget,
                    MessageDataView::Text(animations[k].name),
                ),
                plain(
                    self.length,
                    MessageDirection::ToWidget,
                    MessageDataView::NumericUpDown(NumericUpDownMessage::Value(animations[k].length)),
                ),
                plain(
                    self.speed,
                    MessageDirection::ToWidget,
                    MessageDataView::NumericUpDown(NumericUpDownMessage::Value(animations[k].speed)),
                ),
            ],
            None => Seq::<UiMessageView>::empty(),
        }) + seq![
            Self::enables(self.preview, valid),
            Self::enables(self.speed, valid),
            Self::enables(self.rename_current_animation, valid),
            Self::enables(self.remove_current_animation, valid),
            Self::enables(self.length, valid),
            Self::enables(self.clone_current_animation, valid),
            Self::enables(self.play_pause, valid && in_preview_mode),
            Self::enables(self.stop, valid && in_preview_mode),
        ]
    }

    /// Brings the toolbar in line with the animations of the player and with
    /// the selection. For each animation a new item enters the tree, loose,
    /// for the list to take; see [`Toolbar::shows`] for the messages.
    pub fn sync_to_model(
        &self,
        animations: &AnimationContainer,
        selection: &AnimationSelection,
        ui: &mut UserInterface,
        in_preview_mode: bool,
    )
        requires
            sound(old(ui).tree()),
            old(ui).tree().len() + animations@.len() <= u32::MAX,
        ensures
            sound(final(ui).tree()),
            final(ui).tree().len() == old(ui).tree().len() + animations@.len(),
            kept(old(ui).tree(), final(ui).tree()),
            forall|i: int|
                0 <= i < animations@.len() ==> #[trigger] info(
                    final(ui).tree(),
                    crate::tree::slot(old(ui).tree().len() + i),
                ) == Some(Self::item(animations@[i].name)),
            forall|i: int|
                0 <= i < animations@.len() ==> loose(
                    final(ui).tree(),
                    #[trigger] crate::tree::slot(old(ui).tree().len() + i),
                ),
            final(ui).sent() == old(ui).sent() + self.shows(
                Seq::new(
                    animations@.len(),
                    |i: int| crate::tree::slot(old(ui).tree().len() + i),
                ),
                animations@,
                selection.animation,
                in_preview_mode,
            ),
    {
        let ghost before = ui.tree();
        let ghost base = before.len();
        let mut new_items: Vec<Handle> = Vec::new();
        let mut i: usize = 0;
        proof {
            lemma_words(before, Handle::none_spec());
        }
        while i < animations.animations.len()
            invariant
                0 <= i <= animations.animations@.len(),
                animations@.len() == animations.animations@.len(),
                base == before.len(),
                base + animations@.len() <= u32::MAX,
                sound(ui.tree()),
                ui.tree().len() == base + i,
                kept(before, ui.tree()),
                ui.sent() == old(ui).sent(),
                new_items@ == Seq::new(i as nat, |k: int| crate::tree::slot(base + k)),
                forall|k: int|
                    0 <= k < i ==> #[trigger] info(ui.tree(), crate::tree::slot(base + k)) == Some(
                        Self::item(animations@[k].name),
                    ),
                forall|k: int| 0 <= k < i ==> loose(ui.tree(), #[trigger] crate::tree::slot(base + k)),
            decreases animations.animations@.len() - i,
        {
            let ghost here = ui.tree();
            let name = animations.animations[i].name.as_str();
            let item = spawn(
                ui.build_ctx(),
                WidgetKind::Decorator,
                WidgetBuilder::new().with_text(name),
            );
            new_items.push(item);
            proof {
                assert(animations@[i as int].name == animations.animations@[i as int].name@);
                assert(new_items@ =~= Seq::new(
                    (i + 1) as nat,
                    |k: int| crate::tree::slot(base + k),
                ));
                assert forall|k: int| 0 <= k < i + 1 implies #[trigger] info(
                    ui.tree(),
                    crate::tree::slot(base + k),
                ) == Some(Self::item(animations@[k].name)) by {
                    if k < i {
                        assert(info(here, crate::tree::slot(base + k)) == Some(
                            Self::item(animations@[k].name),
                        ));
                    }
                }
                assert forall|k: int| 0 <= k < i + 1 implies loose(
                    ui.tree(),
                    #[trigger] crate::tree::slot(base + k),
                ) by {
                    if k < i {
                        assert(loose(here, crate::tree::slot(base + k)));
                    }
                }
            }
            i += 1;
        }
        let ghost items = new_items@;
        ui.send_message(
            DropdownListMessage::items(self.animations, MessageDirection::ToWidget, new_items),
        );
        let mut selected_animation_valid = false;
        if let Some(animation) = animations.try_get(selection.animation) {
            selected_animation_valid = true;
            ui.send_message(
                TextMessage::text(
                    self.animation_name,
                    MessageDirection::ToWidget,
                    animation.name.clone(),
                ),
            );
            ui.send_message(
                NumericUpDownMessage::value(
                    self.length,
                    MessageDirection::ToWidget,
                    animation.length,
                ),
            );
            ui.send_message(
                NumericUpDownMessage::value(self.speed, MessageDirection::ToWidget, animation.speed),
            );
        }
        ui.send_message(
            WidgetMessage::enabled(
                self.preview,
                MessageDirection::ToWidget,
                selected_animation_valid,
            ),
        );
        ui.send_message(
            WidgetMessage::enabled(self.speed, MessageDirection::ToWidget, selected_animation_valid),
        );
        ui.send_message(
            WidgetMessage::enabled(
                self.rename_current_animation,
                MessageDirection::ToWidget,
                selected_animation_valid,
            ),
        );
        ui.send_message(
            WidgetMessage::enabled(
                self.remove_current_animation,
                MessageDirection::ToWidget,
                selected_animation_valid,
            ),
        );
        ui.send_message(
            WidgetMessage::enabled(self.length, MessageDirection::ToWidget, selected_animation_valid),
        );
        ui.send_message(
            WidgetMessage::enabled(
                self.clone_current_animation,
                MessageDirection::ToWidget,
                selected_animation_valid,
            ),
        );
        ui.send_message(
            WidgetMessage::enabled(
                self.play_pause,
                MessageDirection::ToWidget,
                selected_animation_valid && in_preview_mode,
            ),
        );
        ui.send_message(
            WidgetMessage::enabled(
                self.stop,
                MessageDirection::ToWidget,
                selected_animation_valid && in_preview_mode,
            ),
        );
        proof {
            assert(ui.sent() =~= old(ui).sent() + self.shows(
                items,
                animations@,
                selection.animation,
                in_preview_mode,
            ));
        }
    }
}

/// What the host has read, as contracts see it.
pub struct ToolbarInputView {
    pub typed_name: Seq<char>,
    pub chosen_animation: Option<Handle>,
}

impl View for ToolbarInput {
    type V = ToolbarInputView;

    open spec fn view(&self) -> ToolbarInputView {
        ToolbarInputView { typed_name: self.typed_name@, chosen_animation: self.chosen_animation }
    }
}

} // verus!
