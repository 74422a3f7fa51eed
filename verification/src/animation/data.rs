//! The editor of the data of animations: the window with the toolbar and
//! the list of tracks, and the preview, in which the selected animation
//! plays in the scene and the scene is put back afterwards.

use crate::animation::thumb::ThumbDataView;
use crate::animation::toolbar::{Toolbar, ToolbarAction, ToolbarInput};
use crate::animation::track::TrackDataList;
use crate::animation::{lemma_place_solo, place, AnimationContainer, AnimationView};
use crate::collections::{
    handles_contains, handles_insert, handles_items, handles_new, handles_of, handles_remove,
};
use crate::command::{Message, MessageSender, MessageView};
use crate::handle::Handle;
use crate::message::{
    plain, CheckBoxMessage, CurveEditorMessage, MessageData, MessageDataView, MessageDirection,
    Number, UiMessage, UiMessageView, WidgetMessage, WindowMessage,
};
use crate::scene::{fetch_selection, fetched, AnimationSelection, Selection, SelectionView};
use crate::tree::{within, lemma_apart_joined, lemma_apart, holder, info, kept, lemma_words, loose, sound, Nodes};
use crate::ui::{send_sync_message, spawn, BuildContext, UserInterface, MSG_SYNC_FLAG};
use crate::widget::{WidgetBuilder, WidgetInfo, WidgetKind};
use fxhash::FxHashSet;
use vstd::prelude::*;

verus! {

/// What the host has to do to the scene for the preview.
#[derive(Clone, Copy, Debug, PartialEq, Eq, Structural)]
pub enum SceneRequest {
    /// Let the animation player apply its animations by itself.
    SetAutoApply(Handle),
    /// Keep a copy of the node as it is now.
    SaveNode(Handle),
    /// Put the node back as it was when it was saved.
    RestoreNode(Handle),
}

/// The nodes that were saved when the preview began, in the order in which
/// they are put back.
#[derive(Debug)]
pub struct PreviewModeData {
    pub nodes: Vec<Handle>,
}

/// A handle as a set of handles holds it.
pub open spec fn key(h: Handle) -> (u32, u32) {
    (h.index, h.generation)
}

/// The handle that a set of handles holds as `k`.
pub open spec fn unkey(k: (u32, u32)) -> Handle {
    Handle { index: k.0, generation: k.1 }
}

/// The handles of `nodes` as a set of handles holds them.
pub open spec fn keys(nodes: Seq<Handle>) -> Set<(u32, u32)> {
    Set::new(|k: (u32, u32)| nodes.contains(unkey(k)))
}

/// Whether `order` holds every member of `set` once, and nothing else.
pub open spec fn lists(order: Seq<(u32, u32)>, set: Set<(u32, u32)>) -> bool {
    order.no_duplicates() && order.to_set() == set
}

pub struct AnimationDataEditor {
    pub window: Handle,
    pub track_list: TrackDataList,
    pub toolbar: Toolbar,
    pub content: Handle,
    pub thumb: ThumbDataView,
    pub curve_editor: Handle,
    pub preview_mode_data: Option<PreviewModeData>,
}

impl AnimationDataEditor {
    /// The window is a window of `tree`, closed, and holds a grid with the
    /// toolbar and under it the list of tracks.
    pub open spec fn shape(&self, tree: Nodes) -> bool {
        &&& info(tree, self.window) matches Some(w) && w.kind == WidgetKind::Window && !w.visibility
            && w.name == "AnimationData"@ && w.text == "Animation Data"@ && w.children
            == seq![self.content]
        &&& holder(tree, self.content) == self.window
        &&& info(tree, self.content) matches Some(g) && g.kind == WidgetKind::Grid && g.children
            == seq![self.toolbar.panel, self.track_list.content]
        &&& holder(tree, self.toolbar.panel) == self.content
        &&& holder(tree, self.track_list.content) == self.content
        &&& self.toolbar.shape(tree)
        &&& self.toolbar.at_rest(tree)
        &&& self.thumb.shape(tree)
        &&& info(tree, self.track_list.content) matches Some(l) && l.kind == WidgetKind::Grid
    }

    /// Whether nothing is set on the window, the grid in it and the grid of
    /// the list of tracks but what the shape of the editor says.
    pub open spec fn as_built(&self, tree: Nodes) -> bool {
        &&& info(tree, self.window) matches Some(w) && w.is_like(
            WidgetInfo {
                visibility: false,
                name: "AnimationData"@,
                text: "Animation Data"@,
                ..WidgetInfo::bare(WidgetKind::Window)
            },
        )
        &&& info(tree, self.content) matches Some(g) && g.is_like(
            WidgetInfo::bare(WidgetKind::Grid),
        )
        &&& info(tree, self.track_list.content) == Some(
            WidgetInfo { row: 1, ..WidgetInfo::bare(WidgetKind::Grid) },
        )
    }

    /// The widgets that the editor names: those of the thumb, the grid of
    /// the list of tracks, those of the toolbar, the grid in the window, and
    /// the window.
    pub open spec fn widgets(&self, tree: Nodes) -> Seq<Handle> {
        self.thumb.widgets() + seq![self.track_list.content] + self.toolbar.widgets(tree) + seq![
            self.content,
            self.window,
        ]
    }

    /// Builds the editor into the tree: the window with all that is in it,
    /// closed, and, aside from it, the thumb. There is no preview and no
    /// curve editor.
    pub fn new(ctx: &mut BuildContext) -> (editor: AnimationDataEditor)
        requires
            sound(old(ctx)@),
            old(ctx).has_room(40),
        ensures
            sound(final(ctx)@),
            kept(old(ctx)@, final(ctx)@),
            final(ctx)@.len() == old(ctx)@.len() + 40,
            editor.shape(final(ctx)@),
            editor.as_built(final(ctx)@),
            editor.toolbar.as_built(final(ctx)@),
            editor.toolbar.tips(final(ctx)@),
            editor.thumb.labelled(final(ctx)@),
            editor.widgets(final(ctx)@).no_duplicates(),
            editor.preview_mode_data is None,
            editor.curve_editor == Handle::none_spec(),
            forall|x: Handle|
                #[trigger] loose(final(ctx)@, x) == (x == editor.window || x
                    == editor.thumb.content || loose(old(ctx)@, x)),
            forall|x: Handle|
                info(old(ctx)@, x) is Some ==> #[trigger] info(final(ctx)@, x) == info(old(ctx)@, x),
    {
        let ghost before = ctx@;
        proof {
            lemma_words(before, Handle::none_spec());
        }
        let ghost low = before.len() as int;
        let thumb = ThumbDataView::new(ctx);
        let ghost first = ctx@.len() as int;
        let track_list = TrackDataList::new(ctx);
        let ghost second = ctx@.len() as int;
        let toolbar = Toolbar::new(ctx);
        let ghost parts = ctx@;
        let ghost third = ctx@.len() as int;
        let content = spawn(
            ctx,
            WidgetKind::Grid,
            WidgetBuilder::new().with_child(toolbar.panel).with_child(track_list.content),
        );
        let window = spawn(
            ctx,
            WidgetKind::Window,
            WidgetBuilder::new().with_name("AnimationData").with_visibility(false).with_text(
                "Animation Data",
            ).with_child(content),
        );
        let editor = AnimationDataEditor {
            window,
            track_list,
            toolbar,
            content,
            thumb,
            curve_editor: Handle::none(),
            preview_mode_data: None,
        };
        proof {
            assert(info(ctx@, window)->0.children =~= seq![content]);
            assert(info(ctx@, content)->0.children =~= seq![
                editor.toolbar.panel,
                editor.track_list.content,
            ]);
            assert(editor.toolbar.shape(parts));
            assert(editor.toolbar.shape(ctx@));
            assert(editor.toolbar.at_rest(ctx@));
            assert(editor.thumb.shape(ctx@));
            assert(editor.toolbar.widgets(ctx@) =~= editor.toolbar.widgets(parts));
            let list = seq![editor.track_list.content];
            assert(within(list, first, second));
            lemma_apart(list);
            lemma_apart_joined(editor.thumb.widgets(), list, low, first, second);
            lemma_apart_joined(
                editor.thumb.widgets() + list,
                editor.toolbar.widgets(parts),
                low,
                second,
                third,
            );
            let own = seq![content, window];
            assert(within(own, third, third + 2));
            lemma_apart(own);
            lemma_apart_joined(
                editor.thumb.widgets() + list + editor.toolbar.widgets(parts),
                own,
                low,
                third,
                third + 2,
            );
        }
        editor
    }

    /// Opens the window, in the middle of the screen.
    pub fn open(&self, ui: &mut UserInterface)
        ensures
            final(ui).tree() == old(ui).tree(),
            final(ui).sent() == old(ui).sent().push(
                plain(
                    self.window,
                    MessageDirection::ToWidget,
                    MessageDataView::Window(WindowMessage::Open { center: true, focus_content: true }),
                ),
            ),
    {
        ui.send_message(WindowMessage::open(self.window, MessageDirection::ToWidget, true, true));
    }

    pub fn is_in_preview_mode(&self) -> (b: bool)
        ensures
            b == self.preview_mode_data is Some,
    {
        self.preview_mode_data.is_some()
    }

    /// Empties the list of animations and the list of tracks.
    pub fn clear(&mut self, ui: &mut UserInterface)
        ensures
            final(self).window == old(self).window,
            final(self).toolbar == old(self).toolbar,
            final(self).content == old(self).content,
            final(self).curve_editor == old(self).curve_editor,
            final(self).preview_mode_data == old(self).preview_mode_data,
            final(self).track_list.content == old(self).track_list.content,
            final(self).track_list.targets@.len() == 0,
            final(ui).tree() == old(ui).tree(),
            final(ui).sent() == old(ui).sent().push(
                plain(
                    old(self).toolbar.animations,
                    MessageDirection::ToWidget,
                    MessageDataView::DropdownItems(Seq::<Handle>::empty()),
                ),
            ),
    {
        self.toolbar.clear(ui);
        self.track_list.clear();
    }

    /// The requests that save, or put back, each of `nodes` in their order.
    pub open spec fn each(nodes: Seq<Handle>, save: bool) -> Seq<SceneRequest> {
        Seq::new(
            nodes.len(),
            |i: int|
                if save {
                    SceneRequest::SaveNode(nodes[i])
                } else {
                    SceneRequest::RestoreNode(nodes[i])
                },
        )
    }

    /// Begins the preview. The nodes that the animation moves, `targets`,
    /// become nodes that the scene must not touch, and are saved, each once,
    /// in an order that is not stated; after them the animation player is
    /// noted as saved. The buttons that play and stop begin to work.
    pub fn enter_preview_mode(
        &mut self,
        animation_player: Handle,
        targets: &FxHashSet<(u32, u32)>,
        ui: &mut UserInterface,
        node_overrides: &mut FxHashSet<(u32, u32)>,
    ) -> (requests: Vec<SceneRequest>)
        requires
            old(self).preview_mode_data is None,
            handles_of(*targets).disjoint(handles_of(*old(node_overrides))),
        ensures
            final(self).window == old(self).window,
            final(self).toolbar == old(self).toolbar,
            final(self).content == old(self).content,
            final(self).curve_editor == old(self).curve_editor,
            final(self).track_list == old(self).track_list,
            final(self).thumb == old(self).thumb,
            final(ui).tree() == old(ui).tree(),
            final(ui).sent() == old(ui).sent() + seq![
                Toolbar::enables(old(self).toolbar.play_pause, true),
                Toolbar::enables(old(self).toolbar.stop, true),
            ],
            handles_of(*final(node_overrides)) == handles_of(*old(node_overrides)).union(
                handles_of(*targets),
            ),
            final(self).preview_mode_data matches Some(data) && (exists|order: Seq<(u32, u32)>|
                #![trigger lists(order, handles_of(*targets))]
                lists(order, handles_of(*targets)) && data.nodes@ == order.map_values(
                    |k: (u32, u32)| unkey(k),
                ).push(animation_player) && requests@ == Self::each(
                    order.map_values(|k: (u32, u32)| unkey(k)),
                    true,
                )),
    {
        self.toolbar.on_preview_mode_changed(ui, true);
        let items = handles_items(targets);
        let ghost start = handles_of(*node_overrides);
        let ghost wanted = items@.map_values(|k: (u32, u32)| unkey(k));
        let mut nodes: Vec<Handle> = Vec::new();
        let mut requests: Vec<SceneRequest> = Vec::new();
        let mut i: usize = 0;
        proof {
            assert(start.union(items@.take(0).to_set()) =~= start);
        }
        while i < items.len()
            invariant
                0 <= i <= items@.len(),
                wanted == items@.map_values(|k: (u32, u32)| unkey(k)),
                handles_of(*node_overrides) == start.union(items@.take(i as int).to_set()),
                nodes@ == wanted.take(i as int),
                requests@ == Self::each(wanted.take(i as int), true),
            decreases items@.len() - i,
        {
            let k = items[i];
            let target = Handle { index: k.0, generation: k.1 };
            handles_insert(node_overrides, k);
            nodes.push(target);
            requests.push(SceneRequest::SaveNode(target));
            proof {
                let prev = items@.take(i as int);
                let next = items@.take(i + 1);
                assert(next =~= prev.push(k));
                assert forall|x: (u32, u32)|
                    start.union(prev.to_set()).insert(k).contains(x) == start.union(
                        next.to_set(),
                    ).contains(x) by {
                    if prev.contains(x) {
                        let j = choose|j: int| 0 <= j < prev.len() && prev[j] == x;
                        assert(next[j] == x);
                    }
                    if next.contains(x) {
                        let j = choose|j: int| 0 <= j < next.len() && next[j] == x;
                        if j < i {
                            assert(prev[j] == x);
                        }
                    }
                    if x == k {
                        assert(next[i as int] == x);
                    }
                }
                assert(start.union(prev.to_set()).insert(k) =~= start.union(next.to_set()));
                assert(wanted.take(i + 1) =~= wanted.take(i as int).push(target));
                assert(requests@ =~= Self::each(wanted.take(i + 1), true));
            }
            i += 1;
        }
        nodes.push(animation_player);
        proof {
            assert(items@.take(i as int) =~= items@);
            assert(wanted.take(i as int) =~= wanted);
            assert(lists(items@, handles_of(*targets)));
        }
        // The state of the nodes is with the host; here is which nodes.
        self.preview_mode_data = Some(PreviewModeData { nodes });
        requests
    }

    /// Whether none of `targets` is a node that the scene must not touch.
    pub fn are_free(targets: &FxHashSet<(u32, u32)>, node_overrides: &FxHashSet<(u32, u32)>) -> (b:
        bool)
        ensures
            b == handles_of(*targets).disjoint(handles_of(*node_overrides)),
    {
        let items = handles_items(targets);
        let mut i: usize = 0;
        while i < items.len()
            invariant
                0 <= i <= items@.len(),
                items@.to_set() == handles_of(*targets),
                forall|j: int|
                    0 <= j < i ==> !handles_of(*node_overrides).contains(#[trigger] items@[j]),
            decreases items@.len() - i,
        {
            if handles_contains(node_overrides, items[i]) {
                proof {
                    assert(items@.contains(items@[i as int]));
                    assert(handles_of(*targets).contains(items@[i as int]));
                }
                return false;
            }
            i += 1;
        }
        proof {
            assert forall|x: (u32, u32)| handles_of(*targets).contains(x) implies !handles_of(
                *node_overrides,
            ).contains(x) by {
                assert(items@.contains(x));
                let j = choose|j: int| 0 <= j < items@.len() && items@[j] == x;
                assert(!handles_of(*node_overrides).contains(items@[j]));
            }
        }
        true
    }

    /// Begins the preview as [`AnimationDataEditor::enter_preview_mode`]
    /// does, where there is no preview yet and none of `targets` is a node
    /// that the scene must not touch. Otherwise nothing is done and nothing
    /// is returned.
    pub fn try_enter_preview_mode(
        &mut self,
        animation_player: Handle,
        targets: &FxHashSet<(u32, u32)>,
        ui: &mut UserInterface,
        node_overrides: &mut FxHashSet<(u32, u32)>,
    ) -> (answer: Option<Vec<SceneRequest>>)
        ensures
            answer is Some <==> old(self).preview_mode_data is None && handles_of(
                *targets,
            ).disjoint(handles_of(*old(node_overrides))),
            match answer {
                Some(requests) => (final(self).window == old(self).window) && (final(self).toolbar == old(self).toolbar) && (final(self).content == old(self).content) && (final(self).curve_editor == old(self).curve_editor) && (final(self).track_list == old(self).track_list) && (final(self).thumb == old(self).thumb) && (final(ui).tree() == old(ui).tree()) && (final(ui).sent() == old(ui).sent() + seq![
                Toolbar::enables(old(self).toolbar.play_pause, true),
                Toolbar::enables(old(self).toolbar.stop, true),
            ]) && (handles_of(*final(node_overrides)) == handles_of(*old(node_overrides)).union(
                handles_of(*targets),
            )) && (final(self).preview_mode_data matches Some(data) && (exists|order: Seq<(u32, u32)>|
                #![trigger lists(order, handles_of(*targets))]
                lists(order, handles_of(*targets)) && data.nodes@ == order.map_values(
                    |k: (u32, u32)| unkey(k),
                ).push(animation_player) && requests@ == Self::each(
                    order.map_values(|k: (u32, u32)| unkey(k)),
                    true,
                ))),
                None => *final(self) == *old(self) && final(ui).tree() == old(ui).tree() && final(ui).sent() == old(ui).sent() && handles_of(*final(node_overrides)) == handles_of(
                    *old(node_overrides),
                ),
            },
    {
        if self.preview_mode_data.is_some() || !Self::are_free(targets, node_overrides) {
            return None;
        }
        Some(self.enter_preview_mode(animation_player, targets, ui, node_overrides))
    }

    /// Ends the preview: the saved nodes are put back, in the order in
    /// which they were noted, and the scene may touch them again. The
    /// buttons that play and stop cease to work.
    pub fn leave_preview_mode(
        &mut self,
        ui: &mut UserInterface,
        node_overrides: &mut FxHashSet<(u32, u32)>,
    ) -> (requests: Vec<SceneRequest>)
        requires
            old(self).preview_mode_data is Some,
        ensures
            final(self).window == old(self).window,
            final(self).toolbar == old(self).toolbar,
            final(self).content == old(self).content,
            final(self).curve_editor == old(self).curve_editor,
            final(self).track_list == old(self).track_list,
            final(self).thumb == old(self).thumb,
            final(self).preview_mode_data is None,
            final(ui).tree() == old(ui).tree(),
            final(ui).sent() == old(ui).sent() + seq![
                Toolbar::enables(old(self).toolbar.play_pause, false),
                Toolbar::enables(old(self).toolbar.stop, false),
            ],
            handles_of(*final(node_overrides)) == handles_of(*old(node_overrides)).difference(
                keys(old(self).preview_mode_data->0.nodes@),
            ),
            requests@ == Self::each(old(self).preview_mode_data->0.nodes@, false),
    {
        self.toolbar.on_preview_mode_changed(ui, false);
        let preview_data = self.preview_mode_data.take().unwrap();
        let ghost start = handles_of(*node_overrides);
        let ghost nodes = preview_data.nodes@;
        let mut requests: Vec<SceneRequest> = Vec::new();
        let mut i: usize = 0;
        proof {
            assert(start.difference(keys(nodes.take(0))) =~= start);
        }
        while i < preview_data.nodes.len()
            invariant
                0 <= i <= nodes.len(),
                nodes == preview_data.nodes@,
                handles_of(*node_overrides) == start.difference(keys(nodes.take(i as int))),
                requests@ == Self::each(nodes.take(i as int), false),
            decreases nodes.len() - i,
        {
            let handle = preview_data.nodes[i];
            handles_remove(node_overrides, (handle.index, handle.generation));
            requests.push(SceneRequest::RestoreNode(handle));
            proof {
                let prev = nodes.take(i as int);
                let next = nodes.take(i + 1);
                assert(next =~= prev.push(handle));
                assert forall|k: (u32, u32)|
                    start.difference(keys(prev)).remove(key(handle)).contains(k)
                        == start.difference(keys(next)).contains(k) by {
                    if next.contains(unkey(k)) {
                        let j = choose|j: int| 0 <= j < next.len() && next[j] == unkey(k);
                        if j < i {
                            assert(prev[j] == unkey(k));
                        }
                    }
                    if prev.contains(unkey(k)) {
                        let j = choose|j: int| 0 <= j < prev.len() && prev[j] == unkey(k);
                        assert(next[j] == unkey(k));
                    }
                    if k == key(handle) {
                        assert(next[i as int] == unkey(k));
                    }
                }
                assert(handles_of(*node_overrides) =~= start.difference(keys(next)));
                assert(requests@ =~= Self::each(next, false));
            }
            i += 1;
        }
        proof {
            assert(nodes.take(i as int) =~= nodes);
        }
        requests
    }

    /// Ends the preview if there is one.
    pub fn try_leave_preview_mode(
        &mut self,
        ui: &mut UserInterface,
        node_overrides: &mut FxHashSet<(u32, u32)>,
    ) -> (requests: Vec<SceneRequest>)
        ensures
            final(self).window == old(self).window,
            final(self).toolbar == old(self).toolbar,
            final(self).content == old(self).content,
            final(self).curve_editor == old(self).curve_editor,
            final(self).track_list == old(self).track_list,
            final(self).thumb == old(self).thumb,
            final(self).preview_mode_data is None,
            final(ui).tree() == old(ui).tree(),
            match old(self).preview_mode_data {
                Some(data) => final(ui).sent() == old(ui).sent() + seq![
                    Toolbar::enables(old(self).toolbar.play_pause, false),
                    Toolbar::enables(old(self).toolbar.stop, false),
                ] && handles_of(*final(node_overrides)) == handles_of(
                    *old(node_overrides),
                ).difference(keys(data.nodes@)) && requests@ == Self::each(data.nodes@, false),
                None => final(ui).sent() == old(ui).sent() && handles_of(*final(node_overrides))
                    == handles_of(*old(node_overrides)) && requests@.len() == 0,
            },
    {
        if self.preview_mode_data.is_some() {
            self.leave_preview_mode(ui, node_overrides)
        } else {
            Vec::new()
        }
    }

    /// Whether a message of the editor changes the scene, so that a preview
    /// must end before it.
    pub open spec fn ends_preview(message: MessageView) -> bool {
        message is DoCommand || message is DoCommandGroup || message is UndoCurrentSceneCommand
            || message is RedoCurrentSceneCommand
    }

    /// Ends the preview before the editor does, undoes or redoes a command.
    pub fn handle_message(
        &mut self,
        message: &Message,
        ui: &mut UserInterface,
        node_overrides: &mut FxHashSet<(u32, u32)>,
    ) -> (requests: Vec<SceneRequest>)
        ensures
            final(self).window == old(self).window,
            final(self).toolbar == old(self).toolbar,
            final(self).content == old(self).content,
            final(self).curve_editor == old(self).curve_editor,
            final(self).track_list == old(self).track_list,
            final(self).thumb == old(self).thumb,
            final(ui).tree() == old(ui).tree(),
            match old(self).preview_mode_data {
                Some(data) => if Self::ends_preview(message@) {
                    &&& final(self).preview_mode_data is None
                    &&& final(ui).sent() == old(ui).sent() + seq![
                        Toolbar::enables(old(self).toolbar.play_pause, false),
                        Toolbar::enables(old(self).toolbar.stop, false),
                    ]
                    &&& handles_of(*final(node_overrides)) == handles_of(
                        *old(node_overrides),
                    ).difference(keys(data.nodes@))
                    &&& requests@ == Self::each(data.nodes@, false)
                } else {
                    &&& final(self).preview_mode_data == old(self).preview_mode_data
                    &&& final(ui).sent() == old(ui).sent()
                    &&& handles_of(*final(node_overrides)) == handles_of(*old(node_overrides))
                    &&& requests@.len() == 0
                },
                None => final(self).preview_mode_data is None && final(ui).sent() == old(ui).sent() && handles_of(*final(node_overrides)) == handles_of(
                    *old(node_overrides),
                ) && requests@.len() == 0,
            },
    {
        // Leave preview mode before execution of any scene command.
        match message {
            Message::DoCommand(_)
            | Message::DoCommandGroup(_)
            | Message::UndoCurrentSceneCommand
            | Message::RedoCurrentSceneCommand => self.try_leave_preview_mode(ui, node_overrides),
            _ => Vec::new(),
        }
    }

    /// The message that `message` becomes when it only brings a widget in
    /// line.
    pub open spec fn quiet(message: UiMessageView) -> UiMessageView {
        message.flagged(MSG_SYNC_FLAG)
    }

    /// What the editor tells its widgets, after the toolbar is in line,
    /// where no animation is selected: the list of tracks is empty and
    /// cannot be used, the curve editor shows no curve at its usual size
    /// and place and cannot be used, the content is shown if a player is
    /// selected, and the preview box says whether there is a preview.
    pub open spec fn idle_messages(&self, player_selected: bool) -> Seq<UiMessageView> {
        seq![
            Self::quiet(
                plain(
                    self.curve_editor,
                    MessageDirection::ToWidget,
                    MessageDataView::CurveEditor(
                        CurveEditorMessage::Zoom { x: Number::one_spec(), y: Number::one_spec() },
                    ),
                ),
            ),
            Self::quiet(
                plain(
                    self.curve_editor,
                    MessageDirection::ToWidget,
                    MessageDataView::CurveEditor(
                        CurveEditorMessage::ViewPosition {
                            x: Number::zero_spec(),
                            y: Number::zero_spec(),
                        },
                    ),
                ),
            ),
            Self::quiet(
                plain(
                    self.curve_editor,
                    MessageDirection::ToWidget,
                    MessageDataView::CurveEditor(CurveEditorMessage::SyncEmpty),
                ),
            ),
        ] + (if player_selected {
            Seq::<UiMessageView>::empty()
        } else {
            seq![
                plain(
                    self.toolbar.animations,
                    MessageDirection::ToWidget,
                    MessageDataView::DropdownItems(Seq::<Handle>::empty()),
                ),
            ]
        }) + seq![
            Self::quiet(
                plain(
                    self.content,
                    MessageDirection::ToWidget,
                    MessageDataView::Widget(WidgetMessage::Visibility(player_selected)),
                ),
            ),
            Self::quiet(
                plain(
                    self.track_list.content,
                    MessageDirection::ToWidget,
                    MessageDataView::Widget(WidgetMessage::Enabled(false)),
                ),
            ),
            Self::quiet(
                plain(
                    self.toolbar.preview,
                    MessageDirection::ToWidget,
                    MessageDataView::CheckBox(
                        CheckBoxMessage::Check(Some(self.preview_mode_data is Some)),
                    ),
                ),
            ),
            Self::quiet(
                plain(
                    self.curve_editor,
                    MessageDirection::ToWidget,
                    MessageDataView::Widget(WidgetMessage::Enabled(false)),
                ),
            ),
        ]
    }

    /// One frame: the thumb goes to where the selected animation stands.
    /// `animations` are the animations of the selected player, if the
    /// selection names a player; `differs` says whether the box of the
    /// thumb shows another time than that of the selected animation.
    ///
    /// Where the thumb has to move, the values in the rows of the curves
    /// would have to follow; that is not settled, and such a frame is left
    /// out here. In every other frame the thumb stays and nothing is sent.
    pub fn update(
        &mut self,
        editor_selection: &Selection,
        animations: Option<&AnimationContainer>,
        differs: bool,
        ui: &mut UserInterface,
    )
        requires
            differs ==> !(animations matches Some(a) && place(
                a@,
                fetched(editor_selection@).animation,
            ) is Some),
        ensures
            *final(self) == *old(self),
            final(ui).tree() == old(ui).tree(),
            final(ui).sent() == old(ui).sent(),
    {
        let selection = fetch_selection(editor_selection);
        if let Some(container) = animations {
            if let Some(animation) = container.try_get(selection.animation) {
                self.thumb.update_thumb(differs, animation.time_position, ui);
            }
        }
    }

    /// Brings the editor in line with the scene where the selection names
    /// no animation of the selected player. `animations` are the animations
    /// of the selected player, if the selection names a player.
    ///
    /// For a selection that names an animation the rows of the tracks would
    /// have to follow; that is not settled, and such a selection is left
    /// out here.
    pub fn sync_to_model(
        &mut self,
        editor_selection: &Selection,
        animations: Option<&AnimationContainer>,
        ui: &mut UserInterface,
    )
        requires
            animations matches Some(a) ==> place(a@, fetched(editor_selection@).animation) is None
                && sound(old(ui).tree()) && old(ui).tree().len() + a@.len() <= u32::MAX,
        ensures
            final(self).window == old(self).window,
            final(self).toolbar == old(self).toolbar,
            final(self).content == old(self).content,
            final(self).curve_editor == old(self).curve_editor,
            final(self).preview_mode_data == old(self).preview_mode_data,
            final(self).track_list.content == old(self).track_list.content,
            final(self).track_list.targets@.len() == 0,
            match animations {
                Some(a) => final(ui).tree().len() == old(ui).tree().len() + a@.len() && kept(
                    old(ui).tree(),
                    final(ui).tree(),
                ) && final(ui).sent() == old(ui).sent() + old(self).toolbar.shows(
                    Seq::new(a@.len(), |i: int| crate::tree::slot(old(ui).tree().len() + i)),
                    a@,
                    fetched(editor_selection@).animation,
                    old(self).preview_mode_data is Some,
                ) + old(self).idle_messages(true),
                None => final(ui).tree() == old(ui).tree() && final(ui).sent() == old(ui).sent()
                    + old(self).idle_messages(false),
            },
    {
        let selection = fetch_selection(editor_selection);
        let mut is_animation_player_selected = false;
        let ghost start = ui.sent();
        proof {
            assert(start + Seq::<UiMessageView>::empty() =~= start);
        }
        if let Some(animations) = animations {
            self.toolbar.sync_to_model(
                animations,
                &selection,
                ui,
                self.preview_mode_data.is_some(),
            );
            is_animation_player_selected = true;
        }
        let ghost synced = ui.sent();
        self.track_list.clear();
        send_sync_message(
            ui,
            CurveEditorMessage::message(
                self.curve_editor,
                MessageDirection::ToWidget,
                CurveEditorMessage::Zoom { x: Number::one(), y: Number::one() },
            ),
        );
        send_sync_message(
            ui,
            CurveEditorMessage::message(
                self.curve_editor,
                MessageDirection::ToWidget,
                CurveEditorMessage::ViewPosition { x: Number::zero(), y: Number::zero() },
            ),
        );
        send_sync_message(
            ui,
            CurveEditorMessage::message(
                self.curve_editor,
                MessageDirection::ToWidget,
                CurveEditorMessage::SyncEmpty,
            ),
        );
        if !is_animation_player_selected {
            self.toolbar.clear(ui);
        }
        send_sync_message(
            ui,
            WidgetMessage::visibility(
                self.content,
                MessageDirection::ToWidget,
                is_animation_player_selected,
            ),
        );
        send_sync_message(
            ui,
            WidgetMessage::enabled(self.track_list.content, MessageDirection::ToWidget, false),
        );
        send_sync_message(
            ui,
            CheckBoxMessage::checked(
                self.toolbar.preview,
                MessageDirection::ToWidget,
                Some(self.preview_mode_data.is_some()),
            ),
        );
        send_sync_message(
            ui,
            WidgetMessage::enabled(self.curve_editor, MessageDirection::ToWidget, false),
        );
        proof {
            assert(ui.sent() =~= synced + old(self).idle_messages(is_animation_player_selected));
        }
    }

    /// The animations after the preview has begun on them: only the
    /// selected one plays, from its start.
    pub open spec fn staged(animations: Seq<AnimationView>, selected: Handle) -> Seq<AnimationView> {
        let alone = AnimationContainer::solo(animations, selected);
        match place(animations, selected) {
            Some(k) => alone.update(
                k,
                AnimationView { time_position: Number::zero_spec(), ..alone[k] },
            ),
            None => alone,
        }
    }

    /// The animations after a click on the button that plays and pauses, in
    /// a preview: the selected animation plays if it did not, and does not
    /// if it did.
    pub open spec fn toggled(animations: Seq<AnimationView>, selected: Handle) -> Seq<AnimationView> {
        match place(animations, selected) {
            Some(k) => animations.update(
                k,
                AnimationView { enabled: !animations[k].enabled, ..animations[k] },
            ),
            None => animations,
        }
    }

    /// The animations after a click on the button that stops, in a
    /// preview: the selected animation is at its start and does not play.
    pub open spec fn stopped(animations: Seq<AnimationView>, selected: Handle) -> Seq<AnimationView> {
        match place(animations, selected) {
            Some(k) => animations.update(
                k,
                AnimationView {
                    enabled: false,
                    time_position: Number::zero_spec(),
                    ..animations[k]
                },
            ),
            None => animations,
        }
    }

    /// Whether the preview can begin: the animation player is not yet a
    /// node that the scene must not touch; and, where the selection names an
    /// animation, there is no preview yet, and none of the nodes that the
    /// animation moves is the player or a node that the scene must not touch.
    pub open spec fn can_enter(
        &self,
        selection: SelectionView,
        animations: Seq<AnimationView>,
        overrides: Set<(u32, u32)>,
    ) -> bool {
        let chosen = fetched(selection);
        &&& !overrides.contains(key(chosen.animation_player))
        &&& place(animations, chosen.animation) matches Some(k) ==> self.preview_mode_data is None
            && keys(animations[k].targets).disjoint(
            overrides.insert(key(chosen.animation_player)),
        )
    }

    /// What [`AnimationDataEditor::handle_ui_message`] does: `after` is the
    /// editor after the message, `asked_after` what the editor has been
    /// asked for, `sent_after` what the widgets have been sent,
    /// `animations_after` the animations, `overrides_after` the nodes that
    /// the scene must not touch, and `requests` what the host has to do.
    pub open spec fn handled(
        before: AnimationDataEditor,
        after: AnimationDataEditor,
        message: UiMessageView,
        input: crate::animation::toolbar::ToolbarInputView,
        selection: SelectionView,
        animations: Seq<AnimationView>,
        animations_after: Seq<AnimationView>,
        sent: Seq<UiMessageView>,
        sent_after: Seq<UiMessageView>,
        asked: Seq<MessageView>,
        asked_after: Seq<MessageView>,
        overrides: Set<(u32, u32)>,
        overrides_after: Set<(u32, u32)>,
        requests: Seq<SceneRequest>,
    ) -> bool {
        &&& after.window == before.window
        &&& after.toolbar == before.toolbar
        &&& after.content == before.content
        &&& after.curve_editor == before.curve_editor
        &&& after.track_list == before.track_list
        &&& after.thumb == before.thumb
        &&& asked_after == asked + before.toolbar.requests(
                message,
                input,
                fetched(selection).animation_player,
                animations,
                selection,
                fetched(selection),
            )
        &&& match before.toolbar.action(message, input.chosen_animation) {
                ToolbarAction::Nothing | ToolbarAction::SelectAnimation(_) => Self::untouched(
                    before,
                    after,
                    sent,
                    sent_after,
                    overrides,
                    overrides_after,
                    requests,
                ) && animations_after == animations,
                ToolbarAction::EnterPreviewMode => before.entered(
                    after,
                    fetched(selection),
                    animations,
                    animations_after,
                    sent,
                    sent_after,
                    overrides,
                    overrides_after,
                    requests,
                ),
                ToolbarAction::LeavePreviewMode => animations_after == animations && (
                match before.preview_mode_data {
                    Some(data) => after.preview_mode_data is None && sent_after == sent + seq![
                        Toolbar::enables(before.toolbar.play_pause, false),
                        Toolbar::enables(before.toolbar.stop, false),
                    ] && overrides_after == overrides.difference(keys(data.nodes@)) && requests == Self::each(data.nodes@, false),
                    None => Self::untouched(
                        before,
                        after,
                        sent,
                        sent_after,
                        overrides,
                        overrides_after,
                        requests,
                    ),
                }),
                ToolbarAction::PlayPause => Self::untouched(
                    before,
                    after,
                    sent,
                    sent_after,
                    overrides,
                    overrides_after,
                    requests,
                ) && animations_after == if before.preview_mode_data is Some {
                    Self::toggled(animations, fetched(selection).animation)
                } else {
                    animations
                },
                ToolbarAction::Stop => Self::untouched(
                    before,
                    after,
                    sent,
                    sent_after,
                    overrides,
                    overrides_after,
                    requests,
                ) && animations_after == if before.preview_mode_data is Some {
                    Self::stopped(animations, fetched(selection).animation)
                } else {
                    animations
                },
            }
    }

    /// Whether `message` asks for the preview to begin.
    pub fn asks_for_preview(&self, message: &UiMessage, input: &ToolbarInput) -> (b: bool)
        ensures
            b == (self.toolbar.action(message@, input.chosen_animation)
                == ToolbarAction::EnterPreviewMode),
    {
        match &message.data {
            MessageData::CheckBox(CheckBoxMessage::Check(Some(checked))) => *checked
                && message.is_for(self.toolbar.preview) && message.from_widget(),
            _ => false,
        }
    }

    /// Whether the preview can begin: see [`AnimationDataEditor::can_enter`].
    #[verifier::loop_isolation(false)]
    pub fn is_ready_for_preview(
        &self,
        editor_selection: &Selection,
        animations: &AnimationContainer,
        node_overrides: &FxHashSet<(u32, u32)>,
    ) -> (b: bool)
        ensures
            b == self.can_enter(editor_selection@, animations@, handles_of(*node_overrides)),
    {
        let selection = fetch_selection(editor_selection);
        let player = selection.animation_player;
        if handles_contains(node_overrides, (player.index, player.generation)) {
            return false;
        }
        match animations.find(selection.animation) {
            None => true,
            Some(k) => {
                if self.preview_mode_data.is_some() {
                    return false;
                }
                let targets = &animations.animations[k].targets;
                let ghost taken = handles_of(*node_overrides).insert(key(player));
                proof {
                    assert(animations.animations@.len() == animations@.len());
                    assert(animations@[k as int].targets == targets@);
                }
                let mut t: usize = 0;
                while t < targets.len()
                    invariant
                        0 <= t <= targets@.len(),
                        taken == handles_of(*node_overrides).insert(key(player)),
                        forall|j: int| 0 <= j < t ==> !taken.contains(key(#[trigger] targets@[j])),
                    decreases targets@.len() - t,
                {
                    let target = targets[t];
                    if (target.index == player.index && target.generation == player.generation)
                        || handles_contains(node_overrides, (target.index, target.generation)) {
                        proof {
                            assert(unkey(key(target)) == target);
                            assert(targets@[t as int] == target);
                            assert(targets@.contains(unkey(key(target))));
                            assert(keys(targets@).contains(key(target)));
                            assert(taken.contains(key(target)));
                            assert(animations@[k as int].targets == targets@);
                            assert(!keys(targets@).disjoint(taken));
                        }
                        return false;
                    }
                    t += 1;
                }
                proof {
                    assert forall|x: (u32, u32)| keys(targets@).contains(x) implies !taken.contains(
                        x,
                    ) by {
                        let j = choose|j: int| 0 <= j < targets@.len() && targets@[j] == unkey(x);
                        assert(key(targets@[j]) == x);
                    }
                    assert(animations@[k as int].targets == targets@);
                }
                true
            },
        }
    }

    /// Reacts to a message that passes the editor as
    /// [`AnimationDataEditor::handle_ui_message`] does, where the preview
    /// can begin or the message does not ask for it. Where the message asks
    /// for a preview that cannot begin, nothing is done and nothing is
    /// returned.
    pub fn try_handle_ui_message(
        &mut self,
        message: &UiMessage,
        editor_selection: &Selection,
        animations: &mut AnimationContainer,
        input: &ToolbarInput,
        ui: &mut UserInterface,
        sender: &mut MessageSender,
        node_overrides: &mut FxHashSet<(u32, u32)>,
    ) -> (answer: Option<Vec<SceneRequest>>)
        requires
            old(self).toolbar.is_choice(message@) ==> input.chosen_animation is Some,
        ensures
            answer is None <==> old(self).toolbar.action(message@, input.chosen_animation)
                == ToolbarAction::EnterPreviewMode && !old(self).can_enter(
                editor_selection@,
                old(animations)@,
                handles_of(*old(node_overrides)),
            ),
            final(ui).tree() == old(ui).tree(),
            match answer {
                Some(requests) => Self::handled(
                    *old(self),
                    *final(self),
                    message@,
                    input@,
                    editor_selection@,
                    old(animations)@,
                    final(animations)@,
                    old(ui).sent(),
                    final(ui).sent(),
                    old(sender).sent(),
                    final(sender).sent(),
                    handles_of(*old(node_overrides)),
                    handles_of(*final(node_overrides)),
                    requests@,
                ),
                None => *final(self) == *old(self) && final(animations)@ == old(animations)@
                    && final(ui).sent() == old(ui).sent() && final(sender).sent() == old(sender).sent() && handles_of(*final(node_overrides)) == handles_of(*old(node_overrides)),
            },
    {
        if self.asks_for_preview(message, input) && !self.is_ready_for_preview(
            editor_selection,
            animations,
            node_overrides,
        ) {
            return None;
        }
        Some(
            self.handle_ui_message(
                message,
                editor_selection,
                animations,
                input,
                ui,
                sender,
                node_overrides,
            ),
        )
    }

    /// Reacts to a message that passes the editor, where the selection
    /// names an animation player: `animations` are its animations.
    ///
    /// The toolbar sees the message first and asks the editor for what the
    /// message calls for. Then the preview follows what the toolbar says is
    /// to do: it begins, ends, or the selected animation plays, pauses or
    /// stops in it. The result is what the host has to do to the scene.
    pub fn handle_ui_message(
        &mut self,
        message: &UiMessage,
        editor_selection: &Selection,
        animations: &mut AnimationContainer,
        input: &ToolbarInput,
        ui: &mut UserInterface,
        sender: &mut MessageSender,
        node_overrides: &mut FxHashSet<(u32, u32)>,
    ) -> (requests: Vec<SceneRequest>)
        requires
            old(self).toolbar.is_choice(message@) ==> input.chosen_animation is Some,
            old(self).toolbar.action(message@, input.chosen_animation)
                == ToolbarAction::EnterPreviewMode ==> old(self).can_enter(
                editor_selection@,
                old(animations)@,
                handles_of(*old(node_overrides)),
            ),
        ensures
            final(self).window == old(self).window,
            final(self).toolbar == old(self).toolbar,
            final(self).content == old(self).content,
            final(self).curve_editor == old(self).curve_editor,
            final(self).track_list == old(self).track_list,
            final(self).thumb == old(self).thumb,
            final(ui).tree() == old(ui).tree(),
            final(sender).sent() == old(sender).sent() + old(self).toolbar.requests(
                message@,
                input@,
                fetched(editor_selection@).animation_player,
                old(animations)@,
                editor_selection@,
                fetched(editor_selection@),
            ),
            match old(self).toolbar.action(message@, input.chosen_animation) {
                ToolbarAction::Nothing | ToolbarAction::SelectAnimation(_) => Self::untouched(
                    *old(self),
                    *final(self),
                    old(ui).sent(),
                    final(ui).sent(),
                    handles_of(*old(node_overrides)),
                    handles_of(*final(node_overrides)),
                    requests@,
                ) && final(animations)@ == old(animations)@,
                ToolbarAction::EnterPreviewMode => old(self).entered(
                    *final(self),
                    fetched(editor_selection@),
                    old(animations)@,
                    final(animations)@,
                    old(ui).sent(),
                    final(ui).sent(),
                    handles_of(*old(node_overrides)),
                    handles_of(*final(node_overrides)),
                    requests@,
                ),
                ToolbarAction::LeavePreviewMode => final(animations)@ == old(animations)@ && (
                match old(self).preview_mode_data {
                    Some(data) => final(self).preview_mode_data is None && final(ui).sent() == old(ui).sent() + seq![
                        Toolbar::enables(old(self).toolbar.play_pause, false),
                        Toolbar::enables(old(self).toolbar.stop, false),
                    ] && handles_of(*final(node_overrides)) == handles_of(
                        *old(node_overrides),
                    ).difference(keys(data.nodes@)) && requests@ == Self::each(data.nodes@, false),
                    None => Self::untouched(
                        *old(self),
                        *final(self),
                        old(ui).sent(),
                        final(ui).sent(),
                        handles_of(*old(node_overrides)),
                        handles_of(*final(node_overrides)),
                        requests@,
                    ),
                }),
                ToolbarAction::PlayPause => Self::untouched(
                    *old(self),
                    *final(self),
                    old(ui).sent(),
                    final(ui).sent(),
                    handles_of(*old(node_overrides)),
                    handles_of(*final(node_overrides)),
                    requests@,
                ) && final(animations)@ == if old(self).preview_mode_data is Some {
                    Self::toggled(old(animations)@, fetched(editor_selection@).animation)
                } else {
                    old(animations)@
                },
                ToolbarAction::Stop => Self::untouched(
                    *old(self),
                    *final(self),
                    old(ui).sent(),
                    final(ui).sent(),
                    handles_of(*old(node_overrides)),
                    handles_of(*final(node_overrides)),
                    requests@,
                ) && final(animations)@ == if old(self).preview_mode_data is Some {
                    Self::stopped(old(animations)@, fetched(editor_selection@).animation)
                } else {
                    old(animations)@
                },
            },
    {
        let selection = fetch_selection(editor_selection);
        let player = selection.animation_player;
        let ghost before = animations@;
        let toolbar_action = self.toolbar.handle_ui_message(
            message,
            sender,
            input,
            player,
            animations,
            editor_selection,
            &selection,
        );
        match toolbar_action {
            ToolbarAction::Nothing => Vec::new(),
            ToolbarAction::SelectAnimation(_) => Vec::new(),
            ToolbarAction::EnterPreviewMode => {
                let ghost start = handles_of(*node_overrides);
                handles_insert(node_overrides, (player.index, player.generation));
                let mut requests: Vec<SceneRequest> = Vec::new();
                requests.push(SceneRequest::SetAutoApply(player));
                // The player is saved as it is before its animations change.
                requests.push(SceneRequest::SaveNode(player));
                // Disable every animation, except preview one.
                animations.enable_only(selection.animation);
                proof {
                    lemma_place_solo(before, selection.animation, selection.animation);
                }
                let ghost alone = animations@;
                if let Some(k) = animations.find(selection.animation) {
                    proof {
                        assert(alone == AnimationContainer::solo(before, selection.animation));
                        assert(place(before, selection.animation) == Some(k as int));
                        assert(alone.len() == before.len());
                        assert(animations.animations@.len() == alone.len());
                    }
                    animations.set_time_position(k, Number::zero());
                    proof {
                        assert(animations.animations@.len() == animations@.len());
                        assert(animations@.len() == before.len());
                    }
                    let mut targets = handles_new();
                    let track_targets = &animations.animations[k].targets;
                    let mut t: usize = 0;
                    proof {
                        assert(animations@[k as int].targets == before[k as int].targets);
                        assert(track_targets@ == animations@[k as int].targets);
                        assert(handles_of(targets) =~= keys(track_targets@.take(0)));
                    }
                    while t < track_targets.len()
                        invariant
                            0 <= t <= track_targets@.len(),
                            handles_of(targets) == keys(track_targets@.take(t as int)),
                        decreases track_targets@.len() - t,
                    {
                        let target = track_targets[t];
                        let ghost had = handles_of(targets);
                        handles_insert(&mut targets, (target.index, target.generation));
                        proof {
                            let prev = track_targets@.take(t as int);
                            let next = track_targets@.take(t + 1);
                            assert(next =~= prev.push(target));
                            assert forall|x: (u32, u32)|
                                had.insert(key(target)).contains(x) == keys(next).contains(x) by {
                                if prev.contains(unkey(x)) {
                                    let j = choose|j: int| 0 <= j < prev.len() && prev[j] == unkey(x);
                                    assert(next[j] == unkey(x));
                                }
                                if next.contains(unkey(x)) {
                                    let j = choose|j: int| 0 <= j < next.len() && next[j] == unkey(x);
                                    if j < t {
                                        assert(prev[j] == unkey(x));
                                    }
                                }
                                if x == key(target) {
                                    assert(next[t as int] == unkey(x));
                                }
                            }
                            assert(handles_of(targets) =~= keys(next));
                        }
                        t += 1;
                    }
                    proof {
                        assert(track_targets@.take(t as int) =~= track_targets@);
                        assert(track_targets@ == before[k as int].targets);
                        assert(handles_of(targets) == keys(before[k as int].targets));
                        assert(handles_of(*node_overrides) == start.insert(key(player)));
                        assert(keys(before[k as int].targets).disjoint(start.insert(key(player))));
                    }
                    let more = self.enter_preview_mode(player, &targets, ui, node_overrides);
                    let ghost head = requests@;
                    let mut more = more;
                    requests.append(&mut more);
                    proof {
                        let order = choose|order: Seq<(u32, u32)>|
                            #![trigger lists(order, handles_of(targets))]
                            lists(order, handles_of(targets)) && self.preview_mode_data->0.nodes@
                                == order.map_values(|k: (u32, u32)| unkey(k)).push(player)
                                && requests@ == head + Self::each(
                                order.map_values(|k: (u32, u32)| unkey(k)),
                                true,
                            );
                        assert(lists(order, keys(before[k as int].targets)));
                        assert(head =~= seq![
                            SceneRequest::SetAutoApply(player),
                            SceneRequest::SaveNode(player),
                        ]);
                        assert(handles_of(*node_overrides) =~= start.insert(key(player)).union(
                            keys(before[k as int].targets),
                        ));
                        assert(animations@ =~= Self::staged(before, selection.animation));
                    }
                } else {
                    proof {
                        assert(requests@ =~= seq![
                            SceneRequest::SetAutoApply(player),
                            SceneRequest::SaveNode(player),
                        ]);
                    }
                }
                requests
            },
            ToolbarAction::LeavePreviewMode => self.try_leave_preview_mode(ui, node_overrides),
            ToolbarAction::PlayPause => {
                if self.preview_mode_data.is_some() {
                    if let Some(k) = animations.find(selection.animation) {
                        let enabled = animations.animations[k].enabled;
                        animations.set_enabled(k, !enabled);
                    }
                }
                Vec::new()
            },
            ToolbarAction::Stop => {
                if self.preview_mode_data.is_some() {
                    if let Some(k) = animations.find(selection.animation) {
                        animations.set_time_position(k, Number::zero());
                        animations.set_enabled(k, false);
                        proof {
                            assert(animations@ =~= Self::stopped(before, selection.animation));
                        }
                    }
                }
                Vec::new()
            },
        }
    }

    /// Nothing but the animations has changed, and the host has nothing to
    /// do.
    pub open spec fn untouched(
        editor: AnimationDataEditor,
        after: AnimationDataEditor,
        sent: Seq<UiMessageView>,
        sent_after: Seq<UiMessageView>,
        overrides: Set<(u32, u32)>,
        overrides_after: Set<(u32, u32)>,
        requests: Seq<SceneRequest>,
    ) -> bool {
        &&& after.preview_mode_data == editor.preview_mode_data
        &&& sent_after == sent
        &&& overrides_after == overrides
        &&& requests.len() == 0
    }

    /// What beginning the preview does. The animation player becomes a node
    /// that the scene must not touch, is set to apply its animations by
    /// itself, and is saved; only the selected animation is left to play.
    /// Where the selection names an animation, that animation starts over,
    /// and the preview begins with the nodes that it moves (see
    /// [`AnimationDataEditor::enter_preview_mode`]). Where it names none,
    /// that is all.
    pub open spec fn entered(
        &self,
        after: AnimationDataEditor,
        chosen: crate::scene::AnimationSelectionView,
        animations: Seq<AnimationView>,
        animations_after: Seq<AnimationView>,
        sent: Seq<UiMessageView>,
        sent_after: Seq<UiMessageView>,
        overrides: Set<(u32, u32)>,
        overrides_after: Set<(u32, u32)>,
        requests: Seq<SceneRequest>,
    ) -> bool {
        let player = chosen.animation_player;
        let head = seq![SceneRequest::SetAutoApply(player), SceneRequest::SaveNode(player)];
        &&& animations_after == Self::staged(animations, chosen.animation)
        &&& match place(animations, chosen.animation) {
            Some(k) => {
                &&& sent_after == sent + seq![
                    Toolbar::enables(self.toolbar.play_pause, true),
                    Toolbar::enables(self.toolbar.stop, true),
                ]
                &&& overrides_after == overrides.insert(key(player)).union(
                    keys(animations[k].targets),
                )
                &&& after.preview_mode_data matches Some(data) && (exists|order: Seq<(u32, u32)>|
                    #![trigger lists(order, keys(animations[k].targets))]
                    lists(order, keys(animations[k].targets)) && data.nodes@ == order.map_values(
                        |k: (u32, u32)| unkey(k),
                    ).push(player) && requests == head + Self::each(
                        order.map_values(|k: (u32, u32)| unkey(k)),
                        true,
                    ))
            },
            None => {
                &&& sent_after == sent
                &&& overrides_after == overrides.insert(key(player))
                &&& after.preview_mode_data == self.preview_mode_data
                &&& requests == head
            },
        }
    }
}

} // verus!
