//! The panel that makes light maps, and the window that shows how far the
//! making has come.

use crate::handle::Handle;
use crate::message::{
    plain, ButtonMessage, FieldValue, FieldValueView, InspectorMessage, MessageData,
    MessageDataView, MessageDirection, Number, ProgressBarMessage, TextMessage, UiMessage,
    UiMessageView, WidgetMessage, WindowMessage,
};
use crate::tree::{lemma_apart, 
    built, holder, info, kept, lemma_dialog, lemma_words, loose, made, sound, Nodes,
};
use crate::ui::{spawn, BuildContext, UserInterface};
use crate::widget::{WidgetBuilder, WidgetInfo, WidgetKind};
use vstd::prelude::*;
use vstd::string::StringExecFns;

verus! {

/// What the maker of light maps works with.
#[derive(Debug, Clone, PartialEq, Eq)]
pub struct LightmapperSettings {
    /// Texels for each unit of area; between 1 and 256. The time that the
    /// making takes grows with the square of it.
    pub texels_per_unit: u32,
    /// The room between the pieces of the map, between 0 and 0.1, which
    /// keeps seams away.
    pub spacing: Number,
    /// The directory for the finished light maps.
    pub path: String,
}

pub struct LightmapperSettingsView {
    pub texels_per_unit: u32,
    pub spacing: Number,
    pub path: Seq<char>,
}

impl View for LightmapperSettings {
    type V = LightmapperSettingsView;

    open spec fn view(&self) -> LightmapperSettingsView {
        LightmapperSettingsView {
            texels_per_unit: self.texels_per_unit,
            spacing: self.spacing,
            path: self.path@,
        }
    }
}

impl LightmapperSettings {
    /// The spacing that settings start with: five thousandths.
    pub open spec fn fine() -> Number {
        Number { bits: 0x3ba3_d70a }
    }
}

impl Default for LightmapperSettings {
    /// Sixty-four texels for each unit, a spacing of five thousandths, and
    /// no path.
    fn default() -> (s: LightmapperSettings)
        ensures
            s@ == (LightmapperSettingsView {
                texels_per_unit: 64,
                spacing: LightmapperSettings::fine(),
                path: Seq::<char>::empty(),
            }),
    {
        LightmapperSettings {
            texels_per_unit: 64,
            spacing: Number { bits: 0x3ba3_d70a },
            path: String::new(),
        }
    }
}

/// The steps of making a light map.
#[derive(Clone, Copy, Debug, PartialEq, Eq, Structural)]
pub enum ProgressStage {
    LightsCaching,
    UvGeneration,
    GeometryCaching,
    CalculatingLight,
}

impl ProgressStage {
    pub open spec fn digit_spec(self) -> Seq<char> {
        match self {
            ProgressStage::LightsCaching => "0"@,
            ProgressStage::UvGeneration => "1"@,
            ProgressStage::GeometryCaching => "2"@,
            ProgressStage::CalculatingLight => "3"@,
        }
    }

    /// The number of the step, counted from zero, in writing.
    pub fn digit(self) -> (s: &'static str)
        ensures
            s@ == self.digit_spec(),
    {
        match self {
            ProgressStage::LightsCaching => "0",
            ProgressStage::UvGeneration => "1",
            ProgressStage::GeometryCaching => "2",
            ProgressStage::CalculatingLight => "3",
        }
    }

    pub open spec fn name_spec(self) -> Seq<char> {
        match self {
            ProgressStage::LightsCaching => "Caching Lights"@,
            ProgressStage::UvGeneration => "Generating UVs"@,
            ProgressStage::GeometryCaching => "Caching Geometry"@,
            ProgressStage::CalculatingLight => "Calculating Light"@,
        }
    }

    /// What the step does, in words.
    pub fn name(self) -> (s: &'static str)
        ensures
            s@ == self.name_spec(),
    {
        match self {
            ProgressStage::LightsCaching => "Caching Lights",
            ProgressStage::UvGeneration => "Generating UVs",
            ProgressStage::GeometryCaching => "Caching Geometry",
            ProgressStage::CalculatingLight => "Calculating Light",
        }
    }
}

/// How far the making of a light map has come, as last seen.
#[derive(Clone, Copy, Debug, PartialEq, Eq, Structural)]
pub struct ProgressIndicator {
    pub stage: ProgressStage,
    pub percent: u32,
}

impl ProgressIndicator {
    /// Nothing done yet.
    pub fn new() -> (p: ProgressIndicator)
        ensures
            p == (ProgressIndicator { stage: ProgressStage::LightsCaching, percent: 0 }),
    {
        ProgressIndicator { stage: ProgressStage::LightsCaching, percent: 0 }
    }

    pub fn stage(&self) -> (s: ProgressStage)
        ensures
            s == self.stage,
    {
        self.stage
    }

    pub fn progress_percent(&self) -> (p: u32)
        ensures
            p == self.percent,
    {
        self.percent
    }
}

/// The word that stops the making of a light map.
#[derive(Clone, Copy, Debug, PartialEq, Eq, Structural)]
pub struct CancellationToken {
    pub cancelled: bool,
}

impl CancellationToken {
    pub fn new() -> (t: CancellationToken)
        ensures
            !t.cancelled,
    {
        CancellationToken { cancelled: false }
    }

    pub fn cancel(&mut self)
        ensures
            final(self).cancelled,
    {
        self.cancelled = true;
    }

    pub fn is_cancelled(&self) -> (b: bool)
        ensures
            b == self.cancelled,
    {
        self.cancelled
    }
}

/// The window that shows how far the making of a light map has come.
pub struct ProgressWindow {
    pub window: Handle,
    pub progress_bar: Handle,
    pub cancel: Handle,
    pub text: Handle,
    pub progress_indicator: ProgressIndicator,
    pub cancellation_token: CancellationToken,
}

impl ProgressWindow {
    /// The four widgets are widgets of `tree`, of their kinds: a window
    /// that is closed, with a grid in it that holds a note, the bar, the
    /// text over the bar, and the button that cancels.
    pub open spec fn shape(&self, tree: Nodes) -> bool {
        let grid = info(tree, self.window)->0.children[0];
        &&& info(tree, self.window) matches Some(w) && w.kind == WidgetKind::Window && !w.visibility
            && w.text == "Progress"@ && w.children.len() == 1
        &&& holder(tree, grid) == self.window
        &&& info(tree, grid) matches Some(g) && g.kind == WidgetKind::Grid && g.children.len() == 4
            && g.children[1] == self.progress_bar && g.children[2] == self.text && g.children[3]
            == self.cancel && (info(tree, g.children[0]) matches Some(note) && note.kind
            == WidgetKind::Text && note.row == 0 && note.text
            == "Please wait until light map is fully generated. It may take different amount of time depending on the settings."@) && (forall|k: int|
            0 <= k < 4 ==> holder(tree, #[trigger] g.children[k]) == grid)
        &&& info(tree, self.progress_bar) matches Some(i) && i.kind == WidgetKind::ProgressBar
            && i.row == 1
        &&& info(tree, self.text) matches Some(i) && i.kind == WidgetKind::Text && i.row == 1
        &&& info(tree, self.cancel) matches Some(i) && i.kind == WidgetKind::Button && i.row == 3
            && i.text == "Cancel"@
    }

    /// Builds the window into the tree, closed.
    pub fn new(
        ctx: &mut BuildContext,
        progress_indicator: ProgressIndicator,
        cancellation_token: CancellationToken,
    ) -> (window: ProgressWindow)
        requires
            sound(old(ctx)@),
            old(ctx).has_room(6),
        ensures
            built(old(ctx)@, final(ctx)@, window.window, Seq::<Handle>::empty()),
            made(old(ctx)@, final(ctx)@, window.window),
            final(ctx)@.len() == old(ctx)@.len() + 6,
            window.shape(final(ctx)@),
            window.as_built(final(ctx)@),
            window.widgets().no_duplicates(),
            window.progress_indicator == progress_indicator,
            window.cancellation_token == cancellation_token,
    {
        let ghost before = ctx@;
        proof {
            lemma_words(before, Handle::none_spec());
        }
        let note = spawn(
            ctx,
            WidgetKind::Text,
            WidgetBuilder::new().on_row(0).with_text(
                "Please wait until light map is fully generated. It may take different amount of time depending on the settings.",
            ),
        );
        let progress_bar = spawn(ctx, WidgetKind::ProgressBar, WidgetBuilder::new().on_row(1));
        let text = spawn(ctx, WidgetKind::Text, WidgetBuilder::new().on_row(1));
        let cancel = spawn(
            ctx,
            WidgetKind::Button,
            WidgetBuilder::new().on_row(3).with_text("Cancel"),
        );
        let grid = spawn(
            ctx,
            WidgetKind::Grid,
            WidgetBuilder::new().with_child(note).with_child(progress_bar).with_child(
                text,
            ).with_child(cancel),
        );
        let window = spawn(
            ctx,
            WidgetKind::Window,
            WidgetBuilder::new().with_visibility(false).with_text("Progress").with_child(grid),
        );
        let made_window = ProgressWindow {
            window,
            progress_bar,
            cancel,
            text,
            progress_indicator,
            cancellation_token,
        };
        proof {
            lemma_dialog(before, ctx@, window);
            lemma_apart(made_window.widgets());
        }
        made_window
    }

    /// Whether nothing is set on the widgets of the window but what its
    /// shape says.
    pub open spec fn as_built(&self, tree: Nodes) -> bool {
        let grid = info(tree, self.window)->0.children[0];
        &&& info(tree, self.window) matches Some(w) && w.is_like(
            WidgetInfo {
                visibility: false,
                text: "Progress"@,
                ..WidgetInfo::bare(WidgetKind::Window)
            },
        )
        &&& info(tree, grid) matches Some(g) && g.is_like(WidgetInfo::bare(WidgetKind::Grid))
        &&& info(tree, info(tree, grid)->0.children[0]) matches Some(note) && note == (WidgetInfo {
            text: note.text,
            ..WidgetInfo::bare(WidgetKind::Text)
        })
        &&& info(tree, self.progress_bar) == Some(
            WidgetInfo { row: 1, ..WidgetInfo::bare(WidgetKind::ProgressBar) },
        )
        &&& info(tree, self.text) == Some(
            WidgetInfo { row: 1, ..WidgetInfo::bare(WidgetKind::Text) },
        )
        &&& info(tree, self.cancel) == Some(
            WidgetInfo { row: 3, text: "Cancel"@, ..WidgetInfo::bare(WidgetKind::Button) },
        )
    }

    /// The four widgets that the window names.
    pub open spec fn widgets(&self) -> Seq<Handle> {
        seq![self.window, self.progress_bar, self.cancel, self.text]
    }

    /// What the text over the bar says at a step: which of the four steps
    /// it is, counted from zero, and what the step does.
    pub open spec fn caption(stage: ProgressStage) -> Seq<char> {
        "Stage "@ + stage.digit_spec() + " out of 4: "@ + stage.name_spec()
    }

    /// Brings bar and text in line with the progress as last seen.
    pub fn show_progress(&self, ui: &mut UserInterface)
        ensures
            final(ui).tree() == old(ui).tree(),
            final(ui).sent() == old(ui).sent() + seq![
                plain(
                    self.progress_bar,
                    MessageDirection::ToWidget,
                    MessageDataView::ProgressBar(
                        ProgressBarMessage::Progress { percent: self.progress_indicator.percent },
                    ),
                ),
                plain(
                    self.text,
                    MessageDirection::ToWidget,
                    MessageDataView::Text(Self::caption(self.progress_indicator.stage)),
                ),
            ],
    {
        ui.send_message(
            ProgressBarMessage::progress(
                self.progress_bar,
                MessageDirection::ToWidget,
                self.progress_indicator.progress_percent(),
            ),
        );
        let stage = self.progress_indicator.stage();
        let mut caption = String::from_str("Stage ");
        caption.append(stage.digit());
        caption.append(" out of 4: ");
        caption.append(stage.name());
        ui.send_message(TextMessage::text(self.text, MessageDirection::ToWidget, caption));
        proof {
            assert(ui.sent() =~= old(ui).sent() + seq![
                plain(
                    self.progress_bar,
                    MessageDirection::ToWidget,
                    MessageDataView::ProgressBar(
                        ProgressBarMessage::Progress { percent: self.progress_indicator.percent },
                    ),
                ),
                plain(
                    self.text,
                    MessageDirection::ToWidget,
                    MessageDataView::Text(Self::caption(self.progress_indicator.stage)),
                ),
            ]);
        }
    }

    /// Opens the window in the middle of the screen, in front of everything
    /// else.
    pub fn open(&self, ui: &mut UserInterface)
        ensures
            final(ui).tree() == old(ui).tree(),
            final(ui).sent() == old(ui).sent().push(
                plain(
                    self.window,
                    MessageDirection::ToWidget,
                    MessageDataView::Window(
                        WindowMessage::OpenModal { center: true, focus_content: true },
                    ),
                ),
            ),
    {
        ui.send_message(
            WindowMessage::open_modal(self.window, MessageDirection::ToWidget, true, true),
        );
    }

    /// Asks for the window to be taken out of the tree.
    pub fn close(&self, ui: &mut UserInterface)
        ensures
            final(ui).tree() == old(ui).tree(),
            final(ui).sent() == old(ui).sent().push(
                plain(
                    self.window,
                    MessageDirection::ToWidget,
                    MessageDataView::Widget(WidgetMessage::Remove),
                ),
            ),
    {
        ui.send_message(WidgetMessage::remove(self.window, MessageDirection::ToWidget));
    }
}

/// Whether `a` is the text `b`.
fn same_text(a: &String, b: &str) -> (same: bool)
    ensures
        same == (a@ == b@),
{
    let other = String::from_str(b);
    *a == other
}

/// How the making of a light map has ended.
#[derive(Clone, Copy, Debug, PartialEq, Eq, Structural)]
pub enum GenerationOutcome {
    Finished,
    Failed,
}

/// What the host has to do after the panel has seen a message.
#[derive(Clone, Copy, Debug, PartialEq, Eq, Structural)]
pub struct LightPanelRequest {
    /// Start making a light map, with the settings of the panel.
    pub generate: bool,
    /// Stop the making that is under way.
    pub cancel: bool,
}

/// The panel with the settings of the maker of light maps and the button
/// that starts it.
pub struct LightPanel {
    pub window: Handle,
    pub inspector: Handle,
    pub generate: Handle,
    pub settings: LightmapperSettings,
    pub progress_window: Option<ProgressWindow>,
}

impl LightPanel {
    /// The three widgets are widgets of `tree`, of their kinds: a window
    /// that is closed, with a grid in it that holds the inspector, in a
    /// scroll viewer, and under it the button that starts the making.
    pub open spec fn shape(&self, tree: Nodes) -> bool {
        let grid = info(tree, self.window)->0.children[0];
        let viewer = info(tree, grid)->0.children[0];
        &&& info(tree, self.window) matches Some(w) && w.kind == WidgetKind::Window && !w.visibility
            && w.name == "LightPanel"@ && w.text == "Light Settings"@ && w.children.len() == 1
        &&& holder(tree, grid) == self.window
        &&& info(tree, grid) matches Some(g) && g.kind == WidgetKind::Grid && g.children.len() == 2
            && g.children[1] == self.generate
        &&& holder(tree, viewer) == grid
        &&& info(tree, viewer) matches Some(v) && v.kind == WidgetKind::ScrollViewer && v.row == 0
            && v.children.len() == 1 && v.children[0] == self.inspector
        &&& holder(tree, self.inspector) == viewer
        &&& info(tree, self.inspector) matches Some(i) && i.kind == WidgetKind::Inspector
        &&& holder(tree, self.generate) == grid
        &&& info(tree, self.generate) matches Some(i) && i.kind == WidgetKind::Button && i.row == 1
            && i.column == 0 && i.text == "Generate Lightmap"@
    }

    /// Builds the panel into the tree, closed, with the settings that the
    /// maker starts with and no making under way.
    pub fn new(ctx: &mut BuildContext) -> (panel: LightPanel)
        requires
            sound(old(ctx)@),
            old(ctx).has_room(5),
        ensures
            built(old(ctx)@, final(ctx)@, panel.window, Seq::<Handle>::empty()),
            made(old(ctx)@, final(ctx)@, panel.window),
            final(ctx)@.len() == old(ctx)@.len() + 5,
            panel.shape(final(ctx)@),
            panel.as_built(final(ctx)@),
            panel.widgets().no_duplicates(),
            panel.progress_window is None,
            panel.settings@ == (LightmapperSettingsView {
                texels_per_unit: 64,
                spacing: LightmapperSettings::fine(),
                path: Seq::<char>::empty(),
            }),
    {
        let settings = LightmapperSettings::default();
        let ghost before = ctx@;
        proof {
            lemma_words(before, Handle::none_spec());
        }
        let inspector = spawn(ctx, WidgetKind::Inspector, WidgetBuilder::new());
        let viewer = spawn(
            ctx,
            WidgetKind::ScrollViewer,
            WidgetBuilder::new().on_row(0).with_child(inspector),
        );
        let generate = spawn(
            ctx,
            WidgetKind::Button,
            WidgetBuilder::new().on_row(1).on_column(0).with_text("Generate Lightmap"),
        );
        let grid = spawn(
            ctx,
            WidgetKind::Grid,
            WidgetBuilder::new().with_child(viewer).with_child(generate),
        );
        let window = spawn(
            ctx,
            WidgetKind::Window,
            WidgetBuilder::new().with_name("LightPanel").with_visibility(false).with_text(
                "Light Settings",
            ).with_child(grid),
        );
        let panel = LightPanel { window, inspector, generate, settings, progress_window: None };
        proof {
            lemma_dialog(before, ctx@, window);
            lemma_apart(panel.widgets());
        }
        panel
    }

    /// Whether nothing is set on the widgets of the panel but what its
    /// shape says.
    pub open spec fn as_built(&self, tree: Nodes) -> bool {
        let grid = info(tree, self.window)->0.children[0];
        let viewer = info(tree, grid)->0.children[0];
        &&& info(tree, self.window) matches Some(w) && w.is_like(
            WidgetInfo {
                visibility: false,
                name: "LightPanel"@,
                text: "Light Settings"@,
                ..WidgetInfo::bare(WidgetKind::Window)
            },
        )
        &&& info(tree, grid) matches Some(g) && g.is_like(WidgetInfo::bare(WidgetKind::Grid))
        &&& info(tree, viewer) matches Some(v) && v.is_like(
            WidgetInfo::bare(WidgetKind::ScrollViewer),
        )
        &&& info(tree, self.inspector) == Some(WidgetInfo::bare(WidgetKind::Inspector))
        &&& info(tree, self.generate) == Some(
            WidgetInfo {
                row: 1,
                text: "Generate Lightmap"@,
                ..WidgetInfo::bare(WidgetKind::Button)
            },
        )
    }

    /// The three widgets that the panel names.
    pub open spec fn widgets(&self) -> Seq<Handle> {
        seq![self.window, self.inspector, self.generate]
    }

    /// Whether `message` is a click on the button that starts the making.
    pub open spec fn starts(&self, message: UiMessageView) -> bool {
        message.data == MessageDataView::Button(ButtonMessage::Click) && message.destination
            == self.generate
    }

    /// Whether `message` is a click on the button that starts the making.
    pub fn is_start(&self, message: &UiMessage) -> (b: bool)
        ensures
            b == self.starts(message@),
    {
        match &message.data {
            MessageData::Button(ButtonMessage::Click) => message.is_for(self.generate),
            _ => false,
        }
    }

    /// The settings after the user has given the field `name` the value
    /// `value`: a field of that name takes a value of its kind, and nothing
    /// else changes anything.
    pub open spec fn changed(
        settings: LightmapperSettingsView,
        name: Seq<char>,
        value: FieldValueView,
    ) -> LightmapperSettingsView {
        if name == "texels_per_unit"@ {
            match value {
                FieldValueView::Unsigned(v) => LightmapperSettingsView {
                    texels_per_unit: v,
                    ..settings
                },
                _ => settings,
            }
        } else if name == "spacing"@ {
            match value {
                FieldValueView::Real(v) => LightmapperSettingsView { spacing: v, ..settings },
                _ => settings,
            }
        } else if name == "path"@ {
            match value {
                FieldValueView::Text(v) => LightmapperSettingsView { path: v, ..settings },
                _ => settings,
            }
        } else {
            settings
        }
    }

    /// The settings after `message`: changed where the inspector of the
    /// panel reports a change, and else as they were.
    pub open spec fn settings_after(&self, message: UiMessageView) -> LightmapperSettingsView {
        match message.data {
            MessageDataView::PropertyChanged { name, value } => if message.destination
                == self.inspector && message.direction == MessageDirection::FromWidget {
                Self::changed(self.settings@, name, value)
            } else {
                self.settings@
            },
            _ => self.settings@,
        }
    }

    /// Whether `message` is a click on a button.
    pub open spec fn is_click(message: UiMessageView) -> bool {
        message.data == MessageDataView::Button(ButtonMessage::Click)
    }

    /// Whether a click on `clicked` is a click on the button that cancels.
    pub open spec fn cancels(window: Option<ProgressWindow>, clicked: Handle) -> bool {
        window matches Some(w) && clicked == w.cancel
    }

    /// The window of progress after the word to stop was given, or was not.
    pub open spec fn told(window: Option<ProgressWindow>, cancel: bool) -> Option<ProgressWindow> {
        match window {
            Some(w) => Some(
                ProgressWindow {
                    cancellation_token: CancellationToken {
                        cancelled: w.cancellation_token.cancelled || cancel,
                    },
                    ..w
                },
            ),
            None => None,
        }
    }

    /// What starting the making does: a new window of progress is built,
    /// with nothing done yet, and asked to open. The word to stop is given
    /// at once only if the click that started was on the new window's
    /// button that cancels.
    pub open spec fn started(
        tree: Nodes,
        tree_after: Nodes,
        sent: Seq<UiMessageView>,
        sent_after: Seq<UiMessageView>,
        window: Option<ProgressWindow>,
        clicked: Handle,
        cancel: bool,
    ) -> bool {
        &&& window matches Some(w) && built(tree, tree_after, w.window, Seq::<Handle>::empty())
            && w.shape(tree_after) && w.progress_indicator == (ProgressIndicator {
            stage: ProgressStage::LightsCaching,
            percent: 0,
        }) && w.cancellation_token.cancelled == cancel && cancel == (clicked == w.cancel)
            && sent_after == sent.push(
            plain(
                w.window,
                MessageDirection::ToWidget,
                MessageDataView::Window(
                    WindowMessage::OpenModal { center: true, focus_content: true },
                ),
            ),
        )
    }

    /// Reacts to a message that passes the panel.
    ///
    /// A click on the button that starts the making builds the window of
    /// progress, opens it and asks the host to start. A click on the button
    /// that cancels gives the word and asks the host to stop. A change that
    /// the inspector reports goes into the settings.
    pub fn handle_ui_message(&mut self, message: &UiMessage, ui: &mut UserInterface) -> (request:
        LightPanelRequest)
        requires
            old(self).starts(message@) ==> sound(old(ui).tree()) && old(ui).tree().len() + 6
                <= u32::MAX,
        ensures
            final(self).window == old(self).window,
            final(self).inspector == old(self).inspector,
            final(self).generate == old(self).generate,
            final(self).settings@ == old(self).settings_after(message@),
            request.generate == old(self).starts(message@),
            !Self::is_click(message@) ==> !request.cancel && final(self).progress_window == old(self).progress_window,
            !old(self).starts(message@) ==> final(ui).tree() == old(ui).tree() && final(ui).sent()
                == old(ui).sent(),
            Self::is_click(message@) && !old(self).starts(message@) ==> request.cancel
                == Self::cancels(old(self).progress_window, message.destination) && final(self).progress_window == Self::told(old(self).progress_window, request.cancel),
            old(self).starts(message@) ==> Self::started(
                old(ui).tree(),
                final(ui).tree(),
                old(ui).sent(),
                final(ui).sent(),
                final(self).progress_window,
                message.destination,
                request.cancel,
            ),
    {
        let mut request = LightPanelRequest { generate: false, cancel: false };
        match &message.data {
            MessageData::Button(ButtonMessage::Click) => {
                if message.is_for(self.generate) {
                    let progress_window = ProgressWindow::new(
                        ui.build_ctx(),
                        ProgressIndicator::new(),
                        CancellationToken::new(),
                    );
                    progress_window.open(ui);
                    self.progress_window = Some(progress_window);
                    request.generate = true;
                }
                let mut cancelled = false;
                if let Some(progress_window) = &self.progress_window {
                    if message.is_for(progress_window.cancel) {
                        cancelled = true;
                    }
                }
                if cancelled {
                    match &mut self.progress_window {
                        Some(progress_window) => {
                            progress_window.cancellation_token.cancel();
                        },
                        None => {},
                    }
                    request.cancel = true;
                }
            },
            MessageData::Inspector(InspectorMessage::PropertyChanged { name, value }) => {
                if message.is_for(self.inspector) && message.from_widget() {
                    proof {
                        reveal_strlit("texels_per_unit");
                        reveal_strlit("spacing");
                        reveal_strlit("path");
                    }
                    if same_text(name, "texels_per_unit") {
                        if let FieldValue::Unsigned(v) = value {
                            self.settings.texels_per_unit = *v;
                        }
                    } else if same_text(name, "spacing") {
                        if let FieldValue::Real(v) = value {
                            self.settings.spacing = *v;
                        }
                    } else if same_text(name, "path") {
                        if let FieldValue::Text(v) = value {
                            self.settings.path = v.clone();
                        }
                    }
                }
            },
            _ => {},
        }
        request
    }

    /// Follows the making of a light map: shows how far it has come, and,
    /// when the host says that it has ended, asks for the window of progress
    /// to be taken away. Returns whether there is a finished light map for
    /// the host to put into the scene.
    pub fn update(&mut self, ui: &mut UserInterface, outcome: Option<GenerationOutcome>) -> (apply:
        bool)
        ensures
            apply == (outcome == Some(GenerationOutcome::Finished)),
            final(self).window == old(self).window,
            final(self).inspector == old(self).inspector,
            final(self).generate == old(self).generate,
            final(self).settings == old(self).settings,
            final(ui).tree() == old(ui).tree(),
            final(self).progress_window == if outcome is Some {
                None
            } else {
                old(self).progress_window
            },
            final(ui).sent() == old(ui).sent() + Self::updates(old(self).progress_window, outcome),
    {
        proof {
            assert(old(ui).sent() + Seq::<UiMessageView>::empty() =~= old(ui).sent());
        }
        if let Some(progress_window) = &self.progress_window {
            progress_window.show_progress(ui);
        }
        match outcome {
            Some(result) => {
                let window = self.progress_window.take();
                if let Some(progress_window) = window {
                    progress_window.close(ui);
                }
                proof {
                    assert(ui.sent() =~= old(ui).sent() + Self::updates(
                        old(self).progress_window,
                        outcome,
                    ));
                }
                matches!(result, GenerationOutcome::Finished)
            },
            None => false,
        }
    }

    /// What an update tells the widgets: where a window of progress is
    /// open, how far the making has come, and, when it has ended, that the
    /// window goes.
    pub open spec fn updates(
        window: Option<ProgressWindow>,
        outcome: Option<GenerationOutcome>,
    ) -> Seq<UiMessageView> {
        match window {
            Some(w) => seq![
                plain(
                    w.progress_bar,
                    MessageDirection::ToWidget,
                    MessageDataView::ProgressBar(
                        ProgressBarMessage::Progress { percent: w.progress_indicator.percent },
                    ),
                ),
                plain(
                    w.text,
                    MessageDirection::ToWidget,
                    MessageDataView::Text(ProgressWindow::caption(w.progress_indicator.stage)),
                ),
            ] + if outcome is Some {
                seq![
                    plain(
                        w.window,
                        MessageDirection::ToWidget,
                        MessageDataView::Widget(WidgetMessage::Remove),
                    ),
                ]
            } else {
                Seq::<UiMessageView>::empty()
            },
            None => Seq::<UiMessageView>::empty(),
        }
    }

    /// Whether a light map is being made.
    pub fn is_in_preview_mode(&self) -> (b: bool)
        ensures
            b == self.progress_window is Some,
    {
        self.progress_window.is_some()
    }
}

} // verus!
