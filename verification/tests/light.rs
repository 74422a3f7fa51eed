use editor_core::handle::Handle;
use editor_core::light::{
    CancellationToken, GenerationOutcome, LightPanel, LightmapperSettings, ProgressIndicator,
    ProgressStage, ProgressWindow,
};
use editor_core::message::{
    ButtonMessage, FieldValue, InspectorMessage, MessageData, MessageDirection, Number,
    ProgressBarMessage, TextMessage, UiMessage, WidgetMessage, WindowMessage,
};
use editor_core::ui::UserInterface;
use editor_core::widget::WidgetKind;

fn drain_ui(ui: &mut UserInterface) -> Vec<UiMessage> {
    let mut out = Vec::new();
    while let Some(m) = ui.poll_message() {
        out.push(m);
    }
    out
}

fn click(on: Handle) -> UiMessage {
    UiMessage::with_data(
        on,
        MessageDirection::FromWidget,
        MessageData::Button(ButtonMessage::Click),
    )
}

fn change(inspector: Handle, name: &str, value: FieldValue) -> UiMessage {
    UiMessage::with_data(
        inspector,
        MessageDirection::FromWidget,
        MessageData::Inspector(InspectorMessage::PropertyChanged {
            name: name.to_string(),
            value,
        }),
    )
}

#[test]
fn settings_start_with_sixty_four_texels_and_a_fine_spacing() {
    let s = LightmapperSettings::default();
    assert_eq!(s.texels_per_unit, 64);
    assert_eq!(f32::from_bits(s.spacing.bits), 0.005);
    assert_eq!(s.path, "");
}

#[test]
fn the_progress_window_is_built_closed() {
    let mut ui = UserInterface::new();
    let w = ProgressWindow::new(
        ui.build_ctx(),
        ProgressIndicator::new(),
        CancellationToken::new(),
    );
    assert_eq!(ui.alive_count(), 7);
    let window = ui.node(w.window);
    assert_eq!(window.kind, WidgetKind::Window);
    assert!(!window.visibility);
    assert_eq!(window.text, "Progress");
    let grid = ui.node(window.children[0]);
    assert_eq!(grid.kind, WidgetKind::Grid);
    assert_eq!(grid.children.len(), 4);
    assert_eq!(&grid.children[1..], &[w.progress_bar, w.text, w.cancel]);
    assert_eq!(
        ui.node(grid.children[0]).text,
        "Please wait until light map is fully generated. It may take different amount of time depending on the settings."
    );
    assert_eq!(ui.node(w.progress_bar).kind, WidgetKind::ProgressBar);
    assert_eq!(ui.node(w.progress_bar).row, 1);
    assert_eq!(ui.node(w.text).row, 1);
    assert_eq!(ui.node(w.cancel).text, "Cancel");
    assert_eq!(ui.node(w.cancel).row, 3);
    assert!(!w.cancellation_token.is_cancelled());
    // Taking the window away takes everything away.
    ui.remove_node(w.window);
    assert_eq!(ui.alive_count(), 1);
}

#[test]
fn show_progress_tells_bar_and_text() {
    let mut ui = UserInterface::new();
    let mut w = ProgressWindow::new(
        ui.build_ctx(),
        ProgressIndicator::new(),
        CancellationToken::new(),
    );
    w.progress_indicator = ProgressIndicator {
        stage: ProgressStage::GeometryCaching,
        percent: 37,
    };
    w.show_progress(&mut ui);
    let sent = drain_ui(&mut ui);
    assert_eq!(sent.len(), 2);
    assert_eq!(
        sent[0],
        ProgressBarMessage::progress(w.progress_bar, MessageDirection::ToWidget, 37)
    );
    assert_eq!(
        sent[1],
        TextMessage::text(
            w.text,
            MessageDirection::ToWidget,
            "Stage 2 out of 4: Caching Geometry".to_string()
        )
    );
}

#[test]
fn each_stage_has_its_number_and_its_name() {
    let expected = [
        (ProgressStage::LightsCaching, "0", "Caching Lights"),
        (ProgressStage::UvGeneration, "1", "Generating UVs"),
        (ProgressStage::GeometryCaching, "2", "Caching Geometry"),
        (ProgressStage::CalculatingLight, "3", "Calculating Light"),
    ];
    for (stage, digit, name) in expected {
        assert_eq!(stage.digit(), digit);
        assert_eq!(stage.name(), name);
    }
}

#[test]
fn open_and_close_of_the_progress_window() {
    let mut ui = UserInterface::new();
    let w = ProgressWindow::new(
        ui.build_ctx(),
        ProgressIndicator::new(),
        CancellationToken::new(),
    );
    w.open(&mut ui);
    w.close(&mut ui);
    assert_eq!(
        drain_ui(&mut ui),
        vec![
            WindowMessage::open_modal(w.window, MessageDirection::ToWidget, true, true),
            WidgetMessage::remove(w.window, MessageDirection::ToWidget),
        ]
    );
}

#[test]
fn the_light_panel_is_built_closed_with_its_button() {
    let mut ui = UserInterface::new();
    let panel = LightPanel::new(ui.build_ctx());
    assert_eq!(ui.alive_count(), 6);
    let window = ui.node(panel.window);
    assert_eq!(window.name, "LightPanel");
    assert_eq!(window.text, "Light Settings");
    assert!(!window.visibility);
    let grid = ui.node(window.children[0]);
    assert_eq!(grid.children.len(), 2);
    assert_eq!(grid.children[1], panel.generate);
    let viewer = ui.node(grid.children[0]);
    assert_eq!(viewer.kind, WidgetKind::ScrollViewer);
    assert_eq!(viewer.children, vec![panel.inspector]);
    assert_eq!(ui.node(panel.generate).text, "Generate Lightmap");
    assert_eq!(ui.node(panel.generate).row, 1);
    assert!(!panel.is_in_preview_mode());
    assert_eq!(panel.settings, LightmapperSettings::default());
}

#[test]
fn a_click_on_generate_builds_and_opens_the_progress_window() {
    let mut ui = UserInterface::new();
    let mut panel = LightPanel::new(ui.build_ctx());
    let request = panel.handle_ui_message(&click(panel.generate), &mut ui);
    assert!(request.generate);
    assert!(!request.cancel);
    assert!(panel.is_in_preview_mode());
    let w = panel.progress_window.as_ref().unwrap();
    assert_eq!(ui.alive_count(), 12);
    assert_eq!(ui.node(w.window).kind, WidgetKind::Window);
    assert_eq!(
        w.progress_indicator,
        ProgressIndicator {
            stage: ProgressStage::LightsCaching,
            percent: 0
        }
    );
    assert_eq!(
        drain_ui(&mut ui),
        vec![WindowMessage::open_modal(
            w.window,
            MessageDirection::ToWidget,
            true,
            true
        )]
    );
}

#[test]
fn a_click_on_cancel_gives_the_word() {
    let mut ui = UserInterface::new();
    let mut panel = LightPanel::new(ui.build_ctx());
    // No window of progress yet: nothing to cancel.
    let request = panel.handle_ui_message(&click(Handle::new(40, 1)), &mut ui);
    assert!(!request.generate && !request.cancel);
    panel.handle_ui_message(&click(panel.generate), &mut ui);
    let cancel = panel.progress_window.as_ref().unwrap().cancel;
    let request = panel.handle_ui_message(&click(panel.inspector), &mut ui);
    assert!(!request.generate && !request.cancel);
    assert!(!panel
        .progress_window
        .as_ref()
        .unwrap()
        .cancellation_token
        .is_cancelled());
    let request = panel.handle_ui_message(&click(cancel), &mut ui);
    assert!(!request.generate);
    assert!(request.cancel);
    assert!(panel
        .progress_window
        .as_ref()
        .unwrap()
        .cancellation_token
        .is_cancelled());
}

#[test]
fn a_change_from_the_inspector_goes_into_the_settings() {
    let mut ui = UserInterface::new();
    let mut panel = LightPanel::new(ui.build_ctx());
    let i = panel.inspector;
    panel.handle_ui_message(&change(i, "texels_per_unit", FieldValue::Unsigned(128)), &mut ui);
    assert_eq!(panel.settings.texels_per_unit, 128);
    let spacing = Number {
        bits: 0.01f32.to_bits(),
    };
    panel.handle_ui_message(&change(i, "spacing", FieldValue::Real(spacing)), &mut ui);
    assert_eq!(panel.settings.spacing, spacing);
    panel.handle_ui_message(
        &change(i, "path", FieldValue::Text("maps/".to_string())),
        &mut ui,
    );
    assert_eq!(panel.settings.path, "maps/");
    // A value of the wrong kind, a field that is not there, a change from
    // another inspector, and a request to the inspector change nothing.
    let before = panel.settings.clone();
    panel.handle_ui_message(&change(i, "spacing", FieldValue::Unsigned(3)), &mut ui);
    panel.handle_ui_message(&change(i, "texels", FieldValue::Unsigned(3)), &mut ui);
    panel.handle_ui_message(
        &change(panel.generate, "texels_per_unit", FieldValue::Unsigned(3)),
        &mut ui,
    );
    let mut to_widget = change(i, "texels_per_unit", FieldValue::Unsigned(3));
    to_widget.direction = MessageDirection::ToWidget;
    panel.handle_ui_message(&to_widget, &mut ui);
    assert_eq!(panel.settings, before);
    assert_eq!(drain_ui(&mut ui), vec![]);
}

#[test]
fn update_follows_the_making_to_its_end() {
    let mut ui = UserInterface::new();
    let mut panel = LightPanel::new(ui.build_ctx());
    // Nothing under way: nothing to show.
    assert!(!panel.update(&mut ui, None));
    assert_eq!(drain_ui(&mut ui), vec![]);
    panel.handle_ui_message(&click(panel.generate), &mut ui);
    drain_ui(&mut ui);
    let (bar, text, window) = {
        let w = panel.progress_window.as_mut().unwrap();
        w.progress_indicator = ProgressIndicator {
            stage: ProgressStage::CalculatingLight,
            percent: 99,
        };
        (w.progress_bar, w.text, w.window)
    };
    assert!(!panel.update(&mut ui, None));
    assert!(panel.is_in_preview_mode());
    assert_eq!(
        drain_ui(&mut ui),
        vec![
            ProgressBarMessage::progress(bar, MessageDirection::ToWidget, 99),
            TextMessage::text(
                text,
                MessageDirection::ToWidget,
                "Stage 3 out of 4: Calculating Light".to_string()
            ),
        ]
    );
    assert!(panel.update(&mut ui, Some(GenerationOutcome::Finished)));
    assert!(!panel.is_in_preview_mode());
    let sent = drain_ui(&mut ui);
    assert_eq!(sent.len(), 3);
    assert_eq!(
        sent[2],
        WidgetMessage::remove(window, MessageDirection::ToWidget)
    );
    // A failure ends the making too, and leaves no light map.
    panel.handle_ui_message(&click(panel.generate), &mut ui);
    drain_ui(&mut ui);
    assert!(!panel.update(&mut ui, Some(GenerationOutcome::Failed)));
    assert!(!panel.is_in_preview_mode());
}

#[test]
fn only_a_click_on_generate_starts_the_making() {
    let mut ui = UserInterface::new();
    let panel = LightPanel::new(ui.build_ctx());
    assert!(panel.is_start(&click(panel.generate)));
    assert!(!panel.is_start(&click(panel.window)));
    assert!(!panel.is_start(&click(panel.inspector)));
    assert!(!panel.is_start(&change(
        panel.generate,
        "texels_per_unit",
        FieldValue::Unsigned(8)
    )));
    // The widgets that the panel and the window of progress name are
    // different widgets.
    let window = ProgressWindow::new(
        ui.build_ctx(),
        ProgressIndicator::new(),
        CancellationToken::new(),
    );
    let all: std::collections::HashSet<Handle> = [
        panel.window,
        panel.inspector,
        panel.generate,
        window.window,
        window.progress_bar,
        window.cancel,
        window.text,
    ]
    .into_iter()
    .collect();
    assert_eq!(all.len(), 7);
}
