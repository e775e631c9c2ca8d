use std::collections::VecDeque;

use workflow_ide_framework::flow_editor::{
    background_click_clears, click_port, clear_selection, delete_edge, finish_connection, next_edge_id, port_direction,
    select_edge, select_node, FlowAction, FlowEdge, FlowModel, FlowNode, FlowPort, PortClick,
    PortDirection, PortRef,
};
use workflow_ide_framework::layout::{validate_layout, LayoutError, LayoutPlan, SplitDirection, SplitPlan};
use workflow_ide_framework::localization::{
    self, current_locale, framework_text, register, set_locale, supported_locales, LocalizationConfig,
    LocalizationState,
};
use workflow_ide_framework::log_viewer::LogViewerOptions;
use workflow_ide_framework::logging::{
    begin_level_change, commit_level, current_level, init_level, plan_level_change, LevelChange, LogLevel,
    LoggingConfig, MemoryWriter,
};
use workflow_ide_framework::probe::{self, ProbeStatus};
use workflow_ide_framework::table::{TableColumn, TableColumnType};
use workflow_ide_framework::text_editor::{
    finish_frame, line_column, TextDocument, TextEditorAction, TextEditorResponse, TextEncoding,
};
use workflow_ide_framework::theme::{select_theme, BaseVisuals, Rgb, Theme};
use workflow_ide_framework::tree_viewer::{TreeAction, TreeModel, TreeNode, TreeResponse};
use workflow_ide_framework::{
    add_framework_panel, add_framework_panels, panel_title, route_tab, FrameworkPanels, PanelDefinition,
    PanelKind, TabContent,
};

type Model = FlowModel<[f32; 2], [f32; 2], f32>;

fn strings(items: &[&str]) -> Vec<String> {
    items.iter().map(|s| s.to_string()).collect()
}

fn initialized(default_locale: &str, supported: &[&str]) -> Option<LocalizationState> {
    let mut state = None;
    let config = LocalizationConfig {
        default_locale: default_locale.to_string(),
        supported_locales: strings(supported),
    };
    localization::init(&mut state, &config);
    state
}

// ---- panels ----

#[test]
fn panel_definition_is_visible_unless_hidden() {
    let panel = PanelDefinition::new("log", "Log", PanelKind::StandardUi);
    assert!(panel.initially_visible);
    assert_eq!(panel.id, "log");
    assert_eq!(panel.name, "Log");
    let hidden = panel.initially_visible(false);
    assert!(!hidden.initially_visible);
    assert_eq!(hidden.kind, PanelKind::StandardUi);
}

#[test]
fn framework_panel_is_declared_and_added_to_layout_root() {
    let mut panels = vec![PanelDefinition::new("main", "Main", PanelKind::GpuViewport)];
    let mut root = strings(&["main"]);
    add_framework_panel(&mut panels, &mut root, true, "__wfide_probe", "WFIDE Probe");
    assert_eq!(panels.len(), 2);
    assert_eq!(panels[1].id, "__wfide_probe");
    assert_eq!(panels[1].name, "WFIDE Probe");
    assert_eq!(panels[1].kind, PanelKind::StandardUi);
    assert_eq!(root, strings(&["main", "__wfide_probe"]));
}

#[test]
fn framework_panel_already_declared_is_left_alone() {
    let mut panels = vec![PanelDefinition::new("__wfide_probe", "My Probe", PanelKind::Browser)];
    let mut root = strings(&["__wfide_probe"]);
    add_framework_panel(&mut panels, &mut root, true, "__wfide_probe", "WFIDE Probe");
    assert_eq!(panels.len(), 1);
    assert_eq!(panels[0].name, "My Probe");
    assert_eq!(root.len(), 1);
}

#[test]
fn framework_panels_without_layout_leave_root_alone() {
    let mut panels = Vec::new();
    let mut root = Vec::new();
    let enabled = FrameworkPanels {
        probe: true,
        logging_settings: true,
        language_settings: false,
        theme_settings: true,
    };
    add_framework_panels(&mut panels, &mut root, false, enabled);
    let ids: Vec<&str> = panels.iter().map(|p| p.id.as_str()).collect();
    assert_eq!(ids, vec!["__wfide_probe", "__wfide_logging_settings", "__wfide_theme_settings"]);
    assert!(root.is_empty());
}

#[test]
fn framework_panels_twice_equal_once() {
    let enabled = FrameworkPanels {
        probe: true,
        logging_settings: true,
        language_settings: true,
        theme_settings: true,
    };
    let mut panels = vec![PanelDefinition::new("a", "A", PanelKind::StandardUi)];
    let mut root = strings(&["a"]);
    add_framework_panels(&mut panels, &mut root, true, enabled);
    let once: Vec<String> = panels.iter().map(|p| p.id.clone()).collect();
    let once_root = root.clone();
    add_framework_panels(&mut panels, &mut root, true, enabled);
    let twice: Vec<String> = panels.iter().map(|p| p.id.clone()).collect();
    assert_eq!(once, twice);
    assert_eq!(once_root, root);
    assert_eq!(
        root,
        strings(&[
            "a",
            "__wfide_probe",
            "__wfide_logging_settings",
            "__wfide_language_settings",
            "__wfide_theme_settings"
        ])
    );
}

#[test]
fn panel_title_uses_first_declared_name_or_the_id() {
    let panels = vec![
        PanelDefinition::new("log", "Log", PanelKind::StandardUi),
        PanelDefinition::new("log", "Second Log", PanelKind::StandardUi),
    ];
    assert_eq!(panel_title(&panels, "log"), "Log");
    assert_eq!(panel_title(&panels, "missing"), "missing");
}

#[test]
fn tabs_route_by_priority() {
    let panels = vec![
        PanelDefinition::new("x", "X", PanelKind::StandardUi),
        PanelDefinition::new("editor", "Editor", PanelKind::StandardUi),
    ];
    let all = FrameworkPanels { probe: true, logging_settings: true, language_settings: true, theme_settings: true };
    let none = FrameworkPanels { probe: false, logging_settings: false, language_settings: false, theme_settings: false };
    assert_eq!(route_tab("__wfide_theme_settings", all, true, true, true, true, &panels), TabContent::ThemeSettings);
    assert_eq!(route_tab("__wfide_language_settings", all, false, false, false, false, &panels), TabContent::LanguageSettings);
    assert_eq!(route_tab("__wfide_logging_settings", all, false, false, false, false, &panels), TabContent::LoggingSettings);
    assert_eq!(route_tab("__wfide_probe", all, false, false, false, false, &panels), TabContent::Probe);
    assert_eq!(route_tab("__wfide_probe", none, false, false, false, false, &panels), TabContent::Unknown);
    assert_eq!(route_tab("editor", none, false, true, true, true, &panels), TabContent::TreeViewer);
    assert_eq!(route_tab("editor", none, false, false, false, true, &panels), TabContent::TextEditor);
    assert_eq!(route_tab("editor", none, false, false, false, false, &panels), TabContent::Declared { index: 1 });
}

// ---- layout ----

fn panels_for_layout() -> Vec<PanelDefinition> {
    vec![
        PanelDefinition::new("simulation-view", "Simulation View", PanelKind::GpuViewport),
        PanelDefinition::new("runtime-control", "Runtime Control", PanelKind::StandardUi),
        PanelDefinition::new("runtime-status", "Runtime Status", PanelKind::StandardUi),
        PanelDefinition::new("log", "Log", PanelKind::StandardUi),
        PanelDefinition::new("help", "Help", PanelKind::Browser),
        PanelDefinition::new("hidden", "Hidden", PanelKind::StandardUi).initially_visible(false),
    ]
}

fn split(anchor: &str, direction: SplitDirection, in_range: bool, ids: &[&str]) -> SplitPlan {
    SplitPlan {
        anchor_panel_id: anchor.to_string(),
        direction,
        fraction_in_range: in_range,
        panel_ids: strings(ids),
    }
}

fn step4_layout() -> LayoutPlan {
    LayoutPlan {
        root_panel_ids: strings(&["simulation-view", "help"]),
        splits: vec![
            split("simulation-view", SplitDirection::Left, true, &["runtime-control", "runtime-status"]),
            split("simulation-view", SplitDirection::Below, true, &["log"]),
        ],
        selected_panel_id: Some("simulation-view".to_string()),
    }
}

fn layout_error(layout: &LayoutPlan) -> String {
    match validate_layout(layout, &panels_for_layout()) {
        Ok(()) => String::new(),
        Err(e) => e.message(),
    }
}

#[test]
fn step4_layout_is_accepted() {
    assert!(validate_layout(&step4_layout(), &panels_for_layout()).is_ok());
}

#[test]
fn empty_root_is_refused() {
    let mut layout = step4_layout();
    layout.root_panel_ids.clear();
    assert_eq!(layout_error(&layout), "initial layout root must contain at least one panel");
}

#[test]
fn unknown_panel_is_refused() {
    let mut layout = step4_layout();
    layout.root_panel_ids.push("nowhere".to_string());
    assert_eq!(layout_error(&layout), "layout references unknown panel id 'nowhere'");
}

#[test]
fn hidden_panel_is_refused() {
    let mut layout = step4_layout();
    layout.splits[1].panel_ids.push("hidden".to_string());
    assert_eq!(layout_error(&layout), "layout references initially hidden panel id 'hidden'");
}

#[test]
fn duplicate_panel_is_refused() {
    let mut layout = step4_layout();
    layout.splits[1].panel_ids.push("help".to_string());
    assert_eq!(layout_error(&layout), "panel id 'help' appears more than once in layout");
}

#[test]
fn fraction_out_of_range_is_refused() {
    let mut layout = step4_layout();
    layout.splits[0].fraction_in_range = false;
    assert_eq!(
        layout_error(&layout),
        "split fraction for 'simulation-view' must be between 0 and 1"
    );
}

#[test]
fn empty_split_is_refused() {
    let mut layout = step4_layout();
    layout.splits[1].panel_ids.clear();
    assert_eq!(
        layout_error(&layout),
        "split anchored at 'simulation-view' must contain at least one panel"
    );
}

#[test]
fn anchor_placed_by_a_later_split_is_refused() {
    let mut layout = step4_layout();
    layout.splits.insert(0, split("log", SplitDirection::Right, true, &["runtime-status"]));
    layout.splits[1].panel_ids = strings(&["runtime-control"]);
    assert_eq!(
        layout_error(&layout),
        "split anchor panel 'log' is not present in the current layout"
    );
}

#[test]
fn anchor_placed_by_an_earlier_split_is_accepted() {
    let mut layout = step4_layout();
    layout.root_panel_ids = strings(&["simulation-view"]);
    layout.splits.push(split("log", SplitDirection::Above, true, &["help"]));
    assert!(validate_layout(&layout, &panels_for_layout()).is_ok());
}

#[test]
fn selected_panel_outside_layout_is_refused() {
    let mut layout = step4_layout();
    layout.root_panel_ids = strings(&["simulation-view"]);
    layout.selected_panel_id = Some("help".to_string());
    assert_eq!(layout_error(&layout), "selected panel id 'help' is not present in the layout");
}

#[test]
fn first_fault_in_order_is_reported() {
    let mut layout = step4_layout();
    layout.root_panel_ids.push("nowhere".to_string());
    layout.splits[0].fraction_in_range = false;
    match validate_layout(&layout, &panels_for_layout()) {
        Err(LayoutError::UnknownPanel(id)) => assert_eq!(id, "nowhere"),
        other => panic!("unexpected outcome {:?}", other),
    }
}

// ---- localization ----

#[test]
fn uninitialized_localization_defaults() {
    let state: Option<LocalizationState> = None;
    assert_eq!(current_locale(&state), "en-US");
    assert_eq!(supported_locales(&state), strings(&["en-US", "ja-JP"]));
    assert_eq!(localization::text(&state, "language.title"), "Language Settings");
    assert_eq!(localization::text(&state, "app.unknown"), "app.unknown");
}

#[test]
fn uninitialized_localization_refuses_changes() {
    let mut state: Option<LocalizationState> = None;
    assert_eq!(set_locale(&mut state, "ja-JP"), Err("WFIDE localization is not initialized"));
    assert_eq!(register(&mut state, "en-US", "k", "v"), Err("WFIDE localization is not initialized"));
    assert!(state.is_none());
}

#[test]
fn default_localization_config() {
    let config = LocalizationConfig::default();
    assert_eq!(config.default_locale, "en-US");
    assert_eq!(config.supported_locales, strings(&["en-US", "ja-JP"]));
}

#[test]
fn init_uses_supported_default_locale() {
    let state = initialized("ja-JP", &["en-US", "ja-JP"]);
    assert_eq!(current_locale(&state), "ja-JP");
    assert_eq!(localization::text(&state, "language.title"), "言語設定");
}

#[test]
fn init_falls_back_to_first_supported_locale() {
    let state = initialized("fr-FR", &["ja-JP", "en-US"]);
    assert_eq!(current_locale(&state), "ja-JP");
}

#[test]
fn init_with_no_supported_locale_supports_english() {
    let state = initialized("ja-JP", &[]);
    assert_eq!(supported_locales(&state), strings(&["en-US"]));
    assert_eq!(current_locale(&state), "en-US");
}

#[test]
fn init_takes_effect_once() {
    let mut state = initialized("ja-JP", &["en-US", "ja-JP"]);
    let other = LocalizationConfig { default_locale: "en-US".to_string(), supported_locales: strings(&["en-US"]) };
    localization::init(&mut state, &other);
    assert_eq!(current_locale(&state), "ja-JP");
    assert_eq!(supported_locales(&state), strings(&["en-US", "ja-JP"]));
}

#[test]
fn set_locale_changes_current_locale() {
    let mut state = initialized("en-US", &["en-US", "ja-JP"]);
    assert_eq!(set_locale(&mut state, "ja-JP"), Ok(()));
    assert_eq!(current_locale(&state), "ja-JP");
    assert_eq!(localization::text(&state, "logging.title"), "ログ設定");
}

#[test]
fn set_locale_refuses_unsupported_locale() {
    let mut state = initialized("en-US", &["en-US", "ja-JP"]);
    assert_eq!(set_locale(&mut state, "de-DE"), Err("unsupported locale"));
    assert_eq!(current_locale(&state), "en-US");
}

#[test]
fn registered_text_is_read_back() {
    let mut state = initialized("ja-JP", &["en-US", "ja-JP"]);
    assert_eq!(register(&mut state, "ja-JP", "app.greeting", "こんにちは"), Ok(()));
    assert_eq!(localization::text(&state, "app.greeting"), "こんにちは");
    assert_eq!(register(&mut state, "ja-JP", "app.greeting", "やあ"), Ok(()));
    assert_eq!(localization::text(&state, "app.greeting"), "やあ");
}

#[test]
fn english_application_text_is_the_fallback() {
    let mut state = initialized("ja-JP", &["en-US", "ja-JP"]);
    register(&mut state, "en-US", "app.save", "Save").unwrap();
    assert_eq!(localization::text(&state, "app.save"), "Save");
    register(&mut state, "ja-JP", "app.save", "保存").unwrap();
    assert_eq!(localization::text(&state, "app.save"), "保存");
}

#[test]
fn framework_text_takes_priority_over_registered_text() {
    let mut state = initialized("en-US", &["en-US", "ja-JP"]);
    register(&mut state, "en-US", "logging.title", "Mine").unwrap();
    assert_eq!(localization::text(&state, "logging.title"), "Logging Settings");
}

#[test]
fn framework_text_table() {
    assert_eq!(framework_text("ja-JP", "logging.error"), Some("ERROR: エラーのみ"));
    assert_eq!(framework_text("en-US", "logging.warn"), Some("WARN: warnings and errors"));
    assert_eq!(framework_text("fr-FR", "language.japanese"), Some("日本語"));
    assert_eq!(framework_text("ja-JP", "language.english"), Some("English"));
    assert_eq!(framework_text("en-US", "text_editor.save"), None);
}

// ---- logging ----

#[test]
fn default_logging_config() {
    let config = LoggingConfig::default();
    assert_eq!(config.directory, "logs");
    assert_eq!(config.file_prefix, "wfide");
    assert_eq!(config.retention_days, 7);
    assert_eq!(config.memory_lines, 2000);
    assert_eq!(config.level, LogLevel::Info);
}

#[test]
fn level_change_plans() {
    assert_eq!(plan_level_change(LogLevel::Info, LogLevel::Info), LevelChange::Unchanged);
    assert_eq!(plan_level_change(LogLevel::Error, LogLevel::Debug), LevelChange::Apply { enable_info_first: true });
    assert_eq!(plan_level_change(LogLevel::Warn, LogLevel::Error), LevelChange::Apply { enable_info_first: true });
    assert_eq!(plan_level_change(LogLevel::Info, LogLevel::Error), LevelChange::Apply { enable_info_first: false });
    assert_eq!(plan_level_change(LogLevel::Trace, LogLevel::Info), LevelChange::Apply { enable_info_first: false });
}

#[test]
fn memory_writer_keeps_complete_lines_only() {
    let mut writer = MemoryWriter::new(10);
    let mut buffer = VecDeque::new();
    assert_eq!(writer.write(b"first line  \r\nsecond", &mut buffer), 20);
    assert_eq!(buffer, VecDeque::from(strings(&["first line"])));
    writer.write(b" half\n", &mut buffer);
    assert_eq!(buffer, VecDeque::from(strings(&["first line", "second half"])));
}

#[test]
fn memory_writer_drops_oldest_lines() {
    let mut writer = MemoryWriter::new(2);
    let mut buffer = VecDeque::new();
    writer.write(b"a\nb\nc\n", &mut buffer);
    assert_eq!(buffer, VecDeque::from(strings(&["b", "c"])));
    writer.write(b"d\n", &mut buffer);
    assert_eq!(buffer, VecDeque::from(strings(&["c", "d"])));
}

#[test]
fn memory_writer_keeps_at_least_one_line() {
    let mut writer = MemoryWriter::new(0);
    let mut buffer = VecDeque::new();
    writer.write(b"x\ny\n", &mut buffer);
    assert_eq!(buffer, VecDeque::from(strings(&["y"])));
}

#[test]
fn memory_writer_replaces_invalid_utf8() {
    let mut writer = MemoryWriter::new(4);
    let mut buffer = VecDeque::new();
    writer.write(&[0x66, 0xff, 0x6f, b'\n'], &mut buffer);
    assert_eq!(buffer, VecDeque::from(strings(&["f\u{FFFD}o"])));
    writer.write("日本\n".as_bytes(), &mut buffer);
    assert_eq!(buffer[1], "日本");
}

#[test]
fn memory_writer_trims_unicode_whitespace() {
    let mut writer = MemoryWriter::new(4);
    let mut buffer = VecDeque::new();
    writer.write("全角\u{3000}\u{00A0}\t\n  indented\u{2029}\n".as_bytes(), &mut buffer);
    assert_eq!(buffer, VecDeque::from(strings(&["全角", "  indented"])));
}

#[test]
fn memory_writer_joins_a_line_written_in_pieces() {
    let mut writer = MemoryWriter::new(4);
    let mut buffer = VecDeque::new();
    writer.write(b"kept\npending", &mut buffer);
    assert_eq!(buffer.len(), 1);
    writer.write(b" tail\n", &mut buffer);
    assert_eq!(buffer, VecDeque::from(strings(&["kept", "pending tail"])));
}

#[test]
fn log_viewer_defaults() {
    let options = LogViewerOptions::default();
    assert!(options.auto_scroll);
    assert!(options.show_toolbar);
}

// ---- probe, table ----

#[test]
fn probe_status_symbols() {
    assert_eq!(ProbeStatus::Pass.symbol(), "○");
    assert_eq!(ProbeStatus::Fail.symbol(), "✕");
    assert_eq!(ProbeStatus::Unknown.symbol(), "？");
}

#[test]
fn probe_rows_reflect_host_dock_and_logging() {
    let rows = probe::collect(true, false, &strings(&["line"]));
    assert_eq!(rows.len(), 7);
    assert_eq!(rows[0].area, "Window / Host");
    assert_eq!(rows[0].status, ProbeStatus::Pass);
    assert_eq!(rows[1].status, ProbeStatus::Fail);
    assert_eq!(rows[2].area, "WFIDE Logging");
    assert_eq!(rows[2].status, ProbeStatus::Pass);
    assert_eq!(rows[3].status, ProbeStatus::Unknown);
    assert_eq!(rows[6].area, "Lifecycle");
    assert_eq!(rows[6].status, ProbeStatus::Pass);
    assert_eq!(rows[6].detail, "Application -> Logging -> Host startup path reached");
    let quiet = probe::collect(false, true, &Vec::new());
    assert_eq!(quiet[0].status, ProbeStatus::Fail);
    assert_eq!(quiet[1].status, ProbeStatus::Pass);
    assert_eq!(quiet[2].status, ProbeStatus::Fail);
    assert_eq!(probe::PANEL_ID, "__wfide_probe");
}

#[test]
fn table_column_keeps_its_fields() {
    let column = TableColumn::new("status", "状態", TableColumnType::Status);
    assert_eq!(column.id, "status");
    assert_eq!(column.title, "状態");
    assert_eq!(column.column_type, TableColumnType::Status);
}

// ---- text editor ----

#[test]
fn text_document_defaults_and_builders() {
    let doc = TextDocument::new("d", "a.rs", "fn main() {}");
    assert!(!doc.read_only);
    assert!(doc.language_hint.is_none());
    assert_eq!(doc.encoding, TextEncoding::Utf8);
    assert_eq!(doc.encoding.label(), "UTF-8");
    let doc = doc.read_only(true);
    assert!(doc.read_only);
    assert_eq!(doc.text, "fn main() {}");
    let response = TextEditorResponse::default();
    assert!(!response.changed && response.action.is_none() && response.cursor_line.is_none());
}

#[test]
fn cursor_line_and_column() {
    let text = "ab\ncde\n日本";
    assert_eq!(line_column(text, 0), (1, 1));
    assert_eq!(line_column(text, 2), (1, 3));
    assert_eq!(line_column(text, 3), (2, 1));
    assert_eq!(line_column(text, 6), (2, 4));
    assert_eq!(line_column(text, 7), (3, 1));
    assert_eq!(line_column(text, 9), (3, 3));
    assert_eq!(line_column(text, 100), (3, 3));
}

// ---- theme ----

#[test]
fn theme_darkness() {
    assert_eq!(Theme::default(), Theme::System);
    assert_eq!(Theme::System.is_dark(), None);
    assert_eq!(Theme::Yozakura.is_dark(), Some(true));
    assert_eq!(Theme::Sakura.is_dark(), Some(false));
    assert!(Theme::System.effective_dark(true));
    assert!(!Theme::System.effective_dark(false));
    assert!(Theme::FukaiAo.effective_dark(false));
    assert!(!Theme::Ao.effective_dark(true));
}

#[test]
fn theme_palettes() {
    let system = Theme::System.palette(true);
    assert_eq!(system.base, BaseVisuals::Dark);
    assert!(system.colors.is_none());
    assert_eq!(Theme::System.palette(false).base, BaseVisuals::Light);
    let sakura = Theme::Sakura.palette(true);
    assert_eq!(sakura.base, BaseVisuals::Light);
    let colors = sakura.colors.unwrap();
    assert_eq!(colors.accent, Rgb { r: 220, g: 112, b: 140 });
    assert!(colors.text.is_none());
    let ao = Theme::Ao.palette(false).colors.unwrap();
    assert_eq!(ao.text, Some(Rgb { r: 20, g: 45, b: 72 }));
    let night = Theme::YoruNoIzumi.palette(false);
    assert_eq!(night.base, BaseVisuals::Dark);
    assert_eq!(night.colors.unwrap().panel, Rgb { r: 22, g: 43, b: 47 });
}

// ---- tree viewer ----

#[test]
fn tree_selection() {
    let mut model = TreeModel::default();
    model.roots.push(TreeNode::new("root", "Root"));
    let action = model.select(&"root".to_string());
    assert_eq!(action, TreeAction::Selected { node_id: "root".to_string() });
    assert_eq!(model.selected_id.as_deref(), Some("root"));
    assert!(TreeResponse::default().action.is_none());
    let copy = model.roots[0].clone();
    assert_eq!(copy.label, "Root");
}

// ---- flow editor ----

fn robot_model() -> Model {
    let base = FlowNode::new("base", "base_link", [70.0, 100.0])
        .port(FlowPort::new("child", "child", PortDirection::Output));
    let joint = FlowNode::new("joint", "shoulder_joint", [330.0, 100.0])
        .port(FlowPort::new("parent", "parent", PortDirection::Input))
        .port(FlowPort::new("child", "child", PortDirection::Output));
    let arm = FlowNode::new("arm", "arm_link", [590.0, 100.0])
        .port(FlowPort::new("parent", "parent", PortDirection::Input));
    let mut model = Model::new([0.0, 0.0], 1.0);
    model.nodes = vec![base, joint, arm];
    model
}

#[test]
fn edge_ids_count_from_the_number_of_edges() {
    let mut model = robot_model();
    assert_eq!(next_edge_id(&model.edges), "edge-1");
    model.edges.push(FlowEdge::new("edge-2", "base", "child", "joint", "parent"));
    assert_eq!(next_edge_id(&model.edges), "edge-3");
    model.edges.push(FlowEdge::new("edge-3", "joint", "child", "arm", "parent"));
    model.edges.push(FlowEdge::new("edge-4", "joint", "child", "arm", "parent"));
    assert_eq!(next_edge_id(&model.edges), "edge-5");
    let many: Vec<FlowEdge> = (4..=12)
        .map(|n| FlowEdge::new(&format!("edge-{n}"), "a", "b", "c", "d"))
        .collect();
    assert_eq!(next_edge_id(&many), "edge-13");
}

#[test]
fn port_directions_are_looked_up() {
    let model = robot_model();
    assert_eq!(port_direction(&model, &PortRef::new("joint", "child")), Some(PortDirection::Output));
    assert_eq!(port_direction(&model, &PortRef::new("arm", "parent")), Some(PortDirection::Input));
    assert_eq!(port_direction(&model, &PortRef::new("arm", "child")), None);
    assert_eq!(port_direction(&model, &PortRef::new("nobody", "child")), None);
}

#[test]
fn connecting_output_to_input_creates_an_edge() {
    let mut model = robot_model();
    assert!(matches!(click_port(&mut model, PortRef::new("arm", "parent")), PortClick::Started));
    assert_eq!(model.pending_connection, Some(PortRef::new("arm", "parent")));
    match click_port(&mut model, PortRef::new("joint", "child")) {
        PortClick::Validate { from, to } => {
            assert_eq!(from, PortRef::new("joint", "child"));
            assert_eq!(to, PortRef::new("arm", "parent"));
            let action: FlowAction<[f32; 2]> = finish_connection(&mut model, from, to, Ok(()));
            assert_eq!(
                action,
                FlowAction::ConnectionCreated {
                    edge_id: "edge-1".to_string(),
                    from: PortRef::new("joint", "child"),
                    to: PortRef::new("arm", "parent"),
                }
            );
        }
        _ => panic!("expected a connection to validate"),
    }
    assert!(model.pending_connection.is_none());
    assert_eq!(model.edges.len(), 1);
    assert_eq!(model.edges[0].from_node, "joint");
    assert_eq!(model.edges[0].to_port, "parent");
}

#[test]
fn validator_refusal_is_reported() {
    let mut model = robot_model();
    let action: FlowAction<[f32; 2]> = finish_connection(
        &mut model,
        PortRef::new("base", "child"),
        PortRef::new("joint", "parent"),
        Err("cycle".to_string()),
    );
    assert_eq!(
        action,
        FlowAction::ConnectionRejected {
            from: PortRef::new("base", "child"),
            to: PortRef::new("joint", "parent"),
            reason: "cycle".to_string(),
        }
    );
    assert!(model.edges.is_empty());
}

#[test]
fn connecting_two_inputs_is_rejected() {
    let mut model = robot_model();
    click_port(&mut model, PortRef::new("joint", "parent"));
    match click_port(&mut model, PortRef::new("arm", "parent")) {
        PortClick::Rejected { from, to, reason } => {
            assert_eq!(from, PortRef::new("joint", "parent"));
            assert_eq!(to, PortRef::new("arm", "parent"));
            assert_eq!(reason, "connection requires one Output and one Input");
        }
        _ => panic!("expected a rejection"),
    }
    assert!(model.pending_connection.is_none());
}

#[test]
fn clicking_the_start_port_again_cancels() {
    let mut model = robot_model();
    click_port(&mut model, PortRef::new("base", "child"));
    assert!(matches!(click_port(&mut model, PortRef::new("base", "child")), PortClick::Cancelled));
    assert!(model.pending_connection.is_none());
}

#[test]
fn deleting_an_edge_removes_every_edge_with_its_id() {
    let mut model = robot_model();
    model.edges.push(FlowEdge::new("e", "base", "child", "joint", "parent"));
    model.edges.push(FlowEdge::new("f", "joint", "child", "arm", "parent"));
    model.edges.push(FlowEdge::new("e", "joint", "child", "arm", "parent"));
    let action: FlowAction<[f32; 2]> = delete_edge(&mut model, "e".to_string());
    assert_eq!(action, FlowAction::EdgeDeleted { edge_id: "e".to_string() });
    assert_eq!(model.edges.len(), 1);
    assert_eq!(model.edges[0].id, "f");
}

#[test]
fn selection_is_exclusive() {
    let mut model = robot_model();
    let a: FlowAction<[f32; 2]> = select_node(&mut model, &"base".to_string());
    assert_eq!(a, FlowAction::NodeSelected { node_id: "base".to_string() });
    let b: FlowAction<[f32; 2]> = select_edge(&mut model, &"e".to_string());
    assert_eq!(b, FlowAction::EdgeSelected { edge_id: "e".to_string() });
    assert!(model.selected_node_id.is_none());
    assert_eq!(model.selected_edge_id.as_deref(), Some("e"));
    let c: FlowAction<[f32; 2]> = clear_selection(&mut model);
    assert_eq!(c, FlowAction::SelectionCleared);
    assert!(model.selected_edge_id.is_none() && model.selected_node_id.is_none());
}

#[test]
fn background_click_clears_only_without_other_selection() {
    let none: Vec<FlowAction<[f32; 2]>> = Vec::new();
    assert!(background_click_clears(true, false, &none));
    assert!(!background_click_clears(false, false, &none));
    assert!(!background_click_clears(true, true, &none));
    let moved = vec![FlowAction::NodeMoved { node_id: "a".to_string(), position: [1.0f32, 2.0f32] }];
    assert!(background_click_clears(true, false, &moved));
    let selected: Vec<FlowAction<[f32; 2]>> = vec![FlowAction::EdgeSelected { edge_id: "edge-1".to_string() }];
    assert!(!background_click_clears(true, false, &selected));
}

#[test]
fn editor_frame_marks_edits_and_reports_the_cursor() {
    let mut doc = TextDocument::new("d", "a.txt", "ab\ncd");
    let r = finish_frame(&mut doc, true, false, None);
    assert_eq!(r.action, None);
    assert!(!r.changed);
    assert!(!doc.modified);
    assert_eq!((r.cursor_line, r.cursor_column), (None, None));

    let r = finish_frame(&mut doc, false, true, Some(4));
    assert!(r.changed);
    assert!(doc.modified);
    assert_eq!((r.cursor_line, r.cursor_column), (Some(2), Some(2)));

    let r = finish_frame(&mut doc, true, false, Some(0));
    assert_eq!(r.action, Some(TextEditorAction::SaveRequested));
    assert!(doc.modified);
    assert_eq!((r.cursor_line, r.cursor_column), (Some(1), Some(1)));
}

#[test]
fn read_only_editor_never_requests_a_save() {
    let mut doc = TextDocument::new("d", "a.txt", "x").read_only(true);
    doc.modified = true;
    let r = finish_frame(&mut doc, true, false, None);
    assert_eq!(r.action, None);
}

#[test]
fn selecting_a_theme_reports_a_change_only_once() {
    let mut current = Theme::System;
    assert!(select_theme(&mut current, Theme::Sakura));
    assert_eq!(current, Theme::Sakura);
    assert!(!select_theme(&mut current, Theme::Sakura));
    assert_eq!(current, Theme::Sakura);
}

#[test]
fn locales_are_listed_with_display_names() {
    let state = initialized("ja-JP", &["en-US", "ja-JP", "fr-FR"]);
    let listed = localization::locales(&state);
    assert_eq!(
        listed,
        vec![
            ("en-US".to_string(), "English".to_string()),
            ("ja-JP".to_string(), "日本語".to_string()),
            ("fr-FR".to_string(), "fr-FR".to_string()),
        ]
    );
    let uninitialized = localization::locales(&None);
    assert_eq!(uninitialized.len(), 2);
    assert_eq!(uninitialized[1].1, "日本語");
}

#[test]
fn tree_clone_copies_every_level() {
    let tree = TreeNode::new("root", "Root")
        .node_type("project")
        .child(TreeNode::new("src", "src").child(TreeNode::new("main", "main.rs").node_type("file")));
    let copy = tree.clone();
    assert_eq!(copy.id, "root");
    assert_eq!(copy.node_type.as_deref(), Some("project"));
    assert_eq!(copy.children[0].children[0].label, "main.rs");
    assert_eq!(copy.children[0].children[0].node_type.as_deref(), Some("file"));
}

#[test]
fn memory_writer_splits_crlf_lines_and_keeps_the_tail() {
    let mut writer = MemoryWriter::new(2);
    let mut buffer = VecDeque::from(strings(&["x"]));
    assert_eq!(writer.write(b"a\nb\r\nc", &mut buffer), 6);
    assert_eq!(buffer, VecDeque::from(strings(&["a", "b"])));
    writer.write(b"\n", &mut buffer);
    assert_eq!(buffer, VecDeque::from(strings(&["b", "c"])));
    assert!(buffer.iter().all(|line| !line.contains('\n')));
}

#[test]
fn runtime_level_follows_init_and_applied_changes() {
    let mut state: Option<LogLevel> = None;
    assert_eq!(current_level(&state), LogLevel::Info);
    assert_eq!(begin_level_change(&state, LogLevel::Debug), Err("WFIDE logging is not initialized"));
    commit_level(&mut state, LogLevel::Debug);
    assert_eq!(state, None);

    init_level(&mut state, LogLevel::Warn);
    assert_eq!(current_level(&state), LogLevel::Warn);
    init_level(&mut state, LogLevel::Trace);
    assert_eq!(current_level(&state), LogLevel::Warn);

    assert_eq!(begin_level_change(&state, LogLevel::Warn), Ok(LevelChange::Unchanged));
    assert_eq!(
        begin_level_change(&state, LogLevel::Debug),
        Ok(LevelChange::Apply { enable_info_first: true })
    );
    commit_level(&mut state, LogLevel::Debug);
    assert_eq!(current_level(&state), LogLevel::Debug);
}

#[test]
fn memory_writer_lines_hold_no_newline_for_invalid_bytes() {
    let mut writer = MemoryWriter::new(8);
    let mut buffer = VecDeque::new();
    writer.write(&[0xff, b'\n', 0xe3, 0x81, b'\n', b'o', b'k', 0xc3, b'\n'], &mut buffer);
    assert_eq!(buffer, VecDeque::from(strings(&["\u{FFFD}", "\u{FFFD}", "ok\u{FFFD}"])));
    assert!(buffer.iter().all(|line| !line.contains('\n')));
}
