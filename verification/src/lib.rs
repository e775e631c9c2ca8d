//! An IDE-style application framework: declared panels arranged in a dock
//! layout, standard panels (text editor, log viewer, tree viewer, flow
//! editor, tables, properties), themes, localization and logging.

use vstd::prelude::*;

use crate::text::{string_eq_str, texts_of};

pub mod text;
pub mod localization;
pub mod layout;
pub mod logging;
pub mod flow_editor;
pub mod text_editor;
pub mod theme;
pub mod probe;
pub mod table;
pub mod log_viewer;
pub mod controller_panel;
pub mod tree_viewer;
pub mod ime;
pub mod property_panel;

verus! {

/// How a panel's surface is rendered.
#[derive(Debug, Clone, Copy, PartialEq, Eq, Structural)]
pub enum PanelKind {
    StandardUi,
    GpuViewport,
    Browser,
}

/// A panel that an application declares: its identifier, display name,
/// kind, and whether it is shown when the application starts.
#[derive(Debug, Clone)]
pub struct PanelDefinition {
    pub id: String,
    pub name: String,
    pub kind: PanelKind,
    pub initially_visible: bool,
}

impl PanelDefinition {
    /// A panel that is initially visible.
    pub fn new(id: &str, name: &str, kind: PanelKind) -> (r: Self)
        ensures
            r.id@ == id@,
            r.name@ == name@,
            r.kind == kind,
            r.initially_visible,
    {
        PanelDefinition { id: id.to_owned(), name: name.to_owned(), kind, initially_visible: true }
    }

    /// The same panel, shown or hidden at start as `visible` says.
    pub fn initially_visible(self, visible: bool) -> (r: Self)
        ensures
            r.id == self.id,
            r.name == self.name,
            r.kind == self.kind,
            r.initially_visible == visible,
    {
        let mut s = self;
        s.initially_visible = visible;
        s
    }
}

/// The abstract value of a panel definition: id, name, kind and whether it
/// is initially visible.
pub open spec fn panel_view(p: PanelDefinition) -> (Seq<char>, Seq<char>, PanelKind, bool) {
    (p.id@, p.name@, p.kind, p.initially_visible)
}

/// The abstract values of `panels`, in order.
pub open spec fn panel_views(panels: Seq<PanelDefinition>) -> Seq<(Seq<char>, Seq<char>, PanelKind, bool)> {
    panels.map_values(|p: PanelDefinition| panel_view(p))
}

/// Whether some panel of `panels` has the id `id`.
pub open spec fn has_panel(panels: Seq<(Seq<char>, Seq<char>, PanelKind, bool)>, id: Seq<char>) -> bool {
    exists|i: int| 0 <= i < panels.len() && #[trigger] panels[i].0 == id
}

/// The panel list and layout root after the framework panel `id` (named
/// `name`) is added: unchanged when a panel with that id is declared;
/// otherwise the panel is declared last, as a visible standard panel, and
/// when there is a layout its id is added last to the root tab group.
pub open spec fn with_framework_panel(
    panels: Seq<(Seq<char>, Seq<char>, PanelKind, bool)>,
    root: Seq<Seq<char>>,
    has_layout: bool,
    id: Seq<char>,
    name: Seq<char>,
) -> (Seq<(Seq<char>, Seq<char>, PanelKind, bool)>, Seq<Seq<char>>) {
    if has_panel(panels, id) {
        (panels, root)
    } else {
        (
            panels.push((id, name, PanelKind::StandardUi, true)),
            if has_layout {
                root.push(id)
            } else {
                root
            },
        )
    }
}

/// Whether the panel `id` is among the first panels of `panels`.
fn find_panel(panels: &Vec<PanelDefinition>, id: &str) -> (r: Option<usize>)
    ensures
        match r {
            Some(i) => is_first_panel(panels@, id@, i as int),
            None => !has_panel(panel_views(panels@), id@),
        },
{
    let mut i: usize = 0;
    while i < panels.len()
        invariant
            0 <= i <= panels.len(),
            forall|j: int| 0 <= j < i ==> #[trigger] panels@[j].id@ != id@,
        decreases panels.len() - i,
    {
        if string_eq_str(&panels[i].id, id) {
            return Some(i);
        }
        i = i + 1;
    }
    proof {
        if has_panel(panel_views(panels@), id@) {
            let j = choose|j: int| 0 <= j < panel_views(panels@).len() && #[trigger] panel_views(panels@)[j].0 == id@;
            assert(panels@[j].id@ == id@);
        }
    }
    None
}

/// Whether `i` is the index of the first panel of `panels` with the id `id`.
pub open spec fn is_first_panel(panels: Seq<PanelDefinition>, id: Seq<char>, i: int) -> bool {
    &&& 0 <= i < panels.len()
    &&& panels[i].id@ == id
    &&& forall|j: int| 0 <= j < i ==> #[trigger] panels[j].id@ != id
}

/// The id of the framework's logging settings panel.
pub const LOGGING_SETTINGS_PANEL_ID: &'static str = "__wfide_logging_settings";

/// The id of the framework's language settings panel.
pub const LANGUAGE_SETTINGS_PANEL_ID: &'static str = "__wfide_language_settings";

/// The id of the framework's theme settings panel.
pub const THEME_SETTINGS_PANEL_ID: &'static str = "__wfide_theme_settings";

/// Adds the framework panel `id` (named `name`) as [`with_framework_panel`]
/// states.
pub fn add_framework_panel(
    panels: &mut Vec<PanelDefinition>,
    layout_root: &mut Vec<String>,
    has_layout: bool,
    id: &str,
    name: &str,
)
    ensures
        (panel_views(final(panels)@), texts_of(final(layout_root)@)) == with_framework_panel(
            panel_views(old(panels)@),
            texts_of(old(layout_root)@),
            has_layout,
            id@,
            name@,
        ),
{
    if find_panel(panels, id).is_some() {
        proof {
            let i = choose|i: int| is_first_panel(old(panels)@, id@, i);
            assert(panel_views(panels@)[i].0 == id@);
        }
        return;
    }
    let ghost before = panels@;
    let ghost root_before = layout_root@;
    panels.push(PanelDefinition::new(id, name, PanelKind::StandardUi));
    assert(panel_views(panels@) =~= panel_views(before).push((id@, name@, PanelKind::StandardUi, true)));
    if has_layout {
        layout_root.push(id.to_owned());
        assert(texts_of(layout_root@) =~= texts_of(root_before).push(id@));
    }
}

/// Which framework panels an application enables.
#[derive(Debug, Clone, Copy, PartialEq, Eq, Structural)]
pub struct FrameworkPanels {
    pub probe: bool,
    pub logging_settings: bool,
    pub language_settings: bool,
    pub theme_settings: bool,
}

/// One optional step of [`with_framework_panels`].
pub open spec fn framework_step(
    state: (Seq<(Seq<char>, Seq<char>, PanelKind, bool)>, Seq<Seq<char>>),
    enabled: bool,
    has_layout: bool,
    id: Seq<char>,
    name: Seq<char>,
) -> (Seq<(Seq<char>, Seq<char>, PanelKind, bool)>, Seq<Seq<char>>) {
    if enabled {
        with_framework_panel(state.0, state.1, has_layout, id, name)
    } else {
        state
    }
}

/// The panel list and layout root after the enabled framework panels are
/// added, in the order probe, logging settings, language settings, theme
/// settings.
pub open spec fn with_framework_panels(
    panels: Seq<(Seq<char>, Seq<char>, PanelKind, bool)>,
    root: Seq<Seq<char>>,
    has_layout: bool,
    enabled: FrameworkPanels,
) -> (Seq<(Seq<char>, Seq<char>, PanelKind, bool)>, Seq<Seq<char>>) {
    let s0 = (panels, root);
    let s1 = framework_step(s0, enabled.probe, has_layout, "__wfide_probe"@, "WFIDE Probe"@);
    let s2 = framework_step(
        s1,
        enabled.logging_settings,
        has_layout,
        "__wfide_logging_settings"@,
        "Logging Settings"@,
    );
    let s3 = framework_step(
        s2,
        enabled.language_settings,
        has_layout,
        "__wfide_language_settings"@,
        "Language Settings"@,
    );
    framework_step(s3, enabled.theme_settings, has_layout, "__wfide_theme_settings"@, "Theme Settings"@)
}

/// Adds the enabled framework panels to the declared panels and, when there
/// is a layout, to its root tab group.
pub fn add_framework_panels(
    panels: &mut Vec<PanelDefinition>,
    layout_root: &mut Vec<String>,
    has_layout: bool,
    enabled: FrameworkPanels,
)
    ensures
        (panel_views(final(panels)@), texts_of(final(layout_root)@)) == with_framework_panels(
            panel_views(old(panels)@),
            texts_of(old(layout_root)@),
            has_layout,
            enabled,
        ),
{
    proof {
        reveal_strlit("__wfide_probe");
        reveal_strlit("__wfide_logging_settings");
        reveal_strlit("__wfide_language_settings");
        reveal_strlit("__wfide_theme_settings");
    }
    if enabled.probe {
        add_framework_panel(panels, layout_root, has_layout, crate::probe::PANEL_ID, "WFIDE Probe");
    }
    if enabled.logging_settings {
        add_framework_panel(panels, layout_root, has_layout, LOGGING_SETTINGS_PANEL_ID, "Logging Settings");
    }
    if enabled.language_settings {
        add_framework_panel(panels, layout_root, has_layout, LANGUAGE_SETTINGS_PANEL_ID, "Language Settings");
    }
    if enabled.theme_settings {
        add_framework_panel(panels, layout_root, has_layout, THEME_SETTINGS_PANEL_ID, "Theme Settings");
    }
}

/// Adding a framework panel makes it declared.
pub proof fn law_framework_panel_is_declared(
    panels: Seq<(Seq<char>, Seq<char>, PanelKind, bool)>,
    root: Seq<Seq<char>>,
    has_layout: bool,
    id: Seq<char>,
    name: Seq<char>,
)
    ensures
        has_panel(with_framework_panel(panels, root, has_layout, id, name).0, id),
{
    if !has_panel(panels, id) {
        let p = panels.push((id, name, PanelKind::StandardUi, true));
        assert(p[panels.len() as int].0 == id);
    }
}

proof fn lemma_framework_panel_keeps_declared(
    panels: Seq<(Seq<char>, Seq<char>, PanelKind, bool)>,
    root: Seq<Seq<char>>,
    has_layout: bool,
    id: Seq<char>,
    name: Seq<char>,
    x: Seq<char>,
)
    requires
        has_panel(panels, x),
    ensures
        has_panel(with_framework_panel(panels, root, has_layout, id, name).0, x),
{
    if !has_panel(panels, id) {
        let j = choose|j: int| 0 <= j < panels.len() && #[trigger] panels[j].0 == x;
        assert(panels.push((id, name, PanelKind::StandardUi, true))[j].0 == x);
    }
}

proof fn lemma_step_keeps_declared(
    state: (Seq<(Seq<char>, Seq<char>, PanelKind, bool)>, Seq<Seq<char>>),
    enabled: bool,
    has_layout: bool,
    id: Seq<char>,
    name: Seq<char>,
    x: Seq<char>,
)
    requires
        has_panel(state.0, x),
    ensures
        has_panel(framework_step(state, enabled, has_layout, id, name).0, x),
{
    if enabled {
        lemma_framework_panel_keeps_declared(state.0, state.1, has_layout, id, name, x);
    }
}

proof fn lemma_step_declares(
    state: (Seq<(Seq<char>, Seq<char>, PanelKind, bool)>, Seq<Seq<char>>),
    enabled: bool,
    has_layout: bool,
    id: Seq<char>,
    name: Seq<char>,
)
    requires
        enabled,
    ensures
        has_panel(framework_step(state, enabled, has_layout, id, name).0, id),
{
    law_framework_panel_is_declared(state.0, state.1, has_layout, id, name);
}

/// Adding the framework panels is idempotent: a second time changes
/// nothing.
pub proof fn law_framework_panels_idempotent(
    panels: Seq<(Seq<char>, Seq<char>, PanelKind, bool)>,
    root: Seq<Seq<char>>,
    has_layout: bool,
    enabled: FrameworkPanels,
)
    ensures
        ({
            let once = with_framework_panels(panels, root, has_layout, enabled);
            with_framework_panels(once.0, once.1, has_layout, enabled) == once
        }),
{
    let i0 = "__wfide_probe"@;
    let i1 = "__wfide_logging_settings"@;
    let i2 = "__wfide_language_settings"@;
    let i3 = "__wfide_theme_settings"@;
    let n0 = "WFIDE Probe"@;
    let n1 = "Logging Settings"@;
    let n2 = "Language Settings"@;
    let n3 = "Theme Settings"@;
    let s0 = (panels, root);
    let s1 = framework_step(s0, enabled.probe, has_layout, i0, n0);
    let s2 = framework_step(s1, enabled.logging_settings, has_layout, i1, n1);
    let s3 = framework_step(s2, enabled.language_settings, has_layout, i2, n2);
    let s4 = framework_step(s3, enabled.theme_settings, has_layout, i3, n3);
    if enabled.probe {
        lemma_step_declares(s0, true, has_layout, i0, n0);
        lemma_step_keeps_declared(s1, enabled.logging_settings, has_layout, i1, n1, i0);
        lemma_step_keeps_declared(s2, enabled.language_settings, has_layout, i2, n2, i0);
        lemma_step_keeps_declared(s3, enabled.theme_settings, has_layout, i3, n3, i0);
    }
    if enabled.logging_settings {
        lemma_step_declares(s1, true, has_layout, i1, n1);
        lemma_step_keeps_declared(s2, enabled.language_settings, has_layout, i2, n2, i1);
        lemma_step_keeps_declared(s3, enabled.theme_settings, has_layout, i3, n3, i1);
    }
    if enabled.language_settings {
        lemma_step_declares(s2, true, has_layout, i2, n2);
        lemma_step_keeps_declared(s3, enabled.theme_settings, has_layout, i3, n3, i2);
    }
    if enabled.theme_settings {
        lemma_step_declares(s3, true, has_layout, i3, n3);
    }
    let t1 = framework_step(s4, enabled.probe, has_layout, i0, n0);
    assert(t1 == s4);
    let t2 = framework_step(t1, enabled.logging_settings, has_layout, i1, n1);
    assert(t2 == s4);
    let t3 = framework_step(t2, enabled.language_settings, has_layout, i2, n2);
    assert(t3 == s4);
    let t4 = framework_step(t3, enabled.theme_settings, has_layout, i3, n3);
    assert(t4 == s4);
}

/// A framework panel that is not yet declared is added after the declared
/// panels, which stay as they were, as an initially visible standard panel
/// with its id and name; with a layout, its id is added last to the root tab
/// group, so the layout can show it.
pub proof fn law_added_framework_panel_is_visible(
    panels: Seq<(Seq<char>, Seq<char>, PanelKind, bool)>,
    root: Seq<Seq<char>>,
    has_layout: bool,
    id: Seq<char>,
    name: Seq<char>,
)
    requires
        !has_panel(panels, id),
    ensures
        ({
            let (after, after_root) = with_framework_panel(panels, root, has_layout, id, name);
            &&& after.len() == panels.len() + 1
            &&& after.subrange(0, panels.len() as int) == panels
            &&& after.last().0 == id
            &&& after.last().1 == name
            &&& after.last().2 == PanelKind::StandardUi
            &&& after.last().3
            &&& after_root == if has_layout {
                root.push(id)
            } else {
                root
            }
        }),
{
    let after = with_framework_panel(panels, root, has_layout, id, name).0;
    assert(after.subrange(0, panels.len() as int) =~= panels);
}

/// The tab title of the panel `tab`: the name of the first declared panel
/// with that id, or the id itself.
pub open spec fn spec_panel_title(panels: Seq<PanelDefinition>, tab: Seq<char>) -> Seq<char> {
    if exists|i: int| is_first_panel(panels, tab, i) {
        panels[choose|i: int| is_first_panel(panels, tab, i)].name@
    } else {
        tab
    }
}

proof fn lemma_first_panel_unique(panels: Seq<PanelDefinition>, id: Seq<char>, a: int, b: int)
    requires
        is_first_panel(panels, id, a),
        is_first_panel(panels, id, b),
    ensures
        a == b,
{
    if a < b {
        assert(panels[a].id@ != id);
    } else if b < a {
        assert(panels[b].id@ != id);
    }
}

/// A tab's title is the name of the first declared panel with the tab's id,
/// and the id itself when no panel has it.
pub proof fn law_tab_title_is_panel_name(panels: Seq<PanelDefinition>, tab: Seq<char>, i: int)
    ensures
        is_first_panel(panels, tab, i) ==> spec_panel_title(panels, tab) == panels[i].name@,
        (forall|j: int| 0 <= j < panels.len() ==> #[trigger] panels[j].id@ != tab) ==> spec_panel_title(
            panels,
            tab,
        ) == tab,
{
    if is_first_panel(panels, tab, i) {
        let c = choose|c: int| is_first_panel(panels, tab, c);
        lemma_first_panel_unique(panels, tab, c, i);
    }
}

/// The tab title of the panel `tab`.
pub fn panel_title(panels: &Vec<PanelDefinition>, tab: &str) -> (r: String)
    ensures
        r@ == spec_panel_title(panels@, tab@),
{
    match find_panel(panels, tab) {
        Some(i) => {
            proof {
                let c = choose|c: int| is_first_panel(panels@, tab@, c);
                lemma_first_panel_unique(panels@, tab@, c, i as int);
            }
            panels[i].name.clone()
        },
        None => {
            proof {
                if exists|c: int| is_first_panel(panels@, tab@, c) {
                    let c = choose|c: int| is_first_panel(panels@, tab@, c);
                    assert(panel_views(panels@)[c].0 == tab@);
                }
            }
            tab.to_owned()
        },
    }
}

/// What a dock tab shows.
#[derive(Debug, Clone, Copy, PartialEq, Eq, Structural)]
pub enum TabContent {
    ThemeSettings,
    LanguageSettings,
    LoggingSettings,
    Probe,
    FlowEditor,
    TreeViewer,
    LogViewer,
    TextEditor,
    /// The placeholder of the declared panel at `index`.
    Declared { index: usize },
    /// A tab that no panel declares.
    Unknown,
}

/// What the tab `tab` shows: an enabled framework panel with that id; else
/// the flow editor, tree viewer, log viewer or text editor registered under
/// it, in that order; else the placeholder of the first declared panel with
/// that id; else an unknown-panel notice.
pub open spec fn spec_route_tab(
    tab: Seq<char>,
    enabled: FrameworkPanels,
    has_flow_editor: bool,
    has_tree_viewer: bool,
    has_log_viewer: bool,
    has_text_editor: bool,
    panels: Seq<PanelDefinition>,
    r: TabContent,
) -> bool {
    if enabled.theme_settings && tab == "__wfide_theme_settings"@ {
        r == TabContent::ThemeSettings
    } else if enabled.language_settings && tab == "__wfide_language_settings"@ {
        r == TabContent::LanguageSettings
    } else if enabled.logging_settings && tab == "__wfide_logging_settings"@ {
        r == TabContent::LoggingSettings
    } else if enabled.probe && tab == "__wfide_probe"@ {
        r == TabContent::Probe
    } else if has_flow_editor {
        r == TabContent::FlowEditor
    } else if has_tree_viewer {
        r == TabContent::TreeViewer
    } else if has_log_viewer {
        r == TabContent::LogViewer
    } else if has_text_editor {
        r == TabContent::TextEditor
    } else if exists|i: int| is_first_panel(panels, tab, i) {
        r matches TabContent::Declared { index } && is_first_panel(panels, tab, index as int)
    } else {
        r == TabContent::Unknown
    }
}

/// Decides what the tab `tab` shows; `has_*` tell whether a panel of that
/// kind is registered under the tab's id.
pub fn route_tab(
    tab: &str,
    enabled: FrameworkPanels,
    has_flow_editor: bool,
    has_tree_viewer: bool,
    has_log_viewer: bool,
    has_text_editor: bool,
    panels: &Vec<PanelDefinition>,
) -> (r: TabContent)
    ensures
        spec_route_tab(
            tab@,
            enabled,
            has_flow_editor,
            has_tree_viewer,
            has_log_viewer,
            has_text_editor,
            panels@,
            r,
        ),
{
    proof {
        reveal_strlit("__wfide_probe");
        reveal_strlit("__wfide_logging_settings");
        reveal_strlit("__wfide_language_settings");
        reveal_strlit("__wfide_theme_settings");
    }
    if enabled.theme_settings && crate::text::str_eq(tab, THEME_SETTINGS_PANEL_ID) {
        return TabContent::ThemeSettings;
    }
    if enabled.language_settings && crate::text::str_eq(tab, LANGUAGE_SETTINGS_PANEL_ID) {
        return TabContent::LanguageSettings;
    }
    if enabled.logging_settings && crate::text::str_eq(tab, LOGGING_SETTINGS_PANEL_ID) {
        return TabContent::LoggingSettings;
    }
    if enabled.probe && crate::text::str_eq(tab, crate::probe::PANEL_ID) {
        return TabContent::Probe;
    }
    if has_flow_editor {
        return TabContent::FlowEditor;
    }
    if has_tree_viewer {
        return TabContent::TreeViewer;
    }
    if has_log_viewer {
        return TabContent::LogViewer;
    }
    if has_text_editor {
        return TabContent::TextEditor;
    }
    match find_panel(panels, tab) {
        Some(index) => TabContent::Declared { index },
        None => {
            proof {
                if exists|c: int| is_first_panel(panels@, tab@, c) {
                    let c = choose|c: int| is_first_panel(panels@, tab@, c);
                    assert(panel_views(panels@)[c].0 == tab@);
                }
            }
            TabContent::Unknown
        },
    }
}

/// Whether `tab` is an enabled framework panel's tab.
pub open spec fn is_framework_tab(tab: Seq<char>, enabled: FrameworkPanels) -> bool {
    ||| enabled.theme_settings && tab == "__wfide_theme_settings"@
    ||| enabled.language_settings && tab == "__wfide_language_settings"@
    ||| enabled.logging_settings && tab == "__wfide_logging_settings"@
    ||| enabled.probe && tab == "__wfide_probe"@
}

/// A tab that is not an enabled framework panel's tab shows a viewer
/// registered under it whenever there is one, never a placeholder or an
/// unknown-panel notice: the flow editor first, then the tree viewer, the
/// log viewer and the text editor. Each viewer is shown exactly when it is
/// registered and none before it is.
pub proof fn law_registered_viewer_is_shown(
    tab: Seq<char>,
    enabled: FrameworkPanels,
    has_flow_editor: bool,
    has_tree_viewer: bool,
    has_log_viewer: bool,
    has_text_editor: bool,
    panels: Seq<PanelDefinition>,
    r: TabContent,
)
    requires
        spec_route_tab(tab, enabled, has_flow_editor, has_tree_viewer, has_log_viewer, has_text_editor, panels, r),
        !is_framework_tab(tab, enabled),
    ensures
        has_flow_editor || has_tree_viewer || has_log_viewer || has_text_editor ==> !(r is Declared)
            && r != TabContent::Unknown,
        (r == TabContent::FlowEditor) == has_flow_editor,
        (r == TabContent::TreeViewer) == (!has_flow_editor && has_tree_viewer),
        (r == TabContent::LogViewer) == (!has_flow_editor && !has_tree_viewer && has_log_viewer),
        (r == TabContent::TextEditor) == (!has_flow_editor && !has_tree_viewer && !has_log_viewer
            && has_text_editor),
{
}

/// An enabled framework panel's tab shows that framework panel, whatever
/// viewers are registered under the same id.
pub proof fn law_framework_tab_shows_framework_panel(
    tab: Seq<char>,
    enabled: FrameworkPanels,
    has_flow_editor: bool,
    has_tree_viewer: bool,
    has_log_viewer: bool,
    has_text_editor: bool,
    panels: Seq<PanelDefinition>,
    r: TabContent,
)
    requires
        spec_route_tab(tab, enabled, has_flow_editor, has_tree_viewer, has_log_viewer, has_text_editor, panels, r),
        is_framework_tab(tab, enabled),
    ensures
        r == TabContent::ThemeSettings || r == TabContent::LanguageSettings || r
            == TabContent::LoggingSettings || r == TabContent::Probe,
        r == TabContent::ThemeSettings ==> tab == "__wfide_theme_settings"@,
        r == TabContent::LanguageSettings ==> tab == "__wfide_language_settings"@,
        r == TabContent::LoggingSettings ==> tab == "__wfide_logging_settings"@,
        r == TabContent::Probe ==> tab == "__wfide_probe"@,
{
}

} // verus!
