//! Editor state that lives across frames (mode, selection, console log,
//! panel visibility) and the rules by which the editor's menus and panels
//! change it. The panels themselves are drawn by the host; each click they
//! report becomes an `EditorAction` handled here.

use std::path::PathBuf;
use vstd::prelude::*;

verus! {

/// `std::path::PathBuf`, carried through opaquely.
#[verifier::external_type_specification]
#[verifier::external_body]
pub struct ExPathBuf(PathBuf);

/// The console keeps at most this many lines.
pub const MAX_LOG_LINES: usize = 1000;

/// When the console overflows, this many of its oldest lines are dropped.
pub const DROPPED_LOG_LINES: usize = 500;

#[derive(Clone, Copy, Debug, PartialEq, Eq, Structural)]
pub enum EditorMode {
    Edit,
    Play,
    Pause,
}

impl Default for EditorMode {
    fn default() -> (m: EditorMode)
        ensures
            m == EditorMode::Edit,
    {
        EditorMode::Edit
    }
}

/// What the user did in the editor's menus and panels during a frame.
#[derive(Clone, Copy, Debug, PartialEq, Eq, Structural)]
pub enum EditorAction {
    NewScene,
    OpenScene,
    SaveScene,
    Exit,
    Undo,
    Redo,
    ToggleHierarchy,
    ToggleInspector,
    ToggleAssetBrowser,
    ToggleConsole,
    ShowAbout,
    CloseAbout,
    OpenDocumentation,
    Play,
    Pause,
    Stop,
    SelectEntity(u64),
    AddEntity,
    DeleteEntity,
    ReloadScript,
    ClearConsole,
}

/// Mutable, frame-to-frame editor state.
pub struct EditorState {
    pub mode: EditorMode,
    /// Raw entity id (entity handles are not stable across frames).
    pub selected_entity: Option<u64>,
    pub console_log: Vec<String>,
    pub assets_root: Option<PathBuf>,
    pub show_hierarchy: bool,
    pub show_inspector: bool,
    pub show_asset_browser: bool,
    pub show_console: bool,
    pub show_about: bool,
}

/// The editor state with the console as a sequence of texts.
pub struct EditorView {
    pub mode: EditorMode,
    pub selected_entity: Option<u64>,
    pub console_log: Seq<Seq<char>>,
    pub assets_root: Option<PathBuf>,
    pub show_hierarchy: bool,
    pub show_inspector: bool,
    pub show_asset_browser: bool,
    pub show_console: bool,
    pub show_about: bool,
}

impl View for EditorState {
    type V = EditorView;

    open spec fn view(&self) -> EditorView {
        EditorView {
            mode: self.mode,
            selected_entity: self.selected_entity,
            console_log: self.console_log@.map_values(|s: String| s@),
            assets_root: self.assets_root,
            show_hierarchy: self.show_hierarchy,
            show_inspector: self.show_inspector,
            show_asset_browser: self.show_asset_browser,
            show_console: self.show_console,
            show_about: self.show_about,
        }
    }
}

/// The console after `msg` is appended: once it holds more than
/// `MAX_LOG_LINES` lines, the oldest `DROPPED_LOG_LINES` go.
pub open spec fn logged(log: Seq<Seq<char>>, msg: Seq<char>) -> Seq<Seq<char>> {
    let l = log.push(msg);
    if l.len() > MAX_LOG_LINES {
        l.subrange(DROPPED_LOG_LINES as int, l.len() as int)
    } else {
        l
    }
}

/// The view with the console replaced.
pub open spec fn with_log(v: EditorView, log: Seq<Seq<char>>) -> EditorView {
    EditorView { console_log: log, ..v }
}

/// The console line that an action writes, if it writes one.
pub open spec fn action_message(a: EditorAction) -> Option<Seq<char>> {
    match a {
        EditorAction::NewScene => Some("File > New Scene (stub)"@),
        EditorAction::OpenScene => Some("File > Open Scene (stub)"@),
        EditorAction::SaveScene => Some("File > Save Scene (stub)"@),
        EditorAction::Exit => Some("File > Exit (stub)"@),
        EditorAction::Undo => Some("Edit > Undo (stub)"@),
        EditorAction::Redo => Some("Edit > Redo (stub)"@),
        EditorAction::OpenDocumentation => Some(
            "Help > Documentation: https://github.com/salim77088/eng"@,
        ),
        EditorAction::Play => Some("Entered Play mode"@),
        EditorAction::Pause => Some("Paused"@),
        EditorAction::Stop => Some("Returned to Edit mode"@),
        EditorAction::AddEntity => Some("Add Entity: stub - wire to scene API"@),
        EditorAction::DeleteEntity => Some("Delete Entity: stub - wire to scene API"@),
        EditorAction::ReloadScript => Some("Script reload requested."@),
        _ => None,
    }
}

/// The editor state after an action, before its console line (if any) is
/// written.
pub open spec fn action_effect(v: EditorView, a: EditorAction) -> EditorView {
    match a {
        EditorAction::ToggleHierarchy => EditorView { show_hierarchy: !v.show_hierarchy, ..v },
        EditorAction::ToggleInspector => EditorView { show_inspector: !v.show_inspector, ..v },
        EditorAction::ToggleAssetBrowser => EditorView {
            show_asset_browser: !v.show_asset_browser,
            ..v
        },
        EditorAction::ToggleConsole => EditorView { show_console: !v.show_console, ..v },
        EditorAction::ShowAbout => EditorView { show_about: true, ..v },
        EditorAction::CloseAbout => EditorView { show_about: false, ..v },
        EditorAction::Play => EditorView { mode: EditorMode::Play, ..v },
        EditorAction::Pause => EditorView { mode: EditorMode::Pause, ..v },
        EditorAction::Stop => EditorView { mode: EditorMode::Edit, ..v },
        EditorAction::SelectEntity(id) => EditorView { selected_entity: Some(id), ..v },
        EditorAction::ClearConsole => with_log(v, Seq::empty()),
        _ => v,
    }
}

/// The editor state after an action.
pub open spec fn after_action(v: EditorView, a: EditorAction) -> EditorView {
    let w = action_effect(v, a);
    match action_message(a) {
        Some(m) => with_log(w, logged(w.console_log, m)),
        None => w,
    }
}

impl Default for EditorState {
    fn default() -> (s: EditorState)
        ensures
            s@.mode == EditorMode::Edit,
            s@.selected_entity == None::<u64>,
            s@.console_log == seq![
                "Lumina Engine editor ready."@,
                "Tip: press Ctrl+P to enter Play mode."@,
            ],
            s@.assets_root == None::<PathBuf>,
            s@.show_hierarchy && s@.show_inspector && s@.show_asset_browser && s@.show_console,
            !s@.show_about,
    {
        let mut console_log: Vec<String> = Vec::new();
        console_log.push(String::from_str("Lumina Engine editor ready."));
        console_log.push(String::from_str("Tip: press Ctrl+P to enter Play mode."));
        let s = EditorState {
            mode: EditorMode::Edit,
            selected_entity: None,
            console_log,
            assets_root: None,
            show_hierarchy: true,
            show_inspector: true,
            show_asset_browser: true,
            show_console: true,
            show_about: false,
        };
        assert(s@.console_log =~= seq![
            "Lumina Engine editor ready."@,
            "Tip: press Ctrl+P to enter Play mode."@,
        ]);
        s
    }
}

impl EditorState {
    /// Append a line to the console, dropping the oldest half once it grows
    /// past its limit.
    pub fn log(&mut self, msg: String)
        ensures
            final(self)@ == with_log(old(self)@, logged(old(self)@.console_log, msg@)),
    {
        let ghost m = msg@;
        self.console_log.push(msg);
        let ghost pushed = self.console_log@;
        assert(pushed.map_values(|s: String| s@) =~= old(self)@.console_log.push(m));
        if self.console_log.len() > MAX_LOG_LINES {
            let rest = self.console_log.split_off(DROPPED_LOG_LINES);
            self.console_log = rest;
            assert(self.console_log@.map_values(|s: String| s@) =~= pushed.map_values(
                |s: String| s@,
            ).subrange(DROPPED_LOG_LINES as int, pushed.len() as int));
        }
    }

    /// Apply one menu or panel action.
    pub fn apply(&mut self, action: EditorAction)
        ensures
            final(self)@ == after_action(old(self)@, action),
    {
        match action {
            EditorAction::NewScene => self.log(String::from_str("File > New Scene (stub)")),
            EditorAction::OpenScene => self.log(String::from_str("File > Open Scene (stub)")),
            EditorAction::SaveScene => self.log(String::from_str("File > Save Scene (stub)")),
            EditorAction::Exit => self.log(String::from_str("File > Exit (stub)")),
            EditorAction::Undo => self.log(String::from_str("Edit > Undo (stub)")),
            EditorAction::Redo => self.log(String::from_str("Edit > Redo (stub)")),
            EditorAction::ToggleHierarchy => self.show_hierarchy = !self.show_hierarchy,
            EditorAction::ToggleInspector => self.show_inspector = !self.show_inspector,
            EditorAction::ToggleAssetBrowser => {
                self.show_asset_browser = !self.show_asset_browser;
            },
            EditorAction::ToggleConsole => self.show_console = !self.show_console,
            EditorAction::ShowAbout => self.show_about = true,
            EditorAction::CloseAbout => self.show_about = false,
            EditorAction::OpenDocumentation => {
                self.log(String::from_str("Help > Documentation: https://github.com/salim77088/eng"))
            },
            EditorAction::Play => {
                self.mode = EditorMode::Play;
                self.log(String::from_str("Entered Play mode"));
            },
            EditorAction::Pause => {
                self.mode = EditorMode::Pause;
                self.log(String::from_str("Paused"));
            },
            EditorAction::Stop => {
                self.mode = EditorMode::Edit;
                self.log(String::from_str("Returned to Edit mode"));
            },
            EditorAction::SelectEntity(id) => self.selected_entity = Some(id),
            EditorAction::AddEntity => {
                self.log(String::from_str("Add Entity: stub - wire to scene API"))
            },
            EditorAction::DeleteEntity => {
                self.log(String::from_str("Delete Entity: stub - wire to scene API"))
            },
            EditorAction::ReloadScript => self.log(String::from_str("Script reload requested.")),
            EditorAction::ClearConsole => {
                self.console_log.clear();
                assert(self@.console_log =~= Seq::<Seq<char>>::empty());
            },
        }
    }
}

/// The console never grows past its limit: a console within the limit stays
/// within it after any action.
pub proof fn law_console_stays_bounded(v: EditorView, a: EditorAction)
    requires
        v.console_log.len() <= MAX_LOG_LINES,
    ensures
        after_action(v, a).console_log.len() <= MAX_LOG_LINES,
{
}

/// Logging keeps the newest line: it is the last line of the console.
pub proof fn law_log_keeps_newest(log: Seq<Seq<char>>, msg: Seq<char>)
    ensures
        logged(log, msg).len() > 0,
        logged(log, msg).last() == msg,
{
}

/// The play controls set the mode whatever it was before.
pub proof fn law_play_controls_set_mode(v: EditorView)
    ensures
        after_action(v, EditorAction::Play).mode == EditorMode::Play,
        after_action(v, EditorAction::Pause).mode == EditorMode::Pause,
        after_action(v, EditorAction::Stop).mode == EditorMode::Edit,
{
}

/// Toggling a panel twice leaves the editor as it was.
pub proof fn law_toggle_twice_is_identity(v: EditorView)
    ensures
        after_action(after_action(v, EditorAction::ToggleHierarchy), EditorAction::ToggleHierarchy)
            == v,
        after_action(after_action(v, EditorAction::ToggleInspector), EditorAction::ToggleInspector)
            == v,
        after_action(
            after_action(v, EditorAction::ToggleAssetBrowser),
            EditorAction::ToggleAssetBrowser,
        ) == v,
        after_action(after_action(v, EditorAction::ToggleConsole), EditorAction::ToggleConsole)
            == v,
{
}

/// Selecting an entity selects it, whatever was selected before, and
/// changes nothing else; so of two selections the later one wins.
pub proof fn law_select_sets_selection(v: EditorView, id: u64, other: u64)
    ensures
        after_action(v, EditorAction::SelectEntity(id)).selected_entity == Some(id),
        after_action(v, EditorAction::SelectEntity(id)).mode == v.mode,
        after_action(v, EditorAction::SelectEntity(id)).console_log == v.console_log,
        after_action(v, EditorAction::SelectEntity(id)).show_hierarchy == v.show_hierarchy,
        after_action(v, EditorAction::SelectEntity(id)).show_inspector == v.show_inspector,
        after_action(v, EditorAction::SelectEntity(id)).show_asset_browser == v.show_asset_browser,
        after_action(v, EditorAction::SelectEntity(id)).show_console == v.show_console,
        after_action(v, EditorAction::SelectEntity(id)).show_about == v.show_about,
        after_action(
            after_action(v, EditorAction::SelectEntity(other)),
            EditorAction::SelectEntity(id),
        ).selected_entity == Some(id),
{
}

/// The about box opens and closes whatever its state, clearing the console
/// empties it, and no action other than a selection changes the selection.
pub proof fn law_panels_and_console(v: EditorView, a: EditorAction)
    ensures
        after_action(v, EditorAction::ShowAbout).show_about,
        !after_action(v, EditorAction::CloseAbout).show_about,
        after_action(v, EditorAction::ClearConsole).console_log.len() == 0,
        !(a is SelectEntity) ==> after_action(v, a).selected_entity == v.selected_entity,
{
}

/// A console below its limit keeps every line and appends the new one; a
/// full console of 1000 lines drops its 500 oldest, so it keeps the 500
/// newest and then the new line.
pub proof fn law_log_trims_oldest_half(log: Seq<Seq<char>>, msg: Seq<char>)
    requires
        log.len() <= 1000,
    ensures
        log.len() < 1000 ==> logged(log, msg) == log.push(msg),
        log.len() == 1000 ==> logged(log, msg).len() == 501,
        log.len() == 1000 ==> forall|i: int|
            0 <= i < 500 ==> #[trigger] logged(log, msg)[i] == log[i + 500],
        log.len() == 1000 ==> logged(log, msg)[500] == msg,
{
}

} // verus!
