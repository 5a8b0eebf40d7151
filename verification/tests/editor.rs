use lumina::editor::{EditorAction, EditorMode, EditorState};

#[test]
fn default_state() {
    let s = EditorState::default();
    assert_eq!(s.mode, EditorMode::Edit);
    assert_eq!(EditorMode::default(), EditorMode::Edit);
    assert_eq!(s.selected_entity, None);
    assert_eq!(
        s.console_log,
        vec!["Lumina Engine editor ready.".to_string(), "Tip: press Ctrl+P to enter Play mode.".to_string()]
    );
    assert!(s.assets_root.is_none());
    assert!(s.show_hierarchy && s.show_inspector && s.show_asset_browser && s.show_console);
    assert!(!s.show_about);
}

#[test]
fn play_pause_stop() {
    let mut s = EditorState::default();
    s.apply(EditorAction::Play);
    assert_eq!(s.mode, EditorMode::Play);
    assert_eq!(s.console_log.last().unwrap(), "Entered Play mode");
    s.apply(EditorAction::Pause);
    assert_eq!(s.mode, EditorMode::Pause);
    assert_eq!(s.console_log.last().unwrap(), "Paused");
    s.apply(EditorAction::Stop);
    assert_eq!(s.mode, EditorMode::Edit);
    assert_eq!(s.console_log.last().unwrap(), "Returned to Edit mode");
    assert_eq!(s.console_log.len(), 5);
}

#[test]
fn menu_stubs_log() {
    let mut s = EditorState::default();
    let cases = [
        (EditorAction::NewScene, "File > New Scene (stub)"),
        (EditorAction::OpenScene, "File > Open Scene (stub)"),
        (EditorAction::SaveScene, "File > Save Scene (stub)"),
        (EditorAction::Exit, "File > Exit (stub)"),
        (EditorAction::Undo, "Edit > Undo (stub)"),
        (EditorAction::Redo, "Edit > Redo (stub)"),
        (EditorAction::OpenDocumentation, "Help > Documentation: https://github.com/salim77088/eng"),
        (EditorAction::AddEntity, "Add Entity: stub - wire to scene API"),
        (EditorAction::DeleteEntity, "Delete Entity: stub - wire to scene API"),
        (EditorAction::ReloadScript, "Script reload requested."),
    ];
    for (a, msg) in cases {
        s.apply(a);
        assert_eq!(s.console_log.last().unwrap(), msg);
    }
    assert_eq!(s.mode, EditorMode::Edit);
}

#[test]
fn toggles_and_about() {
    let mut s = EditorState::default();
    s.apply(EditorAction::ToggleHierarchy);
    assert!(!s.show_hierarchy);
    s.apply(EditorAction::ToggleHierarchy);
    assert!(s.show_hierarchy);
    s.apply(EditorAction::ToggleInspector);
    s.apply(EditorAction::ToggleAssetBrowser);
    s.apply(EditorAction::ToggleConsole);
    assert!(!s.show_inspector && !s.show_asset_browser && !s.show_console);
    s.apply(EditorAction::ShowAbout);
    assert!(s.show_about);
    s.apply(EditorAction::CloseAbout);
    assert!(!s.show_about);
    assert_eq!(s.console_log.len(), 2);
}

#[test]
fn select_and_clear() {
    let mut s = EditorState::default();
    s.apply(EditorAction::SelectEntity(42));
    assert_eq!(s.selected_entity, Some(42));
    s.apply(EditorAction::ClearConsole);
    assert!(s.console_log.is_empty());
}

#[test]
fn console_trims_oldest_half() {
    let mut s = EditorState::default();
    s.apply(EditorAction::ClearConsole);
    for i in 0..1000 {
        s.log(format!("line {i}"));
    }
    assert_eq!(s.console_log.len(), 1000);
    s.log("overflow".to_string());
    assert_eq!(s.console_log.len(), 501);
    assert_eq!(s.console_log[0], "line 500");
    assert_eq!(s.console_log.last().unwrap(), "overflow");
}
