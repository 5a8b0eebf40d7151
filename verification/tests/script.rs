use lumina::script::{poll_due, reload_all, validate, Script, POLL_DEBOUNCE_MS};
use std::path::PathBuf;

#[test]
fn validate_ok() {
    assert_eq!(validate("let x = 1 + 2; fn update(dt) { x += dt; }"), Ok(()));
}

#[test]
fn validate_error_text_matches_rhai() {
    let src = "let = ;";
    let expected = lumina::script::build_engine().compile(src).unwrap_err().to_string();
    assert_eq!(validate(src), Err(expected));
}

#[test]
fn from_source_and_reload() {
    let path = PathBuf::from("demo.lumi");
    let mut s = Script::from_source(path.clone(), "let a = 1;".to_string()).ok().unwrap();
    assert_eq!(s.path, path);
    assert_eq!(s.source, "let a = 1;");
    // Unchanged text.
    assert_eq!(s.reload_from("let a = 1;".to_string()), Ok(false));
    // New text that compiles.
    assert_eq!(s.reload_from("let a = 2;".to_string()), Ok(true));
    assert_eq!(s.source, "let a = 2;");
    // Same text again: nothing new.
    assert_eq!(s.reload_from("let a = 2;".to_string()), Ok(false));
    // Broken text: error, old script kept.
    assert!(s.reload_from("let = ;".to_string()).is_err());
    assert_eq!(s.source, "let a = 2;");
    assert!(s.reload_from("let = ;".to_string()).is_err());
}

#[test]
fn from_source_error() {
    let r = Script::from_source(PathBuf::from("bad.lumi"), "fn (".to_string());
    assert!(r.is_err());
}

#[test]
fn apply_compiled_outcomes() {
    let mut s = Script::from_source(PathBuf::from("a.lumi"), "1".to_string()).ok().unwrap();
    assert_eq!(s.apply_compiled("2".to_string(), Err("boom".to_string())), Err("boom".to_string()));
    assert_eq!(s.source, "1");
    let donor = Script::from_source(PathBuf::from("b.lumi"), "3".to_string()).ok().unwrap();
    assert_eq!(s.apply_compiled("3".to_string(), Ok(donor.ast)), Ok(true));
    assert_eq!(s.source, "3");
    assert_eq!(run(&s), 3);
}

/// The value the script's compiled code evaluates to.
fn run(s: &Script) -> i64 {
    lumina::script::build_engine().eval_ast::<i64>(s.ast.as_rhai()).unwrap()
}

#[test]
fn reload_installs_the_new_compiled_script() {
    let mut s = Script::from_source(PathBuf::from("v.lumi"), "40 + 2".to_string()).ok().unwrap();
    assert_eq!(run(&s), 42);
    assert_eq!(s.reload_from("let a = 2; a * 10".to_string()), Ok(true));
    assert_eq!(run(&s), 20);
    // Unchanged text keeps the compiled script.
    assert_eq!(s.reload_from("let a = 2; a * 10".to_string()), Ok(false));
    assert_eq!(run(&s), 20);
    // A failed reload keeps the running script.
    assert!(s.reload_from("let = ;".to_string()).is_err());
    assert_eq!(run(&s), 20);
}

#[test]
fn reload_all_installs_the_new_compiled_scripts() {
    let mk = |p: &str, src: &str| Script::from_source(PathBuf::from(p), src.to_string()).ok().unwrap();
    let mut scripts = vec![mk("a.lumi", "1"), mk("b.lumi", "2")];
    let report = reload_all(&mut scripts, vec![Some("10".to_string()), Some("2".to_string())]);
    assert_eq!(report.reloaded, vec![0]);
    assert_eq!(run(&scripts[0]), 10);
    assert_eq!(run(&scripts[1]), 2);
}

#[test]
fn reload_all_reports_reloaded_and_failed() {
    let mk = |p: &str, src: &str| Script::from_source(PathBuf::from(p), src.to_string()).ok().unwrap();
    let mut scripts = vec![mk("a.lumi", "let a = 1;"), mk("b.lumi", "let b = 1;"), mk("c.lumi", "let c = 1;"), mk("d.lumi", "let d = 1;")];
    let fresh = vec![
        Some("let a = 1;".to_string()),
        Some("let b = 2;".to_string()),
        Some("let = ;".to_string()),
        None,
    ];
    let report = reload_all(&mut scripts, fresh);
    assert_eq!(report.reloaded, vec![1]);
    assert_eq!(report.failed.len(), 1);
    assert_eq!(report.failed[0].0, 2);
    let expected = lumina::script::build_engine().compile("let = ;").unwrap_err().to_string();
    assert_eq!(report.failed[0].1, expected);
    assert_eq!(scripts[0].source, "let a = 1;");
    assert_eq!(scripts[1].source, "let b = 2;");
    assert_eq!(scripts[2].source, "let c = 1;");
    assert_eq!(scripts[3].source, "let d = 1;");
    assert_eq!(scripts[2].path, PathBuf::from("c.lumi"));
}

#[test]
fn reload_all_on_nothing() {
    let mut scripts: Vec<Script> = Vec::new();
    let report = reload_all(&mut scripts, Vec::new());
    assert!(report.reloaded.is_empty());
    assert!(report.failed.is_empty());
}

#[test]
fn repoll_with_same_texts_reloads_nothing() {
    let mk = |p: &str, src: &str| Script::from_source(PathBuf::from(p), src.to_string()).ok().unwrap();
    let mut scripts = vec![mk("a.lumi", "let a = 1;"), mk("b.lumi", "let b = 1;")];
    let fresh = || vec![Some("let a = 5;".to_string()), Some("let = ;".to_string())];
    let first = reload_all(&mut scripts, fresh());
    assert_eq!(first.reloaded, vec![0]);
    let second = reload_all(&mut scripts, fresh());
    assert!(second.reloaded.is_empty());
    assert_eq!(second.failed, first.failed);
    assert_eq!(scripts[0].source, "let a = 5;");
    assert_eq!(scripts[1].source, "let b = 1;");
}

#[test]
fn polls_are_debounced() {
    let debounce = std::time::Duration::from_millis(POLL_DEBOUNCE_MS).as_nanos();
    assert_eq!(POLL_DEBOUNCE_MS, 200);
    assert!(!poll_due(0, debounce));
    assert!(!poll_due(debounce - 1, debounce));
    assert!(poll_due(debounce, debounce));
    assert!(poll_due(debounce + 1, debounce));
}
