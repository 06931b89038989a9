use themesub::config::{
    check_startup, default_output_path, default_variables_path, join_path,
    resolve_output_path, resolve_variables_path, StartupError,
};
use themesub::substitutor::{CloseMode, FsEvent, Substitutor, WatchAction};

fn substitutor() -> Substitutor {
    Substitutor::new("t".to_string(), "v".to_string(), "o".to_string())
}

#[test]
fn only_close_after_write_triggers() {
    let s = substitutor();
    assert_eq!(s.on_event(&FsEvent::Closed(CloseMode::Write)), WatchAction::Substitute);
    assert_eq!(s.on_event(&FsEvent::Changed), WatchAction::Ignore);
    assert_eq!(s.on_event(&FsEvent::Closed(CloseMode::Read)), WatchAction::Ignore);
    assert_eq!(s.on_event(&FsEvent::Closed(CloseMode::Any)), WatchAction::Ignore);
    assert_eq!(s.on_event(&FsEvent::Closed(CloseMode::Execute)), WatchAction::Ignore);
    assert_eq!(s.on_event(&FsEvent::Closed(CloseMode::Other)), WatchAction::Ignore);
}

#[test]
fn watcher_errors_are_reported() {
    assert_eq!(substitutor().on_event(&FsEvent::Failed), WatchAction::ReportError);
}

#[test]
fn missing_template_stops_startup() {
    let e = check_startup(false, false, true).unwrap_err();
    assert_eq!(e, StartupError::MissingTemplate);
    assert_eq!(e.exit_code(), 1);
    assert_eq!(check_startup(false, true, false), Err(StartupError::MissingTemplate));
}

#[test]
fn missing_default_variables_stops_startup() {
    let e = check_startup(true, false, false).unwrap_err();
    assert_eq!(e, StartupError::MissingDefaultVariables);
    assert_eq!(e.exit_code(), 1);
}

#[test]
fn missing_named_variables_stops_startup() {
    assert_eq!(check_startup(true, true, false), Err(StartupError::MissingVariables));
    assert_eq!(check_startup(true, true, true), Ok(()));
    assert_eq!(check_startup(true, false, true), Ok(()));
}

#[test]
fn join_path_adds_one_separator() {
    assert_eq!(join_path("", "a"), "a");
    assert_eq!(join_path("/home/u", "a"), "/home/u/a");
    assert_eq!(join_path("/home/u/", "a"), "/home/u/a");
}

#[test]
fn default_paths() {
    assert_eq!(default_variables_path("themes"), "themes/variables.toml");
    assert_eq!(default_variables_path(""), "variables.toml");
    assert_eq!(
        default_output_path("/home/u/.config", "dark"),
        "/home/u/.config/zed/themes/dark.json"
    );
    assert_eq!(default_output_path("", "dark"), "zed/themes/dark.json");
}

#[test]
fn named_paths_win_over_defaults() {
    assert_eq!(resolve_variables_path("d", Some("v.toml".to_string())), "v.toml");
    assert_eq!(resolve_variables_path("d", None), "d/variables.toml");
    assert_eq!(resolve_output_path("/c", "t", Some("o.json".to_string())), "o.json");
    assert_eq!(resolve_output_path("/c/", "t", None), "/c/zed/themes/t.json");
}
