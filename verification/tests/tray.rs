use timershift::greet;
use timershift::parse_state;
use timershift::resource_path;
use timershift::str_eq;
use timershift::TrayCoordinator;
use timershift::TrayError;
use timershift::VisualState;

#[test]
fn greet_formats_fixed_template() {
    assert_eq!(greet("Alice"), "Hello, Alice! You've been greeted from Rust!");
    assert_eq!(greet(""), "Hello, ! You've been greeted from Rust!");
}

#[test]
fn parse_state_known_names() {
    assert_eq!(parse_state("play"), Some(VisualState::Playing));
    assert_eq!(parse_state("pause"), Some(VisualState::Paused));
}

#[test]
fn parse_state_unknown_names() {
    assert_eq!(parse_state(""), None);
    assert_eq!(parse_state("Play"), None);
    assert_eq!(parse_state("bogus"), None);
    assert_eq!(parse_state("paused"), None);
}

#[test]
fn resource_paths_are_fixed() {
    assert_eq!(resource_path(VisualState::Playing), "tray-icons/play.png");
    assert_eq!(resource_path(VisualState::Paused), "tray-icons/pause.png");
}

#[test]
fn str_eq_compares_contents() {
    assert!(str_eq("", ""));
    assert!(str_eq("play", "play"));
    assert!(!str_eq("play", "pause"));
    assert!(!str_eq("play", "playx"));
    assert!(str_eq("café", "café"));
    assert!(!str_eq("café", "cafe"));
}

#[test]
fn initialize_success_defaults_to_paused() {
    let mut c = TrayCoordinator::new(true);
    assert!(!c.tray_exists());
    assert_eq!(c.current_icon_resource(), None);
    let created = c.initialize(Ok(()));
    assert!(created);
    assert!(c.tray_exists());
    assert_eq!(c.current_icon_resource(), Some("tray-icons/pause.png"));
    assert_eq!(c.current_title(), None);
}

#[test]
fn initialize_failure_is_swallowed() {
    let mut c = TrayCoordinator::new(true);
    let created = c.initialize(Err("resource dir missing".to_string()));
    assert!(!created);
    assert!(!c.tray_exists());
    assert_eq!(c.current_icon_resource(), None);
}

#[test]
fn set_state_applies_and_is_idempotent() {
    let mut c = TrayCoordinator::new(true);
    c.initialize(Ok(()));
    assert!(c.set_tray_icon_state("play", Ok(())).is_ok());
    assert_eq!(c.current_icon_resource(), Some("tray-icons/play.png"));
    assert!(c.set_tray_icon_state("play", Ok(())).is_ok());
    assert_eq!(c.current_icon_resource(), Some("tray-icons/play.png"));
    assert!(c.set_tray_icon_state("pause", Ok(())).is_ok());
    assert_eq!(c.current_icon_resource(), Some("tray-icons/pause.png"));
}

#[test]
fn unknown_state_is_ignored_with_success() {
    let mut c = TrayCoordinator::new(true);
    c.initialize(Ok(()));
    assert!(c.set_tray_icon_state("play", Ok(())).is_ok());
    assert!(c.set_tray_icon_state("stopped", Ok(())).is_ok());
    assert_eq!(c.current_icon_resource(), Some("tray-icons/play.png"));
    assert_eq!(c.current_title(), None);
}

#[test]
fn title_set_then_cleared() {
    let mut c = TrayCoordinator::new(true);
    c.initialize(Ok(()));
    assert!(c.set_tray_title("X".to_string()).is_ok());
    assert_eq!(c.current_title(), Some("X"));
    assert!(c.set_tray_title(String::new()).is_ok());
    assert_eq!(c.current_title(), None);
}

#[test]
fn mutating_commands_before_initialize_fail() {
    let mut c = TrayCoordinator::new(true);
    let r = c.set_tray_icon_state("play", Ok(()));
    assert!(matches!(r, Err(TrayError::TrayNotFound)));
    assert_eq!(r.unwrap_err().message(), "tray icon not found");
    let r = c.set_tray_title("X".to_string());
    assert!(matches!(r, Err(TrayError::TrayNotFound)));
    assert_eq!(c.current_icon_resource(), None);
}

#[test]
fn failed_icon_load_surfaces_resolution_error() {
    let mut c = TrayCoordinator::new(true);
    c.initialize(Ok(()));
    let r = c.set_tray_icon_state("play", Err("icon file missing".to_string()));
    assert!(matches!(r, Err(TrayError::ResourceResolution(_))));
    assert_eq!(r.unwrap_err().message(), "icon file missing");
    assert_eq!(c.current_icon_resource(), Some("tray-icons/pause.png"));
}

#[test]
fn host_without_tray_ops_accepts_and_ignores() {
    let mut c = TrayCoordinator::new(false);
    c.initialize(Ok(()));
    assert!(c.set_tray_icon_state("play", Ok(())).is_ok());
    assert_eq!(c.current_icon_resource(), Some("tray-icons/pause.png"));
    assert!(c.set_tray_title("X".to_string()).is_ok());
    assert_eq!(c.current_title(), None);
    let mut before_init = TrayCoordinator::new(false);
    assert!(before_init.set_tray_icon_state("play", Ok(())).is_ok());
    assert!(before_init.set_tray_title("X".to_string()).is_ok());
}

#[test]
fn scenario_startup_play_twice_then_bogus() {
    let mut c = TrayCoordinator::new(true);
    let created = c.initialize(Ok(()));
    assert!(created);
    assert_eq!(c.current_icon_resource(), Some("tray-icons/pause.png"));
    assert!(c.set_tray_icon_state("play", Ok(())).is_ok());
    assert_eq!(c.current_icon_resource(), Some("tray-icons/play.png"));
    assert!(c.set_tray_icon_state("play", Ok(())).is_ok());
    assert_eq!(c.current_icon_resource(), Some("tray-icons/play.png"));
    assert!(c.set_tray_icon_state("bogus", Ok(())).is_ok());
    assert_eq!(c.current_icon_resource(), Some("tray-icons/play.png"));
}

#[test]
fn error_messages() {
    assert_eq!(TrayError::TrayNotFound.message(), "tray icon not found");
    assert_eq!(
        TrayError::ResourceResolution("no such file".to_string()).message(),
        "no such file"
    );
}
