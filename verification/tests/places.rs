use scl3::config::{AppearanceConfig, AuthConfig, DownloadConfig, GameConfig, LaunchConfig, SclConfig};
use scl3::global::{handle_request, AppState};
use scl3::places::{java_found, select_dir, select_java, start_java_search};
use scl3::startup::{position_of, remember_instance, restore_instance};
use scl3::window::{AppWindow, DirItem, JavaItem};

fn strings(texts: &[&str]) -> Vec<String> {
    texts.iter().map(|t| t.to_string()).collect()
}

fn config(game: GameConfig) -> SclConfig {
    SclConfig {
        game,
        download: DownloadConfig::default(),
        launch: LaunchConfig::default(),
        appearance: AppearanceConfig::default(),
        auth: AuthConfig::default(),
    }
}

fn java(path: &str) -> JavaItem {
    JavaItem { path: path.to_string(), version: "17.0.9".to_string(), main_version: 17, is_64bit: true }
}

#[test]
fn runtimes_that_work_are_listed() {
    let mut ui = AppWindow::default();
    start_java_search(&mut ui);
    assert!(ui.java.is_searching);
    java_found(&mut ui, vec![None, Some(java("/a")), None, Some(java("/b"))]);
    assert_eq!(ui.java.list, vec![java("/a"), java("/b")]);
    assert!(!ui.java.is_searching);
    java_found(&mut ui, vec![]);
    assert_eq!(ui, AppWindow::default());
}

#[test]
fn selected_java_is_used() {
    let mut ui = AppWindow::default();
    ui.java.list = vec![java("/a"), java("/b")];
    let mut cfg = config(GameConfig::default());
    assert!(select_java(&mut ui, &mut cfg, 1));
    assert_eq!(cfg, config(GameConfig { minecraft_path: None, java_path: Some(strings(&["/b"])) }));
    assert_eq!((cfg.game.resolved_java_path().as_str(), ui.settings.game_java_path.as_str()), ("/b", "/b"));
    assert!(!select_java(&mut ui, &mut cfg, 2));
    assert!(!select_java(&mut ui, &mut cfg, -1));
    assert_eq!(cfg.game.resolved_java_path(), "/b");
}

#[test]
fn selected_directory_is_used() {
    let mut ui = AppWindow::default();
    ui.dir_list = vec![DirItem { path: "/mc".to_string() }];
    let mut cfg = config(GameConfig { minecraft_path: Some(strings(&["/x", "/y"])), java_path: None });
    assert!(!select_dir(&mut ui, &mut cfg, 1));
    assert!(!select_dir(&mut ui, &mut cfg, i32::MIN));
    assert_eq!(cfg.game.resolved_minecraft_path(), "/x");
    assert!(select_dir(&mut ui, &mut cfg, 0));
    assert_eq!(cfg, config(GameConfig { minecraft_path: Some(strings(&["/mc"])), java_path: None }));
    assert_eq!((cfg.game.resolved_minecraft_path().as_str(), ui.settings.game_minecraft_path.as_str()), ("/mc", "/mc"));
}

#[test]
fn selection_survives_a_restart() {
    let versions = strings(&["1.19", "1.20.1", "1.20.1"]);
    let mut cfg = config(GameConfig::default());
    let mut ui = AppWindow { selected_instance_index: 2, ..Default::default() };
    remember_instance(&ui, &mut cfg, &versions);
    assert_eq!(cfg.launch.selected_instance, "1.20.1");
    ui.selected_instance_index = 0;
    restore_instance(&mut ui, &cfg, &versions);
    assert_eq!(ui.selected_instance_index, 1);
    ui.selected_instance_index = 9;
    remember_instance(&ui, &mut cfg, &versions);
    ui.selected_instance_index = -1;
    remember_instance(&ui, &mut cfg, &versions);
    assert_eq!(cfg.launch.selected_instance, "1.20.1");
    restore_instance(&mut ui, &cfg, &strings(&["1.18"]));
    assert_eq!(ui.selected_instance_index, -1);
    cfg.launch.selected_instance = String::new();
    restore_instance(&mut ui, &cfg, &strings(&[""]));
    assert_eq!(ui.selected_instance_index, -1);
    assert_eq!(position_of(&versions, "1.20.1"), Some(1));
    assert_eq!(position_of(&versions, "1.21"), None);
}

#[test]
fn requests_are_counted() {
    let mut state = AppState::default();
    state.active_users.push("alice".to_string());
    handle_request(&mut state);
    handle_request(&mut state);
    assert_eq!(state, AppState { request_count: 2, active_users: strings(&["alice"]) });
}
