use scl3::accounts::AccountConfig;
use scl3::config::{AppearanceConfig, AuthConfig, DownloadConfig, GameConfig, LaunchConfig, SclConfig};
use scl3::paths::{default_java_path, default_minecraft_path};
use scl3::ui_sync::{
    avatar_owner, curseforge_key, save_ui_config, set_microsoft_error, sync_config_to_ui,
    sync_ui_to_config, update_account_ui,
};
use scl3::window::{AccountPanel, AppWindow, Avatar, MicrosoftPanel};

fn config() -> SclConfig {
    SclConfig {
        game: GameConfig {
            minecraft_path: Some(vec!["/mc".to_string()]),
            java_path: Some(vec!["/jdk/bin/java".to_string()]),
        },
        download: DownloadConfig {
            source: "BMCLAPI".to_string(),
            parallel_amount: 12,
            verify_data: true,
            curseforge_api_key: "key".to_string(),
        },
        launch: LaunchConfig {
            max_mem: 4096,
            game_independent: false,
            recheck: false,
            jvm_args: "-Xss4M".to_string(),
            game_args: "--demo".to_string(),
            window_title: "MC".to_string(),
            wrapper_path: "/usr/bin/gamemoderun".to_string(),
            wrapper_args: "-v".to_string(),
            selected_instance: "1.20.1".to_string(),
        },
        appearance: AppearanceConfig { language: "en-US".to_string(), auto_check_update: false },
        auth: AuthConfig::default(),
    }
}

fn alex() -> AccountConfig {
    AccountConfig::Microsoft { player_name: "Alex".to_string(), uuid: "u2".to_string(), xuid: "x".to_string() }
}

#[test]
fn settings_show_the_configuration() {
    let mut ui = AppWindow::default();
    sync_config_to_ui(&mut ui, &config(), false, Avatar::Default);
    let s = &ui.settings;
    assert_eq!((s.game_minecraft_path.as_str(), s.game_java_path.as_str()), ("/mc", "/jdk/bin/java"));
    assert_eq!((s.download_source_index, s.download_parallel_amount), (1, 12));
    assert_eq!((s.download_verify_data, s.download_curseforge_api_key.as_str()), (true, "key"));
    assert_eq!((s.launch_max_mem, s.launch_game_independent, s.launch_recheck), (4096, false, false));
    assert_eq!((s.launch_jvm_args.as_str(), s.launch_game_args.as_str()), ("-Xss4M", "--demo"));
    assert_eq!((s.launch_window_title.as_str(), s.launch_wrapper_path.as_str()), ("MC", "/usr/bin/gamemoderun"));
    assert_eq!(s.launch_wrapper_args, "-v");
    assert_eq!((s.appearance_language_index, s.appearance_auto_check_update), (1, false));
    assert_eq!((ui.account.account_count, ui.account.current_account_index), (0, 0));
    assert_eq!(ui.account.player_name, "Player");
}

#[test]
fn settings_survive_the_window() {
    let mut ui = AppWindow::default();
    let mut after = config();
    sync_config_to_ui(&mut ui, &after, false, Avatar::Default);
    sync_ui_to_config(&ui, &mut after);
    assert_eq!(after, config());
}

#[test]
fn settings_carry_over_to_any_configuration() {
    let mut ui = AppWindow::default();
    sync_config_to_ui(&mut ui, &config(), false, Avatar::Default);
    let mut other = SclConfig {
        game: GameConfig::default(),
        download: DownloadConfig::default(),
        launch: LaunchConfig { selected_instance: "1.8.9".to_string(), ..Default::default() },
        appearance: AppearanceConfig::default(),
        auth: AuthConfig { microsoft_client_id: "id".to_string(), ..Default::default() },
    };
    sync_ui_to_config(&ui, &mut other);
    let mut expected = config();
    expected.launch.selected_instance = "1.8.9".to_string();
    expected.auth.microsoft_client_id = "id".to_string();
    assert_eq!(other, expected);
    let mut bare = config();
    bare.game = GameConfig::default();
    sync_config_to_ui(&mut ui, &bare, false, Avatar::Default);
    sync_ui_to_config(&ui, &mut bare);
    assert_eq!(bare.game.minecraft_path, Some(vec![default_minecraft_path()]));
    assert_eq!(bare.game.java_path, Some(vec![default_java_path()]));
}

#[test]
fn settings_of_the_user_show_again() {
    let mut ui = AppWindow::default();
    sync_config_to_ui(&mut ui, &config(), false, Avatar::Default);
    ui.settings.download_source_index = 0;
    ui.settings.launch_max_mem = -1;
    ui.settings.game_java_path = "/other/java".to_string();
    let mut stored = config();
    sync_ui_to_config(&ui, &mut stored);
    assert_eq!(stored.download.source, "Default");
    assert_eq!(stored.launch.max_mem, u32::MAX);
    let mut again = AppWindow::default();
    sync_config_to_ui(&mut again, &stored, false, Avatar::Default);
    assert_eq!(again.settings, ui.settings);
}

#[test]
fn values_off_the_lists_fall_back() {
    let mut config = config();
    config.download.source = "https://mirror.example.org".to_string();
    config.appearance.language = "fr-FR".to_string();
    config.game = GameConfig::default();
    let mut ui = AppWindow::default();
    sync_config_to_ui(&mut ui, &config, false, Avatar::Default);
    assert_eq!((ui.settings.download_source_index, ui.settings.appearance_language_index), (0, 0));
    assert_eq!(ui.settings.game_java_path, default_java_path());
    ui.settings.download_source_index = 7;
    ui.settings.appearance_language_index = 2;
    ui.settings.game_minecraft_path = String::new();
    sync_ui_to_config(&ui, &mut config);
    assert_eq!((config.download.source.as_str(), config.appearance.language.as_str()), ("Default", "zh-CN"));
    assert_eq!(config.game.minecraft_path, None);
    assert_eq!(config.launch.selected_instance, "1.20.1");
}

#[test]
fn numbers_wrap_like_casts() {
    let mut config = config();
    config.launch.max_mem = 3_000_000_000;
    config.download.parallel_amount = 5_000_000_000;
    let mut ui = AppWindow::default();
    sync_config_to_ui(&mut ui, &config, false, Avatar::Default);
    assert_eq!(ui.settings.launch_max_mem, 3_000_000_000u32 as i32);
    assert_eq!(ui.settings.download_parallel_amount, 5_000_000_000usize as i32);
}

#[test]
fn account_in_use_is_clamped_to_the_last() {
    let mut config = config();
    config.auth.accounts = Some(vec![alex(), alex()]);
    config.auth.selected_account_index = 9;
    let mut ui = AppWindow::default();
    sync_config_to_ui(&mut ui, &config, true, Avatar::Default);
    let expected = AccountPanel {
        account_count: 2,
        current_account_index: 1,
        player_name: "Alex".to_string(),
        login_method_type: 1,
        avatar: Avatar::Cached("u2".to_string()),
    };
    assert_eq!(ui.account, expected);
}

#[test]
fn accounts_show_their_kind_and_picture() {
    let external = AccountConfig::AuthlibInjector {
        player_name: "Eve".to_string(),
        uuid: "u3".to_string(),
        api_location: String::new(),
        server_name: String::new(),
        server_homepage: String::new(),
        server_meta: String::new(),
        username: String::new(),
    };
    let offline = AccountConfig::Offline { player_name: "Steve".to_string(), uuid: "u1".to_string() };
    assert_eq!(avatar_owner(Some(&external)), Some("u3".to_string()));
    assert_eq!(avatar_owner(Some(&offline)), None);
    assert_eq!(avatar_owner(None), None);
    let mut ui = AppWindow::default();
    update_account_ui(&mut ui, Some(&external), true, Avatar::Default);
    assert_eq!((ui.account.login_method_type, &ui.account.avatar), (2, &Avatar::Cached("u3".to_string())));
    update_account_ui(&mut ui, Some(&external), false, Avatar::Default);
    assert_eq!(ui.account.avatar, Avatar::Default);
    update_account_ui(&mut ui, Some(&offline), true, Avatar::Cached("old".to_string()));
    assert_eq!((ui.account.login_method_type, ui.account.player_name.as_str()), (0, "Steve"));
    assert_eq!(ui.account.avatar, Avatar::Cached("old".to_string()));
    update_account_ui(&mut ui, None, true, Avatar::Default);
    assert_eq!((ui.account.player_name.as_str(), ui.account.login_method_type), ("Player", 0));
}

#[test]
fn curseforge_key_is_exported_when_there_is_one() {
    assert_eq!(curseforge_key(&config()), Some("key".to_string()));
    let mut ui = AppWindow::default();
    let mut stored = config();
    assert_eq!(save_ui_config(&ui, &mut stored), None);
    assert_eq!(stored.download.curseforge_api_key, "");
    ui.settings.download_curseforge_api_key = "new".to_string();
    assert_eq!(save_ui_config(&ui, &mut stored), Some("new".to_string()));
}

#[test]
fn microsoft_errors_end_the_login() {
    let panel = |status: &str, busy: bool| MicrosoftPanel {
        status: status.to_string(),
        login_in_progress: busy,
        can_complete_login: true,
        ..Default::default()
    };
    let mut ui = AppWindow { microsoft: panel("", true), ..Default::default() };
    set_microsoft_error(&mut ui, "请先获取认证码".to_string());
    assert_eq!(ui, AppWindow { microsoft: panel("请先获取认证码", false), ..Default::default() });
}
