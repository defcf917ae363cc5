use scl3::accounts::{AccountConfig, AuthMethod, SecretEntry, SecretWrite};
use scl3::config::{AppearanceConfig, AuthConfig, DownloadConfig, GameConfig, LaunchConfig, SclConfig};
use scl3::login::{
    client_id, complete_microsoft_login, config_written, device_code_answered,
    external_login_answered, external_player_name, keep_login, login_stored,
    microsoft_login_failed, microsoft_login_stored, offline_account, prepare_login, return_to_launcher, select_instance, show_accounts, start_external_login,
    start_microsoft_login, start_offline_login, switch_account, token_refused, DeviceCode,
    LoginStored, MicrosoftLogin,
};
use scl3::navigation::Pages;
use scl3::window::{AccountPanel, AppWindow, Avatar, LoginPanel, MicrosoftPanel};

fn steve() -> AccountConfig {
    AccountConfig::Offline { player_name: "Steve".to_string(), uuid: "u1".to_string() }
}

fn alex() -> AccountConfig {
    AccountConfig::Microsoft { player_name: "Alex".to_string(), uuid: "u2".to_string(), xuid: "x".to_string() }
}

fn auth(client: &str, accounts: Vec<AccountConfig>, selected: usize) -> AuthConfig {
    AuthConfig { microsoft_client_id: client.to_string(), selected_account_index: selected, accounts: Some(accounts) }
}

fn config(auth: AuthConfig) -> SclConfig {
    SclConfig {
        game: GameConfig::default(),
        download: DownloadConfig::default(),
        launch: LaunchConfig::default(),
        appearance: AppearanceConfig::default(),
        auth,
    }
}

fn external(name: &str) -> AuthMethod {
    AuthMethod::AuthlibInjector {
        api_location: String::new(),
        server_name: String::new(),
        server_homepage: String::new(),
        server_meta: String::new(),
        access_token: String::new(),
        uuid: "u3".to_string(),
        player_name: name.to_string(),
        head_skin: vec![],
        hat_skin: vec![],
    }
}

fn says(status: &str, in_progress: bool) -> AppWindow {
    AppWindow { login: LoginPanel { status: status.to_string(), in_progress }, ..Default::default() }
}

#[test]
fn external_login_asks_for_what_is_missing() {
    let cases = [
        ("", "", "", "请输入认证服务器地址"),
        ("https://s", "", "p", "请输入邮箱地址"),
        ("https://s", "a@b", "", "请输入密码"),
    ];
    for (server, email, password, status) in cases {
        let mut ui = AppWindow::default();
        assert!(!start_external_login(&mut ui, server, email, password));
        assert_eq!(ui, says(status, false));
    }
    let mut ui = AppWindow::default();
    assert!(start_external_login(&mut ui, "https://s", "a@b", "p"));
    assert_eq!(ui, says("正在登录...", true));
}

#[test]
fn external_answer_gives_the_first_character() {
    let mut ui = says("正在登录...", true);
    let method = external_login_answered(&mut ui, Ok(vec![external("Eve"), external("Bob")]));
    assert_eq!(method, Some(external("Eve")));
    assert_eq!(ui, says("正在登录...", false));
    let mut ui = says("正在登录...", true);
    assert_eq!(external_login_answered(&mut ui, Ok(vec![])), None);
    assert_eq!(ui, says("该账户没有可用的角色", false));
    let mut ui = says("正在登录...", true);
    assert_eq!(external_login_answered(&mut ui, Err("403".to_string())), None);
    assert_eq!(ui, says("登录失败: 403", false));
    assert_eq!(external_player_name(&external("Eve")), "Eve");
    let offline = AuthMethod::Offline { player_name: "Steve".to_string(), uuid: String::new() };
    assert_eq!(external_player_name(&offline), "");
}

#[test]
fn login_selects_the_last_account() {
    let mut new = auth("", vec![steve()], 0);
    new.store_login(alex());
    assert_eq!(new, auth("", vec![steve(), alex()], 1));
    assert_eq!(new.current_account(), Some(&alex()));
    let mut again = auth("", vec![steve(), alex()], 1);
    again.store_login(steve());
    assert_eq!(again, auth("", vec![steve(), alex()], 1));
    let mut first = AuthConfig::default();
    first.store_login(steve());
    assert_eq!(first, auth("", vec![steve()], 0));
}

#[test]
fn stored_login_is_shown() {
    let stored = auth("", vec![steve(), alex()], 1);
    let mut ui = AppWindow::default();
    assert!(login_stored(&mut ui, &stored, LoginStored::Done, "Alex", true));
    let account = AccountPanel {
        account_count: 2,
        current_account_index: 1,
        player_name: "Alex".to_string(),
        login_method_type: 1,
        avatar: Avatar::Cached("u2".to_string()),
    };
    let expected = AppWindow { account, ..says("登录成功: Alex", false) };
    assert_eq!(ui, expected);
    let mut ui = AppWindow::default();
    assert!(!login_stored(&mut ui, &stored, LoginStored::AccountFailed("locked".to_string()), "Alex", true));
    assert_eq!(ui, says("保存账户失败: locked", false));
    let mut ui = AppWindow::default();
    assert!(!login_stored(&mut ui, &stored, LoginStored::ConfigFailed("disk".to_string()), "Alex", true));
    assert_eq!(ui, says("保存配置失败: disk", false));
}

#[test]
fn picture_in_view_stays_without_a_cached_one() {
    let mut ui = AppWindow::default();
    ui.account.avatar = Avatar::Cached("before".to_string());
    show_accounts(&mut ui, &auth("", vec![alex()], 0), false);
    assert_eq!(ui.account.avatar, Avatar::Cached("before".to_string()));
    assert_eq!((ui.account.account_count, ui.account.player_name.as_str()), (1, "Alex"));
}

#[test]
fn window_returns_to_the_launcher() {
    let pages = Pages {
        launcher: 4,
        dir_manage: 1,
        game_download: 2,
        settings: 3,
        login: 0,
        microsoft_login: 5,
        version_choose: 6,
        mod_detail: 7,
    };
    let mut ui = AppWindow::default();
    return_to_launcher(&mut ui, &pages);
    assert_eq!(ui.page_index, 4);
}

#[test]
fn offline_login_needs_a_name() {
    let mut ui = AppWindow::default();
    assert!(!start_offline_login(&mut ui, ""));
    assert_eq!(ui, says("请输入玩家名称", false));
    let mut ui = AppWindow::default();
    assert!(start_offline_login(&mut ui, "Steve"));
    assert_eq!(ui, AppWindow::default());
    assert_eq!(offline_account("Steve", "u1".to_string()), steve());
}

#[test]
fn client_id_is_trimmed() {
    assert_eq!(client_id(&auth("  app-id\n", vec![], 0)), Some("app-id".to_string()));
    assert_eq!(client_id(&auth(" \t", vec![], 0)), None);
}

fn microsoft(status: &str, in_progress: bool, can_complete: bool, code: &str) -> MicrosoftPanel {
    MicrosoftPanel {
        status: status.to_string(),
        login_in_progress: in_progress,
        can_complete_login: can_complete,
        device_code: code.to_string(),
        ..Default::default()
    }
}

const NO_CLIENT: &str = "配置中未设置 Azure AD Client ID，请在 scl3.toml 中配置";

#[test]
fn microsoft_login_starts_with_a_client_id() {
    let mut ui = AppWindow::default();
    assert_eq!(start_microsoft_login(&mut ui, &auth(" ", vec![], 0)), None);
    assert_eq!(ui.microsoft, microsoft(NO_CLIENT, false, false, ""));
    let mut ui = AppWindow { microsoft: microsoft("", false, true, "old"), ..Default::default() };
    ui.microsoft.user_code = "OLD".to_string();
    assert_eq!(start_microsoft_login(&mut ui, &auth("id", vec![], 0)), Some("id".to_string()));
    assert_eq!(ui.microsoft, microsoft("正在向 Microsoft 请求设备码...", true, false, "old"));
}

fn code(message: &str) -> DeviceCode {
    DeviceCode {
        user_code: "ABC".to_string(),
        device_code: "dev".to_string(),
        verification_uri: "https://ms".to_string(),
        message: message.to_string(),
    }
}

#[test]
fn device_code_is_explained() {
    let mut ui = AppWindow::default();
    device_code_answered(&mut ui, Ok(code("")));
    assert_eq!(ui.microsoft.message, "请打开 https://ms 并输入代码 ABC");
    assert_eq!((ui.microsoft.user_code.as_str(), ui.microsoft.device_code.as_str()), ("ABC", "dev"));
    assert_eq!(ui.microsoft.verification_uri, "https://ms");
    assert_eq!(ui.microsoft.status, "请在浏览器中完成验证，然后点击完成登录");
    assert!(ui.microsoft.can_complete_login && !ui.microsoft.login_in_progress);
    device_code_answered(&mut ui, Ok(code("go there")));
    assert_eq!(ui.microsoft.message, "go there");
    let mut ui = AppWindow { microsoft: microsoft("", true, true, ""), ..Default::default() };
    device_code_answered(&mut ui, Err("offline".to_string()));
    assert_eq!(ui.microsoft, microsoft("获取认证码失败: offline", false, false, ""));
}

#[test]
fn microsoft_login_is_completed_with_a_code() {
    let mut ui = AppWindow::default();
    assert_eq!(complete_microsoft_login(&mut ui, &auth("", vec![], 0)), None);
    assert_eq!(ui.microsoft, microsoft(NO_CLIENT, false, false, ""));
    let mut ui = AppWindow::default();
    assert_eq!(complete_microsoft_login(&mut ui, &auth("id", vec![], 0)), None);
    assert_eq!(ui.microsoft, microsoft("请先获取认证码", false, false, ""));
    let mut ui = AppWindow { microsoft: microsoft("", false, true, "dev"), ..Default::default() };
    let login = MicrosoftLogin { client_id: "id".to_string(), device_code: "dev".to_string() };
    assert_eq!(complete_microsoft_login(&mut ui, &auth("id", vec![], 0)), Some(login));
    assert_eq!(ui.microsoft, microsoft("正在验证 Microsoft 登录结果...", true, true, "dev"));
    assert_eq!(token_refused(""), None);
    assert_eq!(token_refused("expired_token"), Some("Microsoft 返回错误: expired_token".to_string()));
}

#[test]
fn microsoft_login_may_be_tried_again() {
    let mut ui = AppWindow { microsoft: microsoft("", true, false, "dev"), ..Default::default() };
    microsoft_login_failed(&mut ui, "pending");
    assert_eq!(ui.microsoft, microsoft("登录失败: pending", false, true, "dev"));
}

#[test]
fn stored_microsoft_login_is_shown() {
    let method = AuthMethod::Microsoft {
        access_token: String::new(),
        refresh_token: String::new(),
        uuid: "u2".to_string(),
        xuid: "x".to_string(),
        player_name: "Alex".to_string(),
        head_skin: vec![],
        hat_skin: vec![],
    };
    let stored = auth("id", vec![alex()], 0);
    let busy = || AppWindow { microsoft: microsoft("", true, true, "dev"), ..Default::default() };
    let mut ui = busy();
    assert!(microsoft_login_stored(&mut ui, &stored, LoginStored::Done, &method, false));
    assert_eq!(ui.microsoft, microsoft("登录成功: Alex", false, false, "dev"));
    assert_eq!((ui.account.account_count, ui.account.login_method_type), (1, 1));
    let mut ui = busy();
    assert!(microsoft_login_stored(&mut ui, &stored, LoginStored::Done, &external("Eve"), false));
    assert_eq!(ui.microsoft.status, "登录成功");
    let mut ui = busy();
    assert!(!microsoft_login_stored(&mut ui, &stored, LoginStored::AccountFailed("e".to_string()), &method, false));
    assert_eq!(ui.microsoft, microsoft("保存账户密钥失败: e", false, true, "dev"));
    let mut ui = busy();
    assert!(!microsoft_login_stored(&mut ui, &stored, LoginStored::ConfigFailed("e".to_string()), &method, false));
    assert_eq!(ui.microsoft, microsoft("保存配置失败: e", false, true, "dev"));
}

#[test]
fn accounts_are_switched() {
    let mut ui = AppWindow::default();
    ui.account.account_count = 2;
    let mut cfg = config(auth("", vec![steve(), alex()], 0));
    assert!(switch_account(&ui, &mut cfg, 1));
    assert_eq!(cfg.auth.current_account(), Some(&alex()));
    assert!(!switch_account(&ui, &mut cfg, 2));
    assert_eq!(cfg, config(auth("", vec![steve(), alex()], 1)));
    assert!(switch_account(&ui, &mut cfg, -1));
    assert_eq!(cfg.auth.selected_account_index, usize::MAX);
    assert_eq!(cfg.auth.current_account(), Some(&alex()));
}

#[test]
fn selected_instance_is_remembered() {
    let mut cfg = config(AuthConfig::default());
    select_instance(&mut cfg, "1.20.1-forge");
    assert_eq!(cfg.launch.selected_instance, "1.20.1-forge");
}

#[test]
fn secrets_are_stored_before_accounts() {
    let (account, write) = prepare_login(&external("Eve"), Some("eve"), Some("pw")).unwrap();
    let entry = SecretEntry { service: "scl3".to_string(), key: "authlib:u3".to_string() };
    assert_eq!(write, Some(SecretWrite { entry, secret: "pw".to_string() }));
    let before = || auth("", vec![steve()], 0);
    let mut kept = before();
    let failed = keep_login(&mut kept, account.clone(), Err("locked".to_string()));
    assert_eq!(failed, Some(LoginStored::AccountFailed("locked".to_string())));
    assert_eq!(kept, before());
    assert_eq!(keep_login(&mut kept, account.clone(), Ok(())), None);
    assert_eq!(kept, auth("", vec![steve(), account], 1));
    assert_eq!(config_written(Ok(())), LoginStored::Done);
    assert_eq!(config_written(Err("full".to_string())), LoginStored::ConfigFailed("full".to_string()));
}

#[test]
fn logins_that_cannot_be_kept_say_why() {
    let failed = |message: &str| Err(LoginStored::AccountFailed(message.to_string()));
    assert_eq!(prepare_login(&external("Eve"), Some("eve"), None), failed("外置登录需要提供密码"));
    assert_eq!(prepare_login(&external("Eve"), None, Some("pw")), failed("不支持的登录方式"));
}
