//! Logging in, and choosing among the accounts.

use vstd::prelude::*;
use crate::accounts::{AccountConfig, AccountError, AuthMethod, SecretWrite};
use crate::config::{place_of, with_account, AuthConfig, SclConfig};
use crate::navigation::Pages;
use crate::text::{joined, joined3, trim, trimmed};
use crate::ui_sync::{set_microsoft_error, update_account_ui};
use crate::window::{AccountPanel, AppWindow, LoginPanel, MicrosoftPanel};

verus! {

impl AppWindow {
    /// Whether `after` is this window with another word on the login page, and
    /// nothing else changed.
    pub open spec fn login_says(self, after: AppWindow, status: Seq<char>) -> bool {
        &&& after == (AppWindow {
            login: (LoginPanel { status: after.login.status, ..self.login }),
            ..self
        })
        &&& after.login.status@ == status
    }
}

impl AccountPanel {
    /// Whether `after` is this panel once its accounts are those of the
    /// configuration. Where no picture of the current player is in the cache, the
    /// one in view stays.
    pub open spec fn lists(self, after: AccountPanel, auth: AuthConfig, has_picture: bool) -> bool {
        (AccountPanel {
            account_count: auth.known().len() as i32,
            current_account_index: auth.selected_account_index as i32,
            ..self
        }).shows(
            after,
            if auth.known().len() == 0 {
                None
            } else {
                Some(auth.known()[auth.current()])
            },
            has_picture,
            self.avatar,
        )
    }
}

/// Puts a word on the login page.
fn say(ui: &mut AppWindow, status: String)
    ensures
        old(ui).login_says(*final(ui), status@),
{
    ui.login.status = status;
}

/// Shows the accounts of the configuration. `has_picture` tells whether a picture of
/// the current account's owner is in the cache.
pub fn show_accounts(ui: &mut AppWindow, auth: &AuthConfig, has_picture: bool)
    ensures
        *final(ui) == (AppWindow { account: final(ui).account, ..*old(ui) }),
        old(ui).account.lists(final(ui).account, *auth, has_picture),
{
    ui.account.account_count = auth.account_count() as i32;
    ui.account.current_account_index = auth.selected_account_index as i32;
    let avatar = ui.account.avatar.clone();
    update_account_ui(ui, auth.current_account(), has_picture, avatar);
}

impl AuthConfig {
    /// Whether `after` is this configuration once an account has been logged in to:
    /// the account is stored, and the last of all accounts is selected.
    pub open spec fn logs_in(self, after: AuthConfig, account: AccountConfig) -> bool {
        &&& after.known() == with_account(self.known(), account)
        &&& after.selected_account_index == after.known().len() - 1
        &&& after.microsoft_client_id == self.microsoft_client_id
    }

    /// Stores the account of a login, and selects the last account.
    pub fn store_login(&mut self, account: AccountConfig)
        ensures
            old(self).logs_in(*final(self), account),
    {
        self.upsert_account(account);
        proof {
            crate::config::law_other_accounts_stay(old(self).known(), account);
        }
        self.selected_account_index = self.account_count() - 1;
    }
}

/// After a login to an account that is new, or the last in the list, that account is
/// the one in use.
pub proof fn law_login_is_in_use(before: AuthConfig, account: AccountConfig, after: AuthConfig)
    requires
        before.logs_in(after, account),
        match place_of(before.known(), account) {
            Some(place) => place == before.known().len() - 1,
            None => true,
        },
    ensures
        after.known().len() > 0,
        after.known()[after.current()] == account,
{
}

/// After any login the account in use is the last in the list.
pub proof fn law_login_selects_last(before: AuthConfig, account: AccountConfig, after: AuthConfig)
    requires
        before.logs_in(after, account),
    ensures
        after.known().len() > 0,
        after.known()[after.current()] == after.known().last(),
{
    crate::config::law_other_accounts_stay(before.known(), account);
}

/// What the user still has to fill in before an external login.
pub open spec fn missing_field(
    server: Seq<char>,
    email: Seq<char>,
    password: Seq<char>,
) -> Option<Seq<char>> {
    if server.len() == 0 {
        Some("请输入认证服务器地址"@)
    } else if email.len() == 0 {
        Some("请输入邮箱地址"@)
    } else if password.len() == 0 {
        Some("请输入密码"@)
    } else {
        None
    }
}

/// Starts an external login, or asks for what is missing. Tells whether the server
/// is to be asked.
pub fn start_external_login(ui: &mut AppWindow, server: &str, email: &str, password: &str) -> (started:
    bool)
    ensures
        started == (missing_field(server@, email@, password@) is None),
        match missing_field(server@, email@, password@) {
            Some(message) => old(ui).login_says(*final(ui), message),
            None => {
                &&& *final(ui) == (AppWindow { login: final(ui).login, ..*old(ui) })
                &&& final(ui).login.status@ == "正在登录..."@
                &&& final(ui).login.in_progress
            },
        },
{
    if server.is_empty() {
        say(ui, "请输入认证服务器地址".to_string());
        return false;
    }
    if email.is_empty() {
        say(ui, "请输入邮箱地址".to_string());
        return false;
    }
    if password.is_empty() {
        say(ui, "请输入密码".to_string());
        return false;
    }
    ui.login.status = "正在登录...".to_string();
    ui.login.in_progress = true;
    true
}

/// What an external server's answer amounts to for the user: the message where the
/// login ends with it.
pub open spec fn refusal(answer: Result<Vec<AuthMethod>, String>) -> Option<Seq<char>> {
    match answer {
        Ok(methods) => if methods@.len() == 0 {
            Some("该账户没有可用的角色"@)
        } else {
            None
        },
        Err(error) => Some("登录失败: "@ + error@),
    }
}

/// Takes an external server's answer: the first of the user's characters, if there
/// is one.
pub fn external_login_answered(
    ui: &mut AppWindow,
    answer: Result<Vec<AuthMethod>, String>,
) -> (method: Option<AuthMethod>)
    ensures
        *final(ui) == (AppWindow { login: final(ui).login, ..*old(ui) }),
        !final(ui).login.in_progress,
        match refusal(answer) {
            Some(message) => method is None && final(ui).login.status@ == message,
            None => method == Some(answer->Ok_0@[0]) && final(ui).login.status
                == old(ui).login.status,
        },
{
    ui.login.in_progress = false;
    match answer {
        Ok(methods) => {
            let mut methods = methods;
            if methods.len() == 0 {
                say(ui, "该账户没有可用的角色".to_string());
                None
            } else {
                Some(methods.swap_remove(0))
            }
        },
        Err(error) => {
            say(ui, joined("登录失败: ", error.as_str()));
            None
        },
    }
}

/// The name that an external login greets: only external players have one.
pub open spec fn external_name(method: AuthMethod) -> Seq<char> {
    match method {
        AuthMethod::AuthlibInjector { player_name, .. } => player_name@,
        _ => ""@,
    }
}

/// The name of the player who logged in to an external server.
pub fn external_player_name(method: &AuthMethod) -> (name: String)
    ensures
        name@ == external_name(*method),
{
    match method {
        AuthMethod::AuthlibInjector { player_name, .. } => player_name.clone(),
        _ => "".to_string(),
    }
}

/// How storing a login went.
#[derive(Debug, PartialEq, Eq)]
pub enum LoginStored {
    /// The account is in the configuration, and the configuration in its file.
    Done,
    /// The account or its secret could not be stored.
    AccountFailed(String),
    /// The configuration could not be written.
    ConfigFailed(String),
}

/// Splits a login into the account to keep and the secret to store first, or tells why
/// neither can be.
pub fn prepare_login(
    method: &AuthMethod,
    username: Option<&str>,
    password: Option<&str>,
) -> (prepared: Result<(AccountConfig, Option<SecretWrite>), LoginStored>)
    ensures
        match prepared {
            Ok(split) => AccountConfig::is_split(*method, username, password, Ok(split)),
            Err(LoginStored::AccountFailed(message)) => exists|error: AccountError|
                AccountConfig::is_split(*method, username, password, Err(error)) && message@
                    == #[trigger] error.text(),
            Err(_) => false,
        },
{
    match AccountConfig::save_account(method, username, password) {
        Ok(split) => Ok(split),
        Err(error) => Err(LoginStored::AccountFailed(error.message())),
    }
}

/// Keeps the account of a login, once it is known how storing its secret went: without
/// its secret no account is kept. Gives how the login ended where it ended with that;
/// otherwise the configuration is to be written.
pub fn keep_login(
    auth: &mut AuthConfig,
    account: AccountConfig,
    secret_stored: Result<(), String>,
) -> (failed: Option<LoginStored>)
    ensures
        match secret_stored {
            Ok(_) => failed is None && old(auth).logs_in(*final(auth), account),
            Err(error) => failed == Some(LoginStored::AccountFailed(error)) && *final(auth)
                == *old(auth),
        },
{
    match secret_stored {
        Ok(_) => {
            auth.store_login(account);
            None
        },
        Err(error) => Some(LoginStored::AccountFailed(error)),
    }
}

/// How a login ended whose account is kept, given how writing the configuration went.
pub fn config_written(written: Result<(), String>) -> (stored: LoginStored)
    ensures
        stored == match written {
            Ok(_) => LoginStored::Done,
            Err(error) => LoginStored::ConfigFailed(error),
        },
{
    match written {
        Ok(_) => LoginStored::Done,
        Err(error) => LoginStored::ConfigFailed(error),
    }
}

/// Shows how an offline or external login ended. Tells whether the window is to
/// return to the first page.
pub fn login_stored(
    ui: &mut AppWindow,
    auth: &AuthConfig,
    stored: LoginStored,
    player_name: &str,
    has_picture: bool,
) -> (done: bool)
    ensures
        done == (stored is Done),
        match stored {
            LoginStored::Done => {
                &&& *final(ui) == (AppWindow {
                    account: final(ui).account,
                    login: (LoginPanel { status: final(ui).login.status, ..old(ui).login }),
                    ..*old(ui)
                })
                &&& old(ui).account.lists(final(ui).account, *auth, has_picture)
                &&& final(ui).login.status@ == "登录成功: "@ + player_name@
            },
            LoginStored::AccountFailed(error) => old(ui).login_says(
                *final(ui),
                "保存账户失败: "@ + error@,
            ),
            LoginStored::ConfigFailed(error) => old(ui).login_says(
                *final(ui),
                "保存配置失败: "@ + error@,
            ),
        },
{
    match stored {
        LoginStored::Done => {
            show_accounts(ui, auth, has_picture);
            say(ui, joined("登录成功: ", player_name));
            true
        },
        LoginStored::AccountFailed(error) => {
            say(ui, joined("保存账户失败: ", error.as_str()));
            false
        },
        LoginStored::ConfigFailed(error) => {
            say(ui, joined("保存配置失败: ", error.as_str()));
            false
        },
    }
}

/// Turns to the first page, as the window does a moment after a login.
pub fn return_to_launcher(ui: &mut AppWindow, pages: &Pages)
    ensures
        old(ui).turns_to(*final(ui), pages.launcher),
{
    ui.page_index = pages.launcher;
}

/// Starts an offline login, or asks for the name. Tells whether there is one.
pub fn start_offline_login(ui: &mut AppWindow, username: &str) -> (started: bool)
    ensures
        started == (username@.len() > 0),
        if started {
            *final(ui) == *old(ui)
        } else {
            old(ui).login_says(*final(ui), "请输入玩家名称"@)
        },
{
    if username.is_empty() {
        say(ui, "请输入玩家名称".to_string());
        return false;
    }
    true
}

/// The account of an offline player.
pub fn offline_account(username: &str, uuid: String) -> (account: AccountConfig)
    ensures
        account is Offline,
        account->Offline_player_name@ == username@,
        account->Offline_uuid == uuid,
{
    AccountConfig::Offline { player_name: username.to_string(), uuid }
}

/// The launcher's identity at Microsoft, if one is configured.
pub open spec fn client_id_of(auth: AuthConfig) -> Option<Seq<char>> {
    let id = trimmed(auth.microsoft_client_id@);
    if id.len() > 0 {
        Some(id)
    } else {
        None
    }
}

/// The launcher's identity at Microsoft, without the white space around it.
pub fn client_id(auth: &AuthConfig) -> (id: Option<String>)
    ensures
        match id {
            Some(id) => client_id_of(*auth) == Some(id@),
            None => client_id_of(*auth) is None,
        },
{
    let id = trim(auth.microsoft_client_id.as_str());
    if id.as_str().is_empty() {
        None
    } else {
        Some(id)
    }
}

/// Starts a Microsoft login: forgets the last one's codes, and gives the identity
/// under which a device code is to be asked for.
pub fn start_microsoft_login(ui: &mut AppWindow, auth: &AuthConfig) -> (client: Option<String>)
    ensures
        match client {
            Some(client) => {
                &&& client_id_of(*auth) == Some(client@)
                &&& *final(ui) == (AppWindow { microsoft: final(ui).microsoft, ..*old(ui) })
                &&& final(ui).microsoft.verification_uri@ == ""@
                &&& final(ui).microsoft.user_code@ == ""@
                &&& final(ui).microsoft.message@ == ""@
                &&& final(ui).microsoft.status@ == "正在向 Microsoft 请求设备码..."@
                &&& final(ui).microsoft.login_in_progress
                &&& !final(ui).microsoft.can_complete_login
                &&& final(ui).microsoft.device_code == old(ui).microsoft.device_code
            },
            None => {
                &&& client_id_of(*auth) is None
                &&& old(ui).shows_microsoft_error(
                    *final(ui),
                    "配置中未设置 Azure AD Client ID，请在 scl3.toml 中配置"@,
                )
            },
        },
{
    match client_id(auth) {
        Some(client) => {
            ui.microsoft.verification_uri = "".to_string();
            ui.microsoft.user_code = "".to_string();
            ui.microsoft.message = "".to_string();
            ui.microsoft.status = "正在向 Microsoft 请求设备码...".to_string();
            ui.microsoft.login_in_progress = true;
            ui.microsoft.can_complete_login = false;
            Some(client)
        },
        None => {
            set_microsoft_error(
                ui,
                "配置中未设置 Azure AD Client ID，请在 scl3.toml 中配置".to_string(),
            );
            None
        },
    }
}

/// A device code: what the user enters in a browser, and what the launcher asks with
/// afterwards.
#[derive(Debug, PartialEq, Eq)]
pub struct DeviceCode {
    pub user_code: String,
    pub device_code: String,
    pub verification_uri: String,
    pub message: String,
}

/// What the user is told to do with a device code: Microsoft's own words, where it
/// sent any.
pub open spec fn instructions(code: DeviceCode) -> Seq<char> {
    if code.message@.len() == 0 {
        "请打开 "@ + code.verification_uri@ + (" 并输入代码 "@ + code.user_code@)
    } else {
        code.message@
    }
}

/// Shows a device code, or why there is none.
pub fn device_code_answered(ui: &mut AppWindow, answer: Result<DeviceCode, String>)
    ensures
        match answer {
            Ok(code) => {
                &&& *final(ui) == (AppWindow { microsoft: final(ui).microsoft, ..*old(ui) })
                &&& final(ui).microsoft.verification_uri == code.verification_uri
                &&& final(ui).microsoft.user_code == code.user_code
                &&& final(ui).microsoft.device_code == code.device_code
                &&& final(ui).microsoft.message@ == instructions(code)
                &&& final(ui).microsoft.status@ == "请在浏览器中完成验证，然后点击完成登录"@
                &&& !final(ui).microsoft.login_in_progress
                &&& final(ui).microsoft.can_complete_login
            },
            Err(error) => {
                &&& *final(ui) == (AppWindow {
                    microsoft: (MicrosoftPanel {
                        status: final(ui).microsoft.status,
                        login_in_progress: false,
                        can_complete_login: false,
                        ..old(ui).microsoft
                    }),
                    ..*old(ui)
                })
                &&& final(ui).microsoft.status@ == "获取认证码失败: "@ + error@
            },
        },
{
    match answer {
        Ok(code) => {
            let message = if code.message.as_str().is_empty() {
                let entered = joined(" 并输入代码 ", code.user_code.as_str());
                joined3("请打开 ", code.verification_uri.as_str(), entered.as_str())
            } else {
                code.message
            };
            ui.microsoft.verification_uri = code.verification_uri;
            ui.microsoft.user_code = code.user_code;
            ui.microsoft.message = message;
            ui.microsoft.status = "请在浏览器中完成验证，然后点击完成登录".to_string();
            ui.microsoft.login_in_progress = false;
            ui.microsoft.can_complete_login = true;
            ui.microsoft.device_code = code.device_code;
        },
        Err(error) => {
            ui.microsoft.can_complete_login = false;
            set_microsoft_error(ui, joined("获取认证码失败: ", error.as_str()));
        },
    }
}

/// What a Microsoft login is completed with.
#[derive(Debug, PartialEq, Eq)]
pub struct MicrosoftLogin {
    pub client_id: String,
    pub device_code: String,
}

/// Why a Microsoft login cannot be completed yet, if it cannot.
pub open spec fn not_ready(auth: AuthConfig, device_code: Seq<char>) -> Option<Seq<char>> {
    if client_id_of(auth) is None {
        Some("配置中未设置 Azure AD Client ID，请在 scl3.toml 中配置"@)
    } else if device_code.len() == 0 {
        Some("请先获取认证码"@)
    } else {
        None
    }
}

/// Goes on with a Microsoft login once the user has entered the code.
pub fn complete_microsoft_login(ui: &mut AppWindow, auth: &AuthConfig) -> (login: Option<
    MicrosoftLogin,
>)
    ensures
        match not_ready(*auth, old(ui).microsoft.device_code@) {
            Some(message) => login is None && old(ui).shows_microsoft_error(*final(ui), message),
            None => {
                &&& login matches Some(login) && client_id_of(*auth) == Some(login.client_id@)
                    && login.device_code == old(ui).microsoft.device_code
                &&& *final(ui) == (AppWindow {
                    microsoft: (MicrosoftPanel {
                        status: final(ui).microsoft.status,
                        login_in_progress: true,
                        ..old(ui).microsoft
                    }),
                    ..*old(ui)
                })
                &&& final(ui).microsoft.status@ == "正在验证 Microsoft 登录结果..."@
            },
        },
{
    match client_id(auth) {
        Some(client_id) => {
            let device_code = ui.microsoft.device_code.clone();
            if device_code.as_str().is_empty() {
                set_microsoft_error(ui, "请先获取认证码".to_string());
                return None;
            }
            ui.microsoft.status = "正在验证 Microsoft 登录结果...".to_string();
            ui.microsoft.login_in_progress = true;
            Some(MicrosoftLogin { client_id, device_code })
        },
        None => {
            set_microsoft_error(
                ui,
                "配置中未设置 Azure AD Client ID，请在 scl3.toml 中配置".to_string(),
            );
            None
        },
    }
}

/// Whether Microsoft refused the device code: the refusal, where it sent one.
pub fn token_refused(error: &str) -> (refused: Option<String>)
    ensures
        match refused {
            Some(message) => error@.len() > 0 && message@ == "Microsoft 返回错误: "@ + error@,
            None => error@.len() == 0,
        },
{
    if error.is_empty() {
        None
    } else {
        Some(joined("Microsoft 返回错误: ", error))
    }
}

/// Shows that a Microsoft login failed; the user may try to complete it again.
pub fn microsoft_login_failed(ui: &mut AppWindow, error: &str)
    ensures
        *final(ui) == (AppWindow {
            microsoft: (MicrosoftPanel {
                status: final(ui).microsoft.status,
                login_in_progress: false,
                can_complete_login: true,
                ..old(ui).microsoft
            }),
            ..*old(ui)
        }),
        final(ui).microsoft.status@ == "登录失败: "@ + error@,
{
    ui.microsoft.login_in_progress = false;
    ui.microsoft.can_complete_login = true;
    ui.microsoft.status = joined("登录失败: ", error);
}

/// How a Microsoft login that worked greets the player.
pub open spec fn greeting(method: AuthMethod) -> Seq<char> {
    match method {
        AuthMethod::Microsoft { player_name, .. } => "登录成功: "@ + player_name@,
        _ => "登录成功"@,
    }
}

/// Shows how a Microsoft login ended. Tells whether the window is to return to the
/// first page.
pub fn microsoft_login_stored(
    ui: &mut AppWindow,
    auth: &AuthConfig,
    stored: LoginStored,
    method: &AuthMethod,
    has_picture: bool,
) -> (done: bool)
    ensures
        done == (stored is Done),
        match stored {
            LoginStored::Done => {
                &&& *final(ui) == (AppWindow {
                    account: final(ui).account,
                    microsoft: (MicrosoftPanel {
                        status: final(ui).microsoft.status,
                        login_in_progress: false,
                        can_complete_login: false,
                        ..old(ui).microsoft
                    }),
                    ..*old(ui)
                })
                &&& old(ui).account.lists(final(ui).account, *auth, has_picture)
                &&& final(ui).microsoft.status@ == greeting(*method)
            },
            LoginStored::AccountFailed(error) => old(ui).shows_microsoft_error(
                *final(ui),
                "保存账户密钥失败: "@ + error@,
            ),
            LoginStored::ConfigFailed(error) => old(ui).shows_microsoft_error(
                *final(ui),
                "保存配置失败: "@ + error@,
            ),
        },
{
    match stored {
        LoginStored::Done => {
            show_accounts(ui, auth, has_picture);
            ui.microsoft.status = match method {
                AuthMethod::Microsoft { player_name, .. } => joined(
                    "登录成功: ",
                    player_name.as_str(),
                ),
                _ => "登录成功".to_string(),
            };
            ui.microsoft.login_in_progress = false;
            ui.microsoft.can_complete_login = false;
            true
        },
        LoginStored::AccountFailed(error) => {
            set_microsoft_error(ui, joined("保存账户密钥失败: ", error.as_str()));
            false
        },
        LoginStored::ConfigFailed(error) => {
            set_microsoft_error(ui, joined("保存配置失败: ", error.as_str()));
            false
        },
    }
}

/// Selects another account. The entry after the last account is no account, and
/// selects none. Tells whether the window is to show the account in use anew.
pub fn switch_account(ui: &AppWindow, config: &mut SclConfig, index: i32) -> (selected: bool)
    ensures
        selected == (index != ui.account.account_count),
        *final(config) == if selected {
            (SclConfig {
                auth: (AuthConfig { selected_account_index: index as usize, ..old(config).auth }),
                ..*old(config)
            })
        } else {
            *old(config)
        },
{
    if index == ui.account.account_count {
        return false;
    }
    config.auth.selected_account_index = index as usize;
    true
}

/// Selecting an account that the window lists makes it the one in use.
pub proof fn law_listed_account_is_in_use(auth: AuthConfig, index: i32)
    requires
        0 <= index < auth.known().len(),
        auth.selected_account_index == index as usize,
    ensures
        auth.current() == index,
{
}

/// Remembers the version that the user selected.
pub fn select_instance(config: &mut SclConfig, name: &str)
    ensures
        final(config).launch.selected_instance@ == name@,
        *final(config) == (SclConfig {
            launch: (crate::config::LaunchConfig {
                selected_instance: final(config).launch.selected_instance,
                ..old(config).launch
            }),
            ..*old(config)
        }),
{
    config.launch.selected_instance = name.to_string();
}

} // verus!
