//! What holds of logging in.

use vstd::prelude::*;
use crate::accounts::{AccountConfig, AuthMethod};
use crate::config::AuthConfig;
use crate::login::{
    client_id_of, external_name, greeting, instructions, missing_field, not_ready, refusal,
    DeviceCode,
};
use crate::text::trimmed;
use crate::window::{AccountPanel, AppWindow, Avatar, LoginPanel, MicrosoftPanel};

verus! {

/// A login leaves its account in the list, with the last account selected, and every
/// entry of another account where it was.
pub proof fn law_login_is_in_the_list(
    before: AuthConfig,
    account: AccountConfig,
    after: AuthConfig,
)
    requires
        before.logs_in(after, account),
    ensures
        after.accounts is Some,
        after.accounts->0@.contains(account),
        after.selected_account_index == after.accounts->0@.len() - 1,
        after.microsoft_client_id == before.microsoft_client_id,
        before.accounts is None ==> after.accounts->0@ == seq![account],
        before.accounts matches Some(accounts) ==> {
            &&& accounts@.len() <= after.accounts->0@.len() <= accounts@.len() + 1
            &&& forall|i: int|
                0 <= i < accounts@.len() && !(#[trigger] accounts@[i]).is_same(account)
                    ==> after.accounts->0@[i] == accounts@[i]
            &&& (forall|i: int|
                0 <= i < accounts@.len() ==> !(#[trigger] accounts@[i]).is_same(account))
                ==> after.accounts->0@ == accounts@.push(account)
        },
{
    crate::config::law_other_accounts_stay(before.known(), account);
    if forall|i: int|
        0 <= i < before.known().len() ==> !(#[trigger] before.known()[i]).is_same(account) {
        crate::laws::config::law_account_takes_its_place(
            before.known(),
            account,
            before.known().len() as int,
        );
        assert(after.known() =~= before.known().push(account));
    }
}

/// The window shows how many accounts there are, which is selected, and of the one in
/// use the player's name, the kind and the picture.
pub proof fn law_account_in_use_is_shown(
    before: AccountPanel,
    after: AccountPanel,
    auth: AuthConfig,
    accounts: Seq<AccountConfig>,
    has_picture: bool,
)
    requires
        before.lists(after, auth, has_picture),
        auth.accounts is Some,
        accounts == auth.accounts->0@,
        auth.selected_account_index < accounts.len(),
    ensures
        after.account_count == accounts.len() as i32,
        after.current_account_index == auth.selected_account_index as i32,
        match accounts[auth.selected_account_index as int] {
            AccountConfig::Offline { player_name, .. } => {
                &&& after.player_name@ == player_name@
                &&& after.login_method_type == 0
                &&& after.avatar == before.avatar
            },
            AccountConfig::Microsoft { player_name, uuid, .. } => {
                &&& after.player_name@ == player_name@
                &&& after.login_method_type == 1
                &&& has_picture ==> after.avatar == Avatar::Cached(uuid)
                &&& !has_picture ==> after.avatar == before.avatar
            },
            AccountConfig::AuthlibInjector { player_name, uuid, .. } => {
                &&& after.player_name@ == player_name@
                &&& after.login_method_type == 2
                &&& has_picture ==> after.avatar == Avatar::Cached(uuid)
                &&& !has_picture ==> after.avatar == before.avatar
            },
        },
{
}

/// Where the selection lies beyond the list, the last account is shown; where there is no
/// account, a nameless player is.
pub proof fn law_last_account_is_shown(
    before: AccountPanel,
    after: AccountPanel,
    auth: AuthConfig,
    has_picture: bool,
)
    requires
        before.lists(after, auth, has_picture),
    ensures
        after.current_account_index == auth.selected_account_index as i32,
        match auth.accounts {
            Some(accounts) => {
                &&& after.account_count == accounts@.len() as i32
                &&& accounts@.len() > 0 && auth.selected_account_index >= accounts@.len()
                    ==> after.player_name@ == accounts@.last().name()
                &&& accounts@.len() == 0 ==> after.player_name@ == "Player"@
            },
            None => {
                &&& after.account_count == 0
                &&& after.player_name@ == "Player"@
                &&& after.login_method_type == 0
                &&& after.avatar == before.avatar
            },
        },
{
}

/// The window shows an account by its player's name, its kind and the picture of its own
/// player; without an account it shows a nameless player.
pub proof fn law_account_is_shown(
    before: AccountPanel,
    after: AccountPanel,
    account: Option<AccountConfig>,
    has_picture: bool,
    default_avatar: Avatar,
)
    requires
        before.shows(after, account, has_picture, default_avatar),
    ensures
        after.account_count == before.account_count,
        after.current_account_index == before.current_account_index,
        match account {
            Some(AccountConfig::Offline { player_name, .. }) => {
                &&& after.player_name@ == player_name@
                &&& after.login_method_type == 0
                &&& after.avatar == default_avatar
            },
            Some(AccountConfig::Microsoft { player_name, uuid, .. }) => {
                &&& after.player_name@ == player_name@
                &&& after.login_method_type == 1
                &&& has_picture ==> after.avatar == Avatar::Cached(uuid)
                &&& !has_picture ==> after.avatar == default_avatar
            },
            Some(AccountConfig::AuthlibInjector { player_name, uuid, .. }) => {
                &&& after.player_name@ == player_name@
                &&& after.login_method_type == 2
                &&& has_picture ==> after.avatar == Avatar::Cached(uuid)
                &&& !has_picture ==> after.avatar == default_avatar
            },
            None => {
                &&& after.player_name@ == "Player"@
                &&& after.login_method_type == 0
                &&& after.avatar == default_avatar
            },
        },
{
}

/// An external login starts exactly where server, user and password are all given; the
/// first that is missing, in this order, is asked for.
pub proof fn law_external_login_needs_every_field(
    server: Seq<char>,
    email: Seq<char>,
    password: Seq<char>,
)
    ensures
        missing_field(server, email, password) is None <==> server.len() > 0 && email.len() > 0
            && password.len() > 0,
        server.len() == 0 ==> missing_field(server, email, password) == Some(
            "请输入认证服务器地址"@,
        ),
        server.len() > 0 && email.len() == 0 ==> missing_field(server, email, password) == Some(
            "请输入邮箱地址"@,
        ),
        server.len() > 0 && email.len() > 0 && password.len() == 0 ==> missing_field(
            server,
            email,
            password,
        ) == Some("请输入密码"@),
{
}

/// A server that names a character lets the user in; one that names none, or fails, does
/// not, and its error is what the user reads.
pub proof fn law_any_character_will_do(answer: Result<Vec<AuthMethod>, String>)
    ensures
        refusal(answer) is None <==> (answer matches Ok(methods) && methods@.len() > 0),
        answer matches Err(error) ==> refusal(answer)->0.len() > error@.len()
            && refusal(answer)->0.skip(refusal(answer)->0.len() - error@.len()) == error@,
{
    reveal_strlit("登录失败: ");
    if let Err(error) = answer {
        assert(("登录失败: "@ + error@).skip("登录失败: "@.len() as int) =~= error@);
    }
}

/// Logins greet the player by name.
pub proof fn law_players_are_greeted_by_name(method: AuthMethod)
    ensures
        method matches AuthMethod::AuthlibInjector { player_name, .. } ==> external_name(method)
            == player_name@,
        !(method is AuthlibInjector) ==> external_name(method) == ""@,
        !(method is Microsoft) ==> greeting(method) == "登录成功"@,
        method matches AuthMethod::Microsoft { player_name, .. } ==> greeting(method).len()
            > player_name@.len() && greeting(method).skip(
            greeting(method).len() - player_name@.len(),
        ) == player_name@,
{
    reveal_strlit("登录成功: ");
    if let AuthMethod::Microsoft { player_name, .. } = method {
        assert(("登录成功: "@ + player_name@).skip("登录成功: "@.len() as int) =~= player_name@);
    }
}

/// A Microsoft login is asked for under the configured identity without the white space
/// around it, and cannot be completed without it or without a device code.
pub proof fn law_microsoft_login_needs_identity_and_code(
    auth: AuthConfig,
    device_code: Seq<char>,
)
    ensures
        client_id_of(auth) is Some <==> trimmed(auth.microsoft_client_id@).len() > 0,
        client_id_of(auth) matches Some(id) ==> id == trimmed(auth.microsoft_client_id@),
        not_ready(auth, device_code) is None <==> trimmed(auth.microsoft_client_id@).len() > 0
            && device_code.len() > 0,
        trimmed(auth.microsoft_client_id@).len() == 0 ==> not_ready(auth, device_code) == Some(
            "配置中未设置 Azure AD Client ID，请在 scl3.toml 中配置"@,
        ),
        trimmed(auth.microsoft_client_id@).len() > 0 && device_code.len() == 0 ==> not_ready(
            auth,
            device_code,
        ) == Some("请先获取认证码"@),
{
}

/// The user is told what Microsoft says, or else where to go and which code to enter.
pub proof fn law_device_code_is_explained(code: DeviceCode)
    ensures
        code.message@.len() > 0 ==> instructions(code) == code.message@,
        code.message@.len() == 0 ==> {
            let text = instructions(code);
            let before = "请打开 "@.len() as int;
            &&& text.subrange(before, before + code.verification_uri@.len())
                == code.verification_uri@
            &&& text.skip(text.len() - code.user_code@.len()) == code.user_code@
        },
{
    if code.message@.len() == 0 {
        let text = instructions(code);
        let before = "请打开 "@.len() as int;
        assert(text.subrange(before, before + code.verification_uri@.len())
            =~= code.verification_uri@);
        assert(text.skip(text.len() - code.user_code@.len()) =~= code.user_code@);
    }
}

/// A word on the login page changes that word alone.
pub proof fn law_login_page_says_only_that(before: AppWindow, after: AppWindow, status: Seq<char>)
    requires
        before.login_says(after, status),
    ensures
        after.login.status@ == status,
        after == (AppWindow {
            login: (LoginPanel {
                status: after.login.status,
                in_progress: before.login.in_progress,
            }),
            ..before
        }),
{
}

/// An error of a Microsoft login is shown, and the login no longer under way; the codes
/// stay.
pub proof fn law_microsoft_error_is_shown(before: AppWindow, after: AppWindow, status: Seq<char>)
    requires
        before.shows_microsoft_error(after, status),
    ensures
        after.microsoft.status@ == status,
        !after.microsoft.login_in_progress,
        after == (AppWindow {
            microsoft: (MicrosoftPanel {
                status: after.microsoft.status,
                login_in_progress: false,
                ..before.microsoft
            }),
            ..before
        }),
{
}

} // verus!
