//! Accounts: what the launcher keeps of a login, where the login's secret goes,
//! and how a login comes back from the two.

use vstd::prelude::*;
use crate::text::{joined, same_text};

verus! {

/// The name under which the launcher's secrets are kept.
pub const KEYRING_SERVICE: &'static str = "scl3";

/// An account as the configuration file holds it, without its secret.
#[derive(Debug, PartialEq, Eq)]
pub enum AccountConfig {
    Offline { player_name: String, uuid: String },
    Microsoft { player_name: String, uuid: String, xuid: String },
    AuthlibInjector {
        player_name: String,
        uuid: String,
        api_location: String,
        server_name: String,
        server_homepage: String,
        server_meta: String,
        username: String,
    },
}

/// A login, with all that is needed to play.
#[derive(Debug, PartialEq, Eq)]
pub enum AuthMethod {
    Offline { player_name: String, uuid: String },
    /// A login by the old Mojang accounts, which the launcher no longer stores.
    Mojang { uuid: String, head_skin: Vec<u8>, hat_skin: Vec<u8> },
    Microsoft {
        access_token: String,
        refresh_token: String,
        uuid: String,
        xuid: String,
        player_name: String,
        head_skin: Vec<u8>,
        hat_skin: Vec<u8>,
    },
    AuthlibInjector {
        api_location: String,
        server_name: String,
        server_homepage: String,
        server_meta: String,
        access_token: String,
        uuid: String,
        player_name: String,
        head_skin: Vec<u8>,
        hat_skin: Vec<u8>,
    },
}

/// A place in the credential store.
#[derive(Debug, PartialEq, Eq)]
pub struct SecretEntry {
    pub service: String,
    pub key: String,
}

/// A secret and the place where it is to be stored.
#[derive(Debug, PartialEq, Eq)]
pub struct SecretWrite {
    pub entry: SecretEntry,
    pub secret: String,
}

/// Why a login could not be restored or stored.
#[derive(Clone, Copy, Debug, PartialEq, Eq, Structural)]
pub enum AccountError {
    /// The refresh token of a Microsoft account is not in the credential store.
    MicrosoftSecretMissing,
    /// The password of an external account is not in the credential store.
    AuthlibSecretMissing,
    /// The launcher does not store logins of this kind.
    UnsupportedMethod,
    /// An external login was to be stored without its password.
    PasswordMissing,
}

impl AccountError {
    /// What the user reads.
    pub open spec fn text(self) -> Seq<char> {
        match self {
            AccountError::MicrosoftSecretMissing => "无法从 keyring 读取 Microsoft refresh_token，请重新登录"@,
            AccountError::AuthlibSecretMissing => "无法从 keyring 读取 Authlib 密码，请重新登录"@,
            AccountError::UnsupportedMethod => "不支持的登录方式"@,
            AccountError::PasswordMissing => "外置登录需要提供密码"@,
        }
    }

    /// The message for the user.
    pub fn message(&self) -> (message: String)
        ensures
            message@ == self.text(),
    {
        match self {
            AccountError::MicrosoftSecretMissing => "无法从 keyring 读取 Microsoft refresh_token，请重新登录".to_string(),
            AccountError::AuthlibSecretMissing => "无法从 keyring 读取 Authlib 密码，请重新登录".to_string(),
            AccountError::UnsupportedMethod => "不支持的登录方式".to_string(),
            AccountError::PasswordMissing => "外置登录需要提供密码".to_string(),
        }
    }
}

impl Clone for AccountConfig {
    fn clone(&self) -> (copy: Self)
        ensures
            copy == *self,
    {
        match self {
            AccountConfig::Offline { player_name, uuid } => AccountConfig::Offline {
                player_name: player_name.clone(),
                uuid: uuid.clone(),
            },
            AccountConfig::Microsoft { player_name, uuid, xuid } => AccountConfig::Microsoft {
                player_name: player_name.clone(),
                uuid: uuid.clone(),
                xuid: xuid.clone(),
            },
            AccountConfig::AuthlibInjector {
                player_name,
                uuid,
                api_location,
                server_name,
                server_homepage,
                server_meta,
                username,
            } => AccountConfig::AuthlibInjector {
                player_name: player_name.clone(),
                uuid: uuid.clone(),
                api_location: api_location.clone(),
                server_name: server_name.clone(),
                server_homepage: server_homepage.clone(),
                server_meta: server_meta.clone(),
                username: username.clone(),
            },
        }
    }
}

impl AccountConfig {
    /// The name that the player of this account has in the game.
    pub open spec fn name(self) -> Seq<char> {
        match self {
            AccountConfig::Offline { player_name, .. } => player_name@,
            AccountConfig::Microsoft { player_name, .. } => player_name@,
            AccountConfig::AuthlibInjector { player_name, .. } => player_name@,
        }
    }

    /// Whether this and another entry are of the same player at the same service.
    pub open spec fn is_same(self, other: AccountConfig) -> bool {
        match (self, other) {
            (AccountConfig::Offline { uuid: a, .. }, AccountConfig::Offline { uuid: b, .. }) => a@
                == b@,
            (
                AccountConfig::Microsoft { uuid: a, .. },
                AccountConfig::Microsoft { uuid: b, .. },
            ) => a@ == b@,
            (
                AccountConfig::AuthlibInjector { uuid: a, api_location: api_a, .. },
                AccountConfig::AuthlibInjector { uuid: b, api_location: api_b, .. },
            ) => a@ == b@ && api_a@ == api_b@,
            _ => false,
        }
    }

    /// The key of the account's secret; offline accounts have none.
    pub open spec fn key(self) -> Option<Seq<char>> {
        match self {
            AccountConfig::Offline { .. } => None,
            AccountConfig::Microsoft { uuid, .. } => Some("microsoft:"@ + uuid@),
            AccountConfig::AuthlibInjector { uuid, .. } => Some("authlib:"@ + uuid@),
        }
    }

    /// The player's name.
    pub fn player_name(&self) -> (name: &str)
        ensures
            name@ == self.name(),
    {
        match self {
            AccountConfig::Offline { player_name, .. } => player_name.as_str(),
            AccountConfig::Microsoft { player_name, .. } => player_name.as_str(),
            AccountConfig::AuthlibInjector { player_name, .. } => player_name.as_str(),
        }
    }

    /// Whether another entry is of the same player at the same service.
    pub fn same_identity(&self, other: &AccountConfig) -> (same: bool)
        ensures
            same == self.is_same(*other),
    {
        match (self, other) {
            (
                AccountConfig::Offline { uuid: a, .. },
                AccountConfig::Offline { uuid: b, .. },
            ) => same_text(a.as_str(), b.as_str()),
            (
                AccountConfig::Microsoft { uuid: a, .. },
                AccountConfig::Microsoft { uuid: b, .. },
            ) => same_text(a.as_str(), b.as_str()),
            (
                AccountConfig::AuthlibInjector { uuid: a, api_location: api_a, .. },
                AccountConfig::AuthlibInjector { uuid: b, api_location: api_b, .. },
            ) => same_text(a.as_str(), b.as_str()) && same_text(api_a.as_str(), api_b.as_str()),
            _ => false,
        }
    }

    /// The key under which the account's secret is kept.
    pub fn keyring_key(&self) -> (key: Option<String>)
        ensures
            match key {
                Some(key) => self.key() == Some(key@),
                None => self.key() is None,
            },
    {
        match self {
            AccountConfig::Offline { .. } => None,
            AccountConfig::Microsoft { uuid, .. } => Some(joined("microsoft:", uuid.as_str())),
            AccountConfig::AuthlibInjector { uuid, .. } => Some(joined("authlib:", uuid.as_str())),
        }
    }

    /// Where the account's secret is to be read from; offline accounts have none.
    pub fn load_secret(&self) -> (entry: Option<SecretEntry>)
        ensures
            match entry {
                Some(entry) => self.key() == Some(entry.key@) && entry.service@
                    == KEYRING_SERVICE@,
                None => self.key() is None,
            },
    {
        match self.keyring_key() {
            Some(key) => Some(SecretEntry { service: KEYRING_SERVICE.to_string(), key }),
            None => None,
        }
    }

    /// The write that stores the account's secret; offline accounts need none.
    pub fn save_secret(&self, secret: &str) -> (write: Option<SecretWrite>)
        ensures
            match write {
                Some(write) => self.key() == Some(write.entry.key@) && write.entry.service@
                    == KEYRING_SERVICE@ && write.secret@ == secret@,
                None => self.key() is None,
            },
    {
        match self.load_secret() {
            Some(entry) => Some(SecretWrite { entry, secret: secret.to_string() }),
            None => None,
        }
    }

    /// Where the account's secret is to be deleted; offline accounts have none.
    pub fn delete_secret(&self) -> (entry: Option<SecretEntry>)
        ensures
            match entry {
                Some(entry) => self.key() == Some(entry.key@) && entry.service@
                    == KEYRING_SERVICE@,
                None => self.key() is None,
            },
    {
        self.load_secret()
    }

    /// Whether a login is the one that this account stands for, given the secret
    /// that the credential store holds for it. Tokens that a refresh is to bring
    /// are left empty, and so are the player's pictures.
    pub open spec fn restores(self, secret: Option<String>, method: AuthMethod) -> bool {
        match (self, method) {
            (
                AccountConfig::Offline { player_name, uuid },
                AuthMethod::Offline { player_name: to_name, uuid: to_uuid },
            ) => to_name == player_name && to_uuid == uuid,
            (
                AccountConfig::Microsoft { player_name, uuid, xuid },
                AuthMethod::Microsoft {
                    access_token,
                    refresh_token,
                    uuid: to_uuid,
                    xuid: to_xuid,
                    player_name: to_name,
                    head_skin,
                    hat_skin,
                },
            ) => {
                &&& secret == Some(refresh_token)
                &&& access_token@ == ""@
                &&& to_name == player_name && to_uuid == uuid && to_xuid == xuid
                &&& head_skin@.len() == 0 && hat_skin@.len() == 0
            },
            (
                AccountConfig::AuthlibInjector {
                    player_name,
                    uuid,
                    api_location,
                    server_name,
                    server_homepage,
                    server_meta,
                    username: _,
                },
                AuthMethod::AuthlibInjector {
                    api_location: to_location,
                    server_name: to_server,
                    server_homepage: to_homepage,
                    server_meta: to_meta,
                    access_token,
                    uuid: to_uuid,
                    player_name: to_name,
                    head_skin,
                    hat_skin,
                },
            ) => {
                &&& secret is Some
                &&& access_token@ == ""@
                &&& to_name == player_name && to_uuid == uuid
                &&& to_location == api_location && to_server == server_name
                &&& to_homepage == server_homepage && to_meta == server_meta
                &&& head_skin@.len() == 0 && hat_skin@.len() == 0
            },
            _ => false,
        }
    }

    /// Whether this comes of restoring the account's login with what the credential
    /// store holds for it. Accounts that need a secret cannot do without.
    pub open spec fn is_restored(
        self,
        secret: Option<String>,
        method: Result<AuthMethod, AccountError>,
    ) -> bool {
        match method {
            Ok(method) => self.restores(secret, method),
            Err(AccountError::MicrosoftSecretMissing) => self is Microsoft && secret is None,
            Err(AccountError::AuthlibSecretMissing) => self is AuthlibInjector && secret is None,
            Err(_) => false,
        }
    }

    /// The login that this account stands for. `secret` is what the credential
    /// store holds at [`AccountConfig::load_secret`].
    pub fn to_auth_method(&self, secret: Option<String>) -> (method: Result<
        AuthMethod,
        AccountError,
    >)
        ensures
            self.is_restored(secret, method),
    {
        match self {
            AccountConfig::Offline { player_name, uuid } => Ok(
                AuthMethod::Offline { player_name: player_name.clone(), uuid: uuid.clone() },
            ),
            AccountConfig::Microsoft { player_name, uuid, xuid } => {
                match secret {
                    Some(refresh_token) => Ok(
                        AuthMethod::Microsoft {
                            access_token: "".to_string(),
                            refresh_token,
                            uuid: uuid.clone(),
                            xuid: xuid.clone(),
                            player_name: player_name.clone(),
                            head_skin: Vec::new(),
                            hat_skin: Vec::new(),
                        },
                    ),
                    None => Err(AccountError::MicrosoftSecretMissing),
                }
            },
            AccountConfig::AuthlibInjector {
                player_name,
                uuid,
                api_location,
                server_name,
                server_homepage,
                server_meta,
                username: _,
            } => {
                match secret {
                    Some(_) => Ok(
                        AuthMethod::AuthlibInjector {
                            api_location: api_location.clone(),
                            server_name: server_name.clone(),
                            server_homepage: server_homepage.clone(),
                            server_meta: server_meta.clone(),
                            access_token: "".to_string(),
                            uuid: uuid.clone(),
                            player_name: player_name.clone(),
                            head_skin: Vec::new(),
                            hat_skin: Vec::new(),
                        },
                    ),
                    None => Err(AccountError::AuthlibSecretMissing),
                }
            },
        }
    }

    /// Whether this account is what is kept of a login, `username` being the name
    /// that the user logged in to an external server with.
    pub open spec fn keeps(self, method: AuthMethod, username: Option<&str>) -> bool {
        match (self, method) {
            (
                AccountConfig::Offline { player_name, uuid },
                AuthMethod::Offline { player_name: from_name, uuid: from_uuid },
            ) => player_name == from_name && uuid == from_uuid,
            (
                AccountConfig::Microsoft { player_name, uuid, xuid },
                AuthMethod::Microsoft {
                    player_name: from_name,
                    uuid: from_uuid,
                    xuid: from_xuid,
                    ..
                },
            ) => player_name == from_name && uuid == from_uuid && xuid == from_xuid,
            (
                AccountConfig::AuthlibInjector {
                    player_name,
                    uuid,
                    api_location,
                    server_name,
                    server_homepage,
                    server_meta,
                    username: kept_username,
                },
                AuthMethod::AuthlibInjector {
                    player_name: from_name,
                    uuid: from_uuid,
                    api_location: from_location,
                    server_name: from_server,
                    server_homepage: from_homepage,
                    server_meta: from_meta,
                    ..
                },
            ) => {
                &&& player_name == from_name && uuid == from_uuid
                &&& api_location == from_location && server_name == from_server
                &&& server_homepage == from_homepage && server_meta == from_meta
                &&& username matches Some(name) && kept_username@ == name@
            },
            _ => false,
        }
    }

    /// Whether anything can be kept of a login: of a Mojang login nothing is, and of
    /// an external one only together with the user's name.
    pub open spec fn can_keep(method: AuthMethod, username: Option<&str>) -> bool {
        match method {
            AuthMethod::Mojang { .. } => false,
            AuthMethod::AuthlibInjector { .. } => username is Some,
            _ => true,
        }
    }

    /// What is kept of a login.
    pub fn from_auth_method(method: &AuthMethod, authlib_username: Option<&str>) -> (account: Option<
        AccountConfig,
    >)
        ensures
            match account {
                Some(account) => account.keeps(*method, authlib_username),
                None => !AccountConfig::can_keep(*method, authlib_username),
            },
    {
        match method {
            AuthMethod::Offline { player_name, uuid } => Some(
                AccountConfig::Offline { player_name: player_name.clone(), uuid: uuid.clone() },
            ),
            AuthMethod::Microsoft { player_name, uuid, xuid, .. } => Some(
                AccountConfig::Microsoft {
                    player_name: player_name.clone(),
                    uuid: uuid.clone(),
                    xuid: xuid.clone(),
                },
            ),
            AuthMethod::AuthlibInjector {
                player_name,
                uuid,
                api_location,
                server_name,
                server_homepage,
                server_meta,
                ..
            } => {
                match authlib_username {
                    Some(username) => Some(
                        AccountConfig::AuthlibInjector {
                            player_name: player_name.clone(),
                            uuid: uuid.clone(),
                            api_location: api_location.clone(),
                            server_name: server_name.clone(),
                            server_homepage: server_homepage.clone(),
                            server_meta: server_meta.clone(),
                            username: username.to_string(),
                        },
                    ),
                    None => None,
                }
            },
            AuthMethod::Mojang { .. } => None,
        }
    }

    /// The secret of a login: the refresh token of a Microsoft login, the password
    /// of an external one.
    pub open spec fn secret_of(method: AuthMethod, password: Option<&str>) -> Option<Seq<char>> {
        match method {
            AuthMethod::Microsoft { refresh_token, .. } => Some(refresh_token@),
            AuthMethod::AuthlibInjector { .. } => match password {
                Some(password) => Some(password@),
                None => None,
            },
            _ => None,
        }
    }

    /// Whether this comes of splitting a login into an account and a secret.
    pub open spec fn is_split(
        method: AuthMethod,
        username: Option<&str>,
        password: Option<&str>,
        saved: Result<(AccountConfig, Option<SecretWrite>), AccountError>,
    ) -> bool {
        match saved {
            Ok((account, write)) => {
                &&& account.keeps(method, username)
                &&& match write {
                    Some(write) => {
                        &&& account.key() == Some(write.entry.key@)
                        &&& write.entry.service@ == KEYRING_SERVICE@
                        &&& AccountConfig::secret_of(method, password) == Some(write.secret@)
                    },
                    None => method is Offline,
                }
            },
            Err(AccountError::UnsupportedMethod) => !AccountConfig::can_keep(method, username),
            Err(AccountError::PasswordMissing) => {
                &&& method is AuthlibInjector
                &&& username is Some
                &&& password is None
            },
            Err(_) => false,
        }
    }

    /// Splits a login into the account to keep in the configuration and the secret
    /// to put into the credential store. The account may be kept once the secret
    /// has been stored.
    pub fn save_account(
        method: &AuthMethod,
        authlib_username: Option<&str>,
        authlib_password: Option<&str>,
    ) -> (saved: Result<(AccountConfig, Option<SecretWrite>), AccountError>)
        ensures
            AccountConfig::is_split(*method, authlib_username, authlib_password, saved),
    {
        match AccountConfig::from_auth_method(method, authlib_username) {
            Some(account) => {
                let write = match method {
                    AuthMethod::Microsoft { refresh_token, .. } => account.save_secret(
                        refresh_token.as_str(),
                    ),
                    AuthMethod::AuthlibInjector { .. } => match authlib_password {
                        Some(password) => account.save_secret(password),
                        None => {
                            return Err(AccountError::PasswordMissing);
                        },
                    },
                    _ => None,
                };
                Ok((account, write))
            },
            None => Err(AccountError::UnsupportedMethod),
        }
    }
}

/// A login that was stored comes back: where the credential store holds the secret
/// that was written for it, the account restores the same player at the same service,
/// with the same refresh token.
pub proof fn law_stored_login_comes_back(
    method: AuthMethod,
    username: Option<&str>,
    password: Option<&str>,
    account: AccountConfig,
    write: Option<SecretWrite>,
    held: Option<String>,
    restored: Result<AuthMethod, AccountError>,
)
    requires
        AccountConfig::is_split(method, username, password, Ok((account, write))),
        write matches Some(write) ==> held is Some && held->0@ == write.secret@,
        account.is_restored(held, restored),
    ensures
        restored is Ok,
        method.is_same_but_for_secrets(restored->Ok_0),
        method matches AuthMethod::Microsoft { refresh_token, .. }
            ==> restored->Ok_0->Microsoft_refresh_token@ == refresh_token@,
{
}

/// What is kept of a login that an account restored is that account again, in every
/// field where the user's name at an external server is the same.
pub proof fn law_restored_login_is_the_same_account(
    account: AccountConfig,
    username: Option<&str>,
    secret: Option<String>,
    restored: AuthMethod,
    again: AccountConfig,
)
    requires
        account.restores(secret, restored),
        again.keeps(restored, username),
    ensures
        again.is_same(account),
        again.name() == account.name(),
        again.key() == account.key(),
        !(account is AuthlibInjector) ==> again == account,
        account is AuthlibInjector && username is Some && username->0@
            == account->AuthlibInjector_username@ ==> {
            &&& again->AuthlibInjector_username@ == account->AuthlibInjector_username@
            &&& again == AccountConfig::AuthlibInjector {
                player_name: account->AuthlibInjector_player_name,
                uuid: account->AuthlibInjector_uuid,
                api_location: account->AuthlibInjector_api_location,
                server_name: account->AuthlibInjector_server_name,
                server_homepage: account->AuthlibInjector_server_homepage,
                server_meta: account->AuthlibInjector_server_meta,
                username: again->AuthlibInjector_username,
            }
        },
{
}

impl AuthMethod {
    /// Whether another login is of the same player at the same service, whatever its
    /// tokens and pictures are.
    pub open spec fn is_same_but_for_secrets(self, other: AuthMethod) -> bool {
        match (self, other) {
            (AuthMethod::Offline { .. }, AuthMethod::Offline { .. }) => self == other,
            (
                AuthMethod::Microsoft { uuid, xuid, player_name, .. },
                AuthMethod::Microsoft { uuid: uuid2, xuid: xuid2, player_name: name2, .. },
            ) => uuid == uuid2 && xuid == xuid2 && player_name == name2,
            (
                AuthMethod::AuthlibInjector {
                    api_location,
                    server_name,
                    server_homepage,
                    server_meta,
                    uuid,
                    player_name,
                    ..
                },
                AuthMethod::AuthlibInjector {
                    api_location: location2,
                    server_name: server2,
                    server_homepage: homepage2,
                    server_meta: meta2,
                    uuid: uuid2,
                    player_name: name2,
                    ..
                },
            ) => {
                &&& api_location == location2 && server_name == server2
                &&& server_homepage == homepage2 && server_meta == meta2
                &&& uuid == uuid2 && player_name == name2
            },
            _ => false,
        }
    }
}

/// Tokens and passwords go to the credential store alone: what is kept of a login in
/// the configuration is the same whatever they are.
pub proof fn law_account_holds_no_secret(
    a: AuthMethod,
    b: AuthMethod,
    username: Option<&str>,
    kept_of_a: AccountConfig,
    kept_of_b: AccountConfig,
)
    requires
        a.is_same_but_for_secrets(b),
        kept_of_a.keeps(a, username),
        kept_of_b.keeps(b, username),
    ensures
        match (kept_of_a, kept_of_b) {
            (
                AccountConfig::AuthlibInjector { username: name_a, .. },
                AccountConfig::AuthlibInjector {
                    player_name,
                    uuid,
                    api_location,
                    server_name,
                    server_homepage,
                    server_meta,
                    username: name_b,
                },
            ) => {
                &&& name_a@ == name_b@
                &&& kept_of_a == AccountConfig::AuthlibInjector {
                    player_name,
                    uuid,
                    api_location,
                    server_name,
                    server_homepage,
                    server_meta,
                    username: name_a,
                }
            },
            _ => kept_of_a == kept_of_b,
        },
{
}

/// Two entries of the same player at the same service share their secret.
pub proof fn law_same_identity_same_key(a: AccountConfig, b: AccountConfig)
    requires
        a.is_same(b),
    ensures
        a.key() == b.key(),
{
}

/// Being the same account is reflexive, symmetric and transitive.
pub proof fn law_same_identity_is_equivalence(
    a: AccountConfig,
    b: AccountConfig,
    c: AccountConfig,
)
    ensures
        a.is_same(a),
        a.is_same(b) == b.is_same(a),
        a.is_same(b) && b.is_same(c) ==> a.is_same(c),
{
}

/// The secrets of Microsoft accounts and those of external accounts never share a
/// place. Two Microsoft accounts share one only if they are the same, and two external
/// accounts only if their players have the same identifier.
pub proof fn law_keys_tell_services_apart(a: AccountConfig, b: AccountConfig)
    requires
        a.key() is Some,
        a.key() == b.key(),
    ensures
        a is Microsoft == b is Microsoft,
        a is Microsoft ==> a.is_same(b),
        a is AuthlibInjector ==> a->AuthlibInjector_uuid@ == b->AuthlibInjector_uuid@,
{
    reveal_strlit("microsoft:");
    reveal_strlit("authlib:");
    let key = a.key()->0;
    assert(key[0] == 'm' <==> a is Microsoft);
    assert(key[0] == 'm' <==> b is Microsoft);
    if a is Microsoft {
        let a_uuid = a->Microsoft_uuid@;
        let b_uuid = b->Microsoft_uuid@;
        assert(("microsoft:"@ + a_uuid).skip(10) == a_uuid);
        assert(("microsoft:"@ + b_uuid).skip(10) == b_uuid);
    } else {
        let a_uuid = a->AuthlibInjector_uuid@;
        let b_uuid = b->AuthlibInjector_uuid@;
        assert(("authlib:"@ + a_uuid).skip(8) == a_uuid);
        assert(("authlib:"@ + b_uuid).skip(8) == b_uuid);
    }
}

} // verus!
