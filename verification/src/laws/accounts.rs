//! What holds of accounts, logins and their secrets.

use vstd::prelude::*;
use crate::accounts::{AccountConfig, AccountError, AuthMethod, SecretWrite};

verus! {

/// Two entries are of one account exactly where they are of one kind and have the same
/// player; external accounts also have to be at the same server.
pub proof fn law_identity_is_the_player(a: AccountConfig, b: AccountConfig)
    ensures
        a.is_same(b) <==> match (a, b) {
            (AccountConfig::Offline { uuid, .. }, AccountConfig::Offline { uuid: uuid2, .. }) => uuid@
                == uuid2@,
            (
                AccountConfig::Microsoft { uuid, .. },
                AccountConfig::Microsoft { uuid: uuid2, .. },
            ) => uuid@ == uuid2@,
            (
                AccountConfig::AuthlibInjector { uuid, api_location, .. },
                AccountConfig::AuthlibInjector { uuid: uuid2, api_location: location2, .. },
            ) => uuid@ == uuid2@ && api_location@ == location2@,
            _ => false,
        },
{
}

/// The name of an account is the name of its player.
pub proof fn law_account_is_named_after_its_player(account: AccountConfig)
    ensures
        match account {
            AccountConfig::Offline { player_name, .. } => account.name() == player_name@,
            AccountConfig::Microsoft { player_name, .. } => account.name() == player_name@,
            AccountConfig::AuthlibInjector { player_name, .. } => account.name() == player_name@,
        },
{
}

/// The place of a secret is made of the service and the player.
pub proof fn law_secret_is_kept_by_player(account: AccountConfig)
    ensures
        match account {
            AccountConfig::Offline { .. } => account.key() is None,
            AccountConfig::Microsoft { uuid, .. } => account.key() == Some("microsoft:"@ + uuid@),
            AccountConfig::AuthlibInjector { uuid, .. } => account.key() == Some(
                "authlib:"@ + uuid@,
            ),
        },
{
}

/// What is kept of a login is its own player and service, and the user's name where the
/// service is an external one.
pub proof fn law_login_is_kept_as_it_is(
    method: AuthMethod,
    username: Option<&str>,
    account: AccountConfig,
)
    requires
        account.keeps(method, username),
    ensures
        match method {
            AuthMethod::Offline { player_name, uuid } => account == AccountConfig::Offline {
                player_name,
                uuid,
            },
            AuthMethod::Microsoft { player_name, uuid, xuid, .. } => account
                == AccountConfig::Microsoft { player_name, uuid, xuid },
            AuthMethod::AuthlibInjector {
                player_name,
                uuid,
                api_location,
                server_name,
                server_homepage,
                server_meta,
                ..
            } => {
                &&& account is AuthlibInjector
                &&& account->AuthlibInjector_player_name == player_name
                &&& account->AuthlibInjector_uuid == uuid
                &&& account->AuthlibInjector_api_location == api_location
                &&& account->AuthlibInjector_server_name == server_name
                &&& account->AuthlibInjector_server_homepage == server_homepage
                &&& account->AuthlibInjector_server_meta == server_meta
                &&& username is Some
                &&& account->AuthlibInjector_username@ == username->0@
            },
            AuthMethod::Mojang { .. } => false,
        },
{
}

/// The secret of a Microsoft login is its refresh token, that of an external one the
/// user's password, and both go to the place of the player; offline logins have none.
pub proof fn law_secret_is_the_token_or_the_password(
    method: AuthMethod,
    username: Option<&str>,
    password: Option<&str>,
    account: AccountConfig,
    write: Option<SecretWrite>,
)
    requires
        AccountConfig::is_split(method, username, password, Ok((account, write))),
    ensures
        account.keeps(method, username),
        match method {
            AuthMethod::Microsoft { refresh_token, uuid, .. } => {
                &&& write is Some
                &&& write->0.secret@ == refresh_token@
                &&& write->0.entry.key@ == "microsoft:"@ + uuid@
                &&& write->0.entry.service@ == "scl3"@
            },
            AuthMethod::AuthlibInjector { uuid, .. } => {
                &&& write is Some
                &&& password is Some
                &&& write->0.secret@ == password->0@
                &&& write->0.entry.key@ == "authlib:"@ + uuid@
                &&& write->0.entry.service@ == "scl3"@
            },
            _ => write is None,
        },
{
}

/// Every offline and Microsoft login can be stored, and every external one with its
/// user name and password; nothing else can.
pub proof fn law_which_logins_can_be_stored(
    method: AuthMethod,
    username: Option<&str>,
    password: Option<&str>,
    saved: Result<(AccountConfig, Option<SecretWrite>), AccountError>,
)
    requires
        AccountConfig::is_split(method, username, password, saved),
    ensures
        saved is Ok <==> match method {
            AuthMethod::Offline { .. } => true,
            AuthMethod::Microsoft { .. } => true,
            AuthMethod::AuthlibInjector { .. } => username is Some && password is Some,
            AuthMethod::Mojang { .. } => false,
        },
        method is Mojang ==> saved == Err::<(AccountConfig, Option<SecretWrite>), _>(
            AccountError::UnsupportedMethod,
        ),
        method is AuthlibInjector && username is Some && password is None ==> saved == Err::<
            (AccountConfig, Option<SecretWrite>),
            _,
        >(AccountError::PasswordMissing),
{
}

/// Nothing is kept of a Mojang login, and of an external one only with the user's name.
pub proof fn law_what_can_be_kept(method: AuthMethod, username: Option<&str>)
    ensures
        AccountConfig::can_keep(method, username) <==> method is Offline || method is Microsoft
            || (method is AuthlibInjector && username is Some),
{
}

/// An account restores its own player at its own service, with the stored secret as its
/// token; offline accounts need no secret, and all others do.
pub proof fn law_account_restores_its_own_login(
    account: AccountConfig,
    secret: Option<String>,
    restored: Result<AuthMethod, AccountError>,
)
    requires
        account.is_restored(secret, restored),
    ensures
        restored is Ok <==> account is Offline || secret is Some,
        match (account, restored) {
            (AccountConfig::Offline { player_name, uuid }, Ok(method)) => method
                == AuthMethod::Offline { player_name, uuid },
            (
                AccountConfig::Microsoft { player_name, uuid, xuid },
                Ok(
                    AuthMethod::Microsoft {
                        refresh_token,
                        player_name: name2,
                        uuid: uuid2,
                        xuid: xuid2,
                        ..
                    },
                ),
            ) => {
                &&& secret == Some(refresh_token)
                &&& name2 == player_name && uuid2 == uuid && xuid2 == xuid
            },
            (
                AccountConfig::AuthlibInjector {
                    player_name,
                    uuid,
                    api_location,
                    server_name,
                    server_homepage,
                    server_meta,
                    ..
                },
                Ok(
                    AuthMethod::AuthlibInjector {
                        player_name: name2,
                        uuid: uuid2,
                        api_location: location2,
                        server_name: server2,
                        server_homepage: homepage2,
                        server_meta: meta2,
                        ..
                    },
                ),
            ) => {
                &&& name2 == player_name && uuid2 == uuid
                &&& location2 == api_location && server2 == server_name
                &&& homepage2 == server_homepage && meta2 == server_meta
            },
            (AccountConfig::Microsoft { .. }, Err(error)) => error
                == AccountError::MicrosoftSecretMissing,
            (AccountConfig::AuthlibInjector { .. }, Err(error)) => error
                == AccountError::AuthlibSecretMissing,
            _ => false,
        },
{
}

} // verus!
