use scl3::accounts::{AccountConfig, AccountError, AuthMethod, SecretEntry, SecretWrite, KEYRING_SERVICE};
use scl3::config::{AppearanceConfig, AuthConfig, DownloadConfig, GameConfig, LaunchConfig};
use scl3::paths::{default_java_path, default_minecraft_path};

fn offline(name: &str, uuid: &str) -> AccountConfig {
    AccountConfig::Offline { player_name: name.to_string(), uuid: uuid.to_string() }
}

fn microsoft(name: &str, uuid: &str) -> AccountConfig {
    AccountConfig::Microsoft { player_name: name.to_string(), uuid: uuid.to_string(), xuid: "x1".to_string() }
}

fn external(name: &str, uuid: &str, api: &str) -> AccountConfig {
    AccountConfig::AuthlibInjector {
        player_name: name.to_string(),
        uuid: uuid.to_string(),
        api_location: api.to_string(),
        server_name: "LittleSkin".to_string(),
        server_homepage: "https://littleskin.cn".to_string(),
        server_meta: "meta".to_string(),
        username: "alex@example.org".to_string(),
    }
}

fn microsoft_login(token: &str) -> AuthMethod {
    AuthMethod::Microsoft {
        access_token: "access".to_string(),
        refresh_token: token.to_string(),
        uuid: "u2".to_string(),
        xuid: "x1".to_string(),
        player_name: "Alex".to_string(),
        head_skin: vec![1],
        hat_skin: vec![2],
    }
}

fn external_login() -> AuthMethod {
    AuthMethod::AuthlibInjector {
        api_location: "https://api".to_string(),
        server_name: "LittleSkin".to_string(),
        server_homepage: "https://littleskin.cn".to_string(),
        server_meta: "meta".to_string(),
        access_token: "access".to_string(),
        uuid: "u3".to_string(),
        player_name: "Eve".to_string(),
        head_skin: vec![],
        hat_skin: vec![],
    }
}

fn entry(key: &str) -> SecretEntry {
    SecretEntry { service: "scl3".to_string(), key: key.to_string() }
}

#[test]
fn keys_of_secrets() {
    assert_eq!(KEYRING_SERVICE, "scl3");
    assert_eq!(offline("Steve", "u1").keyring_key(), None);
    assert_eq!(microsoft("Alex", "u2").keyring_key(), Some("microsoft:u2".to_string()));
    assert_eq!(external("Eve", "u3", "a").keyring_key(), Some("authlib:u3".to_string()));
}

#[test]
fn secrets_are_written_where_they_are_read() {
    let account = microsoft("Alex", "u2");
    let write = SecretWrite { entry: entry("microsoft:u2"), secret: "token".to_string() };
    assert_eq!(account.save_secret("token"), Some(write));
    assert_eq!(account.load_secret(), Some(entry("microsoft:u2")));
    assert_eq!(account.delete_secret(), Some(entry("microsoft:u2")));
    let account = offline("Steve", "u1");
    assert_eq!(account.save_secret("token"), None);
    assert_eq!(account.load_secret(), None);
    assert_eq!(account.delete_secret(), None);
}

#[test]
fn identity_is_the_player_at_the_service() {
    assert!(offline("Steve", "u").same_identity(&offline("Renamed", "u")));
    assert!(!offline("Steve", "u").same_identity(&microsoft("Steve", "u")));
    assert!(microsoft("Alex", "u").same_identity(&microsoft("Renamed", "u")));
    assert!(!microsoft("Alex", "u").same_identity(&microsoft("Alex", "v")));
    assert!(external("Eve", "u", "a").same_identity(&external("Renamed", "u", "a")));
    assert!(!external("Eve", "u", "a").same_identity(&external("Eve", "u", "b")));
    assert_eq!(external("Eve", "u", "a").player_name(), "Eve");
    assert_eq!(microsoft("Alex", "u").player_name(), "Alex");
    assert_eq!(offline("Steve", "u").player_name(), "Steve");
}

#[test]
fn logins_are_restored_from_account_and_secret() {
    let method = AuthMethod::Offline { player_name: "Steve".to_string(), uuid: "u1".to_string() };
    assert_eq!(offline("Steve", "u1").to_auth_method(None), Ok(method));
    let restored = AuthMethod::Microsoft {
        access_token: String::new(),
        refresh_token: "token".to_string(),
        uuid: "u2".to_string(),
        xuid: "x1".to_string(),
        player_name: "Alex".to_string(),
        head_skin: vec![],
        hat_skin: vec![],
    };
    assert_eq!(microsoft("Alex", "u2").to_auth_method(Some("token".to_string())), Ok(restored));
    assert_eq!(microsoft("Alex", "u2").to_auth_method(None), Err(AccountError::MicrosoftSecretMissing));
    assert_eq!(external("Eve", "u3", "https://api").to_auth_method(None), Err(AccountError::AuthlibSecretMissing));
    match external("Eve", "u3", "https://api").to_auth_method(Some("password".to_string())) {
        Ok(AuthMethod::AuthlibInjector { access_token, uuid, api_location, .. }) => {
            assert_eq!((access_token.as_str(), uuid.as_str(), api_location.as_str()), ("", "u3", "https://api"));
        }
        other => panic!("{:?}", other),
    }
}

#[test]
fn logins_are_kept_as_accounts() {
    assert_eq!(AccountConfig::from_auth_method(&microsoft_login("t"), None), Some(microsoft("Alex", "u2")));
    assert_eq!(AccountConfig::from_auth_method(&external_login(), None), None);
    let kept = AccountConfig::from_auth_method(&external_login(), Some("alex@example.org"));
    assert_eq!(kept, Some(external("Eve", "u3", "https://api")));
    let mojang = AuthMethod::Mojang { uuid: "u4".to_string(), head_skin: vec![], hat_skin: vec![] };
    assert_eq!(AccountConfig::from_auth_method(&mojang, Some("name")), None);
}

#[test]
fn storing_a_login_splits_off_its_secret() {
    let write = SecretWrite { entry: entry("microsoft:u2"), secret: "token".to_string() };
    let saved = AccountConfig::save_account(&microsoft_login("token"), None, None);
    assert_eq!(saved, Ok((microsoft("Alex", "u2"), Some(write))));
    let write = SecretWrite { entry: entry("authlib:u3"), secret: "secret".to_string() };
    let saved = AccountConfig::save_account(&external_login(), Some("alex@example.org"), Some("secret"));
    assert_eq!(saved, Ok((external("Eve", "u3", "https://api"), Some(write))));
    let saved = AccountConfig::save_account(&external_login(), Some("alex@example.org"), None);
    assert_eq!(saved, Err(AccountError::PasswordMissing));
    let saved = AccountConfig::save_account(&external_login(), None, Some("secret"));
    assert_eq!(saved, Err(AccountError::UnsupportedMethod));
    let method = AuthMethod::Offline { player_name: "Steve".to_string(), uuid: "u1".to_string() };
    assert_eq!(AccountConfig::save_account(&method, None, None), Ok((offline("Steve", "u1"), None)));
}

#[test]
fn stored_login_comes_back() {
    let (account, write) = AccountConfig::save_account(&microsoft_login("token"), None, None).unwrap();
    let write = write.unwrap();
    assert_eq!(account.load_secret(), Some(write.entry));
    let restored = account.to_auth_method(Some(write.secret)).unwrap();
    assert_eq!(AccountConfig::from_auth_method(&restored, None), Some(account));
    let account = external("Eve", "u3", "https://api");
    let restored = account.to_auth_method(Some("password".to_string())).unwrap();
    assert_eq!(AccountConfig::from_auth_method(&restored, Some("alex@example.org")), Some(account));
}

#[test]
fn accounts_hold_no_secret() {
    let (first, _) = AccountConfig::save_account(&microsoft_login("one"), None, None).unwrap();
    let (second, _) = AccountConfig::save_account(&microsoft_login("two"), None, None).unwrap();
    assert_eq!(first, second);
    let keep = |password| AccountConfig::save_account(&external_login(), Some("eve"), Some(password));
    assert_eq!(keep("one").unwrap().0, keep("two").unwrap().0);
}

#[test]
fn account_errors_are_explained() {
    assert_eq!(AccountError::MicrosoftSecretMissing.message(), "无法从 keyring 读取 Microsoft refresh_token，请重新登录");
    assert_eq!(AccountError::AuthlibSecretMissing.message(), "无法从 keyring 读取 Authlib 密码，请重新登录");
    assert_eq!(AccountError::UnsupportedMethod.message(), "不支持的登录方式");
    assert_eq!(AccountError::PasswordMissing.message(), "外置登录需要提供密码");
}

fn with_accounts(accounts: Option<Vec<AccountConfig>>, selected: usize) -> AuthConfig {
    AuthConfig { microsoft_client_id: String::new(), selected_account_index: selected, accounts }
}

#[test]
fn current_account_is_the_selected_or_the_last() {
    assert_eq!(with_accounts(None, 0).current_account(), None);
    assert_eq!(with_accounts(Some(vec![]), 3).current_account(), None);
    let two = || Some(vec![offline("A", "a"), offline("B", "b")]);
    assert_eq!(with_accounts(two(), 0).current_account(), Some(&offline("A", "a")));
    assert_eq!(with_accounts(two(), 1).current_account(), Some(&offline("B", "b")));
    assert_eq!(with_accounts(two(), 7).current_account(), Some(&offline("B", "b")));
    assert_eq!(with_accounts(two(), usize::MAX).current_account(), Some(&offline("B", "b")));
    assert_eq!(with_accounts(None, 0).account_count(), 0);
    assert_eq!(with_accounts(two(), 0).account_count(), 2);
}

#[test]
fn accounts_are_replaced_in_place_or_added_last() {
    let mut auth = with_accounts(None, 5);
    auth.upsert_account(offline("A", "a"));
    auth.upsert_account(microsoft("B", "b"));
    auth.upsert_account(offline("C", "c"));
    auth.upsert_account(microsoft("B2", "b"));
    let expected = vec![offline("A", "a"), microsoft("B2", "b"), offline("C", "c")];
    assert_eq!(auth, with_accounts(Some(expected), 5));
    auth.upsert_account(microsoft("B2", "b"));
    assert_eq!(auth.account_count(), 3);
}

#[test]
fn defaults_of_the_configuration() {
    assert_eq!(GameConfig::default(), GameConfig { minecraft_path: None, java_path: None });
    let download = DownloadConfig::default();
    assert_eq!((download.source.as_str(), download.parallel_amount), ("Default", 64));
    assert_eq!((download.verify_data, download.curseforge_api_key.as_str()), (false, ""));
    let launch = LaunchConfig::default();
    assert_eq!((launch.max_mem, launch.game_independent, launch.recheck), (0, true, true));
    assert_eq!((launch.jvm_args.as_str(), launch.selected_instance.as_str()), ("", ""));
    let appearance = AppearanceConfig::default();
    assert_eq!((appearance.language.as_str(), appearance.auto_check_update), ("zh-CN", true));
    assert_eq!(AuthConfig::default(), with_accounts(None, 0));
}

#[test]
fn paths_are_the_first_that_is_not_empty() {
    let list = |paths: &[&str]| Some(paths.iter().map(|p| p.to_string()).collect::<Vec<_>>());
    let game = GameConfig { minecraft_path: list(&["", "/mc", "/other"]), java_path: list(&["", "/jdk/bin/java"]) };
    assert_eq!(game.resolved_minecraft_path(), "/mc");
    assert_eq!(game.resolved_java_path(), "/jdk/bin/java");
    for game in [GameConfig::default(), GameConfig { minecraft_path: list(&[""]), java_path: list(&[]) }] {
        assert_eq!(game.resolved_minecraft_path(), default_minecraft_path());
        assert_eq!(game.resolved_java_path(), default_java_path());
    }
}
