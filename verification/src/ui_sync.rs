//! Carrying the configuration into the window and back.

use vstd::prelude::*;
use crate::accounts::AccountConfig;
use crate::config::{configured, first_non_empty, SclConfig};
use crate::text::same_text;
use crate::window::{AccountPanel, AppWindow, Avatar, SettingsPanel};

verus! {

/// The place of a download source in the settings' list.
pub open spec fn source_index(source: Seq<char>) -> i32 {
    if source == "BMCLAPI"@ {
        1
    } else {
        0
    }
}

/// The download source at a place of the settings' list.
pub open spec fn source_at(index: i32) -> Seq<char> {
    if index == 1 {
        "BMCLAPI"@
    } else {
        "Default"@
    }
}

/// The place of a language in the settings' list.
pub open spec fn language_index(language: Seq<char>) -> i32 {
    if language == "en-US"@ {
        1
    } else {
        0
    }
}

/// The language at a place of the settings' list.
pub open spec fn language_at(index: i32) -> Seq<char> {
    if index == 1 {
        "en-US"@
    } else {
        "zh-CN"@
    }
}

/// Shows why a Microsoft login does not go on.
pub fn set_microsoft_error(ui: &mut AppWindow, status: String)
    ensures
        old(ui).shows_microsoft_error(*final(ui), status@),
{
    ui.microsoft.status = status;
    ui.microsoft.login_in_progress = false;
}

impl AppWindow {
    /// Whether `after` is this window once it says why a Microsoft login does not go
    /// on.
    pub open spec fn shows_microsoft_error(self, after: AppWindow, status: Seq<char>) -> bool {
        &&& after == (AppWindow {
            microsoft: (crate::window::MicrosoftPanel {
                status: after.microsoft.status,
                login_in_progress: false,
                ..self.microsoft
            }),
            ..self
        })
        &&& after.microsoft.status@ == status
    }
}

/// The player whose cached picture an account shows: offline accounts have none.
pub open spec fn avatar_owner_of(account: Option<AccountConfig>) -> Option<String> {
    match account {
        Some(AccountConfig::Microsoft { uuid, .. }) => Some(uuid),
        Some(AccountConfig::AuthlibInjector { uuid, .. }) => Some(uuid),
        _ => None,
    }
}

/// The player whose cached picture is to be looked up for an account.
pub fn avatar_owner(account: Option<&AccountConfig>) -> (uuid: Option<String>)
    ensures
        uuid == avatar_owner_of(match account {
            Some(account) => Some(*account),
            None => None,
        }),
{
    match account {
        Some(AccountConfig::Microsoft { uuid, .. }) => Some(uuid.clone()),
        Some(AccountConfig::AuthlibInjector { uuid, .. }) => Some(uuid.clone()),
        _ => None,
    }
}

impl AccountPanel {
    /// The number that the window uses for a kind of account.
    pub open spec fn kind_of(account: Option<AccountConfig>) -> i32 {
        match account {
            Some(AccountConfig::Microsoft { .. }) => 1,
            Some(AccountConfig::AuthlibInjector { .. }) => 2,
            _ => 0,
        }
    }

    /// Whether `after` is this panel once it shows an account, or that there is none.
    /// `has_picture` tells whether a picture of its owner is in the cache.
    pub open spec fn shows(
        self,
        after: AccountPanel,
        account: Option<AccountConfig>,
        has_picture: bool,
        default_avatar: Avatar,
    ) -> bool {
        &&& after.account_count == self.account_count
        &&& after.current_account_index == self.current_account_index
        &&& after.player_name@ == match account {
            Some(account) => account.name(),
            None => "Player"@,
        }
        &&& after.login_method_type == AccountPanel::kind_of(account)
        &&& after.avatar == match avatar_owner_of(account) {
            Some(uuid) => if has_picture {
                Avatar::Cached(uuid)
            } else {
                default_avatar
            },
            None => default_avatar,
        }
    }
}

/// Shows an account in the window, or that there is none. `has_picture` tells
/// whether a picture of [`avatar_owner`] is in the cache.
pub fn update_account_ui(
    ui: &mut AppWindow,
    account: Option<&AccountConfig>,
    has_picture: bool,
    default_avatar: Avatar,
)
    ensures
        *final(ui) == (AppWindow { account: final(ui).account, ..*old(ui) }),
        old(ui).account.shows(
            final(ui).account,
            match account {
                Some(account) => Some(*account),
                None => None,
            },
            has_picture,
            default_avatar,
        ),
{
    match account {
        Some(account) => {
            ui.account.player_name = account.player_name().to_string();
            ui.account.login_method_type = match account {
                AccountConfig::Offline { .. } => 0,
                AccountConfig::Microsoft { .. } => 1,
                AccountConfig::AuthlibInjector { .. } => 2,
            };
            match avatar_owner(Some(account)) {
                Some(uuid) => {
                    ui.account.avatar = if has_picture {
                        Avatar::Cached(uuid)
                    } else {
                        default_avatar
                    };
                },
                None => {
                    ui.account.avatar = default_avatar;
                },
            }
        },
        None => {
            ui.account.player_name = "Player".to_string();
            ui.account.login_method_type = 0;
            ui.account.avatar = default_avatar;
        },
    }
}

impl SettingsPanel {
    /// Whether the settings page shows a configuration.
    pub open spec fn shows(self, config: SclConfig) -> bool {
        &&& config.game.is_minecraft_path(self.game_minecraft_path@)
        &&& config.game.is_java_path(self.game_java_path@)
        &&& self.download_source_index == source_index(config.download.source@)
        &&& self.download_parallel_amount == config.download.parallel_amount as i32
        &&& self.download_verify_data == config.download.verify_data
        &&& self.download_curseforge_api_key == config.download.curseforge_api_key
        &&& self.launch_max_mem == config.launch.max_mem as i32
        &&& self.launch_game_independent == config.launch.game_independent
        &&& self.launch_recheck == config.launch.recheck
        &&& self.launch_jvm_args == config.launch.jvm_args
        &&& self.launch_game_args == config.launch.game_args
        &&& self.launch_window_title == config.launch.window_title
        &&& self.launch_wrapper_path == config.launch.wrapper_path
        &&& self.launch_wrapper_args == config.launch.wrapper_args
        &&& self.appearance_language_index == language_index(config.appearance.language@)
        &&& self.appearance_auto_check_update == config.appearance.auto_check_update
    }

    /// Whether `after` is a configuration once it has taken over the settings. The
    /// version last selected and the accounts are not among them.
    pub open spec fn is_taken_over(self, before: SclConfig, after: SclConfig) -> bool {
        &&& is_path_list(self.game_minecraft_path, after.game.minecraft_path)
        &&& is_path_list(self.game_java_path, after.game.java_path)
        &&& after.download.source@ == source_at(self.download_source_index)
        &&& after.download.parallel_amount == self.download_parallel_amount as usize
        &&& after.download.verify_data == self.download_verify_data
        &&& after.download.curseforge_api_key == self.download_curseforge_api_key
        &&& after.launch == (crate::config::LaunchConfig {
            max_mem: self.launch_max_mem as u32,
            game_independent: self.launch_game_independent,
            recheck: self.launch_recheck,
            jvm_args: self.launch_jvm_args,
            game_args: self.launch_game_args,
            window_title: self.launch_window_title,
            wrapper_path: self.launch_wrapper_path,
            wrapper_args: self.launch_wrapper_args,
            selected_instance: before.launch.selected_instance,
        })
        &&& after.appearance.language@ == language_at(self.appearance_language_index)
        &&& after.appearance.auto_check_update == self.appearance_auto_check_update
        &&& after.auth == before.auth
    }
}

/// Whether a list of paths is what a text field holds: no list for an empty field.
pub open spec fn is_path_list(field: String, paths: Option<Vec<String>>) -> bool {
    if field@.len() == 0 {
        paths is None
    } else {
        paths is Some && paths->0@ == seq![field]
    }
}

/// The list of paths that a text field stands for.
fn path_list(field: &String) -> (paths: Option<Vec<String>>)
    ensures
        is_path_list(*field, paths),
{
    if field.as_str().is_empty() {
        None
    } else {
        let mut paths: Vec<String> = Vec::new();
        paths.push(field.clone());
        assert(paths@ == seq![*field]);
        Some(paths)
    }
}

/// Shows the configuration in the window. `has_picture` tells whether a picture of
/// the current account's [`avatar_owner`] is in the cache.
pub fn sync_config_to_ui(
    ui: &mut AppWindow,
    config: &SclConfig,
    has_picture: bool,
    default_avatar: Avatar,
)
    ensures
        *final(ui) == (AppWindow {
            settings: final(ui).settings,
            account: final(ui).account,
            ..*old(ui)
        }),
        final(ui).settings.shows(*config),
        final(ui).account.account_count == config.auth.known().len() as i32,
        final(ui).account.current_account_index == if config.auth.known().len() == 0 {
            0
        } else {
            config.auth.current() as i32
        },
        (AccountPanel {
            account_count: final(ui).account.account_count,
            current_account_index: final(ui).account.current_account_index,
            ..old(ui).account
        }).shows(
            final(ui).account,
            if config.auth.known().len() == 0 {
                None
            } else {
                Some(config.auth.known()[config.auth.current()])
            },
            has_picture,
            default_avatar,
        ),
{
    ui.settings.game_minecraft_path = config.game.resolved_minecraft_path();
    ui.settings.game_java_path = config.game.resolved_java_path();

    ui.settings.download_source_index = if same_text(config.download.source.as_str(), "BMCLAPI") {
        1
    } else {
        0
    };
    ui.settings.download_parallel_amount = config.download.parallel_amount as i32;
    ui.settings.download_verify_data = config.download.verify_data;
    ui.settings.download_curseforge_api_key = config.download.curseforge_api_key.clone();

    ui.settings.launch_max_mem = config.launch.max_mem as i32;
    ui.settings.launch_game_independent = config.launch.game_independent;
    ui.settings.launch_recheck = config.launch.recheck;
    ui.settings.launch_jvm_args = config.launch.jvm_args.clone();
    ui.settings.launch_game_args = config.launch.game_args.clone();
    ui.settings.launch_window_title = config.launch.window_title.clone();
    ui.settings.launch_wrapper_path = config.launch.wrapper_path.clone();
    ui.settings.launch_wrapper_args = config.launch.wrapper_args.clone();

    ui.settings.appearance_language_index = if same_text(
        config.appearance.language.as_str(),
        "en-US",
    ) {
        1
    } else {
        0
    };
    ui.settings.appearance_auto_check_update = config.appearance.auto_check_update;

    let count: usize = config.auth.account_count();
    ui.account.account_count = count as i32;
    ui.account.current_account_index = if count == 0 {
        0
    } else if config.auth.selected_account_index < count {
        config.auth.selected_account_index as i32
    } else {
        (count - 1) as i32
    };
    update_account_ui(ui, config.auth.current_account(), has_picture, default_avatar);
}

/// Takes over what the user set on the settings page.
pub fn sync_ui_to_config(ui: &AppWindow, config: &mut SclConfig)
    ensures
        ui.settings.is_taken_over(*old(config), *final(config)),
{
    config.game.minecraft_path = path_list(&ui.settings.game_minecraft_path);
    config.game.java_path = path_list(&ui.settings.game_java_path);

    config.download.source = if ui.settings.download_source_index == 1 {
        "BMCLAPI".to_string()
    } else {
        "Default".to_string()
    };
    config.download.parallel_amount = ui.settings.download_parallel_amount as usize;
    config.download.verify_data = ui.settings.download_verify_data;
    config.download.curseforge_api_key = ui.settings.download_curseforge_api_key.clone();

    config.launch.max_mem = ui.settings.launch_max_mem as u32;
    config.launch.game_independent = ui.settings.launch_game_independent;
    config.launch.recheck = ui.settings.launch_recheck;
    config.launch.jvm_args = ui.settings.launch_jvm_args.clone();
    config.launch.game_args = ui.settings.launch_game_args.clone();
    config.launch.window_title = ui.settings.launch_window_title.clone();
    config.launch.wrapper_path = ui.settings.launch_wrapper_path.clone();
    config.launch.wrapper_args = ui.settings.launch_wrapper_args.clone();

    config.appearance.language = if ui.settings.appearance_language_index == 1 {
        "en-US".to_string()
    } else {
        "zh-CN".to_string()
    };
    config.appearance.auto_check_update = ui.settings.appearance_auto_check_update;
}

/// The CurseForge key that is to go into the environment: the configured one, if
/// any.
pub fn curseforge_key(config: &SclConfig) -> (key: Option<String>)
    ensures
        key == if config.download.curseforge_api_key@.len() > 0 {
            Some(config.download.curseforge_api_key)
        } else {
            None
        },
{
    if config.download.curseforge_api_key.as_str().is_empty() {
        None
    } else {
        Some(config.download.curseforge_api_key.clone())
    }
}

/// Takes over what the user set, and tells which CurseForge key is to go into the
/// environment before the configuration is written to its file.
pub fn save_ui_config(ui: &AppWindow, config: &mut SclConfig) -> (key: Option<String>)
    ensures
        ui.settings.is_taken_over(*old(config), *final(config)),
        key == if ui.settings.download_curseforge_api_key@.len() > 0 {
            Some(ui.settings.download_curseforge_api_key)
        } else {
            None
        },
{
    sync_ui_to_config(ui, config);
    curseforge_key(config)
}

/// What the settings page shows of one configuration and hands to any other is what was
/// configured in the first, for every configuration whose source and language are among
/// those on offer and whose number of downloads fits the page. Of the paths, exactly the
/// one that was in use is left, whether it was configured or the default. What is not
/// among the settings stays as the other configuration has it.
pub proof fn law_settings_carry_over(
    config: SclConfig,
    panel: SettingsPanel,
    before: SclConfig,
    after: SclConfig,
)
    requires
        config.download.source@ == "Default"@ || config.download.source@ == "BMCLAPI"@,
        config.appearance.language@ == "zh-CN"@ || config.appearance.language@ == "en-US"@,
        config.download.parallel_amount <= i32::MAX,
        panel.shows(config),
        panel.is_taken_over(before, after),
    ensures
        after.download.source@ == config.download.source@,
        after.download.parallel_amount == config.download.parallel_amount,
        after.download.verify_data == config.download.verify_data,
        after.download.curseforge_api_key == config.download.curseforge_api_key,
        after.launch == (crate::config::LaunchConfig {
            selected_instance: before.launch.selected_instance,
            ..config.launch
        }),
        after.appearance.language@ == config.appearance.language@,
        after.appearance.auto_check_update == config.appearance.auto_check_update,
        after.auth == before.auth,
        after.game.minecraft_path matches Some(paths) && paths@.len() == 1
            && config.game.is_minecraft_path(paths@[0]@),
        after.game.java_path matches Some(paths) && paths@.len() == 1
            && config.game.is_java_path(paths@[0]@),
        configured(config.game.minecraft_path) is Some ==> configured(after.game.minecraft_path)
            == configured(config.game.minecraft_path),
        configured(config.game.java_path) is Some ==> configured(after.game.java_path)
            == configured(config.game.java_path),
{
    reveal_strlit("Default");
    reveal_strlit("BMCLAPI");
    reveal_strlit("zh-CN");
    reveal_strlit("en-US");
    assert("Default"@.len() != "BMCLAPI"@.len() || "Default"@[0] != "BMCLAPI"@[0]);
    assert("zh-CN"@[0] != "en-US"@[0]);
    let mem = config.launch.max_mem;
    assert((mem as i32) as u32 == mem) by (bit_vector);
    if let Some(paths) = config.game.minecraft_path {
        lemma_first_is_not_empty(paths@);
    }
    if let Some(paths) = config.game.java_path {
        lemma_first_is_not_empty(paths@);
    }
    if configured(config.game.minecraft_path) is None {
        crate::paths::law_default_is_called_minecraft(panel.game_minecraft_path@);
        reveal_strlit(".minecraft");
    }
    if configured(config.game.java_path) is None {
        reveal_strlit("java");
        reveal_strlit("javaw.exe");
    }
    lemma_single_path(panel.game_minecraft_path, after.game.minecraft_path);
    lemma_single_path(panel.game_java_path, after.game.java_path);
}

/// What the user sets on the settings page is what the page shows again, for every
/// choice from its lists, every number of downloads that is not negative, and
/// fields that name a path.
pub proof fn law_settings_show_again(
    panel: SettingsPanel,
    before: SclConfig,
    config: SclConfig,
    again: SettingsPanel,
)
    requires
        0 <= panel.download_source_index <= 1,
        0 <= panel.appearance_language_index <= 1,
        0 <= panel.download_parallel_amount,
        panel.game_minecraft_path@.len() > 0,
        panel.game_java_path@.len() > 0,
        panel.is_taken_over(before, config),
        again.shows(config),
    ensures
        again.game_minecraft_path@ == panel.game_minecraft_path@,
        again.game_java_path@ == panel.game_java_path@,
        again == (SettingsPanel {
            game_minecraft_path: again.game_minecraft_path,
            game_java_path: again.game_java_path,
            ..panel
        }),
{
    reveal_strlit("Default");
    reveal_strlit("BMCLAPI");
    reveal_strlit("zh-CN");
    reveal_strlit("en-US");
    assert("Default"@[0] != "BMCLAPI"@[0]);
    assert("zh-CN"@[0] != "en-US"@[0]);
    let mem = panel.launch_max_mem;
    assert((mem as u32) as i32 == mem) by (bit_vector);
    lemma_single_path(panel.game_minecraft_path, config.game.minecraft_path);
    lemma_single_path(panel.game_java_path, config.game.java_path);
}

/// The first text that is not empty is not empty.
proof fn lemma_first_is_not_empty(texts: Seq<String>)
    ensures
        match first_non_empty(texts) {
            Some(text) => text.len() > 0,
            None => true,
        },
    decreases texts.len(),
{
    if texts.len() > 0 {
        lemma_first_is_not_empty(texts.drop_first());
    }
}

/// A field that names a path stands for that path.
proof fn lemma_single_path(field: String, paths: Option<Vec<String>>)
    requires
        is_path_list(field, paths),
    ensures
        configured(paths) == if field@.len() == 0 {
            None
        } else {
            Some(field@)
        },
{
}

} // verus!
