//! What holds of the settings page.

use vstd::prelude::*;
use crate::accounts::AccountConfig;
use crate::config::{LaunchConfig, SclConfig};
use crate::ui_sync::avatar_owner_of;
use crate::window::SettingsPanel;

verus! {

/// Each field of the settings page shows the setting that it is named after.
pub proof fn law_page_shows_each_setting(panel: SettingsPanel, config: SclConfig)
    requires
        panel.shows(config),
    ensures
        config.game.is_minecraft_path(panel.game_minecraft_path@),
        config.game.is_java_path(panel.game_java_path@),
        panel.download_source_index == 1 <==> config.download.source@ == "BMCLAPI"@,
        panel.download_source_index == 0 <==> config.download.source@ != "BMCLAPI"@,
        panel.download_parallel_amount == config.download.parallel_amount as i32,
        panel.download_verify_data == config.download.verify_data,
        panel.download_curseforge_api_key@ == config.download.curseforge_api_key@,
        panel.launch_max_mem == config.launch.max_mem as i32,
        panel.launch_game_independent == config.launch.game_independent,
        panel.launch_recheck == config.launch.recheck,
        panel.launch_jvm_args@ == config.launch.jvm_args@,
        panel.launch_game_args@ == config.launch.game_args@,
        panel.launch_window_title@ == config.launch.window_title@,
        panel.launch_wrapper_path@ == config.launch.wrapper_path@,
        panel.launch_wrapper_args@ == config.launch.wrapper_args@,
        panel.appearance_language_index == 1 <==> config.appearance.language@ == "en-US"@,
        panel.appearance_language_index == 0 <==> config.appearance.language@ != "en-US"@,
        panel.appearance_auto_check_update == config.appearance.auto_check_update,
{
}

/// Each setting is taken from the field that is named after it; an empty path field
/// configures no path.
pub proof fn law_each_setting_is_taken(panel: SettingsPanel, before: SclConfig, after: SclConfig)
    requires
        panel.is_taken_over(before, after),
    ensures
        panel.game_minecraft_path@.len() == 0 <==> after.game.minecraft_path is None,
        after.game.minecraft_path matches Some(paths) ==> paths@ == seq![panel.game_minecraft_path],
        panel.game_java_path@.len() == 0 <==> after.game.java_path is None,
        after.game.java_path matches Some(paths) ==> paths@ == seq![panel.game_java_path],
        panel.download_source_index == 1 ==> after.download.source@ == "BMCLAPI"@,
        panel.download_source_index != 1 ==> after.download.source@ == "Default"@,
        after.download.parallel_amount == panel.download_parallel_amount as usize,
        after.download.verify_data == panel.download_verify_data,
        after.download.curseforge_api_key@ == panel.download_curseforge_api_key@,
        after.launch == (LaunchConfig {
            max_mem: panel.launch_max_mem as u32,
            game_independent: panel.launch_game_independent,
            recheck: panel.launch_recheck,
            jvm_args: panel.launch_jvm_args,
            game_args: panel.launch_game_args,
            window_title: panel.launch_window_title,
            wrapper_path: panel.launch_wrapper_path,
            wrapper_args: panel.launch_wrapper_args,
            selected_instance: before.launch.selected_instance,
        }),
        panel.appearance_language_index == 1 ==> after.appearance.language@ == "en-US"@,
        panel.appearance_language_index != 1 ==> after.appearance.language@ == "zh-CN"@,
        after.appearance.auto_check_update == panel.appearance_auto_check_update,
        after.auth == before.auth,
{
}

/// A picture is looked for under the account's own player; offline accounts have none.
pub proof fn law_picture_is_the_players_own(account: Option<AccountConfig>)
    ensures
        match account {
            Some(AccountConfig::Microsoft { uuid, .. }) => avatar_owner_of(account) == Some(uuid),
            Some(AccountConfig::AuthlibInjector { uuid, .. }) => avatar_owner_of(account) == Some(
                uuid,
            ),
            _ => avatar_owner_of(account) is None,
        },
{
}

} // verus!
