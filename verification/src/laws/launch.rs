//! What holds of a launch from the click to the running game.

use vstd::prelude::*;
use crate::accounts::{AccountConfig, AuthMethod, SecretWrite};
use crate::config::SclConfig;
use crate::launch::{is_run, launch_refused, law_launch_goes_on, Launch, LaunchEvent, LaunchTask};
use crate::text::{decimal, trimmed};
use crate::window::AppWindow;

verus! {

/// The version that starts is the one at the selected place of the list, whatever the
/// list and the place; and the bar appears, empty.
pub proof fn law_selected_version_is_launched(
    before: AppWindow,
    config: SclConfig,
    versions: Seq<String>,
    launch: Option<Launch>,
    after: AppWindow,
)
    requires
        Launch::is_start(before, config, versions, launch, after),
        0 <= before.selected_instance_index < versions.len(),
        config.auth.accounts is Some,
        config.auth.accounts->0@.len() > 0,
    ensures
        launch is Some,
        launch->0.version_name == versions[before.selected_instance_index as int],
        launch->0.task is LoadSecret,
        launch->0.auth is None,
        after.progress.visible,
        after.progress.percent == 0,
        after == (AppWindow { progress: after.progress, ..before }),
{
}

/// Selecting another version launches that other version, with all else the same.
pub proof fn law_selection_decides_the_version(
    one: AppWindow,
    other: AppWindow,
    config: SclConfig,
    versions: Seq<String>,
    launch_one: Launch,
    launch_other: Launch,
    after_one: AppWindow,
    after_other: AppWindow,
)
    requires
        Launch::is_start(one, config, versions, Some(launch_one), after_one),
        Launch::is_start(other, config, versions, Some(launch_other), after_other),
    ensures
        0 <= one.selected_instance_index < versions.len(),
        0 <= other.selected_instance_index < versions.len(),
        launch_one.version_name == versions[one.selected_instance_index as int],
        launch_other.version_name == versions[other.selected_instance_index as int],
        launch_one.account == launch_other.account,
        launch_one.settings == launch_other.settings,
        launch_one.client_id@ == launch_other.client_id@,
{
}

/// Nothing is launched without a selected version and an account, and then the bar is
/// hidden.
pub proof fn law_launch_needs_a_version_and_an_account(
    before: AppWindow,
    config: SclConfig,
    versions: Seq<String>,
    launch: Option<Launch>,
    after: AppWindow,
)
    requires
        Launch::is_start(before, config, versions, launch, after),
    ensures
        launch is None <==> before.selected_instance_index < 0 || before.selected_instance_index
            >= versions.len() || config.auth.accounts is None
            || config.auth.accounts->0@.len() == 0,
        launch is None ==> !after.progress.visible,
        after == (AppWindow { progress: after.progress, ..before }),
{
}

/// The game is launched with the account at the selected place, or with the last one
/// where the selection lies beyond the list.
pub proof fn law_selected_account_is_launched(
    before: AppWindow,
    config: SclConfig,
    versions: Seq<String>,
    launch: Launch,
    after: AppWindow,
)
    requires
        Launch::is_start(before, config, versions, Some(launch), after),
    ensures
        config.auth.selected_account_index < config.auth.accounts->0@.len() ==> launch.account
            == config.auth.accounts->0@[config.auth.selected_account_index as int],
        config.auth.selected_account_index >= config.auth.accounts->0@.len() ==> launch.account
            == config.auth.accounts->0@.last(),
{
}

/// The game is launched with the configured settings, directory and Java runtime: the
/// first of the paths, where it is not empty.
pub proof fn law_launch_takes_the_configuration(
    before: AppWindow,
    config: SclConfig,
    versions: Seq<String>,
    launch: Launch,
    after: AppWindow,
)
    requires
        Launch::is_start(before, config, versions, Some(launch), after),
    ensures
        launch.settings == config.launch,
        launch.max_mem == config.launch.max_mem,
        launch.client_id@ == trimmed(config.auth.microsoft_client_id@),
        config.game.minecraft_path matches Some(paths) ==> forall|i: int|
            0 <= i < paths@.len() && (#[trigger] paths@[i])@.len() > 0 && (forall|j: int|
                0 <= j < i ==> (#[trigger] paths@[j])@.len() == 0) ==> launch.minecraft_dir@
                == paths@[i]@,
        config.game.java_path matches Some(paths) ==> forall|i: int|
            0 <= i < paths@.len() && (#[trigger] paths@[i])@.len() > 0 && (forall|j: int|
                0 <= j < i ==> (#[trigger] paths@[j])@.len() == 0) ==> launch.java_path@
                == paths@[i]@,
{
    if let Some(paths) = config.game.minecraft_path {
        crate::laws::config::lemma_first_path(paths@);
    }
    if let Some(paths) = config.game.java_path {
        crate::laws::config::lemma_first_path(paths@);
    }
}

/// A login that was refreshed is the one that the launch goes on with, whatever kind of
/// login it is.
pub proof fn law_refreshed_login_is_taken(
    before: Launch,
    method: AuthMethod,
    after: Launch,
    shown: AppWindow,
    shown_after: AppWindow,
)
    requires
        before.moves(LaunchEvent::Refreshed(Ok(method)), after, shown, shown_after),
    ensures
        after.auth == Some(method),
        method is Microsoft ==> after.task is StoreSecret,
        !(method is Microsoft) ==> after.task is LoadVersion,
        after.version_name == before.version_name,
        after.account == before.account,
{
}

/// No outcome but a restored or refreshed login touches the login.
pub proof fn law_login_stays(
    before: Launch,
    event: LaunchEvent,
    after: Launch,
    shown: AppWindow,
    shown_after: AppWindow,
)
    requires
        before.moves(event, after, shown, shown_after),
        !(event is SecretLoaded),
        !(event matches LaunchEvent::Refreshed(Ok(_))),
    ensures
        after.auth == before.auth,
{
}

/// From its refresh to the start of the game, a launch holds the refreshed login.
pub proof fn law_game_starts_with_the_refreshed_login(
    states: Seq<Launch>,
    events: Seq<LaunchEvent>,
    windows: Seq<AppWindow>,
    method: AuthMethod,
    at: int,
    later: int,
)
    requires
        is_run(states, events, windows),
        0 <= at < later <= events.len(),
        events[at] == LaunchEvent::Refreshed(Ok(method)),
    ensures
        states[later].auth == Some(method),
        states[later].task.rank() >= 2,
    decreases later - at,
{
    let last = later - 1;
    if last > at {
        law_game_starts_with_the_refreshed_login(states, events, windows, method, at, last);
    }
    assert(events[last].answers(states[last].task));
    law_launch_goes_on(
        states[last],
        events[last],
        states[later],
        windows[last],
        windows[later],
    );
}

/// A launch restores the login of its account: the same player at the same service, with
/// the stored token; what needs a secret ends without one.
pub proof fn law_account_is_logged_in(
    before: Launch,
    secret: Option<String>,
    after: Launch,
    shown: AppWindow,
    shown_after: AppWindow,
)
    requires
        before.moves(LaunchEvent::SecretLoaded(secret), after, shown, shown_after),
    ensures
        match before.account {
            AccountConfig::Offline { player_name, uuid } => {
                &&& after.task is LoadVersion
                &&& after.auth == Some(AuthMethod::Offline { player_name, uuid })
            },
            AccountConfig::Microsoft { player_name, uuid, xuid } => match secret {
                Some(token) => {
                    &&& after.task == if before.client_id@.len() == 0 {
                        LaunchTask::StoreSecret
                    } else {
                        LaunchTask::RefreshMicrosoft
                    }
                    &&& after.auth matches Some(
                        AuthMethod::Microsoft {
                            refresh_token,
                            player_name: name2,
                            uuid: uuid2,
                            xuid: xuid2,
                            ..
                        },
                    ) && refresh_token == token && name2 == player_name && uuid2 == uuid && xuid2
                        == xuid
                },
                None => after.task is Finished && !shown_after.progress.visible,
            },
            AccountConfig::AuthlibInjector {
                player_name,
                uuid,
                api_location,
                server_name,
                server_homepage,
                server_meta,
                ..
            } => match secret {
                Some(_) => {
                    &&& after.task is RefreshAuthlib
                    &&& after.auth matches Some(
                        AuthMethod::AuthlibInjector {
                            player_name: name2,
                            uuid: uuid2,
                            api_location: location2,
                            server_name: server2,
                            server_homepage: homepage2,
                            server_meta: meta2,
                            ..
                        },
                    ) && name2 == player_name && uuid2 == uuid && location2 == api_location
                        && server2 == server_name && homepage2 == server_homepage && meta2
                        == server_meta
                },
                None => after.task is Finished && !shown_after.progress.visible,
            },
        },
{
}

/// What a launch does after each outcome: the next task where it went well, the end
/// where it did not. The memory is the configured one, or else the measured one.
pub proof fn law_tasks_follow_each_other(
    before: Launch,
    event: LaunchEvent,
    after: Launch,
    shown: AppWindow,
    shown_after: AppWindow,
)
    requires
        before.moves(event, after, shown, shown_after),
    ensures
        match event {
            LaunchEvent::SecretLoaded(_) => true,
            LaunchEvent::Refreshed(outcome) => (outcome is Err) == (after.task is Finished),
            LaunchEvent::SecretStored => after.task is LoadVersion,
            LaunchEvent::VersionLoaded(Ok(_)) => if before.settings.max_mem > 0 {
                after.task is DetectJava && after.max_mem == before.settings.max_mem
            } else {
                after.task is MeasureMemory
            },
            LaunchEvent::VersionLoaded(Err(_)) => after.task is Finished,
            LaunchEvent::MemoryMeasured(megabytes) => after.task is DetectJava && after.max_mem
                == megabytes as u32,
            LaunchEvent::JavaDetected(Ok(_)) => after.task is BuildClient,
            LaunchEvent::JavaDetected(Err(_)) => after.task is Finished,
            LaunchEvent::ClientBuilt(Ok(_)) => after.task is StartClient
                && shown_after.progress.percent == 100,
            LaunchEvent::ClientBuilt(Err(_)) => after.task is Finished,
            LaunchEvent::ClientStarted(_) => after.task is Finished,
        },
        !(event is VersionLoaded) && !(event is MemoryMeasured) ==> after.max_mem
            == before.max_mem,
        after.task is Finished ==> !shown_after.progress.visible,
        !(after.task is Finished) ==> shown_after.progress.visible == shown.progress.visible,
        !(event is ClientBuilt) ==> shown_after.progress.percent == shown.progress.percent,
{
}

/// Each outcome is taken at its own task and at no other.
pub proof fn law_outcomes_belong_to_their_tasks(event: LaunchEvent, task: LaunchTask)
    ensures
        event.answers(task) <==> match task {
            LaunchTask::LoadSecret => event is SecretLoaded,
            LaunchTask::RefreshMicrosoft => event is Refreshed,
            LaunchTask::RefreshAuthlib => event is Refreshed,
            LaunchTask::StoreSecret => event is SecretStored,
            LaunchTask::LoadVersion => event is VersionLoaded,
            LaunchTask::MeasureMemory => event is MemoryMeasured,
            LaunchTask::DetectJava => event is JavaDetected,
            LaunchTask::BuildClient => event is ClientBuilt,
            LaunchTask::StartClient => event is ClientStarted,
            LaunchTask::Finished => false,
        },
{
}

/// What failed is what the user reads last: the message ends in the whole error.
pub proof fn law_errors_are_shown(
    before: Launch,
    event: LaunchEvent,
    after: Launch,
    shown: AppWindow,
    shown_after: AppWindow,
)
    requires
        before.moves(event, after, shown, shown_after),
    ensures
        match event {
            LaunchEvent::Refreshed(Err(error))
            | LaunchEvent::VersionLoaded(Err(error))
            | LaunchEvent::JavaDetected(Err(error))
            | LaunchEvent::ClientBuilt(Err(error))
            | LaunchEvent::ClientStarted(Err(error)) => {
                let message = shown_after.progress.task_name@;
                message.len() > error@.len() && message.skip(message.len() - error@.len()) == error@
            },
            _ => true,
        },
{
    reveal_strlit("刷新令牌失败: ");
    reveal_strlit("加载版本信息失败: ");
    reveal_strlit("检测 Java 失败: ");
    reveal_strlit("组装启动参数失败: ");
    reveal_strlit("启动游戏失败: ");
    match event {
        LaunchEvent::Refreshed(Err(error))
        | LaunchEvent::VersionLoaded(Err(error))
        | LaunchEvent::JavaDetected(Err(error))
        | LaunchEvent::ClientBuilt(Err(error))
        | LaunchEvent::ClientStarted(Err(error)) => {
            let message = shown_after.progress.task_name@;
            assert(message.skip(message.len() - error@.len()) =~= error@);
        },
        _ => {},
    }
}

/// The bar names the task that comes next where it is the user's to know, and otherwise
/// stays as it is.
pub proof fn law_each_task_is_announced(
    before: Launch,
    event: LaunchEvent,
    after: Launch,
    shown: AppWindow,
    shown_after: AppWindow,
)
    requires
        before.moves(event, after, shown, shown_after),
    ensures
        shown_after == (AppWindow { progress: shown_after.progress, ..shown }),
        match after.task {
            LaunchTask::LoadVersion => shown_after.progress.task_name@ == "正在加载版本信息..."@,
            LaunchTask::DetectJava => shown_after.progress.task_name@ == "正在检测 Java..."@,
            LaunchTask::BuildClient => shown_after.progress.task_name@ == "正在组装启动参数..."@,
            LaunchTask::StartClient => shown_after.progress.task_name@ == "正在启动游戏..."@,
            LaunchTask::Finished => true,
            _ => shown_after == shown,
        },
{
}

/// The user reads the process of a game that runs.
pub proof fn law_process_is_shown(
    before: Launch,
    pid: u32,
    after: Launch,
    shown: AppWindow,
    shown_after: AppWindow,
)
    requires
        before.moves(LaunchEvent::ClientStarted(Ok(pid)), after, shown, shown_after),
    ensures
        ({
            let message = shown_after.progress.task_name@;
            let from = "游戏已启动 (PID: "@.len() as int;
            let to = message.len() - ")"@.len();
            message.subrange(from, to) == decimal(pid as nat)
        }),
{
    let message = shown_after.progress.task_name@;
    let from = "游戏已启动 (PID: "@.len() as int;
    let to = message.len() - ")"@.len();
    assert(message.subrange(from, to) =~= decimal(pid as nat));
}

/// A missing version is complained of before a missing account.
pub proof fn law_version_is_asked_for_first(
    ui: AppWindow,
    config: SclConfig,
    versions: Seq<String>,
)
    ensures
        !(0 <= ui.selected_instance_index < versions.len()) ==> launch_refused(
            ui,
            config,
            versions,
        ) == Some("错误：未选择有效的游戏版本"@),
        0 <= ui.selected_instance_index < versions.len() && (config.auth.accounts matches Some(
            accounts,
        ) ==> accounts@.len() == 0) ==> launch_refused(ui, config, versions) == Some(
            "错误：未选择账户"@,
        ),
{
}

/// The secret that is stored anew is the token of the login at hand, under the player of
/// that login; only Microsoft logins have one.
pub proof fn law_new_token_is_stored(launch: Launch, write: Option<SecretWrite>)
    requires
        launch.is_secret_write(write),
    ensures
        match launch.auth {
            Some(AuthMethod::Microsoft { refresh_token, uuid, .. }) => {
                &&& write is Some
                &&& write->0.secret@ == refresh_token@
                &&& write->0.entry.key@ == "microsoft:"@ + uuid@
                &&& write->0.entry.service@ == "scl3"@
            },
            _ => write is None,
        },
{
}

} // verus!
