//! Launching the game, step by step.

use vstd::prelude::*;
use crate::accounts::{AccountConfig, AccountError, AuthMethod, SecretEntry, SecretWrite, KEYRING_SERVICE};
use crate::config::{LaunchConfig, SclConfig};
use crate::paths::{is_entry, versions_dir};
use crate::text::{decimal, joined, joined3, to_decimal, trim, trimmed};
use crate::window::AppWindow;

verus! {

/// What a launch waits for.
#[derive(Clone, Copy, Debug, PartialEq, Eq, Structural)]
pub enum LaunchTask {
    /// The account's secret is to be read from the credential store.
    LoadSecret,
    /// The login is to be refreshed at Microsoft.
    RefreshMicrosoft,
    /// The login is to be refreshed at an external server.
    RefreshAuthlib,
    /// The new secret is to be put into the credential store.
    StoreSecret,
    /// The description of the version is to be read.
    LoadVersion,
    /// The memory for the game is to be chosen by what the machine has.
    MeasureMemory,
    /// The Java runtime is to be examined.
    DetectJava,
    /// The command line is to be put together.
    BuildClient,
    /// The game is to be started.
    StartClient,
    /// Nothing: the launch is over.
    Finished,
}

/// What came of a task.
#[derive(Debug, PartialEq, Eq)]
pub enum LaunchEvent {
    SecretLoaded(Option<String>),
    Refreshed(Result<AuthMethod, String>),
    SecretStored,
    VersionLoaded(Result<(), String>),
    /// The megabytes that the machine can spare.
    MemoryMeasured(u64),
    JavaDetected(Result<(), String>),
    ClientBuilt(Result<(), String>),
    /// The process of the game.
    ClientStarted(Result<u32, String>),
}

/// A launch under way.
#[derive(Debug, PartialEq, Eq)]
pub struct Launch {
    pub task: LaunchTask,
    pub account: AccountConfig,
    /// The login, once it is restored.
    pub auth: Option<AuthMethod>,
    /// The launcher's identity at Microsoft; empty where none is configured.
    pub client_id: String,
    pub version_name: String,
    pub minecraft_dir: String,
    pub java_path: String,
    pub settings: LaunchConfig,
    /// The memory for the game, in megabytes, once it is chosen.
    pub max_mem: u32,
}

/// How a version is to be run.
#[derive(Debug, PartialEq, Eq)]
pub struct VersionSettings {
    pub max_mem: Option<usize>,
    pub java_path: String,
    pub game_independent: bool,
    pub window_title: String,
    pub jvm_args: String,
    pub game_args: String,
    pub wrapper_path: String,
    pub wrapper_args: String,
}

/// What comes after a login is there: a login that can be refreshed is refreshed
/// first, and the secret of a Microsoft login is stored anew. Without an identity at
/// Microsoft there is no refresh.
pub open spec fn task_with(method: AuthMethod, client_id: Seq<char>, refreshed: bool) -> LaunchTask {
    match method {
        AuthMethod::Microsoft { .. } => if refreshed || client_id.len() == 0 {
            LaunchTask::StoreSecret
        } else {
            LaunchTask::RefreshMicrosoft
        },
        AuthMethod::AuthlibInjector { .. } => if refreshed {
            LaunchTask::LoadVersion
        } else {
            LaunchTask::RefreshAuthlib
        },
        _ => LaunchTask::LoadVersion,
    }
}

/// Whether the window goes on to the loading of the version, where that comes next.
pub open spec fn shows_next(before: AppWindow, after: AppWindow, task: LaunchTask) -> bool {
    if task is LoadVersion {
        before.names_task(after, "正在加载版本信息..."@)
    } else {
        after == before
    }
}

impl LaunchTask {
    /// How far a launch has come.
    pub open spec fn rank(self) -> nat {
        match self {
            LaunchTask::LoadSecret => 0,
            LaunchTask::RefreshMicrosoft => 1,
            LaunchTask::RefreshAuthlib => 1,
            LaunchTask::StoreSecret => 2,
            LaunchTask::LoadVersion => 3,
            LaunchTask::MeasureMemory => 4,
            LaunchTask::DetectJava => 5,
            LaunchTask::BuildClient => 6,
            LaunchTask::StartClient => 7,
            LaunchTask::Finished => 8,
        }
    }
}

impl LaunchEvent {
    /// Whether this is what the task was to bring.
    pub open spec fn answers(self, task: LaunchTask) -> bool {
        match self {
            LaunchEvent::SecretLoaded(_) => task is LoadSecret,
            LaunchEvent::Refreshed(_) => task is RefreshMicrosoft || task is RefreshAuthlib,
            LaunchEvent::SecretStored => task is StoreSecret,
            LaunchEvent::VersionLoaded(_) => task is LoadVersion,
            LaunchEvent::MemoryMeasured(_) => task is MeasureMemory,
            LaunchEvent::JavaDetected(_) => task is DetectJava,
            LaunchEvent::ClientBuilt(_) => task is BuildClient,
            LaunchEvent::ClientStarted(_) => task is StartClient,
        }
    }
}

/// The version that the user selected, if the selection is one.
pub open spec fn selected_version(ui: AppWindow, versions: Seq<String>) -> Option<String> {
    if 0 <= ui.selected_instance_index < versions.len() {
        Some(versions[ui.selected_instance_index as int])
    } else {
        None
    }
}

/// Why nothing can be launched, if nothing can.
pub open spec fn launch_refused(
    ui: AppWindow,
    config: SclConfig,
    versions: Seq<String>,
) -> Option<Seq<char>> {
    if selected_version(ui, versions) is None {
        Some("错误：未选择有效的游戏版本"@)
    } else if config.auth.known().len() == 0 {
        Some("错误：未选择账户"@)
    } else {
        None
    }
}

impl Launch {
    /// Whether the login is there from the moment that it is needed.
    pub open spec fn inv(self) -> bool {
        !(self.task is LoadSecret) && !(self.task is Finished) ==> self.auth is Some
    }

    /// Whether the launch is of this version, with this account and these settings.
    pub open spec fn is_of(
        self,
        version_name: String,
        account: AccountConfig,
        config: SclConfig,
    ) -> bool {
        &&& self.version_name == version_name
        &&& self.account == account
        &&& self.client_id@ == trimmed(config.auth.microsoft_client_id@)
        &&& config.game.is_minecraft_path(self.minecraft_dir@)
        &&& config.game.is_java_path(self.java_path@)
        &&& self.settings == config.launch
        &&& self.max_mem == config.launch.max_mem
    }

    /// Whether `after` is this launch once it has a login, and the window shows it.
    pub open spec fn has_login(
        self,
        after: Launch,
        method: AuthMethod,
        refreshed: bool,
        shown: AppWindow,
        shown_after: AppWindow,
    ) -> bool {
        let task = task_with(method, self.client_id@, refreshed);
        &&& after == (Launch { task, auth: Some(method), ..self })
        &&& shows_next(shown, shown_after, task)
    }

    /// Whether `after` is this launch once it is over, and the window has a last word
    /// on it.
    pub open spec fn ends(
        self,
        after: Launch,
        shown: AppWindow,
        shown_after: AppWindow,
        message: Seq<char>,
    ) -> bool {
        &&& after == (Launch { task: LaunchTask::Finished, ..self })
        &&& shown.ends_task(shown_after, message)
    }

    /// Whether `after` is this launch once the memory is chosen, and the window goes
    /// on to Java.
    pub open spec fn has_memory(
        self,
        after: Launch,
        max_mem: u32,
        shown: AppWindow,
        shown_after: AppWindow,
    ) -> bool {
        &&& after == (Launch { task: LaunchTask::DetectJava, max_mem, ..self })
        &&& shown.names_task(shown_after, "正在检测 Java..."@)
    }

    /// Whether `after` is this launch after a task's outcome, and `shown_after` what
    /// the window shows then.
    pub open spec fn moves(
        self,
        event: LaunchEvent,
        after: Launch,
        shown: AppWindow,
        shown_after: AppWindow,
    ) -> bool {
        match event {
            LaunchEvent::SecretLoaded(secret) => if self.account is Microsoft && secret is None {
                self.ends(
                    after,
                    shown,
                    shown_after,
                    "错误："@ + AccountError::MicrosoftSecretMissing.text(),
                )
            } else if self.account is AuthlibInjector && secret is None {
                self.ends(
                    after,
                    shown,
                    shown_after,
                    "错误："@ + AccountError::AuthlibSecretMissing.text(),
                )
            } else {
                &&& after.auth is Some
                &&& self.account.restores(secret, after.auth->0)
                &&& self.has_login(after, after.auth->0, false, shown, shown_after)
            },
            LaunchEvent::Refreshed(Ok(method)) => self.has_login(
                after,
                method,
                true,
                shown,
                shown_after,
            ),
            LaunchEvent::Refreshed(Err(error)) => self.ends(
                after,
                shown,
                shown_after,
                "刷新令牌失败: "@ + error@,
            ),
            LaunchEvent::SecretStored => {
                &&& after == (Launch { task: LaunchTask::LoadVersion, ..self })
                &&& shows_next(shown, shown_after, LaunchTask::LoadVersion)
            },
            LaunchEvent::VersionLoaded(Ok(_)) => if self.settings.max_mem > 0 {
                self.has_memory(after, self.settings.max_mem, shown, shown_after)
            } else {
                &&& after == (Launch { task: LaunchTask::MeasureMemory, ..self })
                &&& shown_after == shown
            },
            LaunchEvent::VersionLoaded(Err(error)) => self.ends(
                after,
                shown,
                shown_after,
                "加载版本信息失败: "@ + error@,
            ),
            LaunchEvent::MemoryMeasured(megabytes) => self.has_memory(
                after,
                megabytes as u32,
                shown,
                shown_after,
            ),
            LaunchEvent::JavaDetected(Ok(_)) => {
                &&& after == (Launch { task: LaunchTask::BuildClient, ..self })
                &&& shown.names_task(shown_after, "正在组装启动参数..."@)
            },
            LaunchEvent::JavaDetected(Err(error)) => self.ends(
                after,
                shown,
                shown_after,
                "检测 Java 失败: "@ + error@,
            ),
            LaunchEvent::ClientBuilt(Ok(_)) => {
                &&& after == (Launch { task: LaunchTask::StartClient, ..self })
                &&& shown.only_progress_changes(shown_after)
                &&& shown_after.progress.task_name@ == "正在启动游戏..."@
                &&& shown_after.progress.percent == 100
                &&& shown_after.progress.visible == shown.progress.visible
            },
            LaunchEvent::ClientBuilt(Err(error)) => self.ends(
                after,
                shown,
                shown_after,
                "组装启动参数失败: "@ + error@,
            ),
            LaunchEvent::ClientStarted(Ok(pid)) => self.ends(
                after,
                shown,
                shown_after,
                "游戏已启动 (PID: "@ + decimal(pid as nat) + ")"@,
            ),
            LaunchEvent::ClientStarted(Err(error)) => self.ends(
                after,
                shown,
                shown_after,
                "启动游戏失败: "@ + error@,
            ),
        }
    }

    /// Whether this comes of starting a launch with the given window, configuration and
    /// versions, and `after` is what the window shows.
    pub open spec fn is_start(
        before: AppWindow,
        config: SclConfig,
        versions: Seq<String>,
        launch: Option<Launch>,
        after: AppWindow,
    ) -> bool {
        &&& before.only_progress_changes(after)
        &&& after.progress.percent == 0
        &&& match launch_refused(before, config, versions) {
            Some(message) => {
                &&& launch is None
                &&& after.progress.task_name@ == message
                &&& !after.progress.visible
            },
            None => {
                &&& launch matches Some(launch) && launch.inv() && launch.is_of(
                    selected_version(before, versions)->0,
                    config.auth.known()[config.auth.current()],
                    config,
                ) && launch.task is LoadSecret && launch.auth is None
                &&& after.progress.task_name@ == "正在启动 Minecraft..."@
                &&& after.progress.visible
            },
        }
    }

    /// Starts to launch the version that the user selected, or says why it cannot be
    /// launched.
    pub fn start(ui: &mut AppWindow, config: &SclConfig, versions: &Vec<String>) -> (launch: Option<
        Launch,
    >)
        ensures
            old(ui).only_progress_changes(*final(ui)),
            final(ui).progress.percent == 0,
            match launch_refused(*old(ui), *config, versions@) {
                Some(message) => {
                    &&& launch is None
                    &&& final(ui).progress.task_name@ == message
                    &&& !final(ui).progress.visible
                },
                None => {
                    &&& launch matches Some(launch) && launch.inv() && launch.is_of(
                        selected_version(*old(ui), versions@)->0,
                        config.auth.known()[config.auth.current()],
                        *config,
                    ) && launch.task is LoadSecret && launch.auth is None
                    &&& final(ui).progress.task_name@ == "正在启动 Minecraft..."@
                    &&& final(ui).progress.visible
                },
            },
            Launch::is_start(*old(ui), *config, versions@, launch, *final(ui)),
            launch is Some <==> 0 <= old(ui).selected_instance_index < versions@.len()
                && config.auth.accounts is Some && config.auth.accounts->0@.len() > 0,
            launch matches Some(launch) ==> launch.version_name
                == versions@[old(ui).selected_instance_index as int],
    {
        ui.start_task("正在启动 Minecraft...".to_string());
        let selected: i32 = ui.selected_instance_index;
        if selected < 0 || selected as usize >= versions.len() {
            ui.end_task("错误：未选择有效的游戏版本".to_string());
            return None;
        }
        match config.auth.current_account() {
            Some(account) => Some(
                Launch {
                    task: LaunchTask::LoadSecret,
                    account: account.clone(),
                    auth: None,
                    client_id: trim(config.auth.microsoft_client_id.as_str()),
                    version_name: versions[selected as usize].clone(),
                    minecraft_dir: config.game.resolved_minecraft_path(),
                    java_path: config.game.resolved_java_path(),
                    settings: config.launch.clone(),
                    max_mem: config.launch.max_mem,
                },
            ),
            None => {
                ui.end_task("错误：未选择账户".to_string());
                None
            },
        }
    }

    /// Takes over a login.
    fn take_login(&mut self, method: AuthMethod, refreshed: bool, ui: &mut AppWindow)
        ensures
            old(self).has_login(*final(self), method, refreshed, *old(ui), *final(ui)),
    {
        self.task = match &method {
            AuthMethod::Microsoft { .. } => if refreshed || self.client_id.as_str().is_empty() {
                LaunchTask::StoreSecret
            } else {
                LaunchTask::RefreshMicrosoft
            },
            AuthMethod::AuthlibInjector { .. } => if refreshed {
                LaunchTask::LoadVersion
            } else {
                LaunchTask::RefreshAuthlib
            },
            _ => LaunchTask::LoadVersion,
        };
        self.auth = Some(method);
        match self.task {
            LaunchTask::LoadVersion => ui.name_task("正在加载版本信息...".to_string()),
            _ => {},
        }
    }

    /// Ends the launch with a last word.
    fn finish(&mut self, word: String, ui: &mut AppWindow)
        ensures
            old(self).ends(*final(self), *old(ui), *final(ui), word@),
    {
        self.task = LaunchTask::Finished;
        ui.end_task(word);
    }

    /// Takes over the memory for the game.
    fn take_memory(&mut self, max_mem: u32, ui: &mut AppWindow)
        ensures
            old(self).has_memory(*final(self), max_mem, *old(ui), *final(ui)),
    {
        self.max_mem = max_mem;
        self.task = LaunchTask::DetectJava;
        ui.name_task("正在检测 Java...".to_string());
    }

    /// Goes on with what came of the task. What does not answer the task is passed
    /// over; `taken` tells whether it does.
    pub fn step(&mut self, event: LaunchEvent, ui: &mut AppWindow) -> (taken: bool)
        ensures
            old(self).inv() ==> final(self).inv(),
            taken == event.answers(old(self).task),
            taken ==> (event matches LaunchEvent::Refreshed(Ok(method)) ==> final(self).auth
                == Some(method)),
            if taken {
                old(self).moves(event, *final(self), *old(ui), *final(ui))
            } else {
                *final(self) == *old(self) && *final(ui) == *old(ui)
            },
    {
        match (self.task, event) {
            (LaunchTask::LoadSecret, LaunchEvent::SecretLoaded(secret)) => {
                match self.account.to_auth_method(secret) {
                    Ok(method) => self.take_login(method, false, ui),
                    Err(error) => {
                        let message = error.message();
                        self.finish(joined("错误：", message.as_str()), ui)
                    },
                }
                true
            },
            (
                LaunchTask::RefreshMicrosoft | LaunchTask::RefreshAuthlib,
                LaunchEvent::Refreshed(outcome),
            ) => {
                match outcome {
                    Ok(method) => self.take_login(method, true, ui),
                    Err(error) => self.finish(joined("刷新令牌失败: ", error.as_str()), ui),
                }
                true
            },
            (LaunchTask::StoreSecret, LaunchEvent::SecretStored) => {
                self.task = LaunchTask::LoadVersion;
                ui.name_task("正在加载版本信息...".to_string());
                true
            },
            (LaunchTask::LoadVersion, LaunchEvent::VersionLoaded(outcome)) => {
                match outcome {
                    Ok(_) => if self.settings.max_mem > 0 {
                        let max_mem: u32 = self.settings.max_mem;
                        self.take_memory(max_mem, ui)
                    } else {
                        self.task = LaunchTask::MeasureMemory;
                    },
                    Err(error) => self.finish(joined("加载版本信息失败: ", error.as_str()), ui),
                }
                true
            },
            (LaunchTask::MeasureMemory, LaunchEvent::MemoryMeasured(megabytes)) => {
                self.take_memory(megabytes as u32, ui);
                true
            },
            (LaunchTask::DetectJava, LaunchEvent::JavaDetected(outcome)) => {
                match outcome {
                    Ok(_) => {
                        self.task = LaunchTask::BuildClient;
                        ui.name_task("正在组装启动参数...".to_string());
                    },
                    Err(error) => self.finish(joined("检测 Java 失败: ", error.as_str()), ui),
                }
                true
            },
            (LaunchTask::BuildClient, LaunchEvent::ClientBuilt(outcome)) => {
                match outcome {
                    Ok(_) => {
                        self.task = LaunchTask::StartClient;
                        ui.name_task("正在启动游戏...".to_string());
                        ui.progress.percent = 100;
                    },
                    Err(error) => self.finish(joined("组装启动参数失败: ", error.as_str()), ui),
                }
                true
            },
            (LaunchTask::StartClient, LaunchEvent::ClientStarted(outcome)) => {
                match outcome {
                    Ok(pid) => {
                        let pid = to_decimal(pid as u64);
                        self.finish(joined3("游戏已启动 (PID: ", pid.as_str(), ")"), ui)
                    },
                    Err(error) => self.finish(joined("启动游戏失败: ", error.as_str()), ui),
                }
                true
            },
            _ => false,
        }
    }

    /// Where the account's secret is to be read from. Offline accounts have none, and
    /// need none.
    pub fn secret_entry(&self) -> (entry: Option<SecretEntry>)
        ensures
            match entry {
                Some(entry) => self.account.key() == Some(entry.key@) && entry.service@
                    == KEYRING_SERVICE@,
                None => self.account.key() is None,
            },
    {
        self.account.load_secret()
    }

    /// Whether this stores the secret of the login anew: the refresh token of a
    /// Microsoft login, and of no other.
    pub open spec fn is_secret_write(self, write: Option<SecretWrite>) -> bool {
        match self.auth {
            Some(AuthMethod::Microsoft { uuid, refresh_token, .. }) => {
                &&& write matches Some(write) && write.entry.key@ == "microsoft:"@ + uuid@
                    && write.entry.service@ == KEYRING_SERVICE@ && write.secret@ == refresh_token@
            },
            _ => write is None,
        }
    }

    /// The secret that is to be stored anew: the refresh token of a Microsoft login.
    pub fn secret_write(&self) -> (write: Option<SecretWrite>)
        ensures
            self.is_secret_write(write),
    {
        match &self.auth {
            Some(method) => match method {
                AuthMethod::Microsoft { refresh_token, .. } => {
                    match AccountConfig::from_auth_method(method, None) {
                        Some(account) => account.save_secret(refresh_token.as_str()),
                        None => None,
                    }
                },
                _ => None,
            },
            None => None,
        }
    }

    /// The directory in which the version is described.
    pub fn version_base(&self) -> (path: String)
        ensures
            is_entry(self.minecraft_dir@, "versions"@, path@),
    {
        versions_dir(self.minecraft_dir.as_str())
    }

    /// How the version is to be run.
    pub fn version_settings(&self) -> (settings: VersionSettings)
        ensures
            settings == (VersionSettings {
                max_mem: Some(self.max_mem as usize),
                java_path: self.java_path,
                game_independent: self.settings.game_independent,
                window_title: self.settings.window_title,
                jvm_args: self.settings.jvm_args,
                game_args: self.settings.game_args,
                wrapper_path: self.settings.wrapper_path,
                wrapper_args: self.settings.wrapper_args,
            }),
    {
        VersionSettings {
            max_mem: Some(self.max_mem as usize),
            java_path: self.java_path.clone(),
            game_independent: self.settings.game_independent,
            window_title: self.settings.window_title.clone(),
            jvm_args: self.settings.jvm_args.clone(),
            game_args: self.settings.game_args.clone(),
            wrapper_path: self.settings.wrapper_path.clone(),
            wrapper_args: self.settings.wrapper_args.clone(),
        }
    }
}

/// Each outcome brings a launch further.
pub proof fn law_launch_goes_on(
    before: Launch,
    event: LaunchEvent,
    after: Launch,
    shown: AppWindow,
    shown_after: AppWindow,
)
    requires
        event.answers(before.task),
        before.moves(event, after, shown, shown_after),
    ensures
        before.task.rank() < after.task.rank() <= 8,
{
}

/// A launch waits for some outcome until it is over, and then for none.
pub proof fn law_launch_is_never_stuck(task: LaunchTask)
    ensures
        (exists|event: LaunchEvent| #[trigger] event.answers(task)) <==> !(task is Finished),
{
    assert(LaunchEvent::SecretLoaded(None).answers(LaunchTask::LoadSecret));
    assert(LaunchEvent::Refreshed(Ok(arbitrary())).answers(LaunchTask::RefreshMicrosoft));
    assert(LaunchEvent::Refreshed(Ok(arbitrary())).answers(LaunchTask::RefreshAuthlib));
    assert(LaunchEvent::SecretStored.answers(LaunchTask::StoreSecret));
    assert(LaunchEvent::VersionLoaded(Ok(())).answers(LaunchTask::LoadVersion));
    assert(LaunchEvent::MemoryMeasured(0).answers(LaunchTask::MeasureMemory));
    assert(LaunchEvent::JavaDetected(Ok(())).answers(LaunchTask::DetectJava));
    assert(LaunchEvent::ClientBuilt(Ok(())).answers(LaunchTask::BuildClient));
    assert(LaunchEvent::ClientStarted(Ok(0)).answers(LaunchTask::StartClient));
}

/// Where a refresh keeps the player, the new token goes to the very place from which
/// the next launch of the account reads it.
pub proof fn law_new_token_is_found(launch: Launch, write: Option<SecretWrite>)
    requires
        launch.account is Microsoft,
        launch.auth matches Some(AuthMethod::Microsoft { uuid, .. }) && uuid@
            == launch.account->Microsoft_uuid@,
        launch.is_secret_write(write),
    ensures
        write is Some,
        launch.account.key() == Some(write->0.entry.key@),
        launch.auth->0->Microsoft_refresh_token@ == write->0.secret@,
{
}

/// Whether each of the outcomes takes the launch from one of the states to the next,
/// and the window along with it.
pub open spec fn is_run(
    states: Seq<Launch>,
    events: Seq<LaunchEvent>,
    windows: Seq<AppWindow>,
) -> bool {
    &&& states.len() == events.len() + 1
    &&& windows.len() == states.len()
    &&& forall|i: int|
        #![trigger events[i]]
        0 <= i < events.len() ==> events[i].answers(states[i].task) && states[i].moves(
            events[i],
            states[i + 1],
            windows[i],
            windows[i + 1],
        )
}

/// No launch takes more than eight outcomes.
pub proof fn law_launch_ends(
    states: Seq<Launch>,
    events: Seq<LaunchEvent>,
    windows: Seq<AppWindow>,
)
    requires
        is_run(states, events, windows),
    ensures
        events.len() <= 8,
{
    lemma_rank_grows(states, events, windows, events.len() as int);
}

/// After `n` outcomes a launch has come at least `n` tasks far.
proof fn lemma_rank_grows(
    states: Seq<Launch>,
    events: Seq<LaunchEvent>,
    windows: Seq<AppWindow>,
    n: int,
)
    requires
        is_run(states, events, windows),
        0 <= n <= events.len(),
    ensures
        n <= states[n].task.rank() <= 8,
    decreases n,
{
    if n > 0 {
        lemma_rank_grows(states, events, windows, n - 1);
        law_launch_goes_on(states[n - 1], events[n - 1], states[n], windows[n - 1], windows[n]);
    }
}

/// A launch that is over, whether the game runs or not, leaves no progress bar.
pub proof fn law_end_hides_progress(
    before: Launch,
    event: LaunchEvent,
    after: Launch,
    shown: AppWindow,
    shown_after: AppWindow,
)
    requires
        event.answers(before.task),
        before.moves(event, after, shown, shown_after),
        after.task is Finished,
    ensures
        !shown_after.progress.visible,
{
}

/// A launch changes nothing in the window but the progress bar, and keeps its
/// account, its version, its directories and its settings to the end.
pub proof fn law_launch_keeps_its_version(
    before: Launch,
    event: LaunchEvent,
    after: Launch,
    shown: AppWindow,
    shown_after: AppWindow,
)
    requires
        before.moves(event, after, shown, shown_after),
    ensures
        after == (Launch {
            task: after.task,
            auth: after.auth,
            max_mem: after.max_mem,
            ..before
        }),
        shown_after == (AppWindow { progress: shown_after.progress, ..shown }),
{
}

/// The game is never started with the memory left open: where none is configured,
/// what the machine can spare is asked for, and taken.
pub proof fn law_memory_is_chosen(
    before: Launch,
    event: LaunchEvent,
    after: Launch,
    shown: AppWindow,
    shown_after: AppWindow,
)
    requires
        event.answers(before.task),
        before.moves(event, after, shown, shown_after),
        after.task is DetectJava,
    ensures
        if before.settings.max_mem > 0 && before.task is LoadVersion {
            after.max_mem == before.settings.max_mem
        } else {
            event matches LaunchEvent::MemoryMeasured(megabytes) && after.max_mem
                == megabytes as u32
        },
{
}

} // verus!
