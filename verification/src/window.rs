//! What the launcher's window shows, as plain values.

use vstd::prelude::*;

verus! {

/// The window: every property that the launcher reads or sets.
#[derive(Debug, Default, PartialEq, Eq)]
pub struct AppWindow {
    /// The page in view.
    pub page_index: i32,
    /// The versions that can be launched.
    pub instances: Vec<String>,
    /// The version to launch, by its place in `instances`.
    pub selected_instance_index: i32,
    /// The game directories on offer.
    pub dir_list: Vec<DirItem>,
    pub progress: ProgressPanel,
    pub account: AccountPanel,
    pub login: LoginPanel,
    pub microsoft: MicrosoftPanel,
    pub settings: SettingsPanel,
    pub choose: ChoosePanel,
    pub install: InstallPanel,
    pub mods: ModPanel,
    pub java: JavaPanel,
}

/// The bar that tells how the current task goes.
#[derive(Debug, Default, PartialEq, Eq)]
pub struct ProgressPanel {
    pub visible: bool,
    pub task_name: String,
    /// How much of the task is done, in percent.
    pub percent: u8,
}

/// A picture of the player.
#[derive(Debug, Default, PartialEq, Eq)]
pub enum Avatar {
    /// The picture that the window starts with.
    #[default]
    Default,
    /// The cached picture of the player with this identifier.
    Cached(String),
}

/// The account in use.
#[derive(Debug, Default, PartialEq, Eq)]
pub struct AccountPanel {
    pub account_count: i32,
    pub current_account_index: i32,
    pub player_name: String,
    /// 0 for an offline account, 1 for Microsoft, 2 for an external one.
    pub login_method_type: i32,
    pub avatar: Avatar,
}

/// The page for offline and external logins.
#[derive(Debug, Default, PartialEq, Eq)]
pub struct LoginPanel {
    pub status: String,
    pub in_progress: bool,
}

/// The page for Microsoft logins.
#[derive(Debug, Default, PartialEq, Eq)]
pub struct MicrosoftPanel {
    pub verification_uri: String,
    pub user_code: String,
    pub device_code: String,
    pub message: String,
    pub status: String,
    pub login_in_progress: bool,
    pub can_complete_login: bool,
}

/// The settings page.
#[derive(Debug, Default, PartialEq, Eq)]
pub struct SettingsPanel {
    pub game_minecraft_path: String,
    pub game_java_path: String,
    pub download_source_index: i32,
    pub download_parallel_amount: i32,
    pub download_verify_data: bool,
    pub download_curseforge_api_key: String,
    pub launch_max_mem: i32,
    pub launch_game_independent: bool,
    pub launch_recheck: bool,
    pub launch_jvm_args: String,
    pub launch_game_args: String,
    pub launch_window_title: String,
    pub launch_wrapper_path: String,
    pub launch_wrapper_args: String,
    pub appearance_language_index: i32,
    pub appearance_auto_check_update: bool,
}

/// One version on offer.
#[derive(Debug, Default, PartialEq, Eq)]
pub struct VersionItem {
    pub id: String,
    pub text: String,
}

/// Versions on offer under one title.
#[derive(Debug, Default, PartialEq, Eq)]
pub struct VersionGroup {
    pub title: String,
    pub items: Vec<VersionItem>,
    pub expanded: bool,
}

/// The page on which a version of the game or of a loader is chosen.
#[derive(Debug, Default, PartialEq, Eq)]
pub struct ChoosePanel {
    pub page_title: String,
    pub show_skip_option: bool,
    pub component_type: String,
    pub selected_id: String,
    pub groups: Vec<VersionGroup>,
}

/// The page on which a new version is put together.
#[derive(Debug, Default, PartialEq, Eq)]
pub struct InstallPanel {
    pub version_name: String,
    pub vanilla_selected: String,
    pub forge_selected: String,
    pub neoforge_selected: String,
    pub fabric_selected: String,
    pub quilt_selected: String,
    pub optifine_selected: String,
}

/// A mod that a search found.
#[derive(Debug, Default, PartialEq, Eq)]
pub struct ModItem {
    pub project_id: String,
    pub title: String,
    pub description: String,
    pub icon_url: String,
}

/// A file of a mod.
#[derive(Debug, Default, PartialEq, Eq)]
pub struct ModFileItem {
    pub filename: String,
    pub game_versions: String,
    pub loaders: String,
    pub download_url: String,
    pub primary: bool,
}

/// The pages that find and show mods.
#[derive(Debug, Default, PartialEq, Eq)]
pub struct ModPanel {
    pub search_query: String,
    /// 0 for Modrinth, anything else for CurseForge.
    pub search_source_index: i32,
    pub is_searching: bool,
    pub results: Vec<ModItem>,
    pub detail_title: String,
    pub detail_description: String,
    pub detail_files: Vec<ModFileItem>,
}

/// A Java runtime of this machine.
#[derive(Debug, Default, PartialEq, Eq)]
pub struct JavaItem {
    pub path: String,
    pub version: String,
    pub main_version: i32,
    pub is_64bit: bool,
}

/// The page that finds Java runtimes.
#[derive(Debug, Default, PartialEq, Eq)]
pub struct JavaPanel {
    pub is_searching: bool,
    pub list: Vec<JavaItem>,
}

/// A game directory on offer.
#[derive(Debug, Default, PartialEq, Eq)]
pub struct DirItem {
    pub path: String,
}

impl AppWindow {
    /// Whether `after` is this window with another progress bar, and nothing else
    /// changed.
    pub open spec fn only_progress_changes(self, after: AppWindow) -> bool {
        after == (AppWindow { progress: after.progress, ..self })
    }

    /// Whether `after` is this window once the bar names another task.
    pub open spec fn names_task(self, after: AppWindow, task: Seq<char>) -> bool {
        &&& self.only_progress_changes(after)
        &&& after.progress.task_name@ == task
        &&& after.progress.visible == self.progress.visible
        &&& after.progress.percent == self.progress.percent
    }

    /// Whether `after` is this window once the bar appears and names a task.
    pub open spec fn announces_task(self, after: AppWindow, task: Seq<char>) -> bool {
        &&& self.only_progress_changes(after)
        &&& after.progress.task_name@ == task
        &&& after.progress.visible
        &&& after.progress.percent == self.progress.percent
    }

    /// Whether `after` is this window once the bar starts on a task.
    pub open spec fn starts_task(self, after: AppWindow, task: Seq<char>) -> bool {
        &&& self.only_progress_changes(after)
        &&& after.progress.task_name@ == task
        &&& after.progress.visible
        &&& after.progress.percent == 0
    }

    /// Whether `after` is this window once the bar has said a last word and gone.
    pub open spec fn ends_task(self, after: AppWindow, word: Seq<char>) -> bool {
        &&& self.only_progress_changes(after)
        &&& after.progress.task_name@ == word
        &&& !after.progress.visible
        &&& after.progress.percent == self.progress.percent
    }

    /// Whether `after` is this window once the bar has filled up, said a last word
    /// and gone.
    pub open spec fn completes_task(self, after: AppWindow, word: Seq<char>) -> bool {
        &&& self.only_progress_changes(after)
        &&& after.progress.task_name@ == word
        &&& !after.progress.visible
        &&& after.progress.percent == 100
    }

    /// Names the task in the progress bar.
    pub fn name_task(&mut self, task: String)
        ensures
            old(self).names_task(*final(self), task@),
    {
        self.progress.task_name = task;
    }

    /// Shows the progress bar with a message.
    pub fn announce_task(&mut self, task: String)
        ensures
            old(self).announces_task(*final(self), task@),
    {
        self.progress.visible = true;
        self.progress.task_name = task;
    }

    /// Shows an empty progress bar for a task.
    pub fn start_task(&mut self, task: String)
        ensures
            old(self).starts_task(*final(self), task@),
    {
        self.progress.visible = true;
        self.progress.task_name = task;
        self.progress.percent = 0;
    }

    /// Leaves a last word and hides the progress bar.
    pub fn end_task(&mut self, word: String)
        ensures
            old(self).ends_task(*final(self), word@),
    {
        self.progress.task_name = word;
        self.progress.visible = false;
    }

    /// Fills the progress bar, leaves a last word and hides it.
    pub fn complete_task(&mut self, word: String)
        ensures
            old(self).completes_task(*final(self), word@),
    {
        self.progress.task_name = word;
        self.progress.percent = 100;
        self.progress.visible = false;
    }
}

impl Clone for Avatar {
    fn clone(&self) -> (copy: Self)
        ensures
            copy == *self,
    {
        match self {
            Avatar::Default => Avatar::Default,
            Avatar::Cached(uuid) => Avatar::Cached(uuid.clone()),
        }
    }
}

} // verus!
