//! The launcher's configuration.

use vstd::prelude::*;
use crate::accounts::AccountConfig;
use crate::paths::{default_java_path, default_minecraft_path, is_default_minecraft_path, java_on, Platform};

verus! {

/// Everything that the launcher remembers from one run to the next.
#[derive(Debug, PartialEq, Eq)]
pub struct SclConfig {
    pub game: GameConfig,
    pub download: DownloadConfig,
    pub launch: LaunchConfig,
    pub appearance: AppearanceConfig,
    pub auth: AuthConfig,
}

/// Where the game and its Java runtime are.
#[derive(Debug, PartialEq, Eq)]
pub struct GameConfig {
    /// Game directories; the system's default where none is set.
    pub minecraft_path: Option<Vec<String>>,
    /// Java executables; the system's default where none is set.
    pub java_path: Option<Vec<String>>,
}

/// How files are downloaded.
#[derive(Debug, PartialEq, Eq)]
pub struct DownloadConfig {
    /// `Default`, `BMCLAPI`, or the address of a mirror.
    pub source: String,
    /// How many downloads run at once; 0 for no limit.
    pub parallel_amount: usize,
    /// Whether the hashes of files that are already there are checked.
    pub verify_data: bool,
    /// The CurseForge key; where it is empty, the one of the environment is used.
    pub curseforge_api_key: String,
}

/// How the game is started.
#[derive(Debug, PartialEq, Eq)]
pub struct LaunchConfig {
    /// The game's memory in megabytes; 0 to choose it at launch.
    pub max_mem: u32,
    /// Whether each version keeps its own game directory.
    pub game_independent: bool,
    /// Whether files and libraries are checked before a launch.
    pub recheck: bool,
    /// Further arguments for Java.
    pub jvm_args: String,
    /// Further arguments for the game.
    pub game_args: String,
    /// The title of the game's window; the game's own where it is empty.
    pub window_title: String,
    /// A program that runs Java, where one is wanted.
    pub wrapper_path: String,
    /// The arguments of that program.
    pub wrapper_args: String,
    /// The version that was selected last.
    pub selected_instance: String,
}

/// What the launcher looks like.
#[derive(Debug, PartialEq, Eq)]
pub struct AppearanceConfig {
    /// `zh-CN` or `en-US`.
    pub language: String,
    /// Whether the launcher looks for updates when it starts.
    pub auto_check_update: bool,
}

/// The accounts of the user.
#[derive(Debug, PartialEq, Eq)]
pub struct AuthConfig {
    /// The identity under which the launcher speaks to Microsoft.
    pub microsoft_client_id: String,
    /// The account in use.
    pub selected_account_index: usize,
    /// The accounts that the user has logged in to.
    pub accounts: Option<Vec<AccountConfig>>,
}

impl Default for GameConfig {
    fn default() -> (config: Self)
        ensures
            config.minecraft_path is None,
            config.java_path is None,
    {
        GameConfig { minecraft_path: None, java_path: None }
    }
}

impl Default for DownloadConfig {
    fn default() -> (config: Self)
        ensures
            config.source@ == "Default"@,
            config.parallel_amount == 64,
            !config.verify_data,
            config.curseforge_api_key@ == ""@,
    {
        DownloadConfig {
            source: "Default".to_string(),
            parallel_amount: 64,
            verify_data: false,
            curseforge_api_key: "".to_string(),
        }
    }
}

impl Default for LaunchConfig {
    fn default() -> (config: Self)
        ensures
            config.max_mem == 0,
            config.game_independent,
            config.recheck,
            config.jvm_args@ == ""@,
            config.game_args@ == ""@,
            config.window_title@ == ""@,
            config.wrapper_path@ == ""@,
            config.wrapper_args@ == ""@,
            config.selected_instance@ == ""@,
    {
        LaunchConfig {
            max_mem: 0,
            game_independent: true,
            recheck: true,
            jvm_args: "".to_string(),
            game_args: "".to_string(),
            window_title: "".to_string(),
            wrapper_path: "".to_string(),
            wrapper_args: "".to_string(),
            selected_instance: "".to_string(),
        }
    }
}

impl Default for AppearanceConfig {
    fn default() -> (config: Self)
        ensures
            config.language@ == "zh-CN"@,
            config.auto_check_update,
    {
        AppearanceConfig { language: "zh-CN".to_string(), auto_check_update: true }
    }
}

impl Default for AuthConfig {
    fn default() -> (config: Self)
        ensures
            config.microsoft_client_id@ == ""@,
            config.selected_account_index == 0,
            config.accounts is None,
    {
        AuthConfig {
            microsoft_client_id: "".to_string(),
            selected_account_index: 0,
            accounts: None,
        }
    }
}

impl Clone for LaunchConfig {
    fn clone(&self) -> (copy: Self)
        ensures
            copy == *self,
    {
        LaunchConfig {
            max_mem: self.max_mem,
            game_independent: self.game_independent,
            recheck: self.recheck,
            jvm_args: self.jvm_args.clone(),
            game_args: self.game_args.clone(),
            window_title: self.window_title.clone(),
            wrapper_path: self.wrapper_path.clone(),
            wrapper_args: self.wrapper_args.clone(),
            selected_instance: self.selected_instance.clone(),
        }
    }
}

/// The first of the texts that is not empty.
pub open spec fn first_non_empty(texts: Seq<String>) -> Option<Seq<char>>
    decreases texts.len(),
{
    if texts.len() == 0 {
        None
    } else if texts[0]@.len() > 0 {
        Some(texts[0]@)
    } else {
        first_non_empty(texts.drop_first())
    }
}

/// The path that a list of paths stands for, if it stands for one.
pub open spec fn configured(paths: Option<Vec<String>>) -> Option<Seq<char>> {
    match paths {
        Some(paths) => first_non_empty(paths@),
        None => None,
    }
}

/// Picks the first path that is not empty.
fn first_path(paths: &Vec<String>) -> (path: Option<String>)
    ensures
        match path {
            Some(path) => first_non_empty(paths@) == Some(path@),
            None => first_non_empty(paths@) is None,
        },
{
    assert(paths@.skip(0) == paths@);
    for i in 0..paths.len()
        invariant
            first_non_empty(paths@) == first_non_empty(paths@.skip(i as int)),
    {
        assert(paths@.skip(i as int)[0] == paths@[i as int]);
        assert(paths@.skip(i as int).drop_first() == paths@.skip(i + 1));
        if !paths[i].as_str().is_empty() {
            return Some(paths[i].clone());
        }
    }
    None
}

/// The path that a list of paths stands for.
fn configured_path(paths: &Option<Vec<String>>) -> (path: Option<String>)
    ensures
        match path {
            Some(path) => configured(*paths) == Some(path@),
            None => configured(*paths) is None,
        },
{
    match paths {
        Some(paths) => first_path(paths),
        None => None,
    }
}

impl GameConfig {
    /// Whether `path` is the game directory: the first that is configured, or else
    /// the default of some user.
    pub open spec fn is_minecraft_path(self, path: Seq<char>) -> bool {
        match configured(self.minecraft_path) {
            Some(chosen) => path == chosen,
            None => is_default_minecraft_path(path),
        }
    }

    /// Whether `path` is the Java executable: the first that is configured, or else
    /// the default of some platform.
    pub open spec fn is_java_path(self, path: Seq<char>) -> bool {
        match configured(self.java_path) {
            Some(chosen) => path == chosen,
            None => exists|platform: Platform| path == #[trigger] java_on(platform),
        }
    }

    /// The game directory.
    pub fn resolved_minecraft_path(&self) -> (path: String)
        ensures
            self.is_minecraft_path(path@),
    {
        match configured_path(&self.minecraft_path) {
            Some(path) => path,
            None => default_minecraft_path(),
        }
    }

    /// The Java executable.
    pub fn resolved_java_path(&self) -> (path: String)
        ensures
            self.is_java_path(path@),
    {
        match configured_path(&self.java_path) {
            Some(path) => path,
            None => default_java_path(),
        }
    }
}

/// The place of the first account that is the given one, if it is among them.
pub open spec fn place_of(accounts: Seq<AccountConfig>, account: AccountConfig) -> Option<int>
    decreases accounts.len(),
{
    if accounts.len() == 0 {
        None
    } else if accounts[0].is_same(account) {
        Some(0)
    } else {
        match place_of(accounts.drop_first(), account) {
            Some(i) => Some(i + 1),
            None => None,
        }
    }
}

/// The accounts after a login: the new entry takes the place of the old one of the
/// same account, or comes last.
pub open spec fn with_account(
    accounts: Seq<AccountConfig>,
    account: AccountConfig,
) -> Seq<AccountConfig> {
    match place_of(accounts, account) {
        Some(i) => accounts.update(i, account),
        None => accounts.push(account),
    }
}

/// Where the account is found, it is the first that matches.
proof fn lemma_place(accounts: Seq<AccountConfig>, account: AccountConfig)
    ensures
        match place_of(accounts, account) {
            Some(i) => {
                &&& 0 <= i < accounts.len()
                &&& accounts[i].is_same(account)
                &&& forall|j: int| 0 <= j < i ==> !(#[trigger] accounts[j]).is_same(account)
            },
            None => forall|j: int|
                0 <= j < accounts.len() ==> !(#[trigger] accounts[j]).is_same(account),
        },
    decreases accounts.len(),
{
    if accounts.len() > 0 && !accounts[0].is_same(account) {
        let rest = accounts.drop_first();
        lemma_place(rest, account);
        assert forall|j: int| 0 <= j < accounts.len() && (match place_of(rest, account) {
            Some(i) => j <= i,
            None => true,
        }) implies !(#[trigger] accounts[j]).is_same(account) by {
            if j > 0 {
                assert(rest[j - 1] == accounts[j]);
            }
        }
    }
}

impl AuthConfig {
    /// The accounts, in the order in which they were first logged in to.
    pub open spec fn known(self) -> Seq<AccountConfig> {
        match self.accounts {
            Some(accounts) => accounts@,
            None => seq![],
        }
    }

    /// The place of the account in use: the selected one, or the last where the
    /// selection lies beyond it.
    pub open spec fn current(self) -> int {
        if self.selected_account_index < self.known().len() {
            self.selected_account_index as int
        } else {
            self.known().len() - 1
        }
    }

    /// The account in use, if there is any account.
    pub fn current_account(&self) -> (account: Option<&AccountConfig>)
        ensures
            match account {
                Some(account) => self.known().len() > 0 && *account == self.known()[self.current()],
                None => self.known().len() == 0,
            },
            account is Some <==> self.accounts is Some && self.accounts->0@.len() > 0,
            account matches Some(account) ==> *account == self.accounts->0@[if self.selected_account_index
                < self.accounts->0@.len() {
                self.selected_account_index as int
            } else {
                self.accounts->0@.len() - 1
            }],
    {
        match &self.accounts {
            Some(accounts) => {
                if self.selected_account_index < accounts.len() {
                    Some(&accounts[self.selected_account_index])
                } else if accounts.len() > 0 {
                    Some(&accounts[accounts.len() - 1])
                } else {
                    None
                }
            },
            None => None,
        }
    }

    /// How many accounts there are.
    pub fn account_count(&self) -> (count: usize)
        ensures
            count == self.known().len(),
            count == match self.accounts {
                Some(accounts) => accounts@.len(),
                None => 0,
            },
    {
        match &self.accounts {
            Some(accounts) => accounts.len(),
            None => 0,
        }
    }

    /// Stores an account: in place of the entry of the same account, or as the last.
    pub fn upsert_account(&mut self, account: AccountConfig)
        ensures
            final(self).accounts is Some,
            final(self).known() == with_account(old(self).known(), account),
            *final(self) == (AuthConfig { accounts: final(self).accounts, ..*old(self) }),
    {
        let mut accounts = match self.accounts.take() {
            Some(accounts) => accounts,
            None => Vec::new(),
        };
        let ghost before = accounts@;
        proof {
            lemma_place(before, account);
        }
        let n: usize = accounts.len();
        let mut i: usize = 0;
        while i < n && !accounts[i].same_identity(&account)
            invariant
                i <= n == accounts.len(),
                accounts@ == before,
                forall|j: int| 0 <= j < i ==> !(#[trigger] before[j]).is_same(account),
            decreases n - i,
        {
            i = i + 1;
        }
        if i < n {
            accounts.set(i, account);
        } else {
            accounts.push(account);
        }
        self.accounts = Some(accounts);
    }
}

/// Whether no account is listed twice.
pub open spec fn all_different(accounts: Seq<AccountConfig>) -> bool {
    forall|i: int, j: int|
        0 <= i < j < accounts.len() ==> !(#[trigger] accounts[i]).is_same(#[trigger] accounts[j])
}

/// Logging in never lists an account twice.
pub proof fn law_accounts_stay_different(accounts: Seq<AccountConfig>, account: AccountConfig)
    requires
        all_different(accounts),
    ensures
        all_different(with_account(accounts, account)),
{
    lemma_place(accounts, account);
    let after = with_account(accounts, account);
    assert forall|i: int, j: int| 0 <= i < j < after.len() implies !(#[trigger] after[i]).is_same(
        #[trigger] after[j],
    ) by {
        match place_of(accounts, account) {
            Some(k) => {
                if i == k {
                    assert(!accounts[k].is_same(accounts[j]));
                } else if j == k {
                    assert(!accounts[i].is_same(accounts[k]));
                } else {
                    assert(!accounts[i].is_same(accounts[j]));
                }
            },
            None => {
                assert(!accounts[i].is_same(account));
                if j < accounts.len() {
                    assert(!accounts[i].is_same(accounts[j]));
                }
            },
        }
    }
}

/// Logging in stores the new entry, drops no other account and moves none: each
/// entry stays where it was, but for the one of the same account.
pub proof fn law_other_accounts_stay(accounts: Seq<AccountConfig>, account: AccountConfig)
    ensures
        with_account(accounts, account).contains(account),
        accounts.len() <= with_account(accounts, account).len() <= accounts.len() + 1,
        forall|i: int|
            0 <= i < accounts.len() && !(#[trigger] accounts[i]).is_same(account)
                ==> with_account(accounts, account)[i] == accounts[i],
{
    lemma_place(accounts, account);
    let after = with_account(accounts, account);
    match place_of(accounts, account) {
        Some(i) => {
            assert(after[i] == account);
        },
        None => {
            assert(after[accounts.len() as int] == account);
        },
    }
}

/// Logging in to the same account again changes nothing more.
pub proof fn law_storing_twice_is_storing_once(
    accounts: Seq<AccountConfig>,
    account: AccountConfig,
)
    ensures
        with_account(with_account(accounts, account), account) == with_account(accounts, account),
{
    let once = with_account(accounts, account);
    lemma_place(accounts, account);
    lemma_place(once, account);
    let i = match place_of(accounts, account) {
        Some(i) => i,
        None => accounts.len() as int,
    };
    assert(once[i] == account);
    assert(once[i].is_same(account));
    let k = place_of(once, account)->0;
    if k < i {
        assert(once[k] == accounts[k]);
    }
    assert(once.update(i, account) == once);
}

} // verus!
