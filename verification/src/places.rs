//! Choosing the Java runtime and the game directory.

use vstd::prelude::*;
use crate::config::{configured, GameConfig, SclConfig};
use crate::window::{AppWindow, JavaItem, JavaPanel, SettingsPanel};

verus! {

/// Shows that Java runtimes are being looked for.
pub fn start_java_search(ui: &mut AppWindow)
    ensures
        *final(ui) == (AppWindow {
            java: (JavaPanel { is_searching: true, ..old(ui).java }),
            ..*old(ui)
        }),
{
    ui.java.is_searching = true;
}

/// The runtimes among the paths that were tried.
pub open spec fn usable(tried: Seq<Option<JavaItem>>) -> Seq<JavaItem>
    decreases tried.len(),
{
    if tried.len() == 0 {
        seq![]
    } else {
        match tried[0] {
            Some(item) => seq![item] + usable(tried.drop_first()),
            None => usable(tried.drop_first()),
        }
    }
}

/// Shows the Java runtimes that were found. Paths at which there is no runtime are
/// left out.
pub fn java_found(ui: &mut AppWindow, tried: Vec<Option<JavaItem>>)
    ensures
        *final(ui) == (AppWindow {
            java: (JavaPanel { is_searching: false, list: final(ui).java.list }),
            ..*old(ui)
        }),
        final(ui).java.list@ == usable(tried@),
{
    let ghost all = tried@;
    let mut left = tried;
    let mut list: Vec<JavaItem> = Vec::new();
    while left.len() > 0
        invariant
            usable(all) == list@ + usable(left@),
        decreases left.len(),
    {
        let ghost before = left@;
        let first = left.remove(0);
        assert(left@ == before.drop_first());
        if let Some(item) = first {
            list.push(item);
        }
        assert(usable(all) =~= list@ + usable(left@));
    }
    ui.java.list = list;
    ui.java.is_searching = false;
}

/// Whether `after` is a configuration with a single Java path, and nothing else
/// changed.
pub open spec fn uses_java(before: SclConfig, after: SclConfig, path: String) -> bool {
    &&& after == (SclConfig {
        game: (GameConfig { java_path: after.game.java_path, ..before.game }),
        ..before
    })
    &&& after.game.java_path is Some
    &&& after.game.java_path->0@ == seq![path]
}

/// Whether `after` is a configuration with a single game directory, and nothing else
/// changed.
pub open spec fn uses_dir(before: SclConfig, after: SclConfig, path: String) -> bool {
    &&& after == (SclConfig {
        game: (GameConfig { minecraft_path: after.game.minecraft_path, ..before.game }),
        ..before
    })
    &&& after.game.minecraft_path is Some
    &&& after.game.minecraft_path->0@ == seq![path]
}

/// A list of one path.
fn single(path: &String) -> (paths: Vec<String>)
    ensures
        paths@ == seq![*path],
{
    let mut paths: Vec<String> = Vec::new();
    paths.push(path.clone());
    assert(paths@ == seq![*path]);
    paths
}

/// Takes the Java runtime that the user selected. Tells whether there is one at that
/// place, and so whether the configuration is to be written.
pub fn select_java(ui: &mut AppWindow, config: &mut SclConfig, index: i32) -> (selected: bool)
    ensures
        selected == (0 <= index < old(ui).java.list@.len()),
        if selected {
            let path = old(ui).java.list@[index as int].path;
            &&& uses_java(*old(config), *final(config), path)
            &&& *final(ui) == (AppWindow {
                settings: (SettingsPanel { game_java_path: path, ..old(ui).settings }),
                ..*old(ui)
            })
        } else {
            *final(config) == *old(config) && *final(ui) == *old(ui)
        },
{
    if index < 0 || index as usize >= ui.java.list.len() {
        return false;
    }
    let path = ui.java.list[index as usize].path.clone();
    config.game.java_path = Some(single(&path));
    ui.settings.game_java_path = path;
    true
}

/// Takes the game directory that the user selected. Tells whether there is one at
/// that place, and so whether the configuration is to be written.
pub fn select_dir(ui: &mut AppWindow, config: &mut SclConfig, index: i32) -> (selected: bool)
    ensures
        selected == (0 <= index < old(ui).dir_list@.len()),
        if selected {
            let path = old(ui).dir_list@[index as int].path;
            &&& uses_dir(*old(config), *final(config), path)
            &&& *final(ui) == (AppWindow {
                settings: (SettingsPanel { game_minecraft_path: path, ..old(ui).settings }),
                ..*old(ui)
            })
        } else {
            *final(config) == *old(config) && *final(ui) == *old(ui)
        },
{
    if index < 0 || index as usize >= ui.dir_list.len() {
        return false;
    }
    let path = ui.dir_list[index as usize].path.clone();
    config.game.minecraft_path = Some(single(&path));
    ui.settings.game_minecraft_path = path;
    true
}

/// A Java runtime that was selected is the one that the game runs on.
pub proof fn law_selected_java_is_used(before: SclConfig, after: SclConfig, path: String)
    requires
        uses_java(before, after, path),
        path@.len() > 0,
    ensures
        forall|used: Seq<char>| #[trigger] after.game.is_java_path(used) <==> used == path@,
{
    assert(configured(after.game.java_path) == Some(path@));
}

/// A game directory that was selected is the one that is played in.
pub proof fn law_selected_dir_is_used(before: SclConfig, after: SclConfig, path: String)
    requires
        uses_dir(before, after, path),
        path@.len() > 0,
    ensures
        forall|used: Seq<char>| #[trigger] after.game.is_minecraft_path(used) <==> used == path@,
{
    assert(configured(after.game.minecraft_path) == Some(path@));
}

} // verus!
