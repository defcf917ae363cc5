//! What holds of Java runtimes, game directories and the version selected last.

use vstd::prelude::*;
use crate::config::{GameConfig, SclConfig};
use crate::places::{usable, uses_dir, uses_java};
use crate::startup::{is_first_place, is_listed};
use crate::window::JavaItem;

verus! {

/// Every runtime that was found is listed, in the order in which they were tried, and
/// nothing else is.
pub proof fn law_every_runtime_is_listed(
    tried: Seq<Option<JavaItem>>,
    found: spec_fn(Option<JavaItem>) -> Option<JavaItem>,
)
    requires
        forall|item: Option<JavaItem>| #[trigger] found(item) == item,
    ensures
        usable(tried) == tried.filter_map(found),
    decreases tried.len(),
{
    if tried.len() > 0 {
        law_every_runtime_is_listed(tried.drop_last(), found);
        lemma_usable_of_last(tried);
        assert(usable(tried) =~= tried.filter_map(found));
    }
}

/// The last path that was tried comes last.
proof fn lemma_usable_of_last(tried: Seq<Option<JavaItem>>)
    requires
        tried.len() > 0,
    ensures
        usable(tried) == match tried.last() {
            Some(item) => usable(tried.drop_last()).push(item),
            None => usable(tried.drop_last()),
        },
    decreases tried.len(),
{
    if tried.len() > 1 {
        let rest = tried.drop_first();
        lemma_usable_of_last(rest);
        assert(rest.last() == tried.last());
        assert(rest.drop_last() =~= tried.drop_last().drop_first());
        assert(tried.drop_last()[0] == tried[0]);
    } else {
        assert(tried.drop_first().len() == 0);
        assert(tried.drop_last().len() == 0);
        assert(usable(tried.drop_first()) =~= Seq::<JavaItem>::empty());
        assert(usable(tried.drop_last()) =~= Seq::<JavaItem>::empty());
    }
    assert(usable(tried) =~= match tried.last() {
        Some(item) => usable(tried.drop_last()).push(item),
        None => usable(tried.drop_last()),
    });
}

/// A selected runtime is the only one configured, and nothing else in the configuration
/// changes.
pub proof fn law_selected_runtime_is_configured(before: SclConfig, after: SclConfig, path: String)
    requires
        uses_java(before, after, path),
    ensures
        after.game.java_path is Some,
        after.game.java_path->0@ == seq![path],
        after == (SclConfig {
            game: (GameConfig {
                java_path: after.game.java_path,
                minecraft_path: before.game.minecraft_path,
            }),
            ..before
        }),
{
}

/// A selected game directory is the only one configured, and nothing else in the
/// configuration changes.
pub proof fn law_selected_directory_is_configured(
    before: SclConfig,
    after: SclConfig,
    path: String,
)
    requires
        uses_dir(before, after, path),
    ensures
        after.game.minecraft_path is Some,
        after.game.minecraft_path->0@ == seq![path],
        after == (SclConfig {
            game: (GameConfig {
                minecraft_path: after.game.minecraft_path,
                java_path: before.game.java_path,
            }),
            ..before
        }),
{
}

/// The version of the last run is found where its name stands first, and found at all
/// exactly where it has a name that stands somewhere.
pub proof fn law_last_version_is_found(names: Seq<String>, name: Seq<char>, place: int)
    ensures
        is_listed(names, name) <==> name.len() > 0 && exists|i: int|
            0 <= i < names.len() && (#[trigger] names[i])@ == name,
        is_first_place(names, name, place) ==> {
            &&& 0 <= place < names.len()
            &&& names[place]@ == name
            &&& forall|i: int| 0 <= i < place ==> (#[trigger] names[i])@ != name
        },
{
    if exists|i: int| 0 <= i < names.len() && (#[trigger] names[i])@ == name {
        let i = choose|i: int| 0 <= i < names.len() && (#[trigger] names[i])@ == name;
        lemma_has_first_place(names, name, i);
    }
    if exists|first: int| #[trigger] is_first_place(names, name, first) {
        let first = choose|first: int| #[trigger] is_first_place(names, name, first);
        assert(names[first]@ == name);
    }
}

/// A name that stands somewhere stands somewhere first.
proof fn lemma_has_first_place(names: Seq<String>, name: Seq<char>, place: int)
    requires
        0 <= place < names.len(),
        names[place]@ == name,
    ensures
        exists|first: int| #[trigger] is_first_place(names, name, first),
    decreases place,
{
    if exists|i: int| 0 <= i < place && (#[trigger] names[i])@ == name {
        let i = choose|i: int| 0 <= i < place && (#[trigger] names[i])@ == name;
        lemma_has_first_place(names, name, i);
    } else {
        assert(is_first_place(names, name, place));
    }
}

} // verus!
