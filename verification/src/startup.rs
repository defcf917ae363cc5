//! The version that the user selected last, from one run to the next.

use vstd::prelude::*;
use crate::config::{LaunchConfig, SclConfig};
use crate::text::same_text;
use crate::window::AppWindow;

verus! {

/// Whether `place` is the first at which the name stands.
pub open spec fn is_first_place(names: Seq<String>, name: Seq<char>, place: int) -> bool {
    &&& 0 <= place < names.len()
    &&& names[place]@ == name
    &&& forall|i: int| 0 <= i < place ==> (#[trigger] names[i])@ != name
}

/// The first place at which a name stands.
pub fn position_of(names: &Vec<String>, name: &str) -> (place: Option<usize>)
    ensures
        match place {
            Some(place) => is_first_place(names@, name@, place as int),
            None => forall|i: int| 0 <= i < names@.len() ==> (#[trigger] names@[i])@ != name@,
        },
{
    for i in 0..names.len()
        invariant
            forall|j: int| 0 <= j < i ==> (#[trigger] names@[j])@ != name@,
    {
        if same_text(names[i].as_str(), name) {
            return Some(i);
        }
    }
    None
}

/// Whether a version with this name can be selected.
pub open spec fn is_listed(names: Seq<String>, name: Seq<char>) -> bool {
    name.len() > 0 && exists|place: int| #[trigger] is_first_place(names, name, place)
}

/// Selects the version that was selected when the launcher last ran, if it is still
/// there.
pub fn restore_instance(ui: &mut AppWindow, config: &SclConfig, versions: &Vec<String>)
    ensures
        *final(ui) == (AppWindow {
            selected_instance_index: final(ui).selected_instance_index,
            ..*old(ui)
        }),
        if is_listed(versions@, config.launch.selected_instance@) {
            exists|place: int| #[trigger]
                is_first_place(versions@, config.launch.selected_instance@, place)
                    && final(ui).selected_instance_index == place as i32
        } else {
            final(ui).selected_instance_index == old(ui).selected_instance_index
        },
{
    let saved = config.launch.selected_instance.as_str();
    if !saved.is_empty() {
        if let Some(place) = position_of(versions, saved) {
            ui.selected_instance_index = place as i32;
            assert(is_first_place(versions@, saved@, place as int));
        }
    }
}

/// Remembers the version that is selected when the launcher ends; a selection that is
/// no version leaves the last one.
pub fn remember_instance(ui: &AppWindow, config: &mut SclConfig, versions: &Vec<String>)
    ensures
        *final(config) == (SclConfig {
            launch: (LaunchConfig {
                selected_instance: if 0 <= ui.selected_instance_index < versions@.len() {
                    versions@[ui.selected_instance_index as int]
                } else {
                    old(config).launch.selected_instance
                },
                ..old(config).launch
            }),
            ..*old(config)
        }),
{
    let index: i32 = ui.selected_instance_index;
    if index >= 0 && (index as usize) < versions.len() {
        config.launch.selected_instance = versions[index as usize].clone();
    }
}

/// The version that was selected at the end of one run is selected at the start of
/// the next, for every list that the window can number and every version that has a
/// name.
pub proof fn law_selection_survives(
    versions: Seq<String>,
    selected: i32,
    remembered: String,
    restored: i32,
)
    requires
        versions.len() <= i32::MAX,
        0 <= selected < versions.len(),
        versions[selected as int]@.len() > 0,
        remembered == versions[selected as int],
        is_listed(versions, remembered@) ==> exists|place: int| #[trigger]
            is_first_place(versions, remembered@, place) && restored == place as i32,
    ensures
        0 <= restored <= selected,
        versions[restored as int]@ == versions[selected as int]@,
{
    lemma_first_place_exists(versions, remembered@, selected as int);
}

/// A name that stands somewhere has a first place.
proof fn lemma_first_place_exists(names: Seq<String>, name: Seq<char>, place: int)
    requires
        0 <= place < names.len(),
        names[place]@ == name,
    ensures
        exists|first: int| #[trigger] is_first_place(names, name, first),
    decreases place,
{
    if exists|i: int| 0 <= i < place && (#[trigger] names[i])@ == name {
        let i = choose|i: int| 0 <= i < place && (#[trigger] names[i])@ == name;
        lemma_first_place_exists(names, name, i);
    } else {
        assert(is_first_place(names, name, place));
    }
}

} // verus!
