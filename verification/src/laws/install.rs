//! What holds of putting a version together and installing it.

use vstd::prelude::*;
use crate::components::{
    are_groups, are_vanilla_groups, component_named, is_model_of, loader_offer, of_type, Component,
    Loader, LoaderVersions, RawVersionGroup, VanillaVersion,
};
use crate::install::{
    can_choose, chooses, missing_choice, place_of_version, query_for, InstallRequest, VersionQuery,
};
use crate::window::{AppWindow, InstallPanel, VersionGroup};

verus! {

/// The window means a part exactly by that part's name.
pub proof fn law_window_names_the_parts(name: Seq<char>)
    ensures
        component_named(name) == Some(Component::Vanilla) <==> name == "vanilla"@,
        component_named(name) == Some(Component::Loader(Loader::Forge)) <==> name == "forge"@,
        component_named(name) == Some(Component::Loader(Loader::NeoForge)) <==> name
            == "neoforge"@,
        component_named(name) == Some(Component::Loader(Loader::Fabric)) <==> name == "fabric"@,
        component_named(name) == Some(Component::Loader(Loader::Quilt)) <==> name == "quilt"@,
        component_named(name) == Some(Component::Loader(Loader::Optifine)) <==> name
            == "optifine"@,
{
    crate::components::law_names_identify_components(Component::Vanilla, name);
    crate::components::law_names_identify_components(Component::Loader(Loader::Forge), name);
    crate::components::law_names_identify_components(Component::Loader(Loader::NeoForge), name);
    crate::components::law_names_identify_components(Component::Loader(Loader::Fabric), name);
    crate::components::law_names_identify_components(Component::Loader(Loader::Quilt), name);
    crate::components::law_names_identify_components(Component::Loader(Loader::Optifine), name);
}

/// A choice goes into the field of its own part, and no other field of a part changes.
pub proof fn law_choice_goes_to_its_part(
    before: InstallPanel,
    after: InstallPanel,
    component: Component,
    id: Seq<char>,
)
    requires
        chooses(before, after, Some(component), id),
    ensures
        match component {
            Component::Vanilla => {
                &&& after.vanilla_selected@ == id
                &&& after == (InstallPanel {
                    vanilla_selected: after.vanilla_selected,
                    version_name: after.version_name,
                    ..before
                })
                &&& before.version_name@.len() == 0 ==> after.version_name@ == id
                &&& before.version_name@.len() > 0 ==> after.version_name == before.version_name
            },
            Component::Loader(Loader::Forge) => {
                &&& after.forge_selected@ == id
                &&& after == (InstallPanel { forge_selected: after.forge_selected, ..before })
            },
            Component::Loader(Loader::NeoForge) => {
                &&& after.neoforge_selected@ == id
                &&& after == (InstallPanel { neoforge_selected: after.neoforge_selected, ..before })
            },
            Component::Loader(Loader::Fabric) => {
                &&& after.fabric_selected@ == id
                &&& after == (InstallPanel { fabric_selected: after.fabric_selected, ..before })
            },
            Component::Loader(Loader::Quilt) => {
                &&& after.quilt_selected@ == id
                &&& after == (InstallPanel { quilt_selected: after.quilt_selected, ..before })
            },
            Component::Loader(Loader::Optifine) => {
                &&& after.optifine_selected@ == id
                &&& after == (InstallPanel { optifine_selected: after.optifine_selected, ..before })
            },
        },
{
}

/// What is chosen on the page that the window names after a loader goes into the field of
/// that loader; a name that is no part changes nothing.
pub proof fn law_named_choice_goes_to_its_part(
    before: InstallPanel,
    after: InstallPanel,
    name: Seq<char>,
    id: Seq<char>,
)
    requires
        chooses(before, after, component_named(name), id),
    ensures
        name == "vanilla"@ ==> after.vanilla_selected@ == id,
        name != "vanilla"@ ==> after.vanilla_selected == before.vanilla_selected
            && after.version_name == before.version_name,
        name == "forge"@ ==> after.forge_selected@ == id,
        name != "forge"@ ==> after.forge_selected == before.forge_selected,
        name == "neoforge"@ ==> after.neoforge_selected@ == id,
        name != "neoforge"@ ==> after.neoforge_selected == before.neoforge_selected,
        name == "fabric"@ ==> after.fabric_selected@ == id,
        name != "fabric"@ ==> after.fabric_selected == before.fabric_selected,
        name == "quilt"@ ==> after.quilt_selected@ == id,
        name != "quilt"@ ==> after.quilt_selected == before.quilt_selected,
        name == "optifine"@ ==> after.optifine_selected@ == id,
        name != "optifine"@ ==> after.optifine_selected == before.optifine_selected,
{
    law_window_names_the_parts(name);
}

/// A request asks for each part by the version that is chosen for it.
pub proof fn law_request_asks_for_what_is_chosen(request: InstallRequest, install: InstallPanel)
    requires
        request.is_of(install),
    ensures
        request.version_name == install.version_name,
        request.vanilla_id == install.vanilla_selected,
        request.forge_version == install.forge_selected,
        request.fabric_version == install.fabric_selected,
        request.quilt_version == install.quilt_selected,
        request.neoforge_version == install.neoforge_selected,
        request.optifine_version == install.optifine_selected,
{
}

/// From the click on a loader over the choice of its version to the installation, that
/// very loader is asked for in that version, and every other part as it was chosen.
pub proof fn law_chosen_loader_is_installed(
    before: AppWindow,
    loader: Loader,
    page: i32,
    opened: AppWindow,
    id: Seq<char>,
    chosen: InstallPanel,
    request: InstallRequest,
)
    requires
        before.opens_choice(opened, Component::Loader(loader), page),
        chooses(opened.install, chosen, component_named(opened.choose.component_type@), id),
        request.is_of(chosen),
    ensures
        request.version_name == before.install.version_name,
        request.vanilla_id == before.install.vanilla_selected,
        loader is Forge ==> request.forge_version@ == id,
        !(loader is Forge) ==> request.forge_version == before.install.forge_selected,
        loader is NeoForge ==> request.neoforge_version@ == id,
        !(loader is NeoForge) ==> request.neoforge_version == before.install.neoforge_selected,
        loader is Fabric ==> request.fabric_version@ == id,
        !(loader is Fabric) ==> request.fabric_version == before.install.fabric_selected,
        loader is Quilt ==> request.quilt_version@ == id,
        !(loader is Quilt) ==> request.quilt_version == before.install.quilt_selected,
        loader is Optifine ==> request.optifine_version@ == id,
        !(loader is Optifine) ==> request.optifine_version == before.install.optifine_selected,
{
    law_window_names_the_parts(opened.choose.component_type@);
}

/// The page of a part is called after it, shows the version that is chosen for it so far,
/// and offers to skip it unless it is the game itself.
pub proof fn law_page_is_of_its_part(
    before: AppWindow,
    component: Component,
    page: i32,
    after: AppWindow,
)
    requires
        before.opens_choice(after, component, page),
    ensures
        after.page_index == page,
        after.install == before.install,
        after.choose.show_skip_option <==> !(component is Vanilla),
        after.choose.groups == before.choose.groups,
        after == (AppWindow { page_index: page, choose: after.choose, ..before }),
        match component {
            Component::Vanilla => {
                &&& after.choose.component_type@ == "vanilla"@
                &&& after.choose.selected_id == before.install.vanilla_selected
            },
            Component::Loader(Loader::Forge) => {
                &&& after.choose.component_type@ == "forge"@
                &&& after.choose.selected_id == before.install.forge_selected
            },
            Component::Loader(Loader::NeoForge) => {
                &&& after.choose.component_type@ == "neoforge"@
                &&& after.choose.selected_id == before.install.neoforge_selected
            },
            Component::Loader(Loader::Fabric) => {
                &&& after.choose.component_type@ == "fabric"@
                &&& after.choose.selected_id == before.install.fabric_selected
            },
            Component::Loader(Loader::Quilt) => {
                &&& after.choose.component_type@ == "quilt"@
                &&& after.choose.selected_id == before.install.quilt_selected
            },
            Component::Loader(Loader::Optifine) => {
                &&& after.choose.component_type@ == "optifine"@
                &&& after.choose.selected_id == before.install.optifine_selected
            },
        },
{
}

/// The game can always be chosen, a loader once the game is; and what is listed is the
/// game, or that loader for the chosen game.
pub proof fn law_what_is_listed_for_a_part(component: Component, install: InstallPanel)
    ensures
        can_choose(component, install) <==> component is Vanilla || install.vanilla_selected@.len()
            > 0,
        component is Vanilla ==> query_for(component, install) is Vanilla,
        component matches Component::Loader(loader) ==> query_for(component, install)
            == (VersionQuery::Loader { loader, vanilla_version: install.vanilla_selected }),
{
}

/// An installation starts exactly where the version has a name and the game is chosen.
pub proof fn law_installation_needs_a_name_and_the_game(install: InstallPanel)
    ensures
        missing_choice(install) is None <==> install.version_name@.len() > 0
            && install.vanilla_selected@.len() > 0,
        install.version_name@.len() == 0 ==> missing_choice(install) == Some("请输入版本名称"@),
        install.version_name@.len() > 0 && install.vanilla_selected@.len() == 0
            ==> missing_choice(install) == Some("请选择 Minecraft 版本"@),
{
}

/// The version of the game that is installed has the chosen identifier and is the first
/// that has it; one that is listed is found.
pub proof fn law_chosen_game_is_found(versions: Seq<VanillaVersion>, id: Seq<char>)
    requires
        versions.len() <= usize::MAX,
    ensures
        match place_of_version(versions, id) {
            Some(place) => {
                &&& place < versions.len()
                &&& versions[place as int].id@ == id
                &&& forall|i: int| 0 <= i < place ==> (#[trigger] versions[i]).id@ != id
            },
            None => forall|i: int| 0 <= i < versions.len() ==> (#[trigger] versions[i]).id@ != id,
        },
    decreases versions.len(),
{
    if versions.len() > 0 {
        let before = versions.drop_last();
        law_chosen_game_is_found(before, id);
        assert forall|i: int| 0 <= i < before.len() implies versions[i] == before[i] by {}
    }
}

/// All versions of a loader are on offer, in their order, in the last group; where the
/// loader's makers put one first, it stands alone in the group before.
pub proof fn law_all_loader_versions_are_offered(
    loader: Loader,
    found: LoaderVersions,
    groups: Seq<RawVersionGroup>,
)
    requires
        are_groups(groups, loader_offer(loader, Ok(found))),
    ensures
        found.versions@.len() > 0 ==> {
            &&& groups.len() > 0
            &&& groups.last().expanded
            &&& groups.last().items@.len() == found.versions@.len()
            &&& forall|i: int|
                0 <= i < found.versions@.len() ==> (#[trigger] groups.last().items@[i]).0@
                    == found.versions@[i]@ && groups.last().items@[i].1@ == found.versions@[i]@
        },
        (loader is Forge || loader is NeoForge) && found.headline is Some ==> {
            &&& groups.len() == if found.versions@.len() > 0 {
                2int
            } else {
                1
            }
            &&& groups[0].expanded
            &&& groups[0].items@.len() == 1
            &&& groups[0].items@[0].0@ == found.headline->0@
            &&& groups[0].items@[0].1@ == found.headline->0@
        },
        !(loader is Forge || loader is NeoForge) || found.headline is None ==> {
            &&& groups.len() == 1
            &&& groups[0].items@.len() == found.versions@.len()
        },
{
    let offer = loader_offer(loader, Ok(found));
    assert(groups.last().offers(offer.last().0, offer.last().1, true));
    assert(groups[0].offers(offer[0].0, offer[0].1, true));
    assert forall|i: int| found.versions@.len() > 0 && 0 <= i < found.versions@.len() implies (
    #[trigger] groups.last().items@[i]).0@ == found.versions@[i]@ && groups.last().items@[i].1@
        == found.versions@[i]@ by {
        assert(offer.last().1[i] == found.versions@[i]@);
    }
}

/// Where a loader's versions could not be had, one group without versions says so.
pub proof fn law_failed_listing_offers_nothing(
    loader: Loader,
    error: String,
    groups: Seq<RawVersionGroup>,
)
    requires
        are_groups(groups, loader_offer(loader, Err(error))),
    ensures
        groups.len() == 1,
        groups[0].items@.len() == 0,
        groups[0].expanded,
{
}

/// The versions of one type are exactly those with that type, in the order of the list.
pub proof fn law_versions_of_a_type(
    versions: Seq<VanillaVersion>,
    version_type: Seq<char>,
    pick: spec_fn(VanillaVersion) -> Option<Seq<char>>,
)
    requires
        forall|version: VanillaVersion| #[trigger]
            pick(version) == if version.version_type@ == version_type {
                Some(version.id@)
            } else {
                None
            },
    ensures
        of_type(versions, version_type) == versions.filter_map(pick),
    decreases versions.len(),
{
    if versions.len() > 0 {
        law_versions_of_a_type(versions.drop_last(), version_type, pick);
        assert(of_type(versions, version_type) =~= versions.filter_map(pick));
    }
}

/// The releases of the game stand unfolded in the first group and the snapshots folded in
/// the second, each of them all and in the order of the list.
pub proof fn law_game_versions_are_offered(
    versions: Seq<VanillaVersion>,
    groups: Seq<RawVersionGroup>,
    releases: spec_fn(VanillaVersion) -> Option<Seq<char>>,
    snapshots: spec_fn(VanillaVersion) -> Option<Seq<char>>,
)
    requires
        are_vanilla_groups(groups, versions),
        forall|version: VanillaVersion| #[trigger]
            releases(version) == if version.version_type@ == "release"@ {
                Some(version.id@)
            } else {
                None
            },
        forall|version: VanillaVersion| #[trigger]
            snapshots(version) == if version.version_type@ == "snapshot"@ {
                Some(version.id@)
            } else {
                None
            },
    ensures
        groups.len() == 2,
        groups[0].expanded,
        !groups[1].expanded,
        groups[0].items@.map_values(|item: (String, String)| item.0@) == versions.filter_map(
            releases,
        ),
        groups[0].items@.map_values(|item: (String, String)| item.1@) == versions.filter_map(
            releases,
        ),
        groups[1].items@.map_values(|item: (String, String)| item.0@) == versions.filter_map(
            snapshots,
        ),
        groups[1].items@.map_values(|item: (String, String)| item.1@) == versions.filter_map(
            snapshots,
        ),
{
    law_versions_of_a_type(versions, "release"@, releases);
    law_versions_of_a_type(versions, "snapshot"@, snapshots);
    let (first, second) = (groups[0].items@, groups[1].items@);
    assert(first.map_values(|item: (String, String)| item.0@) =~= versions.filter_map(releases));
    assert(first.map_values(|item: (String, String)| item.1@) =~= versions.filter_map(releases));
    assert(second.map_values(|item: (String, String)| item.0@) =~= versions.filter_map(snapshots));
    assert(second.map_values(|item: (String, String)| item.1@) =~= versions.filter_map(snapshots));
}

/// The window shows every group and every version of it, in their order.
pub proof fn law_groups_are_shown(model: Seq<VersionGroup>, groups: Seq<RawVersionGroup>, at: int)
    requires
        is_model_of(model, groups),
        0 <= at < groups.len(),
    ensures
        model.len() == groups.len(),
        model[at].title == groups[at].title,
        model[at].expanded == groups[at].expanded,
        model[at].items@.len() == groups[at].items@.len(),
        forall|i: int|
            0 <= i < groups[at].items@.len() ==> (#[trigger] model[at].items@[i]).id
                == groups[at].items@[i].0 && model[at].items@[i].text == groups[at].items@[i].1,
{
    assert(model[at].is_of(groups[at]));
    assert forall|i: int| 0 <= i < groups[at].items@.len() implies (
    #[trigger] model[at].items@[i]).id == groups[at].items@[i].0 && model[at].items@[i].text
        == groups[at].items@[i].1 by {
        assert(model[at].items@[i].is_of(groups[at].items@[i]));
    }
}

} // verus!
