//! Choosing the parts of a new game version, and installing it.

use vstd::prelude::*;
use crate::components::{
    are_vanilla_groups, component_named, find_component, is_model_of, raw_groups_to_model,
    vanilla_groups, Component, Loader, RawVersionGroup, VanillaVersion,
};
use crate::config::SclConfig;
use crate::navigation::{
    navigate_back, navigate_to, page_behind, trail_after, trail_behind, Pages, Router,
};
use crate::text::{joined, joined3, same_text};
use crate::window::{AppWindow, ChoosePanel, InstallPanel, VersionGroup};

verus! {

/// What a download is set up with.
#[derive(Debug, PartialEq, Eq)]
pub struct DownloaderParams {
    pub source: String,
    pub minecraft_dir: String,
    pub java_path: String,
    pub verify_data: bool,
    pub parallel: usize,
    pub game_independent: bool,
}

/// The settings of one downloader. What is not set stays as the downloader has it.
#[derive(Debug, PartialEq, Eq)]
pub struct DownloaderPlan {
    pub source: String,
    pub minecraft_dir: String,
    pub java_path: Option<String>,
    pub parallel: Option<usize>,
    pub game_independent: Option<bool>,
    pub verify_data: bool,
}

impl DownloaderParams {
    /// Takes the settings of downloads from the configuration.
    pub fn from_config(config: &SclConfig) -> (params: DownloaderParams)
        ensures
            params.source == config.download.source,
            config.game.is_minecraft_path(params.minecraft_dir@),
            config.game.is_java_path(params.java_path@),
            params.verify_data == config.download.verify_data,
            params.parallel == config.download.parallel_amount,
            params.game_independent == config.launch.game_independent,
    {
        DownloaderParams {
            source: config.download.source.clone(),
            minecraft_dir: config.game.resolved_minecraft_path(),
            java_path: config.game.resolved_java_path(),
            verify_data: config.download.verify_data,
            parallel: config.download.parallel_amount,
            game_independent: config.launch.game_independent,
        }
    }

    /// A downloader that lists the versions of the game.
    pub fn build_minimal(&self) -> (plan: DownloaderPlan)
        ensures
            plan == (DownloaderPlan {
                source: self.source,
                minecraft_dir: self.minecraft_dir,
                java_path: None,
                parallel: None,
                game_independent: None,
                verify_data: false,
            }),
    {
        DownloaderPlan {
            source: self.source.clone(),
            minecraft_dir: self.minecraft_dir.clone(),
            java_path: None,
            parallel: None,
            game_independent: None,
            verify_data: false,
        }
    }

    /// A downloader that lists the versions of a loader.
    pub fn build_with_java(&self) -> (plan: DownloaderPlan)
        ensures
            plan == (DownloaderPlan {
                source: self.source,
                minecraft_dir: self.minecraft_dir,
                java_path: Some(self.java_path),
                parallel: None,
                game_independent: None,
                verify_data: false,
            }),
    {
        let mut plan = self.build_minimal();
        plan.java_path = Some(self.java_path.clone());
        plan
    }

    /// A downloader that installs a version.
    pub fn build_downloader(&self) -> (plan: DownloaderPlan)
        ensures
            plan == (DownloaderPlan {
                source: self.source,
                minecraft_dir: self.minecraft_dir,
                java_path: Some(self.java_path),
                parallel: Some(self.parallel),
                game_independent: Some(self.game_independent),
                verify_data: self.verify_data,
            }),
    {
        let mut plan = self.build_with_java();
        plan.parallel = Some(self.parallel);
        plan.game_independent = Some(self.game_independent);
        if self.verify_data {
            plan.verify_data = true;
        }
        plan
    }
}

/// The versions that are to be listed.
#[derive(Debug, PartialEq, Eq)]
pub enum VersionQuery {
    /// Those of the game.
    Vanilla,
    /// Those of a loader for a version of the game.
    Loader { loader: Loader, vanilla_version: String },
}

/// Whether a version of the part can be chosen: loaders need the game's version
/// first.
pub open spec fn can_choose(component: Component, install: InstallPanel) -> bool {
    component is Vanilla || install.vanilla_selected@.len() > 0
}

/// What is to be listed on the page of a part.
pub open spec fn query_for(component: Component, install: InstallPanel) -> VersionQuery {
    match component {
        Component::Vanilla => VersionQuery::Vanilla,
        Component::Loader(loader) => VersionQuery::Loader {
            loader,
            vanilla_version: install.vanilla_selected,
        },
    }
}

impl AppWindow {
    /// Whether `after` is this window once it has turned to the page of a part.
    pub open spec fn opens_choice(
        self,
        after: AppWindow,
        component: Component,
        page: i32,
    ) -> bool {
        &&& after == (AppWindow { page_index: page, choose: after.choose, ..self })
        &&& after.choose.page_title@ == component.title()
        &&& after.choose.show_skip_option == (component is Loader)
        &&& after.choose.component_type@ == component.name()
        &&& after.choose.selected_id == component.chosen(self.install)
        &&& after.choose.groups == self.choose.groups
    }
}

/// Opens the page on which a version of a part is chosen, and tells what is to be
/// listed on it.
pub fn component_clicked(
    ui: &mut AppWindow,
    router: &mut Router,
    pages: &Pages,
    component_type: &str,
) -> (query: Option<VersionQuery>)
    ensures
        match component_named(component_type@) {
            Some(component) => if can_choose(component, old(ui).install) {
                &&& query == Some(query_for(component, old(ui).install))
                &&& old(ui).opens_choice(*final(ui), component, pages.version_choose)
                &&& final(router)@ == trail_after(
                    old(router)@,
                    old(ui).page_index,
                    pages.version_choose,
                )
            } else {
                &&& query is None
                &&& old(ui).announces_task(*final(ui), "请先选择 Minecraft 版本"@)
                &&& *final(router) == *old(router)
            },
            None => {
                &&& query is None
                &&& *final(ui) == *old(ui)
                &&& *final(router) == *old(router)
            },
        },
{
    match find_component(component_type) {
        Some(component) => {
            proof {
                crate::components::law_names_identify_components(component, component_type@);
            }
            let vanilla_version = ui.install.vanilla_selected.clone();
            let query = match component {
                Component::Vanilla => VersionQuery::Vanilla,
                Component::Loader(loader) => {
                    if vanilla_version.as_str().is_empty() {
                        ui.announce_task("请先选择 Minecraft 版本".to_string());
                        return None;
                    }
                    VersionQuery::Loader { loader, vanilla_version }
                },
            };
            ui.choose.page_title = component.page_title();
            ui.choose.show_skip_option = match component {
                Component::Vanilla => false,
                Component::Loader(_) => true,
            };
            ui.choose.component_type = component_type.to_string();
            ui.choose.selected_id = component.chosen_version(&ui.install);
            navigate_to(pages.version_choose, router, ui);
            Some(query)
        },
        None => None,
    }
}

/// Shows the versions of the game, or why they could not be had.
pub fn vanilla_listed(ui: &mut AppWindow, answer: Result<Vec<VanillaVersion>, String>)
    ensures
        match answer {
            Ok(versions) => {
                &&& *final(ui) == (AppWindow {
                    choose: (ChoosePanel { groups: final(ui).choose.groups, ..old(ui).choose }),
                    ..*old(ui)
                })
                &&& exists|groups: Seq<RawVersionGroup>| #[trigger]
                    are_vanilla_groups(groups, versions@) && is_model_of(
                        final(ui).choose.groups@,
                        groups,
                    )
            },
            Err(error) => old(ui).announces_task(*final(ui), "获取版本列表失败: "@ + error@),
        },
{
    match answer {
        Ok(versions) => {
            let groups = vanilla_groups(&versions);
            assert(are_vanilla_groups(groups@, versions@));
            ui.choose.groups = raw_groups_to_model(&groups);
        },
        Err(error) => {
            ui.announce_task(joined("获取版本列表失败: ", error.as_str()));
        },
    }
}

/// Shows the versions of a loader, unless the user has gone on to another part.
pub fn loader_listed(ui: &mut AppWindow, component_type: &str, groups: &Vec<RawVersionGroup>)
    ensures
        if old(ui).choose.component_type@ == component_type@ {
            &&& *final(ui) == (AppWindow {
                choose: (ChoosePanel { groups: final(ui).choose.groups, ..old(ui).choose }),
                ..*old(ui)
            })
            &&& is_model_of(final(ui).choose.groups@, groups@)
        } else {
            *final(ui) == *old(ui)
        },
{
    if !same_text(ui.choose.component_type.as_str(), component_type) {
        return;
    }
    ui.choose.groups = raw_groups_to_model(groups);
}

/// The groups after one of them has been folded or unfolded. An index that is no place
/// in the list leaves all of them.
pub open spec fn toggled(groups: Seq<VersionGroup>, index: i32) -> Seq<VersionGroup> {
    if 0 <= index < groups.len() {
        groups.update(
            index as int,
            VersionGroup { expanded: !groups[index as int].expanded, ..groups[index as int] },
        )
    } else {
        groups
    }
}

/// Folds a group of versions, or unfolds it.
pub fn toggle_group(ui: &mut AppWindow, index: i32)
    ensures
        *final(ui) == (AppWindow {
            choose: (ChoosePanel { groups: final(ui).choose.groups, ..old(ui).choose }),
            ..*old(ui)
        }),
        final(ui).choose.groups@ == toggled(old(ui).choose.groups@, index),
{
    if index < 0 {
        return;
    }
    let at: usize = index as usize;
    if at < ui.choose.groups.len() {
        let group = &mut ui.choose.groups[at];
        group.expanded = !group.expanded;
    }
}

/// Folding or unfolding changes the one group at the index, and of that group only
/// whether it is unfolded.
pub proof fn law_toggling_changes_one_group(groups: Seq<VersionGroup>, index: i32)
    ensures
        toggled(groups, index).len() == groups.len(),
        !(0 <= index < groups.len()) ==> toggled(groups, index) == groups,
        forall|i: int|
            0 <= i < groups.len() ==> #[trigger] toggled(groups, index)[i] == (VersionGroup {
                expanded: if i == index {
                    !groups[i].expanded
                } else {
                    groups[i].expanded
                },
                ..groups[i]
            }),
{
}

/// Folding a group and unfolding it again changes nothing.
pub proof fn law_toggling_twice_changes_nothing(groups: Seq<VersionGroup>, index: i32)
    ensures
        toggled(toggled(groups, index), index) == groups,
{
    assert(toggled(toggled(groups, index), index) =~= groups);
}

/// The parts chosen after one more choice. Choosing the game's version also names the
/// new version, where it has no name yet.
pub open spec fn chooses(
    before: InstallPanel,
    after: InstallPanel,
    component: Option<Component>,
    id: Seq<char>,
) -> bool {
    match component {
        Some(Component::Vanilla) => {
            &&& after == (InstallPanel {
                vanilla_selected: after.vanilla_selected,
                version_name: after.version_name,
                ..before
            })
            &&& after.vanilla_selected@ == id
            &&& if before.version_name@.len() == 0 {
                after.version_name@ == id
            } else {
                after.version_name == before.version_name
            }
        },
        Some(Component::Loader(loader)) => {
            &&& component->0.chosen(after)@ == id
            &&& match loader {
                Loader::Forge => after == (InstallPanel {
                    forge_selected: after.forge_selected,
                    ..before
                }),
                Loader::NeoForge => after == (InstallPanel {
                    neoforge_selected: after.neoforge_selected,
                    ..before
                }),
                Loader::Fabric => after == (InstallPanel {
                    fabric_selected: after.fabric_selected,
                    ..before
                }),
                Loader::Quilt => after == (InstallPanel {
                    quilt_selected: after.quilt_selected,
                    ..before
                }),
                Loader::Optifine => after == (InstallPanel {
                    optifine_selected: after.optifine_selected,
                    ..before
                }),
            }
        },
        None => after == before,
    }
}

/// Takes the version that the user chose, and turns back.
pub fn version_chosen(ui: &mut AppWindow, router: &mut Router, pages: &Pages, id: &str)
    ensures
        *final(ui) == (AppWindow {
            page_index: page_behind(old(router)@, *pages),
            install: final(ui).install,
            ..*old(ui)
        }),
        chooses(
            old(ui).install,
            final(ui).install,
            component_named(old(ui).choose.component_type@),
            id@,
        ),
        final(router)@ == trail_behind(old(router)@),
{
    let id = id.to_string();
    match find_component(ui.choose.component_type.as_str()) {
        Some(Component::Vanilla) => {
            ui.install.vanilla_selected = id.clone();
            if ui.install.version_name.as_str().is_empty() {
                ui.install.version_name = id;
            }
        },
        Some(Component::Loader(Loader::Forge)) => {
            ui.install.forge_selected = id;
        },
        Some(Component::Loader(Loader::NeoForge)) => {
            ui.install.neoforge_selected = id;
        },
        Some(Component::Loader(Loader::Fabric)) => {
            ui.install.fabric_selected = id;
        },
        Some(Component::Loader(Loader::Quilt)) => {
            ui.install.quilt_selected = id;
        },
        Some(Component::Loader(Loader::Optifine)) => {
            ui.install.optifine_selected = id;
        },
        None => {},
    }
    navigate_back(pages, router, ui);
}

/// Opening the page of a part and choosing a version on it leads back to the page
/// that the user came from, with that version chosen.
pub proof fn law_choice_is_kept(
    pages: Pages,
    trail: Seq<i32>,
    component: Component,
    id: Seq<char>,
    before: AppWindow,
    opened: AppWindow,
    after: AppWindow,
)
    requires
        before.page_index != pages.version_choose,
        before.opens_choice(opened, component, pages.version_choose),
        after == (AppWindow {
            page_index: page_behind(
                trail_after(trail, before.page_index, pages.version_choose),
                pages,
            ),
            install: after.install,
            ..opened
        }),
        chooses(
            opened.install,
            after.install,
            component_named(opened.choose.component_type@),
            id,
        ),
    ensures
        after.page_index == before.page_index,
        component.chosen(after.install)@ == id,
        forall|other: Component|
            other != component ==> #[trigger] other.chosen(after.install) == other.chosen(
                before.install,
            ),
{
    crate::components::law_names_identify_components(component, component.name());
}

/// A new version, as the user put it together.
#[derive(Debug, PartialEq, Eq)]
pub struct InstallRequest {
    pub version_name: String,
    pub vanilla_id: String,
    pub forge_version: String,
    pub fabric_version: String,
    pub quilt_version: String,
    pub neoforge_version: String,
    pub optifine_version: String,
}

impl InstallRequest {
    /// Whether this asks for the parts that are chosen.
    pub open spec fn is_of(self, install: InstallPanel) -> bool {
        &&& self.version_name == install.version_name
        &&& self.vanilla_id == install.vanilla_selected
        &&& self.forge_version == install.forge_selected
        &&& self.fabric_version == install.fabric_selected
        &&& self.quilt_version == install.quilt_selected
        &&& self.neoforge_version == install.neoforge_selected
        &&& self.optifine_version == install.optifine_selected
    }
}

/// What the user still has to give before a version can be installed.
pub open spec fn missing_choice(install: InstallPanel) -> Option<Seq<char>> {
    if install.version_name@.len() == 0 {
        Some("请输入版本名称"@)
    } else if install.vanilla_selected@.len() == 0 {
        Some("请选择 Minecraft 版本"@)
    } else {
        None
    }
}

/// Starts an installation, or asks for what is missing.
pub fn start_install(ui: &mut AppWindow) -> (request: Option<InstallRequest>)
    ensures
        request is Some <==> old(ui).install.version_name@.len() > 0
            && old(ui).install.vanilla_selected@.len() > 0,
        request matches Some(request) ==> request.is_of(old(ui).install),
        match missing_choice(old(ui).install) {
            Some(message) => request is None && old(ui).announces_task(*final(ui), message),
            None => {
                &&& request == Some(
                    InstallRequest {
                        version_name: old(ui).install.version_name,
                        vanilla_id: old(ui).install.vanilla_selected,
                        forge_version: old(ui).install.forge_selected,
                        fabric_version: old(ui).install.fabric_selected,
                        quilt_version: old(ui).install.quilt_selected,
                        neoforge_version: old(ui).install.neoforge_selected,
                        optifine_version: old(ui).install.optifine_selected,
                    },
                )
                &&& old(ui).starts_task(
                    *final(ui),
                    "正在安装 "@ + old(ui).install.version_name@ + "..."@,
                )
            },
        },
{
    let version_name = ui.install.version_name.clone();
    if version_name.as_str().is_empty() {
        ui.announce_task("请输入版本名称".to_string());
        return None;
    }
    let vanilla_id = ui.install.vanilla_selected.clone();
    if vanilla_id.as_str().is_empty() {
        ui.announce_task("请选择 Minecraft 版本".to_string());
        return None;
    }
    let request = InstallRequest {
        version_name,
        vanilla_id,
        forge_version: ui.install.forge_selected.clone(),
        fabric_version: ui.install.fabric_selected.clone(),
        quilt_version: ui.install.quilt_selected.clone(),
        neoforge_version: ui.install.neoforge_selected.clone(),
        optifine_version: ui.install.optifine_selected.clone(),
    };
    ui.start_task(joined3("正在安装 ", request.version_name.as_str(), "..."));
    Some(request)
}

/// The place of the first version with the given identifier.
pub open spec fn place_of_version(versions: Seq<VanillaVersion>, id: Seq<char>) -> Option<usize>
    decreases versions.len(),
{
    if versions.len() == 0 {
        None
    } else {
        match place_of_version(versions.drop_last(), id) {
            Some(place) => Some(place),
            None => if versions.last().id@ == id {
                Some((versions.len() - 1) as usize)
            } else {
                None
            },
        }
    }
}

/// Finds the version with the given identifier.
fn find_version(versions: &Vec<VanillaVersion>, id: &str) -> (place: Option<usize>)
    ensures
        place == place_of_version(versions@, id@),
        place matches Some(place) ==> place < versions@.len() && versions@[place as int].id@
            == id@,
{
    for i in 0..versions.len()
        invariant
            place_of_version(versions@.take(i as int), id@) is None,
    {
        assert(versions@.take(i + 1).drop_last() == versions@.take(i as int));
        if same_text(versions[i].id.as_str(), id) {
            proof {
                lemma_first_place(versions@, i as int, id@);
            }
            return Some(i);
        }
    }
    assert(versions@.take(versions.len() as int) == versions@);
    None
}

/// A version that comes first among some of the versions comes first among all.
proof fn lemma_first_place(versions: Seq<VanillaVersion>, place: int, id: Seq<char>)
    requires
        0 <= place < versions.len() <= usize::MAX,
        place_of_version(versions.take(place), id) is None,
        versions[place].id@ == id,
    ensures
        place_of_version(versions, id) == Some(place as usize),
    decreases versions.len(),
{
    if place < versions.len() - 1 {
        assert(versions.drop_last().take(place) == versions.take(place));
        lemma_first_place(versions.drop_last(), place, id);
    } else {
        assert(versions.drop_last() == versions.take(place));
    }
}

/// Goes on with an installation once the versions of the game are known: the place
/// of the one to install.
pub fn install_listed(
    ui: &mut AppWindow,
    request: &InstallRequest,
    answer: &Result<Vec<VanillaVersion>, String>,
) -> (place: Option<usize>)
    ensures
        match answer {
            Ok(versions) => {
                &&& place == place_of_version(versions@, request.vanilla_id@)
                &&& match place {
                    Some(place) => {
                        &&& place < versions@.len()
                        &&& versions@[place as int].id@ == request.vanilla_id@
                        &&& old(ui).names_task(
                            *final(ui),
                            "正在下载 "@ + request.version_name@ + "..."@,
                        )
                    },
                    None => old(ui).ends_task(*final(ui), "找不到指定的原版版本"@),
                }
            },
            Err(error) => {
                &&& place is None
                &&& old(ui).ends_task(*final(ui), "获取版本清单失败: "@ + error@)
            },
        },
{
    match answer {
        Ok(versions) => {
            match find_version(versions, request.vanilla_id.as_str()) {
                Some(place) => {
                    ui.name_task(joined3("正在下载 ", request.version_name.as_str(), "..."));
                    Some(place)
                },
                None => {
                    ui.end_task("找不到指定的原版版本".to_string());
                    None
                },
            }
        },
        Err(error) => {
            ui.end_task(joined("获取版本清单失败: ", error.as_str()));
            None
        },
    }
}

/// Shows how an installation ended.
pub fn install_finished(ui: &mut AppWindow, version_name: &str, result: Result<(), String>)
    ensures
        match result {
            Ok(_) => old(ui).completes_task(*final(ui), version_name@ + " 安装完成！"@),
            Err(error) => old(ui).ends_task(*final(ui), "安装失败: "@ + error@),
        },
{
    match result {
        Ok(_) => ui.complete_task(joined(version_name, " 安装完成！")),
        Err(error) => ui.end_task(joined("安装失败: ", error.as_str())),
    }
}

} // verus!
