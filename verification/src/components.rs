//! The parts that a game version is put together from, and the lists of versions
//! that each of them comes in.

use vstd::prelude::*;
use crate::text::{joined3, same_text};
use crate::window::{InstallPanel, VersionGroup, VersionItem};

verus! {

/// The mod loaders that can be installed on top of the game.
#[derive(Clone, Copy, Debug, PartialEq, Eq, Structural)]
pub enum Loader {
    Forge,
    NeoForge,
    Fabric,
    Quilt,
    Optifine,
}

/// A part of a game version.
#[derive(Clone, Copy, Debug, PartialEq, Eq, Structural)]
pub enum Component {
    Vanilla,
    Loader(Loader),
}

impl Component {
    /// The name that the window has for the part.
    pub open spec fn name(self) -> Seq<char> {
        match self {
            Component::Vanilla => "vanilla"@,
            Component::Loader(Loader::Forge) => "forge"@,
            Component::Loader(Loader::NeoForge) => "neoforge"@,
            Component::Loader(Loader::Fabric) => "fabric"@,
            Component::Loader(Loader::Quilt) => "quilt"@,
            Component::Loader(Loader::Optifine) => "optifine"@,
        }
    }

    /// The title of the page on which a version of the part is chosen.
    pub open spec fn title(self) -> Seq<char> {
        match self {
            Component::Vanilla => "选择 Minecraft 版本"@,
            Component::Loader(Loader::Forge) => "选择 Forge 版本"@,
            Component::Loader(Loader::NeoForge) => "选择 NeoForge 版本"@,
            Component::Loader(Loader::Fabric) => "选择 Fabric 版本"@,
            Component::Loader(Loader::Quilt) => "选择 QuiltMC 版本"@,
            Component::Loader(Loader::Optifine) => "选择 Optifine 版本"@,
        }
    }

    /// The version of the part that is chosen so far.
    pub open spec fn chosen(self, install: InstallPanel) -> String {
        match self {
            Component::Vanilla => install.vanilla_selected,
            Component::Loader(Loader::Forge) => install.forge_selected,
            Component::Loader(Loader::NeoForge) => install.neoforge_selected,
            Component::Loader(Loader::Fabric) => install.fabric_selected,
            Component::Loader(Loader::Quilt) => install.quilt_selected,
            Component::Loader(Loader::Optifine) => install.optifine_selected,
        }
    }

    /// The title of the page on which a version of the part is chosen.
    pub fn page_title(self) -> (title: String)
        ensures
            title@ == self.title(),
    {
        match self {
            Component::Vanilla => "选择 Minecraft 版本".to_string(),
            Component::Loader(Loader::Forge) => "选择 Forge 版本".to_string(),
            Component::Loader(Loader::NeoForge) => "选择 NeoForge 版本".to_string(),
            Component::Loader(Loader::Fabric) => "选择 Fabric 版本".to_string(),
            Component::Loader(Loader::Quilt) => "选择 QuiltMC 版本".to_string(),
            Component::Loader(Loader::Optifine) => "选择 Optifine 版本".to_string(),
        }
    }

    /// The version of the part that is chosen so far.
    pub fn chosen_version(self, install: &InstallPanel) -> (id: String)
        ensures
            id == self.chosen(*install),
    {
        match self {
            Component::Vanilla => install.vanilla_selected.clone(),
            Component::Loader(Loader::Forge) => install.forge_selected.clone(),
            Component::Loader(Loader::NeoForge) => install.neoforge_selected.clone(),
            Component::Loader(Loader::Fabric) => install.fabric_selected.clone(),
            Component::Loader(Loader::Quilt) => install.quilt_selected.clone(),
            Component::Loader(Loader::Optifine) => install.optifine_selected.clone(),
        }
    }
}

/// The part that the window means by a name.
pub open spec fn component_named(name: Seq<char>) -> Option<Component> {
    if name == "vanilla"@ {
        Some(Component::Vanilla)
    } else if name == "forge"@ {
        Some(Component::Loader(Loader::Forge))
    } else if name == "neoforge"@ {
        Some(Component::Loader(Loader::NeoForge))
    } else if name == "fabric"@ {
        Some(Component::Loader(Loader::Fabric))
    } else if name == "quilt"@ {
        Some(Component::Loader(Loader::Quilt))
    } else if name == "optifine"@ {
        Some(Component::Loader(Loader::Optifine))
    } else {
        None
    }
}

/// Finds the part that the window means by a name.
pub fn find_component(name: &str) -> (component: Option<Component>)
    ensures
        component == component_named(name@),
{
    if same_text(name, "vanilla") {
        Some(Component::Vanilla)
    } else if same_text(name, "forge") {
        Some(Component::Loader(Loader::Forge))
    } else if same_text(name, "neoforge") {
        Some(Component::Loader(Loader::NeoForge))
    } else if same_text(name, "fabric") {
        Some(Component::Loader(Loader::Fabric))
    } else if same_text(name, "quilt") {
        Some(Component::Loader(Loader::Quilt))
    } else if same_text(name, "optifine") {
        Some(Component::Loader(Loader::Optifine))
    } else {
        None
    }
}

/// Each part is found under its name, and under no other.
pub proof fn law_names_identify_components(component: Component, name: Seq<char>)
    ensures
        component_named(name) == Some(component) <==> name == component.name(),
{
    reveal_strlit("vanilla");
    reveal_strlit("forge");
    reveal_strlit("neoforge");
    reveal_strlit("fabric");
    reveal_strlit("quilt");
    reveal_strlit("optifine");
    assert("forge"@[1] == 'o' && "fabric"@[1] == 'a');
    assert("vanilla"@[0] == 'v' && "forge"@[0] == 'f' && "fabric"@[0] == 'f');
    assert("neoforge"@[0] == 'n' && "quilt"@[0] == 'q' && "optifine"@[0] == 'o');
}

/// Versions under one title, each with an identifier and a text.
#[derive(Debug, PartialEq, Eq)]
pub struct RawVersionGroup {
    pub title: String,
    pub items: Vec<(String, String)>,
    pub expanded: bool,
}

impl VersionItem {
    /// Whether the window's item is of this identifier and text.
    pub open spec fn is_of(self, item: (String, String)) -> bool {
        self.id == item.0 && self.text == item.1
    }
}

impl VersionGroup {
    /// Whether the window's group shows a group of versions.
    pub open spec fn is_of(self, group: RawVersionGroup) -> bool {
        &&& self.title == group.title
        &&& self.expanded == group.expanded
        &&& self.items@.len() == group.items@.len()
        &&& forall|i: int|
            0 <= i < group.items@.len() ==> (#[trigger] self.items@[i]).is_of(group.items@[i])
    }
}

impl RawVersionGroup {
    /// Whether the group has this title and offers these versions, each under its
    /// own name.
    pub open spec fn offers(self, title: Seq<char>, ids: Seq<Seq<char>>, expanded: bool) -> bool {
        &&& self.title@ == title
        &&& self.expanded == expanded
        &&& self.items@.len() == ids.len()
        &&& forall|i: int|
            0 <= i < ids.len() ==> (#[trigger] self.items@[i]).0@ == ids[i] && self.items@[i].1@
                == ids[i]
    }

    /// The group as the window shows it.
    pub fn to_version_group(&self) -> (group: VersionGroup)
        ensures
            group.is_of(*self),
    {
        let mut items: Vec<VersionItem> = Vec::new();
        for i in 0..self.items.len()
            invariant
                items@.len() == i,
                forall|j: int| 0 <= j < i ==> (#[trigger] items@[j]).is_of(self.items@[j]),
        {
            items.push(
                VersionItem { id: self.items[i].0.clone(), text: self.items[i].1.clone() },
            );
        }
        VersionGroup { title: self.title.clone(), items, expanded: self.expanded }
    }
}

/// Whether the window's groups show groups of versions, in the same order.
pub open spec fn is_model_of(model: Seq<VersionGroup>, groups: Seq<RawVersionGroup>) -> bool {
    &&& model.len() == groups.len()
    &&& forall|i: int| 0 <= i < groups.len() ==> (#[trigger] model[i]).is_of(groups[i])
}

/// The groups as the window shows them.
pub fn raw_groups_to_model(groups: &Vec<RawVersionGroup>) -> (model: Vec<VersionGroup>)
    ensures
        is_model_of(model@, groups@),
{
    let mut model: Vec<VersionGroup> = Vec::new();
    for i in 0..groups.len()
        invariant
            is_model_of(model@, groups@.take(i as int)),
    {
        let group = groups[i].to_version_group();
        model.push(group);
        assert forall|j: int| 0 <= j < i + 1 implies (#[trigger] model@[j]).is_of(
            groups@.take(i + 1)[j],
        ) by {
            if j < i {
                assert(groups@.take(i as int)[j] == groups@[j]);
            }
        }
    }
    assert(groups@.take(groups.len() as int) == groups@);
    model
}

/// A group of versions, each under its own name.
fn group_of(title: &str, ids: &Vec<String>, expanded: bool) -> (group: RawVersionGroup)
    ensures
        group.offers(title@, texts(ids@), expanded),
{
    let mut items: Vec<(String, String)> = Vec::new();
    for i in 0..ids.len()
        invariant
            items@.len() == i,
            forall|j: int|
                0 <= j < i ==> (#[trigger] items@[j]).0@ == ids@[j]@ && items@[j].1@ == ids@[j]@,
    {
        items.push((ids[i].clone(), ids[i].clone()));
    }
    RawVersionGroup { title: title.to_string(), items, expanded }
}

/// The characters of each text.
pub open spec fn texts(ids: Seq<String>) -> Seq<Seq<char>> {
    Seq::new(ids.len(), |i: int| ids[i]@)
}

/// A version of the game itself.
#[derive(Debug, PartialEq, Eq)]
pub struct VanillaVersion {
    pub id: String,
    pub version_type: String,
}

/// The versions of one type, in their order.
pub open spec fn of_type(versions: Seq<VanillaVersion>, version_type: Seq<char>) -> Seq<Seq<char>>
    decreases versions.len(),
{
    if versions.len() == 0 {
        seq![]
    } else {
        let before = of_type(versions.drop_last(), version_type);
        if versions.last().version_type@ == version_type {
            before.push(versions.last().id@)
        } else {
            before
        }
    }
}

/// Picks the versions of one type.
fn ids_of_type(versions: &Vec<VanillaVersion>, version_type: &str) -> (ids: Vec<String>)
    ensures
        texts(ids@) == of_type(versions@, version_type@),
{
    let mut ids: Vec<String> = Vec::new();
    assert(texts(ids@) == of_type(versions@.take(0), version_type@));
    for i in 0..versions.len()
        invariant
            texts(ids@) == of_type(versions@.take(i as int), version_type@),
    {
        assert(versions@.take(i + 1).drop_last() == versions@.take(i as int));
        let ghost before = ids@;
        if same_text(versions[i].version_type.as_str(), version_type) {
            ids.push(versions[i].id.clone());
            assert(texts(ids@) == texts(before).push(versions@[i as int].id@));
        }
    }
    assert(versions@.take(versions.len() as int) == versions@);
    ids
}

/// Whether the groups offer the released and the snapshot versions of the game, and
/// no other.
pub open spec fn are_vanilla_groups(
    groups: Seq<RawVersionGroup>,
    versions: Seq<VanillaVersion>,
) -> bool {
    &&& groups.len() == 2
    &&& groups[0].offers("正式版 (Release)"@, of_type(versions, "release"@), true)
    &&& groups[1].offers("快照版 (Snapshot)"@, of_type(versions, "snapshot"@), false)
}

/// Sorts the versions of the game into releases and snapshots.
pub fn vanilla_groups(versions: &Vec<VanillaVersion>) -> (groups: Vec<RawVersionGroup>)
    ensures
        are_vanilla_groups(groups@, versions@),
{
    let releases = ids_of_type(versions, "release");
    let snapshots = ids_of_type(versions, "snapshot");
    let mut groups: Vec<RawVersionGroup> = Vec::new();
    groups.push(group_of("正式版 (Release)", &releases, true));
    groups.push(group_of("快照版 (Snapshot)", &snapshots, false));
    groups
}

/// Every released version is on offer among the releases, and nowhere else.
pub proof fn law_releases_are_offered(versions: Seq<VanillaVersion>, id: Seq<char>)
    ensures
        of_type(versions, "release"@).contains(id) <==> exists|i: int|
            0 <= i < versions.len() && (#[trigger] versions[i]).id@ == id
                && versions[i].version_type@ == "release"@,
{
    lemma_of_type(versions, "release"@, id);
}

/// What the versions of one type are.
proof fn lemma_of_type(versions: Seq<VanillaVersion>, version_type: Seq<char>, id: Seq<char>)
    ensures
        of_type(versions, version_type).contains(id) <==> exists|i: int|
            0 <= i < versions.len() && (#[trigger] versions[i]).id@ == id
                && versions[i].version_type@ == version_type,
    decreases versions.len(),
{
    if versions.len() > 0 {
        let before = versions.drop_last();
        let last = versions.len() - 1;
        let found = of_type(before, version_type);
        lemma_of_type(before, version_type, id);
        if versions[last].version_type@ == version_type {
            assert(found.push(versions[last].id@).last() == versions[last].id@);
            assert forall|k: int| 0 <= k < found.len() implies found.push(versions[last].id@)[k]
                == found[k] by {}
            if found.contains(id) {
                let k = choose|k: int| 0 <= k < found.len() && found[k] == id;
                assert(found.push(versions[last].id@)[k] == id);
            }
            if versions[last].id@ == id {
                assert(found.push(versions[last].id@)[found.len() as int] == id);
            }
        }
        if exists|i: int|
            0 <= i < before.len() && (#[trigger] before[i]).id@ == id && before[i].version_type@
                == version_type {
            let i = choose|i: int|
                0 <= i < before.len() && (#[trigger] before[i]).id@ == id
                    && before[i].version_type@ == version_type;
            assert(versions[i] == before[i]);
        }
        if exists|i: int|
            0 <= i < versions.len() && (#[trigger] versions[i]).id@ == id
                && versions[i].version_type@ == version_type {
            let i = choose|i: int|
                0 <= i < versions.len() && (#[trigger] versions[i]).id@ == id
                    && versions[i].version_type@ == version_type;
            if i < last {
                assert(before[i] == versions[i]);
            }
        }
    }
}

/// The versions of a loader: the one that its makers put first, where they do, and
/// all of them.
#[derive(Debug, PartialEq, Eq)]
pub struct LoaderVersions {
    pub headline: Option<String>,
    pub versions: Vec<String>,
}

impl Loader {
    /// The title above the version that the loader's makers put first. Only Forge
    /// and NeoForge have one.
    pub open spec fn headline_title(self) -> Option<Seq<char>> {
        match self {
            Loader::Forge => Some("推荐版本"@),
            Loader::NeoForge => Some("最新版本"@),
            _ => None,
        }
    }

    /// The title above all versions of the loader.
    pub open spec fn list_title(self) -> Seq<char> {
        match self {
            Loader::Forge => "所有版本"@,
            Loader::NeoForge => "所有版本"@,
            Loader::Fabric => "加载器版本"@,
            Loader::Quilt => "加载器版本"@,
            Loader::Optifine => "Optifine 版本"@,
        }
    }
}

/// The titles and versions that are on offer for a loader.
pub open spec fn loader_offer(
    loader: Loader,
    answer: Result<LoaderVersions, String>,
) -> Seq<(Seq<char>, Seq<Seq<char>>)> {
    match answer {
        Ok(found) => {
            let first = match (loader.headline_title(), found.headline) {
                (Some(title), Some(version)) => seq![(title, seq![version@])],
                _ => seq![],
            };
            let all = if found.versions@.len() > 0 {
                seq![(loader.list_title(), texts(found.versions@))]
            } else {
                seq![]
            };
            if first.len() + all.len() == 0 {
                seq![("无可用版本"@, seq![])]
            } else {
                first + all
            }
        },
        Err(_) => seq![("获取失败"@, seq![])],
    }
}

/// Whether the groups, all of them unfolded, are these titles with these versions.
pub open spec fn are_groups(
    groups: Seq<RawVersionGroup>,
    offer: Seq<(Seq<char>, Seq<Seq<char>>)>,
) -> bool {
    &&& groups.len() == offer.len()
    &&& forall|i: int|
        0 <= i < offer.len() ==> (#[trigger] groups[i]).offers(offer[i].0, offer[i].1, true)
}

/// Puts the versions of a loader into groups.
pub fn loader_groups(loader: Loader, answer: Result<LoaderVersions, String>) -> (groups: Vec<
    RawVersionGroup,
>)
    ensures
        are_groups(groups@, loader_offer(loader, answer)),
        answer matches Ok(found) ==> found.versions@.len() > 0 ==> {
            &&& groups@.len() > 0
            &&& groups@.last().items@.len() == found.versions@.len()
            &&& forall|i: int|
                0 <= i < found.versions@.len() ==> (#[trigger] groups@.last().items@[i]).0@
                    == found.versions@[i]@ && groups@.last().items@[i].1@ == found.versions@[i]@
        },
{
    let ghost given = answer;
    let none: Vec<String> = Vec::new();
    let mut groups: Vec<RawVersionGroup> = Vec::new();
    match answer {
        Ok(found) => {
            let first_title = match loader {
                Loader::Forge => Some("推荐版本"),
                Loader::NeoForge => Some("最新版本"),
                _ => None,
            };
            if let (Some(title), Some(version)) = (first_title, found.headline) {
                let mut one: Vec<String> = Vec::new();
                one.push(version);
                assert(texts(one@) == seq![version@]);
                groups.push(group_of(title, &one, true));
            }
            if found.versions.len() > 0 {
                let title = match loader {
                    Loader::Forge => "所有版本",
                    Loader::NeoForge => "所有版本",
                    Loader::Fabric => "加载器版本",
                    Loader::Quilt => "加载器版本",
                    Loader::Optifine => "Optifine 版本",
                };
                groups.push(group_of(title, &found.versions, true));
            }
            if groups.len() == 0 {
                assert(texts(none@) == Seq::<Seq<char>>::empty());
                groups.push(group_of("无可用版本", &none, true));
            }
        },
        Err(_) => {
            assert(texts(none@) == Seq::<Seq<char>>::empty());
            groups.push(group_of("获取失败", &none, true));
        },
    }
    proof {
        if let Ok(found) = given {
            if found.versions@.len() > 0 {
                let offer = loader_offer(loader, given);
                assert(groups@.last().offers(offer.last().0, offer.last().1, true));
                assert(offer.last().1 == texts(found.versions@));
            }
        }
    }
    groups
}

/// There is always something to show for a loader: a failure, that there is nothing
/// on offer, or versions.
pub proof fn law_loader_offer_is_not_empty(loader: Loader, answer: Result<LoaderVersions, String>)
    ensures
        1 <= loader_offer(loader, answer).len() <= 2,
{
}

/// A version of Optifine.
#[derive(Debug, PartialEq, Eq)]
pub struct OptifineVersion {
    pub version_type: String,
    pub patch: String,
}

/// The names under which versions of Optifine are chosen: type and patch.
pub fn optifine_labels(versions: &Vec<OptifineVersion>) -> (labels: Vec<String>)
    ensures
        labels@.len() == versions@.len(),
        forall|i: int|
            0 <= i < versions@.len() ==> (#[trigger] labels@[i])@ == versions@[i].version_type@
                + " "@ + versions@[i].patch@,
{
    let mut labels: Vec<String> = Vec::new();
    for i in 0..versions.len()
        invariant
            labels@.len() == i,
            forall|j: int|
                0 <= j < i ==> (#[trigger] labels@[j])@ == versions@[j].version_type@ + " "@
                    + versions@[j].patch@,
    {
        labels.push(joined3(versions[i].version_type.as_str(), " ", versions[i].patch.as_str()));
    }
    labels
}

} // verus!
