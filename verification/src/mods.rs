//! Finding mods and downloading their files.

use vstd::prelude::*;
use crate::navigation::{navigate_to, trail_after, Pages, Router};
use crate::text::{
    decimal, join_pieces, joined, joined3, parse_number, parsed, separated, to_decimal,
};
use crate::window::{AppWindow, ModFileItem, ModItem, ModPanel};

verus! {

/// A search for mods.
#[derive(Debug, PartialEq, Eq)]
pub enum ModSearch {
    /// A page of Modrinth's answers.
    Modrinth { query: String, index: usize, page_size: usize },
    /// CurseForge's own first page.
    Curseforge { query: String },
}

/// A mod as Modrinth finds it.
#[derive(Debug, PartialEq, Eq)]
pub struct ModrinthHit {
    pub project_id: String,
    pub title: String,
    pub description: String,
    pub icon_url: String,
}

/// A mod as CurseForge finds it.
#[derive(Debug, PartialEq, Eq)]
pub struct CurseforgeHit {
    pub id: u64,
    pub name: String,
    pub summary: String,
    /// The address of the mod's picture, where it has one.
    pub thumbnail_url: Option<String>,
}

/// Whether the window looks at Modrinth.
pub open spec fn is_modrinth(source_index: i32) -> bool {
    source_index == 0
}

/// Starts a search for mods at the source that the user selected.
pub fn start_mod_search(ui: &mut AppWindow) -> (search: ModSearch)
    ensures
        *final(ui) == (AppWindow {
            mods: (ModPanel { is_searching: true, ..old(ui).mods }),
            ..*old(ui)
        }),
        search == if is_modrinth(old(ui).mods.search_source_index) {
            ModSearch::Modrinth {
                query: old(ui).mods.search_query,
                index: 1,
                page_size: 20,
            }
        } else {
            ModSearch::Curseforge { query: old(ui).mods.search_query }
        },
{
    let query = ui.mods.search_query.clone();
    ui.mods.is_searching = true;
    if ui.mods.search_source_index == 0 {
        ModSearch::Modrinth { query, index: 1, page_size: 20 }
    } else {
        ModSearch::Curseforge { query }
    }
}

impl ModItem {
    /// Whether the window's item shows a mod of Modrinth.
    pub open spec fn is_of_modrinth(self, hit: ModrinthHit) -> bool {
        &&& self.project_id == hit.project_id
        &&& self.title == hit.title
        &&& self.description == hit.description
        &&& self.icon_url == hit.icon_url
    }

    /// Whether the window's item shows a mod of CurseForge.
    pub open spec fn is_of_curseforge(self, hit: CurseforgeHit) -> bool {
        &&& self.project_id@ == decimal(hit.id as nat)
        &&& self.title == hit.name
        &&& self.description == hit.summary
        &&& self.icon_url@ == match hit.thumbnail_url {
            Some(url) => url@,
            None => ""@,
        }
    }
}

/// What a search found.
#[derive(Debug, PartialEq, Eq)]
pub enum ModHits {
    Modrinth(Result<Vec<ModrinthHit>, String>),
    Curseforge(Result<Vec<CurseforgeHit>, String>),
}

/// Why a search failed, if it did.
pub open spec fn search_failure(hits: ModHits) -> Option<Seq<char>> {
    match hits {
        ModHits::Modrinth(Err(error)) => Some("Modrinth 搜索失败: "@ + error@),
        ModHits::Curseforge(Err(error)) => Some("CurseForge 搜索失败: "@ + error@),
        _ => None,
    }
}

/// Whether the window's items are what a search found; a search that failed found
/// nothing.
pub open spec fn are_results(results: Seq<ModItem>, hits: ModHits) -> bool {
    match hits {
        ModHits::Modrinth(Ok(found)) => {
            &&& results.len() == found@.len()
            &&& forall|i: int|
                0 <= i < found@.len() ==> (#[trigger] results[i]).is_of_modrinth(found@[i])
        },
        ModHits::Curseforge(Ok(found)) => {
            &&& results.len() == found@.len()
            &&& forall|i: int|
                0 <= i < found@.len() ==> (#[trigger] results[i]).is_of_curseforge(found@[i])
        },
        _ => results.len() == 0,
    }
}

fn modrinth_items(hits: &Vec<ModrinthHit>) -> (items: Vec<ModItem>)
    ensures
        items@.len() == hits@.len(),
        forall|i: int| 0 <= i < hits@.len() ==> (#[trigger] items@[i]).is_of_modrinth(hits@[i]),
{
    let mut items: Vec<ModItem> = Vec::new();
    for i in 0..hits.len()
        invariant
            items@.len() == i,
            forall|j: int| 0 <= j < i ==> (#[trigger] items@[j]).is_of_modrinth(hits@[j]),
    {
        items.push(
            ModItem {
                project_id: hits[i].project_id.clone(),
                title: hits[i].title.clone(),
                description: hits[i].description.clone(),
                icon_url: hits[i].icon_url.clone(),
            },
        );
    }
    items
}

fn curseforge_items(hits: &Vec<CurseforgeHit>) -> (items: Vec<ModItem>)
    ensures
        items@.len() == hits@.len(),
        forall|i: int| 0 <= i < hits@.len() ==> (#[trigger] items@[i]).is_of_curseforge(hits@[i]),
{
    let mut items: Vec<ModItem> = Vec::new();
    for i in 0..hits.len()
        invariant
            items@.len() == i,
            forall|j: int| 0 <= j < i ==> (#[trigger] items@[j]).is_of_curseforge(hits@[j]),
    {
        let icon_url = match &hits[i].thumbnail_url {
            Some(url) => url.clone(),
            None => "".to_string(),
        };
        items.push(
            ModItem {
                project_id: to_decimal(hits[i].id),
                title: hits[i].name.clone(),
                description: hits[i].summary.clone(),
                icon_url,
            },
        );
    }
    items
}

/// Shows what a search found, and where it failed, why.
pub fn mods_found(ui: &mut AppWindow, hits: ModHits)
    ensures
        final(ui).mods == (ModPanel {
            results: final(ui).mods.results,
            is_searching: false,
            ..old(ui).mods
        }),
        are_results(final(ui).mods.results@, hits),
        hits matches ModHits::Modrinth(Ok(found)) ==> {
            &&& final(ui).mods.results@.len() == found@.len()
            &&& forall|i: int|
                0 <= i < found@.len() ==> (#[trigger] final(ui).mods.results@[i]).project_id
                    == found@[i].project_id && final(ui).mods.results@[i].title == found@[i].title
        },
        hits matches ModHits::Curseforge(Ok(found)) ==> {
            &&& final(ui).mods.results@.len() == found@.len()
            &&& forall|i: int|
                0 <= i < found@.len() ==> (#[trigger] final(ui).mods.results@[i]).title
                    == found@[i].name && final(ui).mods.results@[i].description == found@[i].summary
        },
        match search_failure(hits) {
            Some(message) => (AppWindow { mods: final(ui).mods, ..*old(ui) }).announces_task(
                *final(ui),
                message,
            ),
            None => *final(ui) == (AppWindow { mods: final(ui).mods, ..*old(ui) }),
        },
{
    let results = match hits {
        ModHits::Modrinth(Ok(found)) => modrinth_items(&found),
        ModHits::Curseforge(Ok(found)) => curseforge_items(&found),
        ModHits::Modrinth(Err(error)) => {
            ui.announce_task(joined("Modrinth 搜索失败: ", error.as_str()));
            Vec::new()
        },
        ModHits::Curseforge(Err(error)) => {
            ui.announce_task(joined("CurseForge 搜索失败: ", error.as_str()));
            Vec::new()
        },
    };
    ui.mods.results = results;
    ui.mods.is_searching = false;
}

/// Where the files of a mod are to be asked for.
#[derive(Debug, PartialEq, Eq)]
pub enum ModQuery {
    Modrinth { project_id: String },
    Curseforge { mod_id: u64 },
    /// The identifier is none of CurseForge's: there is nobody to ask.
    Nowhere,
}

/// Tells where the files of a mod are to be asked for.
pub fn query_mod(ui: &AppWindow, project_id: &str) -> (query: ModQuery)
    ensures
        match query {
            ModQuery::Modrinth { project_id: id } => {
                &&& is_modrinth(ui.mods.search_source_index)
                &&& id@ == project_id@
            },
            ModQuery::Curseforge { mod_id } => {
                &&& !is_modrinth(ui.mods.search_source_index)
                &&& parsed(project_id@) == Some(mod_id as nat)
            },
            ModQuery::Nowhere => {
                &&& !is_modrinth(ui.mods.search_source_index)
                &&& parsed(project_id@) is None
            },
        },
{
    if ui.mods.search_source_index == 0 {
        ModQuery::Modrinth { project_id: project_id.to_string() }
    } else {
        match parse_number(project_id) {
            Some(mod_id) => ModQuery::Curseforge { mod_id },
            None => ModQuery::Nowhere,
        }
    }
}

/// A mod that CurseForge found is asked for under the number that CurseForge gave it.
pub proof fn law_found_mod_can_be_asked_for(item: ModItem, hit: CurseforgeHit)
    requires
        item.is_of_curseforge(hit),
    ensures
        parsed(item.project_id@) == Some(hit.id as nat),
{
    crate::text::law_decimal_reads_back(hit.id);
}

/// A file of a version on Modrinth.
#[derive(Debug, PartialEq, Eq)]
pub struct ModrinthFile {
    pub filename: String,
    pub url: String,
    pub primary: bool,
}

/// A version of a mod on Modrinth.
#[derive(Debug, PartialEq, Eq)]
pub struct ModrinthVersion {
    pub game_versions: Vec<String>,
    pub loaders: Vec<String>,
    pub files: Vec<ModrinthFile>,
}

/// A file of a mod on CurseForge.
#[derive(Debug, PartialEq, Eq)]
pub struct CurseforgeFile {
    pub file_name: String,
    pub game_versions: Vec<String>,
    pub download_url: String,
}

/// What a mod is called and what it is.
#[derive(Debug, PartialEq, Eq)]
pub struct ModInfo {
    pub title: String,
    pub description: String,
}

impl ModFileItem {
    /// Whether the window's item shows a file of a version on Modrinth.
    pub open spec fn is_of_modrinth(self, version: ModrinthVersion, file: ModrinthFile) -> bool {
        &&& self.filename == file.filename
        &&& self.game_versions@ == separated(version.game_versions@, ", "@)
        &&& self.loaders@ == separated(version.loaders@, ", "@)
        &&& self.download_url == file.url
        &&& self.primary == file.primary
    }

    /// Whether the window's item shows a file on CurseForge.
    pub open spec fn is_of_curseforge(self, file: CurseforgeFile) -> bool {
        &&& self.filename == file.file_name
        &&& self.game_versions@ == separated(file.game_versions@, ", "@)
        &&& self.loaders@ == ""@
        &&& self.download_url == file.download_url
        &&& !self.primary
    }
}

/// The files of all versions, version by version, each with the version that it is
/// of.
pub open spec fn all_files(versions: Seq<ModrinthVersion>) -> Seq<(ModrinthVersion, ModrinthFile)>
    decreases versions.len(),
{
    if versions.len() == 0 {
        seq![]
    } else {
        let last = versions.last();
        all_files(versions.drop_last()) + Seq::new(
            last.files@.len(),
            |i: int| (last, last.files@[i]),
        )
    }
}

/// Whether the window's items show the files of the versions, in their order.
pub open spec fn are_modrinth_files(
    items: Seq<ModFileItem>,
    files: Seq<(ModrinthVersion, ModrinthFile)>,
) -> bool {
    &&& items.len() == files.len()
    &&& forall|i: int|
        0 <= i < files.len() ==> (#[trigger] items[i]).is_of_modrinth(files[i].0, files[i].1)
}

/// Lists the files of all versions of a mod on Modrinth.
fn modrinth_files(versions: &Vec<ModrinthVersion>) -> (items: Vec<ModFileItem>)
    ensures
        are_modrinth_files(items@, all_files(versions@)),
{
    let mut items: Vec<ModFileItem> = Vec::new();
    for v in 0..versions.len()
        invariant
            are_modrinth_files(items@, all_files(versions@.take(v as int))),
    {
        let version = &versions[v];
        let ghost files_before = all_files(versions@.take(v as int));
        let ghost of_version = Seq::new(
            version.files@.len(),
            |i: int| (*version, version.files@[i]),
        );
        for f in 0..version.files.len()
            invariant
                of_version == Seq::new(
                    version.files@.len(),
                    |i: int| (*version, version.files@[i]),
                ),
                are_modrinth_files(items@, files_before + of_version.take(f as int)),
        {
            let file = &version.files[f];
            let ghost items_before = items@;
            items.push(
                ModFileItem {
                    filename: file.filename.clone(),
                    game_versions: join_pieces(&version.game_versions, ", "),
                    loaders: join_pieces(&version.loaders, ", "),
                    download_url: file.url.clone(),
                    primary: file.primary,
                },
            );
            proof {
                let files = files_before + of_version.take(f as int);
                let more = files_before + of_version.take(f + 1);
                assert(more =~= files.push(of_version[f as int]));
                assert forall|i: int| 0 <= i < more.len() implies (
                #[trigger] items@[i]).is_of_modrinth(more[i].0, more[i].1) by {
                    if i < files.len() {
                        assert(items@[i] == items_before[i]);
                        assert(more[i] == files[i]);
                    }
                }
            }
        }
        proof {
            assert(of_version.take(version.files.len() as int) == of_version);
            assert(versions@.take(v + 1).drop_last() == versions@.take(v as int));
            assert(all_files(versions@.take(v + 1)) == files_before + of_version);
        }
    }
    assert(versions@.take(versions.len() as int) == versions@);
    items
}

/// Lists the files of a mod on CurseForge.
fn curseforge_files(files: &Vec<CurseforgeFile>) -> (items: Vec<ModFileItem>)
    ensures
        items@.len() == files@.len(),
        forall|i: int|
            0 <= i < files@.len() ==> (#[trigger] items@[i]).is_of_curseforge(files@[i]),
{
    let mut items: Vec<ModFileItem> = Vec::new();
    for i in 0..files.len()
        invariant
            items@.len() == i,
            forall|j: int| 0 <= j < i ==> (#[trigger] items@[j]).is_of_curseforge(files@[j]),
    {
        items.push(
            ModFileItem {
                filename: files[i].file_name.clone(),
                game_versions: join_pieces(&files[i].game_versions, ", "),
                loaders: "".to_string(),
                download_url: files[i].download_url.clone(),
                primary: false,
            },
        );
    }
    items
}

/// What is known of a mod that the user selected.
#[derive(Debug, PartialEq, Eq)]
pub enum ModAnswer {
    Modrinth { versions: Result<Vec<ModrinthVersion>, String>, info: Option<ModInfo> },
    Curseforge { files: Result<Vec<CurseforgeFile>, String>, info: Option<ModInfo> },
    /// Nobody was asked.
    Nothing,
}

impl ModAnswer {
    /// Why the files could not be had, where somebody was asked.
    pub open spec fn failure(self) -> Option<Seq<char>> {
        match self {
            ModAnswer::Modrinth { versions: Err(error), .. } => Some("获取模组文件失败: "@ + error@),
            ModAnswer::Curseforge { files: Err(error), .. } => Some("获取模组文件失败: "@ + error@),
            _ => None,
        }
    }

    /// What is shown of the mod itself. Without files nothing is.
    pub open spec fn shown_info(self) -> Option<ModInfo> {
        match self {
            ModAnswer::Modrinth { versions: Ok(_), info } => info,
            ModAnswer::Curseforge { files: Ok(_), info } => info,
            _ => None,
        }
    }

    /// Whether the window's items show the mod's files.
    pub open spec fn are_files(self, items: Seq<ModFileItem>) -> bool {
        match self {
            ModAnswer::Modrinth { versions: Ok(versions), .. } => are_modrinth_files(
                items,
                all_files(versions@),
            ),
            ModAnswer::Curseforge { files: Ok(files), .. } => {
                &&& items.len() == files@.len()
                &&& forall|i: int|
                    0 <= i < files@.len() ==> (#[trigger] items[i]).is_of_curseforge(files@[i])
            },
            _ => items.len() == 0,
        }
    }
}

impl ModPanel {
    /// Whether `after` is this panel once it shows a mod in detail.
    pub open spec fn details(self, after: ModPanel, answer: ModAnswer) -> bool {
        &&& after == (ModPanel {
            detail_title: after.detail_title,
            detail_description: after.detail_description,
            detail_files: after.detail_files,
            ..self
        })
        &&& after.detail_title@ == match answer.shown_info() {
            Some(info) => info.title@,
            None => ""@,
        }
        &&& after.detail_description@ == match answer.shown_info() {
            Some(info) => info.description@,
            None => ""@,
        }
        &&& answer.are_files(after.detail_files@)
    }
}

/// Shows a mod in detail, and where its files could not be had, why.
pub fn mod_answered(ui: &mut AppWindow, router: &mut Router, pages: &Pages, answer: ModAnswer)
    ensures
        old(ui).mods.details(final(ui).mods, answer),
        final(router)@ == trail_after(old(router)@, old(ui).page_index, pages.mod_detail),
        ({
            let shown = AppWindow {
                page_index: pages.mod_detail,
                mods: final(ui).mods,
                ..*old(ui)
            };
            match answer.failure() {
                Some(message) => shown.announces_task(*final(ui), message),
                None => *final(ui) == shown,
            }
        }),
{
    let (info, files) = match answer {
        ModAnswer::Modrinth { versions: Ok(versions), info } => (info, modrinth_files(&versions)),
        ModAnswer::Curseforge { files: Ok(files), info } => (info, curseforge_files(&files)),
        ModAnswer::Modrinth { versions: Err(error), .. } => {
            ui.announce_task(joined("获取模组文件失败: ", error.as_str()));
            (None, Vec::new())
        },
        ModAnswer::Curseforge { files: Err(error), .. } => {
            ui.announce_task(joined("获取模组文件失败: ", error.as_str()));
            (None, Vec::new())
        },
        ModAnswer::Nothing => (None, Vec::new()),
    };
    match info {
        Some(info) => {
            ui.mods.detail_title = info.title;
            ui.mods.detail_description = info.description;
        },
        None => {
            ui.mods.detail_title = "".to_string();
            ui.mods.detail_description = "".to_string();
        },
    }
    ui.mods.detail_files = files;
    navigate_to(pages.mod_detail, router, ui);
}

/// A file to be downloaded into the directory of mods.
#[derive(Debug, PartialEq, Eq)]
pub struct ModDownload {
    pub url: String,
    pub filename: String,
}

/// The file of the mod in view that the user selected.
pub fn select_mod_file(ui: &AppWindow, index: i32) -> (download: Option<ModDownload>)
    ensures
        match download {
            Some(download) => {
                &&& 0 <= index < ui.mods.detail_files@.len()
                &&& download.url == ui.mods.detail_files@[index as int].download_url
                &&& download.filename == ui.mods.detail_files@[index as int].filename
            },
            None => !(0 <= index < ui.mods.detail_files@.len()),
        },
{
    if index < 0 || index as usize >= ui.mods.detail_files.len() {
        return None;
    }
    let file = &ui.mods.detail_files[index as usize];
    Some(ModDownload { url: file.download_url.clone(), filename: file.filename.clone() })
}

/// Shows that a file is being downloaded.
pub fn start_mod_download(ui: &mut AppWindow, filename: &str)
    ensures
        old(ui).starts_task(*final(ui), "正在下载 "@ + filename@ + "..."@),
{
    ui.start_task(joined3("正在下载 ", filename, "..."));
}

/// Shows how a download ended.
pub fn mod_downloaded(ui: &mut AppWindow, filename: &str, result: Result<(), String>)
    ensures
        match result {
            Ok(_) => old(ui).completes_task(*final(ui), filename@ + " 下载完成"@),
            Err(error) => old(ui).ends_task(*final(ui), "下载失败: "@ + error@),
        },
{
    match result {
        Ok(_) => ui.complete_task(joined(filename, " 下载完成")),
        Err(error) => ui.end_task(joined("下载失败: ", error.as_str())),
    }
}

} // verus!
