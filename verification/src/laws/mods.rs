//! What holds of finding mods and their files.

use vstd::prelude::*;
use crate::mods::{
    all_files, are_modrinth_files, are_results, is_modrinth, search_failure, CurseforgeFile,
    CurseforgeHit, ModAnswer, ModHits, ModInfo, ModrinthFile, ModrinthHit, ModrinthVersion,
};
use crate::text::{decimal, separated};
use crate::window::{ModFileItem, ModItem, ModPanel};

verus! {

/// Every mod that Modrinth found is shown, in its place and with its own texts.
pub proof fn law_modrinth_finds_are_shown(results: Seq<ModItem>, found: Vec<ModrinthHit>)
    requires
        are_results(results, ModHits::Modrinth(Ok(found))),
    ensures
        results.len() == found@.len(),
        forall|i: int|
            0 <= i < found@.len() ==> {
                &&& (#[trigger] results[i]).project_id == found@[i].project_id
                &&& results[i].title == found@[i].title
                &&& results[i].description == found@[i].description
                &&& results[i].icon_url == found@[i].icon_url
            },
{
    assert forall|i: int| 0 <= i < found@.len() implies {
        &&& (#[trigger] results[i]).project_id == found@[i].project_id
        &&& results[i].title == found@[i].title
        &&& results[i].description == found@[i].description
        &&& results[i].icon_url == found@[i].icon_url
    } by {
        assert(results[i].is_of_modrinth(found@[i]));
    }
}

/// Every mod that CurseForge found is shown, in its place, under its number and with its
/// own texts.
pub proof fn law_curseforge_finds_are_shown(results: Seq<ModItem>, found: Vec<CurseforgeHit>)
    requires
        are_results(results, ModHits::Curseforge(Ok(found))),
    ensures
        results.len() == found@.len(),
        forall|i: int|
            0 <= i < found@.len() ==> {
                &&& (#[trigger] results[i]).project_id@ == decimal(found@[i].id as nat)
                &&& results[i].title == found@[i].name
                &&& results[i].description == found@[i].summary
                &&& found@[i].thumbnail_url matches Some(url) ==> results[i].icon_url@ == url@
                &&& found@[i].thumbnail_url is None ==> results[i].icon_url@.len() == 0
            },
{
    reveal_strlit("");
    assert forall|i: int| 0 <= i < found@.len() implies {
        &&& (#[trigger] results[i]).project_id@ == decimal(found@[i].id as nat)
        &&& results[i].title == found@[i].name
        &&& results[i].description == found@[i].summary
        &&& found@[i].thumbnail_url matches Some(url) ==> results[i].icon_url@ == url@
        &&& found@[i].thumbnail_url is None ==> results[i].icon_url@.len() == 0
    } by {
        assert(results[i].is_of_curseforge(found@[i]));
    }
}

/// A search that failed shows no mods and, last in its message, why.
pub proof fn law_failed_search_says_why(results: Seq<ModItem>, hits: ModHits, error: String)
    requires
        are_results(results, hits),
        hits == ModHits::Modrinth(Err(error)) || hits == ModHits::Curseforge(Err(error)),
    ensures
        results.len() == 0,
        search_failure(hits) is Some,
        search_failure(hits)->0.len() > error@.len(),
        search_failure(hits)->0.skip(search_failure(hits)->0.len() - error@.len()) == error@,
{
    reveal_strlit("Modrinth 搜索失败: ");
    reveal_strlit("CurseForge 搜索失败: ");
    let message = search_failure(hits)->0;
    assert(message.skip(message.len() - error@.len()) =~= error@);
}

/// Searches that went well complain of nothing.
pub proof fn law_good_search_says_nothing(hits: ModHits)
    ensures
        search_failure(hits) is None <==> match hits {
            ModHits::Modrinth(found) => found is Ok,
            ModHits::Curseforge(found) => found is Ok,
        },
{
}

/// The first source of the list is Modrinth, and no other is.
pub proof fn law_first_source_is_modrinth(source_index: i32)
    ensures
        is_modrinth(source_index) <==> source_index == 0,
{
}

/// How many files the versions have together is how many are listed.
proof fn lemma_number_of_files(
    versions: Seq<ModrinthVersion>,
    count: spec_fn(int, ModrinthVersion) -> int,
)
    requires
        forall|n: int, version: ModrinthVersion| #[trigger]
            count(n, version) == n + version.files@.len(),
    ensures
        all_files(versions).len() == versions.fold_left(0int, count),
    decreases versions.len(),
{
    if versions.len() > 0 {
        lemma_number_of_files(versions.drop_last(), count);
    }
}

/// The files of some versions come before those of the versions after them.
proof fn lemma_files_in_order(versions: Seq<ModrinthVersion>, v: int, f: int)
    requires
        0 <= v < versions.len(),
        0 <= f < versions[v].files@.len(),
    ensures
        all_files(versions.take(v)).len() + f < all_files(versions).len(),
        all_files(versions)[all_files(versions.take(v)).len() + f] == (
            versions[v],
            versions[v].files@[f],
        ),
    decreases versions.len(),
{
    let before = versions.drop_last();
    if v < before.len() {
        lemma_files_in_order(before, v, f);
        assert(before.take(v) =~= versions.take(v));
    } else {
        assert(before =~= versions.take(v));
    }
}

/// Every file of every version on Modrinth is shown, with the game versions and loaders
/// of its own version: those of the versions before it come first, and none is shown
/// twice.
pub proof fn law_every_modrinth_file_is_shown(
    versions: Seq<ModrinthVersion>,
    items: Seq<ModFileItem>,
    v: int,
    f: int,
    count: spec_fn(int, ModrinthVersion) -> int,
)
    requires
        are_modrinth_files(items, all_files(versions)),
        forall|n: int, version: ModrinthVersion| #[trigger]
            count(n, version) == n + version.files@.len(),
        0 <= v < versions.len(),
        0 <= f < versions[v].files@.len(),
    ensures
        items.len() == versions.fold_left(0int, count),
        ({
            let item = items[versions.take(v).fold_left(0int, count) + f];
            let file = versions[v].files@[f];
            &&& item.filename == file.filename
            &&& item.download_url == file.url
            &&& item.primary == file.primary
            &&& item.game_versions@ == separated(versions[v].game_versions@, ", "@)
            &&& item.loaders@ == separated(versions[v].loaders@, ", "@)
        }),
{
    lemma_number_of_files(versions, count);
    lemma_number_of_files(versions.take(v), count);
    lemma_files_in_order(versions, v, f);
    let at = all_files(versions.take(v)).len() + f;
    assert(items[at].is_of_modrinth(all_files(versions)[at].0, all_files(versions)[at].1));
}

/// Every file on CurseForge is shown, in its place, with its own game versions.
pub proof fn law_every_curseforge_file_is_shown(
    files: Vec<CurseforgeFile>,
    info: Option<ModInfo>,
    items: Seq<ModFileItem>,
    f: int,
)
    requires
        (ModAnswer::Curseforge { files: Ok(files), info }).are_files(items),
        0 <= f < files@.len(),
    ensures
        items.len() == files@.len(),
        items[f].filename == files@[f].file_name,
        items[f].download_url == files@[f].download_url,
        items[f].game_versions@ == separated(files@[f].game_versions@, ", "@),
        items[f].loaders@ == ""@,
        !items[f].primary,
{
    assert(items[f].is_of_curseforge(files@[f]));
}

/// A mod is shown with its own title, description and files, and what was searched for
/// stays; a mod without files is shown empty.
pub proof fn law_mod_is_shown_in_detail(before: ModPanel, after: ModPanel, answer: ModAnswer)
    requires
        before.details(after, answer),
    ensures
        after.search_query == before.search_query,
        after.search_source_index == before.search_source_index,
        after.is_searching == before.is_searching,
        after.results == before.results,
        match answer {
            ModAnswer::Modrinth { versions: Ok(versions), info } => {
                &&& are_modrinth_files(after.detail_files@, all_files(versions@))
                &&& info matches Some(info) ==> after.detail_title@ == info.title@
                    && after.detail_description@ == info.description@
                &&& info is None ==> after.detail_title@ == ""@ && after.detail_description@ == ""@
            },
            ModAnswer::Curseforge { files: Ok(files), info } => {
                &&& after.detail_files@.len() == files@.len()
                &&& info matches Some(info) ==> after.detail_title@ == info.title@
                    && after.detail_description@ == info.description@
                &&& info is None ==> after.detail_title@ == ""@ && after.detail_description@ == ""@
            },
            _ => {
                &&& after.detail_files@.len() == 0
                &&& after.detail_title@ == ""@
                &&& after.detail_description@ == ""@
            },
        },
{
}

/// Files that could not be had are complained of with the reason, and nothing else is.
pub proof fn law_missing_files_are_explained(answer: ModAnswer)
    ensures
        match answer {
            ModAnswer::Modrinth { versions: Err(error), .. }
            | ModAnswer::Curseforge { files: Err(error), .. } => {
                &&& answer.failure() is Some
                &&& answer.failure()->0.len() > error@.len()
                &&& answer.failure()->0.skip(answer.failure()->0.len() - error@.len()) == error@
            },
            _ => answer.failure() is None,
        },
{
    reveal_strlit("获取模组文件失败: ");
    match answer {
        ModAnswer::Modrinth { versions: Err(error), .. }
        | ModAnswer::Curseforge { files: Err(error), .. } => {
            let message = answer.failure()->0;
            assert(message.skip(message.len() - error@.len()) =~= error@);
        },
        _ => {},
    }
}

} // verus!
