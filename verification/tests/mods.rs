use scl3::mods::{
    mod_answered, mod_downloaded, mods_found, query_mod, select_mod_file, start_mod_download,
    start_mod_search, CurseforgeFile, CurseforgeHit, ModAnswer, ModDownload, ModHits, ModInfo,
    ModQuery, ModSearch, ModrinthFile, ModrinthHit, ModrinthVersion,
};
use scl3::navigation::{Pages, Router};
use scl3::window::{AppWindow, ModFileItem, ModItem, ProgressPanel};

fn pages() -> Pages {
    Pages {
        launcher: 0,
        dir_manage: 1,
        game_download: 2,
        settings: 3,
        login: 4,
        microsoft_login: 5,
        version_choose: 6,
        mod_detail: 7,
    }
}

fn strings(texts: &[&str]) -> Vec<String> {
    texts.iter().map(|t| t.to_string()).collect()
}

fn bar(visible: bool, task_name: &str, percent: u8) -> ProgressPanel {
    ProgressPanel { visible, task_name: task_name.to_string(), percent }
}

fn item(project_id: &str, title: &str, description: &str, icon_url: &str) -> ModItem {
    ModItem {
        project_id: project_id.to_string(),
        title: title.to_string(),
        description: description.to_string(),
        icon_url: icon_url.to_string(),
    }
}

fn curseforge_hit(id: u64, thumbnail_url: Option<&str>) -> CurseforgeHit {
    CurseforgeHit {
        id,
        name: "JEI".to_string(),
        summary: "items".to_string(),
        thumbnail_url: thumbnail_url.map(|u| u.to_string()),
    }
}

#[test]
fn mods_are_searched_at_the_selected_source() {
    let mut ui = AppWindow::default();
    ui.mods.search_query = "sodium".to_string();
    let search = ModSearch::Modrinth { query: "sodium".to_string(), index: 1, page_size: 20 };
    assert_eq!(start_mod_search(&mut ui), search);
    assert!(ui.mods.is_searching);
    ui.mods.search_source_index = 1;
    assert_eq!(start_mod_search(&mut ui), ModSearch::Curseforge { query: "sodium".to_string() });
}

#[test]
fn found_mods_are_shown() {
    let mut ui = AppWindow::default();
    ui.mods.is_searching = true;
    let hit = ModrinthHit {
        project_id: "AANobbMI".to_string(),
        title: "Sodium".to_string(),
        description: "fast".to_string(),
        icon_url: "https://i".to_string(),
    };
    mods_found(&mut ui, ModHits::Modrinth(Ok(vec![hit])));
    assert_eq!(ui.mods.results, vec![item("AANobbMI", "Sodium", "fast", "https://i")]);
    assert!(!ui.mods.is_searching);
    let hits = vec![curseforge_hit(238222, Some("https://t")), curseforge_hit(0, None)];
    mods_found(&mut ui, ModHits::Curseforge(Ok(hits)));
    let expected = vec![item("238222", "JEI", "items", "https://t"), item("0", "JEI", "items", "")];
    assert_eq!(ui.mods.results, expected);
    assert_eq!(ui.progress, ProgressPanel::default());
}

#[test]
fn failed_searches_find_nothing() {
    let mut ui = AppWindow::default();
    ui.mods.results = vec![item("a", "b", "c", "d")];
    mods_found(&mut ui, ModHits::Modrinth(Err("timeout".to_string())));
    assert_eq!(ui, AppWindow { progress: bar(true, "Modrinth 搜索失败: timeout", 0), ..Default::default() });
    mods_found(&mut ui, ModHits::Curseforge(Err("403".to_string())));
    assert_eq!(ui, AppWindow { progress: bar(true, "CurseForge 搜索失败: 403", 0), ..Default::default() });
}

#[test]
fn found_mods_can_be_asked_for() {
    let mut ui = AppWindow::default();
    assert_eq!(query_mod(&ui, "AANobbMI"), ModQuery::Modrinth { project_id: "AANobbMI".to_string() });
    ui.mods.search_source_index = 1;
    mods_found(&mut ui, ModHits::Curseforge(Ok(vec![curseforge_hit(u64::MAX, None)])));
    let id = ui.mods.results[0].project_id.clone();
    assert_eq!(query_mod(&ui, &id), ModQuery::Curseforge { mod_id: u64::MAX });
    assert_eq!(query_mod(&ui, "AANobbMI"), ModQuery::Nowhere);
}

fn file_item(filename: &str, game_versions: &str, loaders: &str, url: &str, primary: bool) -> ModFileItem {
    ModFileItem {
        filename: filename.to_string(),
        game_versions: game_versions.to_string(),
        loaders: loaders.to_string(),
        download_url: url.to_string(),
        primary,
    }
}

fn info() -> Option<ModInfo> {
    Some(ModInfo { title: "Sodium".to_string(), description: "fast".to_string() })
}

#[test]
fn files_on_modrinth_are_listed_version_by_version() {
    let file = |name: &str, primary: bool| ModrinthFile {
        filename: name.to_string(),
        url: format!("https://{}", name),
        primary,
    };
    let versions = vec![
        ModrinthVersion {
            game_versions: strings(&["1.20", "1.20.1"]),
            loaders: strings(&["fabric", "quilt"]),
            files: vec![file("a.jar", true), file("a-sources.jar", false)],
        },
        ModrinthVersion { game_versions: vec![], loaders: vec![], files: vec![] },
        ModrinthVersion { game_versions: strings(&["1.19"]), loaders: strings(&["fabric"]), files: vec![file("b.jar", true)] },
    ];
    let (mut ui, mut router) = (AppWindow::default(), Router::new());
    mod_answered(&mut ui, &mut router, &pages(), ModAnswer::Modrinth { versions: Ok(versions), info: info() });
    let expected = vec![
        file_item("a.jar", "1.20, 1.20.1", "fabric, quilt", "https://a.jar", true),
        file_item("a-sources.jar", "1.20, 1.20.1", "fabric, quilt", "https://a-sources.jar", false),
        file_item("b.jar", "1.19", "fabric", "https://b.jar", true),
    ];
    assert_eq!(ui.mods.detail_files, expected);
    assert_eq!((ui.mods.detail_title.as_str(), ui.mods.detail_description.as_str()), ("Sodium", "fast"));
    assert_eq!((ui.page_index, router.stack.clone()), (7, vec![0]));
}

#[test]
fn files_on_curseforge_are_listed() {
    let file = CurseforgeFile {
        file_name: "jei.jar".to_string(),
        game_versions: strings(&["1.20.1", "Forge"]),
        download_url: "https://jei".to_string(),
    };
    let (mut ui, mut router) = (AppWindow::default(), Router::new());
    ui.mods.detail_title = "old".to_string();
    mod_answered(&mut ui, &mut router, &pages(), ModAnswer::Curseforge { files: Ok(vec![file]), info: None });
    assert_eq!(ui.mods.detail_files, vec![file_item("jei.jar", "1.20.1, Forge", "", "https://jei", false)]);
    assert_eq!((ui.mods.detail_title.as_str(), ui.mods.detail_description.as_str()), ("", ""));
}

#[test]
fn mods_without_files_are_shown_empty() {
    let answers = [
        (ModAnswer::Modrinth { versions: Err("e".to_string()), info: info() }, bar(true, "获取模组文件失败: e", 0)),
        (ModAnswer::Curseforge { files: Err("e".to_string()), info: info() }, bar(true, "获取模组文件失败: e", 0)),
        (ModAnswer::Nothing, ProgressPanel::default()),
    ];
    for (answer, progress) in answers {
        let (mut ui, mut router) = (AppWindow::default(), Router::new());
        mod_answered(&mut ui, &mut router, &pages(), answer);
        assert_eq!(ui, AppWindow { page_index: 7, progress, ..Default::default() });
    }
}

#[test]
fn mod_files_are_downloaded() {
    let mut ui = AppWindow::default();
    ui.mods.detail_files = vec![file_item("a.jar", "", "", "https://a", true)];
    let download = ModDownload { url: "https://a".to_string(), filename: "a.jar".to_string() };
    assert_eq!(select_mod_file(&ui, 0), Some(download));
    assert_eq!(select_mod_file(&ui, 1), None);
    assert_eq!(select_mod_file(&ui, -1), None);
    start_mod_download(&mut ui, "a.jar");
    assert_eq!(ui.progress, bar(true, "正在下载 a.jar...", 0));
    mod_downloaded(&mut ui, "a.jar", Ok(()));
    assert_eq!(ui.progress, bar(false, "a.jar 下载完成", 100));
    start_mod_download(&mut ui, "a.jar");
    mod_downloaded(&mut ui, "a.jar", Err("404".to_string()));
    assert_eq!(ui.progress, bar(false, "下载失败: 404", 0));
}
