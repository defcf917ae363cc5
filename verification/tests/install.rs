use scl3::components::{
    find_component, loader_groups, optifine_labels, raw_groups_to_model, vanilla_groups, Component,
    Loader, LoaderVersions, OptifineVersion, RawVersionGroup, VanillaVersion,
};
use scl3::config::{AppearanceConfig, AuthConfig, DownloadConfig, GameConfig, LaunchConfig, SclConfig};
use scl3::install::{
    component_clicked, install_finished, install_listed, loader_listed, start_install, toggle_group,
    vanilla_listed, version_chosen, DownloaderParams, DownloaderPlan, InstallRequest, VersionQuery,
};
use scl3::navigation::{Pages, Router};
use scl3::window::{AppWindow, InstallPanel, ProgressPanel, VersionGroup};

fn pages() -> Pages {
    Pages {
        launcher: 0,
        dir_manage: 1,
        game_download: 2,
        settings: 3,
        login: 4,
        microsoft_login: 5,
        version_choose: 6,
        mod_detail: 7,
    }
}

fn strings(texts: &[&str]) -> Vec<String> {
    texts.iter().map(|t| t.to_string()).collect()
}

fn bar(visible: bool, task_name: &str, percent: u8) -> ProgressPanel {
    ProgressPanel { visible, task_name: task_name.to_string(), percent }
}

fn version(id: &str, version_type: &str) -> VanillaVersion {
    VanillaVersion { id: id.to_string(), version_type: version_type.to_string() }
}

fn manifest() -> Vec<VanillaVersion> {
    vec![
        version("24w14a", "snapshot"),
        version("1.20.4", "release"),
        version("b1.7.3", "old_beta"),
        version("1.20.3", "release"),
    ]
}

fn outline(group: &RawVersionGroup) -> (String, Vec<String>, bool) {
    assert!(group.items.iter().all(|(id, text)| id == text));
    (group.title.clone(), group.items.iter().map(|i| i.0.clone()).collect(), group.expanded)
}

fn group(title: &str, ids: &[&str], expanded: bool) -> (String, Vec<String>, bool) {
    (title.to_string(), strings(ids), expanded)
}

const COMPONENTS: [(&str, Component, &str); 6] = [
    ("vanilla", Component::Vanilla, "选择 Minecraft 版本"),
    ("forge", Component::Loader(Loader::Forge), "选择 Forge 版本"),
    ("neoforge", Component::Loader(Loader::NeoForge), "选择 NeoForge 版本"),
    ("fabric", Component::Loader(Loader::Fabric), "选择 Fabric 版本"),
    ("quilt", Component::Loader(Loader::Quilt), "选择 QuiltMC 版本"),
    ("optifine", Component::Loader(Loader::Optifine), "选择 Optifine 版本"),
];

#[test]
fn components_are_found_by_name() {
    for (name, component, title) in COMPONENTS {
        assert_eq!(find_component(name), Some(component));
        assert_eq!(component.page_title(), title);
    }
    assert_eq!(find_component("liteloader"), None);
    assert_eq!(find_component("Forge"), None);
}

#[test]
fn game_versions_are_sorted_by_type() {
    let groups: Vec<_> = vanilla_groups(&manifest()).iter().map(outline).collect();
    let expected = vec![
        group("正式版 (Release)", &["1.20.4", "1.20.3"], true),
        group("快照版 (Snapshot)", &["24w14a"], false),
    ];
    assert_eq!(groups, expected);
    let groups: Vec<_> = vanilla_groups(&vec![]).iter().map(outline).collect();
    assert_eq!(groups, vec![group("正式版 (Release)", &[], true), group("快照版 (Snapshot)", &[], false)]);
}

fn loader(loader: Loader, headline: Option<&str>, versions: &[&str]) -> Vec<(String, Vec<String>, bool)> {
    let found = LoaderVersions { headline: headline.map(|h| h.to_string()), versions: strings(versions) };
    loader_groups(loader, Ok(found)).iter().map(outline).collect()
}

#[test]
fn loader_versions_are_grouped() {
    let expected = vec![group("推荐版本", &["47.2.0"], true), group("所有版本", &["47.2.0", "47.1.0"], true)];
    assert_eq!(loader(Loader::Forge, Some("47.2.0"), &["47.2.0", "47.1.0"]), expected);
    assert_eq!(loader(Loader::Forge, None, &["47.1.0"]), vec![group("所有版本", &["47.1.0"], true)]);
    assert_eq!(loader(Loader::Forge, Some("47.2.0"), &[]), vec![group("推荐版本", &["47.2.0"], true)]);
    let expected = vec![group("最新版本", &["20.4.1"], true), group("所有版本", &["20.4.0"], true)];
    assert_eq!(loader(Loader::NeoForge, Some("20.4.1"), &["20.4.0"]), expected);
    assert_eq!(loader(Loader::Fabric, None, &["0.15"]), vec![group("加载器版本", &["0.15"], true)]);
    assert_eq!(loader(Loader::Quilt, None, &["0.24"]), vec![group("加载器版本", &["0.24"], true)]);
    assert_eq!(loader(Loader::Optifine, None, &["HD_U I5"]), vec![group("Optifine 版本", &["HD_U I5"], true)]);
}

#[test]
fn loaders_without_versions_say_so() {
    for each in [Loader::Forge, Loader::NeoForge, Loader::Fabric, Loader::Quilt, Loader::Optifine] {
        assert_eq!(loader(each, None, &[]), vec![group("无可用版本", &[], true)]);
        let failed: Vec<_> = loader_groups(each, Err("timeout".to_string())).iter().map(outline).collect();
        assert_eq!(failed, vec![group("获取失败", &[], true)]);
    }
}

#[test]
fn optifine_is_labelled_by_type_and_patch() {
    let versions = vec![OptifineVersion { version_type: "HD_U".to_string(), patch: "I5".to_string() }];
    assert_eq!(optifine_labels(&versions), strings(&["HD_U I5"]));
}

#[test]
fn downloads_are_set_up_from_the_configuration() {
    let config = SclConfig {
        game: GameConfig { minecraft_path: Some(strings(&["/mc"])), java_path: Some(strings(&["/java"])) },
        download: DownloadConfig { verify_data: true, parallel_amount: 8, ..Default::default() },
        launch: LaunchConfig::default(),
        appearance: AppearanceConfig::default(),
        auth: AuthConfig::default(),
    };
    let params = DownloaderParams::from_config(&config);
    let minimal = DownloaderPlan {
        source: "Default".to_string(),
        minecraft_dir: "/mc".to_string(),
        java_path: None,
        parallel: None,
        game_independent: None,
        verify_data: false,
    };
    assert_eq!(params.build_minimal(), minimal);
    let with_java = DownloaderPlan { java_path: Some("/java".to_string()), ..minimal };
    assert_eq!(params.build_with_java(), with_java);
    let full = DownloaderPlan { parallel: Some(8), game_independent: Some(true), verify_data: true, ..with_java };
    assert_eq!(params.build_downloader(), full);
}

#[test]
fn choosing_the_game_needs_nothing() {
    let (mut ui, mut router) = (AppWindow::default(), Router::new());
    ui.install.vanilla_selected = "1.20.1".to_string();
    assert_eq!(component_clicked(&mut ui, &mut router, &pages(), "vanilla"), Some(VersionQuery::Vanilla));
    assert_eq!((ui.page_index, router.stack.clone()), (6, vec![0]));
    assert_eq!((ui.choose.page_title.as_str(), ui.choose.show_skip_option), ("选择 Minecraft 版本", false));
    assert_eq!((ui.choose.component_type.as_str(), ui.choose.selected_id.as_str()), ("vanilla", "1.20.1"));
}

#[test]
fn choosing_a_loader_needs_the_game() {
    for (name, component, title) in COMPONENTS {
        let Component::Loader(loader) = component else { continue };
        let (mut ui, mut router) = (AppWindow::default(), Router::new());
        assert_eq!(component_clicked(&mut ui, &mut router, &pages(), name), None);
        assert_eq!(ui, AppWindow { progress: bar(true, "请先选择 Minecraft 版本", 0), ..Default::default() });
        let mut ui = AppWindow::default();
        ui.install.vanilla_selected = "1.20.1".to_string();
        let query = VersionQuery::Loader { loader, vanilla_version: "1.20.1".to_string() };
        assert_eq!(component_clicked(&mut ui, &mut router, &pages(), name), Some(query));
        assert_eq!((ui.choose.page_title.as_str(), ui.choose.show_skip_option), (title, true));
        assert_eq!((ui.choose.component_type.as_str(), ui.page_index), (name, 6));
    }
    let (mut ui, mut router) = (AppWindow::default(), Router::new());
    assert_eq!(component_clicked(&mut ui, &mut router, &pages(), "liteloader"), None);
    assert_eq!(ui, AppWindow::default());
}

#[test]
fn chosen_versions_are_kept() {
    for (name, component, _) in COMPONENTS {
        let (mut ui, mut router) = (AppWindow { page_index: 2, ..Default::default() }, Router::new());
        ui.install.vanilla_selected = "1.20.1".to_string();
        component_clicked(&mut ui, &mut router, &pages(), name);
        version_chosen(&mut ui, &mut router, &pages(), "picked");
        assert_eq!((ui.page_index, router.stack.len()), (2, 0));
        assert_eq!(component.chosen_version(&ui.install), "picked");
        for (_, other, _) in COMPONENTS {
            if other != component {
                assert_ne!(other.chosen_version(&ui.install), "picked");
            }
        }
    }
}

#[test]
fn the_game_names_the_new_version() {
    let (mut ui, mut router) = (AppWindow::default(), Router::new());
    ui.choose.component_type = "vanilla".to_string();
    version_chosen(&mut ui, &mut router, &pages(), "1.20.4");
    version_chosen(&mut ui, &mut router, &pages(), "1.20.3");
    let expected = InstallPanel {
        version_name: "1.20.4".to_string(),
        vanilla_selected: "1.20.3".to_string(),
        ..Default::default()
    };
    assert_eq!(ui.install, expected);
    ui.choose.component_type = "liteloader".to_string();
    version_chosen(&mut ui, &mut router, &pages(), "x");
    assert_eq!(ui.install, expected);
}

#[test]
fn listed_versions_are_shown() {
    let mut ui = AppWindow::default();
    vanilla_listed(&mut ui, Ok(manifest()));
    assert_eq!(ui.choose.groups, raw_groups_to_model(&vanilla_groups(&manifest())));
    assert_eq!(ui.choose.groups[0].items[1].id, "1.20.3");
    let mut ui = AppWindow::default();
    vanilla_listed(&mut ui, Err("timeout".to_string()));
    assert_eq!(ui, AppWindow { progress: bar(true, "获取版本列表失败: timeout", 0), ..Default::default() });
}

#[test]
fn late_answers_are_passed_over() {
    let groups = loader_groups(Loader::Fabric, Err("e".to_string()));
    let mut ui = AppWindow::default();
    ui.choose.component_type = "quilt".to_string();
    loader_listed(&mut ui, "fabric", &groups);
    assert_eq!(ui.choose.groups, vec![]);
    ui.choose.component_type = "fabric".to_string();
    loader_listed(&mut ui, "fabric", &groups);
    assert_eq!(ui.choose.groups, vec![VersionGroup { title: "获取失败".to_string(), items: vec![], expanded: true }]);
}

#[test]
fn groups_are_folded_and_unfolded() {
    let mut ui = AppWindow::default();
    vanilla_listed(&mut ui, Ok(manifest()));
    let expanded = |ui: &AppWindow| ui.choose.groups.iter().map(|g| g.expanded).collect::<Vec<_>>();
    let titles = |ui: &AppWindow| ui.choose.groups.iter().map(|g| g.title.clone()).collect::<Vec<_>>();
    let before = titles(&ui);
    toggle_group(&mut ui, 1);
    assert_eq!(titles(&ui), before);
    assert_eq!(expanded(&ui), vec![true, true]);
    toggle_group(&mut ui, 0);
    assert_eq!(expanded(&ui), vec![false, true]);
    toggle_group(&mut ui, 0);
    assert_eq!(expanded(&ui), vec![true, true]);
    toggle_group(&mut ui, 2);
    toggle_group(&mut ui, -1);
    toggle_group(&mut ui, i32::MIN);
    assert_eq!(expanded(&ui), vec![true, true]);
}

#[test]
fn installing_asks_for_what_is_missing() {
    let mut ui = AppWindow::default();
    assert_eq!(start_install(&mut ui), None);
    assert_eq!(ui, AppWindow { progress: bar(true, "请输入版本名称", 0), ..Default::default() });
    let mut ui = AppWindow::default();
    ui.install.version_name = "pack".to_string();
    assert_eq!(start_install(&mut ui), None);
    assert_eq!(ui.progress, bar(true, "请选择 Minecraft 版本", 0));
}

fn request() -> InstallRequest {
    InstallRequest {
        version_name: "pack".to_string(),
        vanilla_id: "1.20.3".to_string(),
        forge_version: String::new(),
        fabric_version: "0.15".to_string(),
        quilt_version: String::new(),
        neoforge_version: String::new(),
        optifine_version: String::new(),
    }
}

#[test]
fn installing_goes_step_by_step() {
    let mut ui = AppWindow::default();
    ui.install.version_name = "pack".to_string();
    ui.install.vanilla_selected = "1.20.3".to_string();
    ui.install.fabric_selected = "0.15".to_string();
    ui.progress.percent = 100;
    assert_eq!(start_install(&mut ui), Some(request()));
    assert_eq!(ui.progress, bar(true, "正在安装 pack...", 0));
    assert_eq!(install_listed(&mut ui, &request(), &Ok(manifest())), Some(3));
    assert_eq!(ui.progress, bar(true, "正在下载 pack...", 0));
    install_finished(&mut ui, "pack", Ok(()));
    assert_eq!(ui.progress, bar(false, "pack 安装完成！", 100));
}

#[test]
fn installing_ends_with_a_reason() {
    let start = || AppWindow { progress: bar(true, "正在安装 pack...", 0), ..Default::default() };
    let mut ui = start();
    assert_eq!(install_listed(&mut ui, &request(), &Err("timeout".to_string())), None);
    assert_eq!(ui.progress, bar(false, "获取版本清单失败: timeout", 0));
    let mut ui = start();
    assert_eq!(install_listed(&mut ui, &request(), &Ok(vec![version("1.0", "release")])), None);
    assert_eq!(ui.progress, bar(false, "找不到指定的原版版本", 0));
    let mut ui = start();
    install_finished(&mut ui, "pack", Err("disk".to_string()));
    assert_eq!(ui.progress, bar(false, "安装失败: disk", 0));
    let twice = vec![version("a", "release"), version("1.20.3", "release"), version("1.20.3", "snapshot")];
    assert_eq!(install_listed(&mut start(), &request(), &Ok(twice)), Some(1));
}
