use scl3::paths::{
    avatar_cache_dir, avatar_cache_dir_in, default_java_path, default_java_path_on,
    default_minecraft_path, default_minecraft_path_on, file_in, log_dir, log_dir_in, mod_file_path,
    mods_dir, platform_of, resolve_config_path, versions_dir, Platform,
};
use std::path::{Path, PathBuf, MAIN_SEPARATOR};

fn text(path: PathBuf) -> String {
    path.to_string_lossy().into_owned()
}

#[test]
fn java_is_windowless_on_windows() {
    assert_eq!(default_java_path_on(Platform::Unix), "java");
    assert_eq!(default_java_path_on(Platform::Windows), "javaw.exe");
    assert_eq!(platform_of('/'), Platform::Unix);
    assert_eq!(platform_of('\\'), Platform::Windows);
    assert_eq!(default_java_path(), default_java_path_on(platform_of(MAIN_SEPARATOR)));
}

#[test]
fn game_directory_is_in_the_home_directory() {
    let home = Some("/home/alice".to_string());
    assert_eq!(default_minecraft_path_on(Platform::Unix, home), "/home/alice/.minecraft");
    let root = |dir: &str| default_minecraft_path_on(Platform::Unix, Some(dir.to_string()));
    assert_eq!((root("/"), root("")), ("/.minecraft".to_string(), ".minecraft".to_string()));
    assert_eq!(root("a\\"), "a\\/.minecraft");
    assert_eq!(default_minecraft_path_on(Platform::Unix, None), "~/.minecraft");
    assert_eq!(default_minecraft_path_on(Platform::Windows, Some("C:\\Users\\alice".to_string())), ".minecraft");
    assert_eq!(default_minecraft_path_on(Platform::Windows, None), ".minecraft");
}

#[test]
fn default_game_directory_is_that_of_the_user() {
    let home = dirs::home_dir().map(|d| d.to_str().unwrap().to_string());
    let expected = default_minecraft_path_on(platform_of(MAIN_SEPARATOR), home);
    assert_eq!(default_minecraft_path(), expected);
    assert!(default_minecraft_path().ends_with(".minecraft"));
}

#[test]
fn directories_of_the_game_are_entries_of_its_directory() {
    assert_eq!(versions_dir("/games/mc"), text(Path::new("/games/mc").join("versions")));
    assert_eq!(mods_dir("/games/mc"), text(Path::new("/games/mc").join("mods")));
    assert_eq!(mods_dir("/games/mc/"), "/games/mc/mods");
    assert_eq!(versions_dir(""), "versions");
}

#[test]
fn caches_are_under_the_cache_directory() {
    let cache = || Some(PathBuf::from("/home/alice/.cache"));
    let own = Path::new("/home/alice/.cache").join("scl3");
    assert_eq!(avatar_cache_dir_in(cache()), own.join("avatars"));
    assert_eq!(log_dir_in(cache()), own.join("logs"));
    assert_eq!(avatar_cache_dir_in(None), Path::new(".").join("scl3").join("avatars"));
    let base = dirs::cache_dir().unwrap_or_else(|| PathBuf::from("."));
    assert_eq!(avatar_cache_dir(), base.join("scl3").join("avatars"));
    assert_eq!(log_dir(), base.join("scl3").join("logs"));
}

#[test]
fn caches_stay_in_directories_that_are_no_unicode() {
    let mut bytes = PathBuf::new().into_os_string();
    if MAIN_SEPARATOR == '/' {
        bytes = toml::from_str("Unix = [47, 99, 255, 195]").unwrap();
    }
    let base = PathBuf::from(bytes);
    assert_eq!(base.to_str().is_none(), MAIN_SEPARATOR == '/');
    let avatars = avatar_cache_dir_in(Some(base.clone()));
    assert_eq!(avatars, base.join("scl3").join("avatars"));
    assert!(avatars.as_os_str().as_encoded_bytes().starts_with(base.as_os_str().as_encoded_bytes()));
    assert_eq!(log_dir_in(Some(base.clone())), base.join("scl3").join("logs"));
    assert_eq!(file_in(&base, "u1.png"), base.join("u1.png"));
}

#[test]
fn rooted_directories_are_kept() {
    let joined = |dir: &str, name: &str| text(Path::new(dir).join(name));
    for dir in ["\\games", "\\\\server\\share", "C:", "C:\\", "\\\\?\\C:\\mc"] {
        assert_eq!(versions_dir(dir), joined(dir, "versions"));
        assert_eq!(mods_dir(dir), joined(dir, "mods"));
    }
    assert!(versions_dir("\\\\server\\share").starts_with("\\\\server\\share"));
}

#[test]
fn mods_are_files_of_their_directory() {
    let expected = |name: &str| text(Path::new("/mc").join("mods").join(name));
    for name in ["jei.jar", "a b.jar", "模组.jar", "x", "", "/abs.jar", "\\x.jar", "C:x.jar", "//s/h/x.jar"] {
        assert_eq!(mod_file_path("/mc", name), expected(name));
    }
    assert!(mod_file_path("/mc", "jei.jar").ends_with("jei.jar"));
    assert_eq!(mod_file_path("", "jei.jar"), text(Path::new("mods").join("jei.jar")));
}

#[test]
fn configuration_is_in_the_working_directory() {
    assert_eq!(resolve_config_path(), PathBuf::from("scl3.toml"));
}
