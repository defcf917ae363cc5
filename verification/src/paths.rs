//! Where the launcher keeps its files.

use std::path::PathBuf;
use vstd::prelude::*;
use vstd::utf8::{encode_utf8, is_ascii_chars, is_ascii_chars_encode_utf8};
use crate::text::{joined, joined3};

verus! {

/// The kinds of system that the launcher has defaults for.
#[derive(Clone, Copy, Debug, PartialEq, Eq, Structural)]
pub enum Platform {
    /// Linux and macOS.
    Unix,
    Windows,
}

/// Whether a name can only stand for an entry directly inside a directory. It is too
/// long for `.` and `..`.
pub open spec fn is_plain_name(name: Seq<char>) -> bool {
    &&& name.len() > 2
    &&& forall|i: int|
        0 <= i < name.len() ==> #[trigger] name[i] != '/' && name[i] != '\\' && name[i] != ':'
}

/// Whether every system takes a name as relative: it starts with no separator and with
/// no drive.
pub open spec fn is_relative_name(name: Seq<char>) -> bool {
    &&& name.len() > 0 ==> name[0] != '/' && name[0] != '\\'
    &&& name.len() > 1 ==> name[1] != ':'
}

/// Whether a path ends in the given name.
pub open spec fn ends_in(path: Seq<char>, name: Seq<char>) -> bool {
    path.len() >= name.len() && path.skip(path.len() - name.len()) == name
}

/// Whether a directory starts with `\\?\`. On Windows such a directory is verbatim: no
/// `/` and no `.` has a meaning in it.
pub open spec fn is_verbatim(dir: Seq<char>) -> bool {
    dir.len() >= 4 && dir[0] == '\\' && dir[1] == '\\' && dir[2] == '?' && dir[3] == '\\'
}

/// Whether `path` is the name written behind the directory, with the system's separator
/// between the two. Systems differ on whether a directory that ends in a backslash or a
/// colon needs one.
pub open spec fn is_appended(dir: Seq<char>, name: Seq<char>, path: Seq<char>) -> bool {
    if dir.len() == 0 || dir.last() == '/' {
        path == dir + name
    } else {
        ||| path == dir + seq!['/'] + name
        ||| path == dir + seq!['\\'] + name
        ||| (dir.last() == '\\' || dir.last() == ':') && path == dir + name
    }
}

/// Whether the first `k` characters of a directory can be all that Windows keeps of it
/// before a name with a root: a drive, or the start of a network or device path.
pub open spec fn can_be_prefix(dir: Seq<char>, k: int) -> bool {
    ||| k == 2 && dir.len() >= 2 && dir[1] == ':'
    ||| 2 <= k <= dir.len() && (dir[0] == '/' || dir[0] == '\\') && (dir[1] == '/' || dir[1]
        == '\\')
}

/// Whether `path` is the name in place of the directory, or behind a prefix of it.
pub open spec fn is_replaced(dir: Seq<char>, name: Seq<char>, path: Seq<char>) -> bool {
    ||| path == name
    ||| exists|k: int| can_be_prefix(dir, k) && path == #[trigger] dir.take(k) + name
}

/// Whether `path` is the path of the entry `name` of the directory `dir`.
///
/// A name that is not relative takes the place of the directory, or of all of it but a
/// prefix. A name that starts with `/` is relative on no system; what else is not
/// relative on Windows is so on others. Windows rewrites verbatim directories.
pub open spec fn is_entry(dir: Seq<char>, name: Seq<char>, path: Seq<char>) -> bool {
    if is_verbatim(dir) {
        is_plain_name(name) ==> ends_in(path, name)
    } else if is_relative_name(name) {
        is_appended(dir, name, path)
    } else {
        ||| is_replaced(dir, name, path)
        ||| name[0] != '/' && is_appended(dir, name, path)
    }
}

/// Whether `path` leads from `dir` through the entry `first` to its entry `second`.
pub open spec fn is_nested_entry(
    dir: Seq<char>,
    first: Seq<char>,
    second: Seq<char>,
    path: Seq<char>,
) -> bool {
    exists|middle: Seq<char>| #[trigger]
        is_entry(dir, first, middle) && is_entry(middle, second, path)
}

/// Calls [`std::path::Path::join`] and gives the path back as text.
///
/// Trusted: adjoining a relative name to a directory writes the system's separator
/// between the two, `/` or `\`, unless the directory is empty or its end already
/// separates. A name that is not relative replaces the directory; one with a root but
/// no prefix leaves the directory's prefix on Windows. Of a directory that Windows
/// rewrites, only that a plain name ends the path is claimed, since how it is rewritten
/// is not documented.
#[verifier::external_body]
fn join_path(dir: &str, name: &str) -> (path: String)
    ensures
        is_entry(dir@, name@, path@),
{
    std::path::Path::new(dir).join(name).to_string_lossy().into_owned()
}

/// A path of the system, which need not be Unicode.
#[verifier::external_type_specification]
#[verifier::external_body]
pub struct ExPathBuf(PathBuf);

/// What a [`PathBuf`] holds: the bytes that its `as_os_str().as_encoded_bytes()` gives.
pub uninterp spec fn path_bytes(path: PathBuf) -> Seq<u8>;

/// Bytes, each as the character with its number.
pub open spec fn raw(bytes: Seq<u8>) -> Seq<char> {
    Seq::new(bytes.len(), |i: int| bytes[i] as char)
}

/// Text as the bytes of a path hold it.
pub open spec fn raw_text(text: Seq<char>) -> Seq<char> {
    raw(encode_utf8(text))
}

/// Copies a path with [`PathBuf::clone`].
///
/// Trusted: the copy is the same path.
pub assume_specification[ <PathBuf as Clone>::clone ](path: &PathBuf) -> (copy: PathBuf)
    ensures
        copy == *path,
;

/// Calls `PathBuf::from` on text.
///
/// Trusted: the path holds the text in UTF-8.
#[verifier::external_body]
fn path_from(text: &str) -> (path: PathBuf)
    ensures
        path_bytes(path) == encode_utf8(text@),
{
    PathBuf::from(text)
}

/// Calls [`PathBuf::push`] with a name.
///
/// Trusted: what the path holds afterwards is the entry of that name in the directory
/// that it was before. Every byte of the directory is kept, whether it is Unicode or
/// not, unless Windows rewrites the directory or the name is not relative.
#[verifier::external_body]
fn push_name(path: &mut PathBuf, name: &str)
    ensures
        is_entry(raw(path_bytes(*old(path))), raw_text(name@), raw(path_bytes(*final(path)))),
{
    path.push(name)
}

/// Reads [`std::path::MAIN_SEPARATOR`], the separator of the system that the
/// program was built for. Nothing is claimed of it.
#[verifier::external_body]
fn main_separator() -> char {
    std::path::MAIN_SEPARATOR
}

/// Calls [`dirs::home_dir`] and gives the directory back as text; one that is no Unicode
/// has none. The answer is up to the user's environment, so nothing is claimed of it.
#[verifier::external_body]
fn home_dir() -> Option<String> {
    dirs::home_dir()?.into_os_string().into_string().ok()
}

/// Calls [`dirs::cache_dir`]. The answer is up to the user's environment, so nothing is
/// claimed of it.
#[verifier::external_body]
fn cache_dir() -> Option<PathBuf> {
    dirs::cache_dir()
}

/// The platform whose paths are written with the given separator.
pub open spec fn platform_with(separator: char) -> Platform {
    if separator == '\\' {
        Platform::Windows
    } else {
        Platform::Unix
    }
}

/// Tells the platform by its path separator.
pub fn platform_of(separator: char) -> (platform: Platform)
    ensures
        platform == platform_with(separator),
{
    if separator == '\\' {
        Platform::Windows
    } else {
        Platform::Unix
    }
}

/// The Java executable that is run when none is configured.
pub open spec fn java_on(platform: Platform) -> Seq<char> {
    match platform {
        Platform::Unix => "java"@,
        Platform::Windows => "javaw.exe"@,
    }
}

/// The default Java executable of a platform.
pub fn default_java_path_on(platform: Platform) -> (path: String)
    ensures
        path@ == java_on(platform),
{
    match platform {
        Platform::Unix => "java".to_string(),
        Platform::Windows => "javaw.exe".to_string(),
    }
}

/// The default Java executable of the system that the launcher runs on.
pub fn default_java_path() -> (path: String)
    ensures
        exists|platform: Platform| path@ == #[trigger] java_on(platform),
{
    let platform = platform_of(main_separator());
    default_java_path_on(platform)
}

/// The path of an entry of a directory on Linux and macOS.
pub open spec fn unix_entry(dir: Seq<char>, name: Seq<char>) -> Seq<char> {
    if dir.len() == 0 || dir.last() == '/' {
        dir + name
    } else {
        dir + "/"@ + name
    }
}

/// Writes the path of an entry of a directory, as Linux and macOS do.
fn join_on_unix(dir: &str, name: &str) -> (path: String)
    ensures
        path@ == unix_entry(dir@, name@),
{
    let n: usize = dir.unicode_len();
    if n == 0 || dir.get_char(n - 1) == '/' {
        joined(dir, name)
    } else {
        joined3(dir, "/", name)
    }
}

/// Whether `path` is the default game directory on a platform, for a user whose
/// home directory, where one is known, is `home`.
pub open spec fn is_minecraft_path_on(
    platform: Platform,
    home: Option<String>,
    path: Seq<char>,
) -> bool {
    match platform {
        Platform::Windows => path == ".minecraft"@,
        Platform::Unix => match home {
            Some(dir) => path == unix_entry(dir@, ".minecraft"@),
            None => path == "~/.minecraft"@,
        },
    }
}

/// The default game directory: `.minecraft`, in the home directory except on
/// Windows.
pub fn default_minecraft_path_on(platform: Platform, home: Option<String>) -> (path: String)
    ensures
        is_minecraft_path_on(platform, home, path@),
{
    match platform {
        Platform::Windows => ".minecraft".to_string(),
        Platform::Unix => match home {
            Some(dir) => join_on_unix(dir.as_str(), ".minecraft"),
            None => "~/.minecraft".to_string(),
        },
    }
}

/// Whether `path` is the default game directory on some platform and for some
/// home directory.
pub open spec fn is_default_minecraft_path(path: Seq<char>) -> bool {
    exists|platform: Platform, home: Option<String>|
        #[trigger] is_minecraft_path_on(platform, home, path)
}

/// Whatever the platform and the home directory, the default game directory is
/// called `.minecraft`.
pub proof fn law_default_is_called_minecraft(path: Seq<char>)
    requires
        is_default_minecraft_path(path),
    ensures
        ends_in(path, ".minecraft"@),
{
    reveal_strlit(".minecraft");
    reveal_strlit("~/.minecraft");
    let name = ".minecraft"@;
    let (platform, home) = choose|platform: Platform, home: Option<String>|
        #[trigger] is_minecraft_path_on(platform, home, path);
    if path == "~/.minecraft"@ {
        assert(path.skip(2) =~= name);
    } else if path == name {
        assert(path.skip(0) == name);
    } else {
        let dir = home->0@;
        assert((dir + name).skip(dir.len() as int) == name);
        reveal_strlit("/");
        assert((dir + "/"@ + name).skip(dir.len() as int + 1) == name);
    }
}

/// The default game directory of the user who runs the launcher.
pub fn default_minecraft_path() -> (path: String)
    ensures
        is_default_minecraft_path(path@),
{
    let platform = platform_of(main_separator());
    default_minecraft_path_on(platform, home_dir())
}

/// The directory of a game directory that holds its installed versions.
pub fn versions_dir(minecraft_dir: &str) -> (path: String)
    ensures
        is_entry(minecraft_dir@, "versions"@, path@),
{
    join_path(minecraft_dir, "versions")
}

/// The directory of a game directory that holds its mods.
pub fn mods_dir(minecraft_dir: &str) -> (path: String)
    ensures
        is_entry(minecraft_dir@, "mods"@, path@),
{
    join_path(minecraft_dir, "mods")
}

/// The file of a game directory that a mod's file is downloaded to.
pub fn mod_file_path(minecraft_dir: &str, filename: &str) -> (path: String)
    ensures
        is_nested_entry(minecraft_dir@, "mods"@, filename@, path@),
{
    let mods = mods_dir(minecraft_dir);
    let path = join_path(mods.as_str(), filename);
    assert(is_entry(minecraft_dir@, "mods"@, mods@));
    path
}

/// The directory under which the launcher caches its files: the user's cache
/// directory, or the working directory where there is none.
pub open spec fn cache_base(cache: Option<PathBuf>) -> Seq<char> {
    match cache {
        Some(dir) => raw(path_bytes(dir)),
        None => "."@,
    }
}

/// Whether `path` is a directory of the launcher's own under a cache directory.
pub open spec fn is_own_dir(cache: Option<PathBuf>, name: Seq<char>, path: PathBuf) -> bool {
    is_nested_entry(cache_base(cache), "scl3"@, name, raw(path_bytes(path)))
}

/// Whether `path` is a directory of the launcher's own, for some user.
pub open spec fn is_some_own_dir(name: Seq<char>, path: PathBuf) -> bool {
    exists|cache: Option<PathBuf>| #[trigger] is_own_dir(cache, name, path)
}

/// Plain ASCII text is what the bytes of a path hold for it.
proof fn lemma_ascii_is_raw(text: Seq<char>)
    requires
        is_ascii_chars(text),
    ensures
        raw_text(text) == text,
{
    is_ascii_chars_encode_utf8(text);
    assert(raw_text(text) =~= text);
}

/// A directory of the launcher's own under a cache directory.
fn own_cache_dir(cache: Option<PathBuf>, name: &str) -> (path: PathBuf)
    requires
        is_ascii_chars(name@),
    ensures
        is_own_dir(cache, name@, path),
{
    proof {
        reveal_strlit(".");
        reveal_strlit("scl3");
        lemma_ascii_is_raw("."@);
        lemma_ascii_is_raw("scl3"@);
        lemma_ascii_is_raw(name@);
    }
    let mut path = match cache {
        Some(dir) => dir,
        None => path_from("."),
    };
    push_name(&mut path, "scl3");
    let ghost own = raw(path_bytes(path));
    assert(is_entry(cache_base(cache), "scl3"@, own));
    push_name(&mut path, name);
    path
}

/// Where avatars are cached, for a user with the given cache directory.
pub fn avatar_cache_dir_in(cache: Option<PathBuf>) -> (path: PathBuf)
    ensures
        is_own_dir(cache, "avatars"@, path),
{
    proof {
        reveal_strlit("avatars");
    }
    own_cache_dir(cache, "avatars")
}

/// Where avatars are cached.
pub fn avatar_cache_dir() -> (path: PathBuf)
    ensures
        is_some_own_dir("avatars"@, path),
{
    let cache = cache_dir();
    let path = avatar_cache_dir_in(cache);
    assert(is_own_dir(cache, "avatars"@, path));
    path
}

/// Where the logs go, for a user with the given cache directory.
pub fn log_dir_in(cache: Option<PathBuf>) -> (path: PathBuf)
    ensures
        is_own_dir(cache, "logs"@, path),
{
    proof {
        reveal_strlit("logs");
    }
    own_cache_dir(cache, "logs")
}

/// Where the logs go.
pub fn log_dir() -> (path: PathBuf)
    ensures
        is_some_own_dir("logs"@, path),
{
    let cache = cache_dir();
    let path = log_dir_in(cache);
    assert(is_own_dir(cache, "logs"@, path));
    path
}

/// Whether `path` is the file of the given name in a directory.
pub open spec fn is_file_in(dir: PathBuf, name: Seq<char>, path: PathBuf) -> bool {
    is_entry(raw(path_bytes(dir)), raw_text(name), raw(path_bytes(path)))
}

/// The file of the given name in a directory.
pub fn file_in(dir: &PathBuf, name: &str) -> (path: PathBuf)
    ensures
        is_file_in(*dir, name@, path),
{
    let mut path = dir.clone();
    push_name(&mut path, name);
    path
}

/// The file that holds the configuration.
pub fn resolve_config_path() -> (path: PathBuf)
    ensures
        path_bytes(path) == encode_utf8("scl3.toml"@),
{
    path_from("scl3.toml")
}

} // verus!
