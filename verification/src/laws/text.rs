//! What holds of text, paths and pictures.

use vstd::prelude::*;
use crate::accounts::AuthMethod;
use crate::avatar::{face_len, is_avatar, is_avatar_path, skin_of, AvatarSave};
use crate::paths::{
    can_be_prefix, is_entry, is_file_in, is_minecraft_path_on, is_nested_entry, is_own_dir,
    is_some_own_dir, path_bytes, raw, Platform,
};
use crate::text::{
    decimal, is_white_space, parsed, separated, trimmed, value_of, without_leading_space,
    without_trailing_space,
};
use std::path::PathBuf;

verus! {

/// Joined pieces fall apart at each separator: the pieces before it, it, and the pieces
/// after it. A single piece is itself, and none is nothing.
pub proof fn law_joined_pieces_fall_apart(pieces: Seq<String>, separator: Seq<char>, at: int)
    ensures
        pieces.len() == 0 ==> separated(pieces, separator).len() == 0,
        pieces.len() == 1 ==> separated(pieces, separator) == pieces[0]@,
        0 < at < pieces.len() ==> separated(pieces, separator) == separated(
            pieces.take(at),
            separator,
        ) + separator + separated(pieces.skip(at), separator),
    decreases pieces.len(),
{
    if 0 < at < pieces.len() {
        let before = pieces.drop_last();
        let after = pieces.skip(at);
        if at == pieces.len() - 1 {
            assert(before =~= pieces.take(at));
            assert(after[0] == pieces.last());
        } else {
            law_joined_pieces_fall_apart(before, separator, at);
            assert(before.take(at) =~= pieces.take(at));
            assert(before.skip(at) =~= after.drop_last());
            assert(after.last() == pieces.last());
            assert(separated(pieces, separator) =~= separated(pieces.take(at), separator)
                + separator + separated(after, separator));
        }
    }
}

/// White space is taken off the start, up to the first character that is none.
proof fn lemma_leading_space(s: Seq<char>) -> (start: int)
    ensures
        0 <= start <= s.len(),
        without_leading_space(s) == s.skip(start),
        forall|i: int| 0 <= i < start ==> is_white_space(#[trigger] s[i]),
        start < s.len() ==> !is_white_space(s[start]),
    decreases s.len(),
{
    if s.len() > 0 && is_white_space(s[0]) {
        let rest = s.drop_first();
        let start = lemma_leading_space(rest);
        assert(rest.skip(start) =~= s.skip(start + 1));
        assert forall|i: int| 0 <= i < start + 1 implies is_white_space(#[trigger] s[i]) by {
            if i > 0 {
                assert(rest[i - 1] == s[i]);
            }
        }
        if start < rest.len() {
            assert(rest[start] == s[start + 1]);
        }
        start + 1
    } else {
        assert(s.skip(0) =~= s);
        0
    }
}

/// White space is taken off the end, down to the last character that is none.
proof fn lemma_trailing_space(s: Seq<char>) -> (end: int)
    ensures
        0 <= end <= s.len(),
        without_trailing_space(s) == s.take(end),
        forall|i: int| end <= i < s.len() ==> is_white_space(#[trigger] s[i]),
        end > 0 ==> !is_white_space(s[end - 1]),
    decreases s.len(),
{
    if s.len() > 0 && is_white_space(s.last()) {
        let rest = s.drop_last();
        let end = lemma_trailing_space(rest);
        assert(rest.take(end) =~= s.take(end));
        assert forall|i: int| end <= i < s.len() implies is_white_space(#[trigger] s[i]) by {
            if i < rest.len() {
                assert(rest[i] == s[i]);
            }
        }
        if end > 0 {
            assert(rest[end - 1] == s[end - 1]);
        }
        end
    } else {
        assert(s.take(s.len() as int) =~= s);
        s.len() as int
    }
}

/// A trimmed text is a part of the text: around it stands white space alone, and it
/// neither starts nor ends with any.
pub proof fn law_trimming_takes_white_space_off(s: Seq<char>)
    ensures
        exists|start: int, end: int|
            {
                &&& 0 <= start <= end <= s.len()
                &&& trimmed(s) == #[trigger] s.subrange(start, end)
                &&& forall|i: int|
                    0 <= i < start || end <= i < s.len() ==> is_white_space(#[trigger] s[i])
            },
        trimmed(s).len() > 0 ==> !is_white_space(trimmed(s)[0]) && !is_white_space(
            trimmed(s).last(),
        ),
{
    let start = lemma_leading_space(s);
    let rest = s.skip(start);
    let length = lemma_trailing_space(rest);
    let end = start + length;
    assert(trimmed(s) =~= s.subrange(start, end));
    assert forall|i: int| 0 <= i < start || end <= i < s.len() implies is_white_space(
        #[trigger] s[i],
    ) by {
        if i >= end {
            assert(rest[i - start] == s[i]);
        }
    }
    if length > 0 {
        assert(trimmed(s)[0] == s[start]);
        assert(trimmed(s).last() == rest[length - 1]);
    }
}

/// White space is what Unicode calls so.
pub proof fn law_white_space_is_that_of_unicode(c: char)
    ensures
        is_white_space(c) <==> ({
            let n = c as int;
            ||| 0x9 <= n <= 0xd
            ||| n == 0x20 || n == 0x85 || n == 0xa0 || n == 0x1680
            ||| 0x2000 <= n <= 0x200a
            ||| n == 0x2028 || n == 0x2029 || n == 0x202f || n == 0x205f || n == 0x3000
        }),
{
}

/// A number is written digit by digit, the digit of the ones last.
pub proof fn law_numbers_are_written_in_decimal(n: nat, ones: nat)
    requires
        ones < 10,
    ensures
        decimal(ones).len() == 1,
        decimal(ones)[0] as int == '0' as int + ones,
        n > 0 ==> decimal(10 * n + ones) == decimal(n) + decimal(ones),
{
    if n > 0 {
        assert((10 * n + ones) / 10 == n);
        assert((10 * n + ones) % 10 == ones);
        assert(decimal(10 * n + ones) =~= decimal(n) + decimal(ones));
    }
}

/// Digits are read in decimal: each further digit counts one, and those before it tenfold.
pub proof fn law_digits_are_read_in_decimal(digits: Seq<char>, c: char)
    requires
        '0' <= c <= '9',
    ensures
        value_of(Seq::<char>::empty()) == 0,
        value_of(digits.push(c)) == 10 * value_of(digits) + (c as int - '0' as int),
{
    assert(digits.push(c).drop_last() =~= digits);
}

/// A text is a number exactly where it consists of digits alone, at least one, behind at
/// most one plus sign, and the number fits.
pub proof fn law_which_texts_are_numbers(s: Seq<char>)
    ensures
        parsed(s) is Some <==> ({
            let from: int = if s.len() > 0 && s[0] == '+' {
                1
            } else {
                0
            };
            &&& s.len() > from
            &&& forall|i: int| from <= i < s.len() ==> '0' <= #[trigger] s[i] <= '9'
            &&& value_of(s.skip(from)) <= u64::MAX
        }),
        s.len() > 0 && s[0] != '+' && parsed(s) is Some ==> parsed(s) == Some(value_of(s)),
        s.len() > 0 && s[0] == '+' && parsed(s) is Some ==> parsed(s) == Some(
            value_of(s.drop_first()),
        ),
{
    let from: int = if s.len() > 0 && s[0] == '+' {
        1
    } else {
        0
    };
    let digits = s.skip(from);
    assert(from == 0 ==> digits =~= s);
    assert(from == 1 ==> digits =~= s.drop_first());
    if forall|i: int| from <= i < s.len() ==> '0' <= #[trigger] s[i] <= '9' {
        assert forall|i: int| 0 <= i < digits.len() implies '0' <= #[trigger] digits[i] <= '9' by {
            assert(digits[i] == s[i + from]);
        }
    }
    if forall|i: int| 0 <= i < digits.len() ==> '0' <= #[trigger] digits[i] <= '9' {
        assert forall|i: int| from <= i < s.len() implies '0' <= #[trigger] s[i] <= '9' by {
            assert(digits[i - from] == s[i]);
        }
    }
}

/// The entry of a directory lies in it: its path starts with the directory and ends in
/// the name, with nothing between the two but at most a separator.
pub proof fn law_entry_lies_in_its_directory(dir: Seq<char>, name: Seq<char>, path: Seq<char>)
    requires
        is_entry(dir, name, path),
        !(dir.len() >= 4 && dir[0] == '\\' && dir[1] == '\\' && dir[2] == '?' && dir[3] == '\\'),
        name.len() > 0,
        name[0] != '/',
        name[0] != '\\',
        name.len() > 1 ==> name[1] != ':',
    ensures
        path.take(dir.len() as int) == dir,
        path.skip(path.len() - name.len()) == name,
        dir.len() + name.len() <= path.len() <= dir.len() + name.len() + 1,
        path.len() > dir.len() + name.len() ==> path[dir.len() as int] == '/'
            || path[dir.len() as int] == '\\',
        dir.len() > 0 && dir.last() != '/' && dir.last() != '\\' && dir.last() != ':'
            ==> path.len() == dir.len() + name.len() + 1,
{
    assert(path.take(dir.len() as int) =~= dir);
    assert(path.skip(path.len() - name.len()) =~= name);
}

/// Whatever the name is, the path of an entry ends in it, for every directory that does
/// not start with a backslash.
pub proof fn law_path_ends_in_the_name(dir: Seq<char>, name: Seq<char>, path: Seq<char>)
    requires
        is_entry(dir, name, path),
        dir.len() > 0 ==> dir[0] != '\\',
    ensures
        path.len() >= name.len(),
        path.skip(path.len() - name.len()) == name,
{
    if exists|k: int| can_be_prefix(dir, k) && path == #[trigger] dir.take(k) + name {
        let k = choose|k: int| can_be_prefix(dir, k) && path == #[trigger] dir.take(k) + name;
        assert((dir.take(k) + name).skip(dir.take(k).len() as int) =~= name);
    } else {
        assert(path.skip(path.len() - name.len()) =~= name);
    }
}

/// A mod's file lies in the directory `mods` of the game directory.
pub proof fn law_mods_lie_in_the_game_directory(
    dir: Seq<char>,
    filename: Seq<char>,
    path: Seq<char>,
)
    requires
        is_nested_entry(dir, "mods"@, filename, path),
        dir.len() > 0,
        dir[0] != '\\',
        filename.len() > 1,
        filename[0] != '/',
        filename[0] != '\\',
        filename[1] != ':',
    ensures
        path.take(dir.len() as int) == dir,
        path.skip(path.len() - filename.len()) == filename,
        exists|at: int|
            dir.len() <= at <= dir.len() + 1 && #[trigger] path.subrange(at, at + 4) == "mods"@
                && at + 4 + filename.len() <= path.len() <= at + 5 + filename.len(),
{
    reveal_strlit("mods");
    let middle = choose|middle: Seq<char>| #[trigger]
        is_entry(dir, "mods"@, middle) && is_entry(middle, filename, path);
    law_entry_lies_in_its_directory(dir, "mods"@, middle);
    assert(middle[0] == middle.take(dir.len() as int)[0]);
    law_entry_lies_in_its_directory(middle, filename, path);
    assert forall|i: int| 0 <= i < middle.len() implies path[i] == middle[i] by {
        assert(path[i] == path.take(middle.len() as int)[i]);
    }
    assert(path.take(dir.len() as int) =~= middle.take(dir.len() as int));
    let at = middle.len() - 4;
    assert(path.subrange(at, at + 4) =~= middle.skip(at));
}

/// A picture is looked for in the launcher's own directory of pictures, in the file that
/// is named after the player.
pub proof fn law_picture_is_looked_for_by_player(uuid: Seq<char>, path: PathBuf)
    requires
        is_avatar_path(uuid, path),
    ensures
        exists|cache: Option<PathBuf>, dir: PathBuf| #[trigger]
            is_own_dir(cache, "avatars"@, dir) && is_entry(
                raw(path_bytes(dir)),
                raw(vstd::utf8::encode_utf8(uuid + ".png"@)),
                raw(path_bytes(path)),
            ),
{
    let dir = choose|dir: PathBuf| #[trigger]
        is_some_own_dir("avatars"@, dir) && is_file_in(dir, uuid + ".png"@, path);
    let cache = choose|cache: Option<PathBuf>| #[trigger] is_own_dir(cache, "avatars"@, dir);
    assert(is_own_dir(cache, "avatars"@, dir));
}

/// The launcher's own directories lie under the user's cache directory, every byte of
/// which is kept, and are called as they are meant to be.
pub proof fn law_caches_lie_in_the_cache_directory(
    cache: PathBuf,
    name: Seq<char>,
    path: PathBuf,
)
    requires
        is_own_dir(Some(cache), name, path),
        path_bytes(cache).len() > 0,
        path_bytes(cache)[0] != 92,
        name.len() > 1,
        name[0] != '/',
        name[0] != '\\',
        name[1] != ':',
    ensures
        path_bytes(path).take(path_bytes(cache).len() as int) == path_bytes(cache),
        path_bytes(path).len() >= path_bytes(cache).len() + 4 + name.len(),
        raw(path_bytes(path)).skip(path_bytes(path).len() - name.len()) == name,
        exists|at: int|
            path_bytes(cache).len() <= at <= path_bytes(cache).len() + 1
                && #[trigger] raw(path_bytes(path)).subrange(at, at + 4) == "scl3"@,
{
    reveal_strlit("scl3");
    let dir = raw(path_bytes(cache));
    let whole = raw(path_bytes(path));
    let middle = choose|middle: Seq<char>| #[trigger]
        is_entry(dir, "scl3"@, middle) && is_entry(middle, name, whole);
    assert(dir[0] == path_bytes(cache)[0] as char);
    assert(dir[0] != '\\');
    law_entry_lies_in_its_directory(dir, "scl3"@, middle);
    assert(middle[0] == middle.take(dir.len() as int)[0]);
    law_entry_lies_in_its_directory(middle, name, whole);
    assert forall|i: int| 0 <= i < dir.len() implies path_bytes(path)[i] == path_bytes(cache)[i] by {
        assert(whole[i] == whole.take(middle.len() as int)[i]);
        assert(middle[i] == middle.take(dir.len() as int)[i]);
        assert(whole[i] == path_bytes(path)[i] as char);
        assert(dir[i] == path_bytes(cache)[i] as char);
    }
    assert(path_bytes(path).take(path_bytes(cache).len() as int) =~= path_bytes(cache));
    let at = middle.len() - 4;
    assert(whole.subrange(at, at + 4) =~= middle.skip(at)) by {
        assert forall|i: int| 0 <= i < 4 implies whole.subrange(at, at + 4)[i] == middle.skip(at)[i] by {
            assert(whole[at + i] == whole.take(middle.len() as int)[at + i]);
        }
    }
    assert(whole.subrange(at, at + 4) == "scl3"@);
}

/// The default game directory is `.minecraft` in the user's home directory on Linux and
/// macOS, and in the working directory on Windows.
pub proof fn law_default_directory_is_at_home(home: Option<String>, path: Seq<char>)
    ensures
        is_minecraft_path_on(Platform::Windows, home, path) ==> path == ".minecraft"@,
        is_minecraft_path_on(Platform::Unix, home, path) ==> match home {
            Some(dir) => {
                &&& path.take(dir@.len() as int) == dir@
                &&& path.skip(path.len() - 10) == ".minecraft"@
                &&& path.len() == dir@.len() + 10 + if dir@.len() == 0 || dir@.last() == '/' {
                    0int
                } else {
                    1
                }
                &&& path.len() == dir@.len() + 11 ==> path[dir@.len() as int] == '/'
            },
            None => path == "~/.minecraft"@,
        },
{
    reveal_strlit(".minecraft");
    reveal_strlit("/");
    if let Some(dir) = home {
        if is_minecraft_path_on(Platform::Unix, home, path) {
            assert(path.take(dir@.len() as int) =~= dir@);
            assert(path.skip(path.len() - 10) =~= ".minecraft"@);
        }
    }
}

/// Each pixel of a player's picture, of a hundred and twenty-eight by as many, is that of
/// the hat at the same place of the face of eight by eight, or that of the head where the
/// hat is transparent there or missing.
pub proof fn law_picture_shows_head_and_hat(
    head: Seq<u8>,
    hat: Seq<u8>,
    picture: Seq<u8>,
    x: int,
    y: int,
    channel: int,
)
    requires
        is_avatar(head, hat, picture),
        0 <= x < 128,
        0 <= y < 128,
        0 <= channel < 4,
    ensures
        picture.len() == 65536,
        ({
            let pixel = (y / 16) * 8 + x / 16;
            let covered = hat.len() >= 256 && hat[4 * pixel + 3] > 0;
            let shown = picture[4 * (y * 128 + x) + channel];
            &&& covered ==> shown == hat[4 * pixel + channel]
            &&& !covered ==> shown == head[4 * pixel + channel]
        }),
{
    crate::avatar::law_avatar_pixels(head, hat, picture, x, y, channel);
}

/// A picture is cached exactly where the head is large enough for a face.
pub proof fn law_full_heads_are_cached(
    save: AvatarSave,
    uuid: Seq<char>,
    head: Seq<u8>,
    hat: Seq<u8>,
)
    requires
        save.is_for(uuid, head, hat),
    ensures
        face_len() == 256,
        save.file is Some <==> head.len() >= 256,
        save.file matches Some(file) ==> is_avatar(head, hat, file.pixels@) && is_entry(
            raw(path_bytes(save.dir)),
            raw(vstd::utf8::encode_utf8(uuid + ".png"@)),
            raw(path_bytes(file.path)),
        ),
{
}

/// The picture of a login is made of that login's own skin.
pub proof fn law_skin_is_the_players_own(method: AuthMethod)
    ensures
        match method {
            AuthMethod::Offline { .. } => skin_of(method) is None,
            AuthMethod::Mojang { uuid, head_skin, hat_skin } => skin_of(method) == Some(
                (uuid@, head_skin@, hat_skin@),
            ),
            AuthMethod::Microsoft { uuid, head_skin, hat_skin, .. } => skin_of(method) == Some(
                (uuid@, head_skin@, hat_skin@),
            ),
            AuthMethod::AuthlibInjector { uuid, head_skin, hat_skin, .. } => skin_of(method)
                == Some((uuid@, head_skin@, hat_skin@)),
        },
{
}

} // verus!
