//! Pictures of players: the face of a skin, enlarged and kept in a cache.

use std::path::PathBuf;
use vstd::prelude::*;
use crate::accounts::AuthMethod;
use crate::paths::{avatar_cache_dir, file_in, is_file_in, is_some_own_dir};
use crate::text::joined;

verus! {

/// How many pixels wide and high the face of a skin is.
pub const FACE_SIDE: u32 = 8;

/// How many pixels wide and high a cached picture is.
pub const AVATAR_SIDE: u32 = 128;

/// The place of a pixel's channel in an RGBA picture of the given width.
pub open spec fn channel_at(width: int, x: int, y: int, channel: int) -> int {
    4 * (y * width + x) + channel
}

/// Whether `large` is the picture `small`, each pixel of it grown to a square of
/// sixteen by sixteen pixels.
pub open spec fn is_enlarged(
    small: Seq<u8>,
    width: int,
    height: int,
    large: Seq<u8>,
    new_width: int,
    new_height: int,
) -> bool {
    &&& large.len() == 4 * (new_height * new_width)
    &&& forall|x: int, y: int, channel: int|
        0 <= x < new_width && 0 <= y < new_height && 0 <= channel < 4 ==> #[trigger] large[channel_at(
            new_width,
            x,
            y,
            channel,
        )] == small[channel_at(width, x / 16, y / 16, channel)]
}

/// Calls [`image::imageops::resize`] with the nearest-neighbour filter on an RGBA
/// picture.
///
/// Trusted: a picture that grows sixteenfold in both directions has each of its
/// pixels repeated in a square of sixteen by sixteen.
#[verifier::external_body]
fn resize_nearest(
    pixels: &Vec<u8>,
    width: u32,
    height: u32,
    new_width: u32,
    new_height: u32,
) -> (resized: Vec<u8>)
    requires
        0 < width <= 64,
        0 < height <= 64,
        pixels@.len() == 4 * (height * width),
        new_width == 16 * width,
        new_height == 16 * height,
    ensures
        is_enlarged(
            pixels@,
            width as int,
            height as int,
            resized@,
            new_width as int,
            new_height as int,
        ),
{
    let picture = image::RgbaImage::from_raw(width, height, pixels.clone()).unwrap();
    let filter = image::imageops::FilterType::Nearest;
    image::imageops::resize(&picture, new_width, new_height, filter).into_raw()
}

/// How many bytes the face of a skin has.
pub open spec fn face_len() -> int {
    4 * (FACE_SIDE * FACE_SIDE)
}

/// Whether a pixel of the hat covers the pixel of the head below it.
pub open spec fn is_covered(hat: Seq<u8>, pixel: int) -> bool {
    hat.len() >= face_len() && hat[4 * pixel + 3] > 0
}

/// Whether `face` is the head with the hat on it: a pixel of the hat that is not
/// fully transparent replaces the one of the head. A hat that is too small for a
/// picture is left off.
pub open spec fn is_face(head: Seq<u8>, hat: Seq<u8>, face: Seq<u8>) -> bool {
    &&& face.len() == face_len()
    &&& forall|pixel: int, channel: int|
        0 <= pixel < FACE_SIDE * FACE_SIDE && 0 <= channel < 4 ==> #[trigger] face[4 * pixel
            + channel] == if is_covered(hat, pixel) {
            hat[4 * pixel + channel]
        } else {
            head[4 * pixel + channel]
        }
}

/// Whether `picture` is the picture of a player with the given head and hat.
pub open spec fn is_avatar(head: Seq<u8>, hat: Seq<u8>, picture: Seq<u8>) -> bool {
    exists|face: Seq<u8>| #[trigger]
        is_face(head, hat, face) && is_enlarged(
            face,
            FACE_SIDE as int,
            FACE_SIDE as int,
            picture,
            AVATAR_SIDE as int,
            AVATAR_SIDE as int,
        )
}

/// Puts the hat of a skin on its head.
fn put_on_hat(head: &Vec<u8>, hat: &Vec<u8>) -> (face: Vec<u8>)
    requires
        head@.len() >= face_len(),
    ensures
        is_face(head@, hat@, face@),
{
    let has_hat = hat.len() >= 256;
    let mut face: Vec<u8> = Vec::new();
    for i in 0..256usize
        invariant
            head@.len() >= 256,
            has_hat == (hat@.len() >= 256),
            face@.len() == i,
            forall|j: int|
                0 <= j < i ==> #[trigger] face@[j] == if is_covered(hat@, j / 4) {
                    hat@[j]
                } else {
                    head@[j]
                },
    {
        let alpha: usize = i / 4 * 4 + 3;
        if has_hat && hat[alpha] > 0 {
            face.push(hat[i]);
        } else {
            face.push(head[i]);
        }
    }
    assert forall|pixel: int, channel: int|
        0 <= pixel < FACE_SIDE * FACE_SIDE && 0 <= channel < 4 implies #[trigger] face@[4 * pixel
        + channel] == if is_covered(hat@, pixel) {
        hat@[4 * pixel + channel]
    } else {
        head@[4 * pixel + channel]
    } by {
        let j = 4 * pixel + channel;
        assert(j / 4 == pixel);
    }
    face
}

/// The picture of a player, if the head is large enough for one.
pub fn compose_avatar(head: &Vec<u8>, hat: &Vec<u8>) -> (picture: Option<Vec<u8>>)
    ensures
        match picture {
            Some(picture) => head@.len() >= face_len() && is_avatar(head@, hat@, picture@),
            None => head@.len() < face_len(),
        },
{
    if head.len() < 256 {
        return None;
    }
    let face = put_on_hat(head, hat);
    Some(resize_nearest(&face, FACE_SIDE, FACE_SIDE, AVATAR_SIDE, AVATAR_SIDE))
}

/// Each pixel of a player's picture is the pixel of the hat at the same place of
/// the skin, or the one of the head where the hat does not cover it.
pub proof fn law_avatar_pixels(
    head: Seq<u8>,
    hat: Seq<u8>,
    picture: Seq<u8>,
    x: int,
    y: int,
    channel: int,
)
    requires
        is_avatar(head, hat, picture),
        0 <= x < AVATAR_SIDE,
        0 <= y < AVATAR_SIDE,
        0 <= channel < 4,
    ensures
        ({
            let at = channel_at(FACE_SIDE as int, x / 16, y / 16, channel);
            let alpha = channel_at(FACE_SIDE as int, x / 16, y / 16, 3);
            picture[channel_at(AVATAR_SIDE as int, x, y, channel)] == if hat.len() >= face_len()
                && hat[alpha] > 0 {
                hat[at]
            } else {
                head[at]
            }
        }),
{
    let face = choose|face: Seq<u8>| #[trigger]
        is_face(head, hat, face) && is_enlarged(
            face,
            FACE_SIDE as int,
            FACE_SIDE as int,
            picture,
            AVATAR_SIDE as int,
            AVATAR_SIDE as int,
        );
    let pixel = (y / 16) * 8 + x / 16;
    assert(0 <= pixel < 64);
    assert(face[4 * pixel + channel] == if is_covered(hat, pixel) {
        hat[4 * pixel + channel]
    } else {
        head[4 * pixel + channel]
    });
}

/// A picture to be written to the cache.
#[derive(Debug, PartialEq, Eq)]
pub struct AvatarFile {
    /// The file.
    pub path: PathBuf,
    /// The RGBA pixels, [`AVATAR_SIDE`] rows of [`AVATAR_SIDE`].
    pub pixels: Vec<u8>,
}

/// What is to be done in the cache.
#[derive(Debug, PartialEq, Eq)]
pub struct AvatarSave {
    /// The directory to create.
    pub dir: PathBuf,
    /// The file to write into it, where the skin makes a picture.
    pub file: Option<AvatarFile>,
}

/// The name of the cached picture of a player.
pub fn avatar_file_name(uuid: &str) -> (name: String)
    ensures
        name@ == uuid@ + ".png"@,
{
    joined(uuid, ".png")
}

/// The cached picture of a player, in the directory where avatars are cached.
pub fn avatar_path_in(dir: &PathBuf, uuid: &str) -> (path: PathBuf)
    ensures
        is_file_in(*dir, uuid@ + ".png"@, path),
{
    let name = avatar_file_name(uuid);
    file_in(dir, name.as_str())
}

/// Whether `path` is the cached picture of a player, in the cache of some user.
pub open spec fn is_avatar_path(uuid: Seq<char>, path: PathBuf) -> bool {
    exists|dir: PathBuf| #[trigger]
        is_some_own_dir("avatars"@, dir) && is_file_in(dir, uuid + ".png"@, path)
}

/// Where the cached picture of a player is to be looked for.
pub fn avatar_path(uuid: &str) -> (path: PathBuf)
    ensures
        is_avatar_path(uuid@, path),
{
    let dir = avatar_cache_dir();
    avatar_path_in(&dir, uuid)
}

impl AvatarSave {
    /// Whether this is what is to be done for a player with the given skin.
    pub open spec fn is_for(self, uuid: Seq<char>, head: Seq<u8>, hat: Seq<u8>) -> bool {
        &&& is_some_own_dir("avatars"@, self.dir)
        &&& match self.file {
            Some(file) => {
                &&& head.len() >= face_len()
                &&& is_file_in(self.dir, uuid + ".png"@, file.path)
                &&& is_avatar(head, hat, file.pixels@)
            },
            None => head.len() < face_len(),
        }
    }
}

/// What is to be done to cache the picture of a player. Without a head there is
/// nothing to do.
pub fn save_avatar_cache(uuid: &str, head_skin: &Vec<u8>, hat_skin: &Vec<u8>) -> (save: Option<
    AvatarSave,
>)
    ensures
        match save {
            Some(save) => head_skin@.len() > 0 && save.is_for(uuid@, head_skin@, hat_skin@),
            None => head_skin@.len() == 0,
        },
{
    if head_skin.len() == 0 {
        return None;
    }
    let dir = avatar_cache_dir();
    let file = match compose_avatar(head_skin, hat_skin) {
        Some(pixels) => Some(AvatarFile { path: avatar_path_in(&dir, uuid), pixels }),
        None => None,
    };
    Some(AvatarSave { dir, file })
}

/// The player's identifier and skin in a login; offline logins have no skin.
pub open spec fn skin_of(method: AuthMethod) -> Option<(Seq<char>, Seq<u8>, Seq<u8>)> {
    match method {
        AuthMethod::Offline { .. } => None,
        AuthMethod::Mojang { uuid, head_skin, hat_skin } => Some((uuid@, head_skin@, hat_skin@)),
        AuthMethod::Microsoft { uuid, head_skin, hat_skin, .. } => Some(
            (uuid@, head_skin@, hat_skin@),
        ),
        AuthMethod::AuthlibInjector { uuid, head_skin, hat_skin, .. } => Some(
            (uuid@, head_skin@, hat_skin@),
        ),
    }
}

/// What is to be done to cache the picture of the player who logged in.
pub fn save_avatar_from_auth_method(method: &AuthMethod) -> (save: Option<AvatarSave>)
    ensures
        match skin_of(*method) {
            Some((uuid, head, hat)) => match save {
                Some(save) => head.len() > 0 && save.is_for(uuid, head, hat),
                None => head.len() == 0,
            },
            None => save is None,
        },
{
    match method {
        AuthMethod::Mojang { uuid, head_skin, hat_skin } => save_avatar_cache(
            uuid.as_str(),
            head_skin,
            hat_skin,
        ),
        AuthMethod::Microsoft { uuid, head_skin, hat_skin, .. } => save_avatar_cache(
            uuid.as_str(),
            head_skin,
            hat_skin,
        ),
        AuthMethod::AuthlibInjector { uuid, head_skin, hat_skin, .. } => save_avatar_cache(
            uuid.as_str(),
            head_skin,
            hat_skin,
        ),
        AuthMethod::Offline { .. } => None,
    }
}

} // verus!
