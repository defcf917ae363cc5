use scl3::accounts::AuthMethod;
use scl3::avatar::{
    avatar_file_name, avatar_path, avatar_path_in, compose_avatar, save_avatar_cache, save_avatar_from_auth_method, AVATAR_SIDE, FACE_SIDE,
};
use scl3::paths::avatar_cache_dir;

fn head() -> Vec<u8> {
    (0..256u32).map(|i| (i * 7 % 251) as u8).collect()
}

fn hat() -> Vec<u8> {
    (0..256u32).map(|i| if i % 4 == 3 { if (i / 4) % 3 == 0 { 0 } else { 128 } } else { (255 - i) as u8 }).collect()
}

#[test]
fn pictures_are_faces_with_their_hats_enlarged() {
    let (head, hat) = (head(), hat());
    let picture = compose_avatar(&head, &hat).unwrap();
    assert_eq!((FACE_SIDE, AVATAR_SIDE), (8, 128));
    assert_eq!(picture.len(), 128 * 128 * 4);
    for y in 0..128 {
        for x in 0..128 {
            let pixel = y / 16 * 8 + x / 16;
            let source = if hat[4 * pixel + 3] > 0 { &hat } else { &head };
            let at = 4 * (y * 128 + x);
            assert_eq!(picture[at..at + 4], source[4 * pixel..4 * pixel + 4], "{} {}", x, y);
        }
    }
}

#[test]
fn enlarging_repeats_pixels() {
    let mut one = vec![0u8; 256];
    one[4 * 9..4 * 9 + 4].copy_from_slice(&[10, 20, 30, 255]);
    let picture = compose_avatar(&one, &vec![]).unwrap();
    let pixel = |x: usize, y: usize| picture[4 * (y * 128 + x)..4 * (y * 128 + x) + 4].to_vec();
    assert_eq!(pixel(16, 16), vec![10, 20, 30, 255]);
    assert_eq!(pixel(31, 31), vec![10, 20, 30, 255]);
    assert_eq!(pixel(15, 16), vec![0, 0, 0, 0]);
    assert_eq!(pixel(16, 32), vec![0, 0, 0, 0]);
}

#[test]
fn small_hats_are_left_off_and_long_skins_are_cut() {
    let head = head();
    let plain = compose_avatar(&head, &vec![]);
    assert_eq!(compose_avatar(&head, &vec![255; 255]), plain);
    let mut long = head.clone();
    long.extend([9; 40]);
    assert_eq!(compose_avatar(&long, &vec![]), plain);
    let mut long_hat = hat();
    long_hat.extend([9; 40]);
    assert_eq!(compose_avatar(&head, &long_hat), compose_avatar(&head, &hat()));
    assert_eq!(compose_avatar(&vec![1; 255], &hat()), None);
}

#[test]
fn pictures_are_cached_by_player() {
    let save = save_avatar_cache("u2", &head(), &hat()).unwrap();
    assert_eq!(save.dir, avatar_cache_dir());
    let file = save.file.unwrap();
    assert_eq!(file.path, avatar_cache_dir().join("u2.png"));
    assert_eq!(avatar_path("u2"), file.path);
    assert_eq!(avatar_path_in(&avatar_cache_dir(), "u2"), file.path);
    assert_eq!(Some(file.pixels), compose_avatar(&head(), &hat()));
    assert_eq!(avatar_file_name("u2"), "u2.png");
    assert_eq!(save_avatar_cache("u2", &vec![], &hat()), None);
    let save = save_avatar_cache("u2", &vec![1, 2, 3], &hat()).unwrap();
    assert_eq!(save.file, None);
}

#[test]
fn pictures_come_from_logins_with_skins() {
    let offline = AuthMethod::Offline { player_name: "Steve".to_string(), uuid: "u1".to_string() };
    assert_eq!(save_avatar_from_auth_method(&offline), None);
    let mojang = AuthMethod::Mojang { uuid: "u4".to_string(), head_skin: head(), hat_skin: hat() };
    assert_eq!(save_avatar_from_auth_method(&mojang), save_avatar_cache("u4", &head(), &hat()));
    let microsoft = AuthMethod::Microsoft {
        access_token: String::new(),
        refresh_token: String::new(),
        uuid: "u2".to_string(),
        xuid: String::new(),
        player_name: String::new(),
        head_skin: head(),
        hat_skin: vec![],
    };
    assert_eq!(save_avatar_from_auth_method(&microsoft), save_avatar_cache("u2", &head(), &vec![]));
}
