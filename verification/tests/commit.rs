use mediagetter::commit::{canonical_image_path, canonical_video_path, decide};
use mediagetter::error::AppErr;
use mediagetter::media::{Folder, Media, Type};
use mediagetter::paths::{file_name, join_path};
use mediagetter::report::{MediaInfo, Unit};
use mediagetter::staging::{allocate, stage};
use mediagetter::text::{chars_of, concatenate, same_text};

#[test]
fn folder_names_its_directory() {
    assert_eq!(Folder::Safe.as_ref(), "safe");
    assert_eq!(Folder::Unsafe.as_ref(), "unsafe");
}

#[test]
fn image_path_is_folder_and_hex_of_hash() {
    assert_eq!(canonical_image_path("/store", Folder::Safe, &vec![0x0f, 0xa0, 0x00, 0xff]), "/store/safe/0fa000ff.png");
    assert_eq!(
        canonical_image_path("/store/", Folder::Unsafe, &vec![1, 2, 3, 15, 16]),
        "/store/unsafe/0102030f10.png"
    );
    assert_eq!(canonical_image_path("", Folder::Safe, &vec![0xab]), "safe/ab.png");
    assert_eq!(canonical_image_path("art", Folder::Safe, &Vec::new()), "art/safe/.png");
}

#[test]
fn same_hash_gives_same_path() {
    let hash = vec![0x12, 0x34, 0x56, 0x78, 0x9a, 0xbc, 0xde, 0xf0];
    let first = canonical_image_path("/store", Folder::Safe, &hash);
    let second = canonical_image_path("/store", Folder::Safe, &hash.clone());
    assert_eq!(first, second);
    assert_eq!(first, "/store/safe/123456789abcdef0.png");
    let other = canonical_image_path("/store", Folder::Safe, &vec![0x12, 0x34, 0x56, 0x78, 0x9a, 0xbc, 0xde, 0xf1]);
    assert_ne!(first, other);
}

#[test]
fn folders_do_not_share_paths() {
    let hash = vec![0xde, 0xad];
    let safe = canonical_image_path("/store", Folder::Safe, &hash);
    let not_safe = canonical_image_path("/store", Folder::Unsafe, &hash);
    assert!(safe.starts_with("/store/safe/"));
    assert!(!safe.starts_with("/store/unsafe/"));
    assert!(not_safe.starts_with("/store/unsafe/"));
    assert!(!not_safe.starts_with("/store/safe/"));
    let video = canonical_video_path("/store", Folder::Safe, "https://example.org/../unsafe/clip.mp4");
    assert_eq!(video, "/store/safe/clip.mp4");
    let encoded = canonical_video_path("/store", Folder::Safe, "https://example.org/a/..%2F..%2Funsafe%2Fx.mp4");
    assert_eq!(encoded, "/store/safe/..%2F..%2Funsafe%2Fx.mp4");
    let dots = canonical_video_path("/store", Folder::Safe, "https://example.org/unsafe/%2e%2e");
    assert!(dots.starts_with("/store/safe/"));
    assert!(!dots.ends_with("/.."));
}

#[test]
fn video_path_reuses_the_file_name_of_the_url() {
    assert_eq!(
        canonical_video_path(
            "/store",
            Folder::Unsafe,
            "https://cdn.discordapp.com/attachments/509982049239564290/1028336757080608830/1665206582990.mp4"
        ),
        "/store/unsafe/1665206582990.mp4"
    );
    assert_eq!(
        canonical_video_path("/store", Folder::Safe, "https://video.twimg.com/ext_tw_video/1/pu/vid/720x720/abc.mp4?tag=12#t"),
        "/store/safe/abc.mp4"
    );
    assert_eq!(canonical_video_path("art", Folder::Safe, "https://example.org/clip"), "art/safe/clip");
}

#[test]
fn video_without_a_file_name_gets_the_default() {
    for source in [
        "https://example.org/videos/",
        "https://example.org",
        "https://example.org/?v=clip.mp4",
        "mailto:someone@example.org",
        "/videos/clip.mp4",
        "clip.mp4",
        "",
    ] {
        assert_eq!(canonical_video_path("/store", Folder::Safe, source), "/store/safe/default.mp4");
    }
}

#[test]
fn file_name_is_the_last_component() {
    assert_eq!(file_name("/tmp/clip.mp4"), "clip.mp4");
    assert_eq!(file_name("clip.mp4"), "clip.mp4");
    assert_eq!(file_name("a/b/c"), "c");
    assert_eq!(file_name("/tmp/ünï/cödé.mp4"), "cödé.mp4");
    assert_eq!(file_name("/..."), "...");
}

#[test]
fn file_name_falls_back_to_the_default() {
    assert_eq!(file_name(""), "default.mp4");
    assert_eq!(file_name("/"), "default.mp4");
    assert_eq!(file_name("/tmp/"), "default.mp4");
    assert_eq!(file_name("/tmp/.."), "default.mp4");
    assert_eq!(file_name("/tmp/."), "default.mp4");
    assert_eq!(file_name(".."), "default.mp4");
    assert_eq!(file_name("."), "default.mp4");
}

#[test]
fn join_puts_one_separator_between() {
    assert_eq!(join_path("/tmp", "x"), "/tmp/x");
    assert_eq!(join_path("/tmp/", "x"), "/tmp/x");
    assert_eq!(join_path("", "x"), "x");
    assert_eq!(join_path("/", "x"), "/x");
    assert_eq!(join_path("a", ""), "a/");
}

#[test]
fn smaller_or_equal_image_is_turned_away() {
    assert_eq!(decide(Some((100, 80)), (100, 80)), Err(AppErr::BetterImage { old: (100, 80), new: (100, 80) }));
    assert_eq!(decide(Some((100, 80)), (50, 80)), Err(AppErr::BetterImage { old: (100, 80), new: (50, 80) }));
    assert_eq!(decide(Some((100, 80)), (1, 1)), Err(AppErr::BetterImage { old: (100, 80), new: (1, 1) }));
    assert_eq!(
        decide(Some((u32::MAX, u32::MAX)), (u32::MAX, u32::MAX)),
        Err(AppErr::BetterImage { old: (u32::MAX, u32::MAX), new: (u32::MAX, u32::MAX) })
    );
}

#[test]
fn image_larger_on_one_axis_is_accepted() {
    assert_eq!(decide(Some((100, 80)), (101, 80)), Ok(()));
    assert_eq!(decide(Some((100, 80)), (100, 81)), Ok(()));
    assert_eq!(decide(Some((100, 80)), (101, 1)), Ok(()));
    assert_eq!(decide(Some((100, 80)), (1, 81)), Ok(()));
    assert_eq!(decide(Some((100, 80)), (200, 200)), Ok(()));
}

#[test]
fn image_at_a_free_path_is_accepted() {
    assert_eq!(decide(None, (1, 1)), Ok(()));
    assert_eq!(decide(None, (0, 0)), Ok(()));
}

#[test]
fn sizes_are_reported_in_decimal_units() {
    assert_eq!(MediaInfo::new(2_350_000, Folder::Safe, Type::Image).size, "2.35 MB");
    assert_eq!(MediaInfo::new(1_500, Folder::Safe, Type::Image).size, "1.50 KB");
    assert_eq!(MediaInfo::new(999, Folder::Safe, Type::Image).size, "999 B");
    assert_eq!(MediaInfo::new(0, Folder::Safe, Type::Image).size, "0 B");
    assert_eq!(MediaInfo::new(1_234_567_890, Folder::Safe, Type::Video).size, "1.23 GB");
    assert_eq!(MediaInfo::new(1_048_576, Folder::Safe, Type::Video).size, "1.05 MB");
}

#[test]
fn unit_is_the_largest_in_which_the_size_reaches_one() {
    assert_eq!(Unit::of(0), Unit::B);
    assert_eq!(Unit::of(999), Unit::B);
    assert_eq!(Unit::of(1_000), Unit::KB);
    assert_eq!(Unit::of(999_999), Unit::KB);
    assert_eq!(Unit::of(1_000_000), Unit::MB);
    assert_eq!(Unit::of(999_999_999), Unit::MB);
    assert_eq!(Unit::of(1_000_000_000), Unit::GB);
    assert_eq!(Unit::of(1_000_000_000_000), Unit::TB);
    assert_eq!(Unit::of(1_000_000_000_000_000), Unit::PB);
    assert_eq!(Unit::of(999_999_999_999_999_999), Unit::PB);
    assert_eq!(Unit::of(1_000_000_000_000_000_000), Unit::EB);
    assert_eq!(Unit::of(u64::MAX), Unit::EB);
}

#[test]
fn sizes_at_the_edge_of_a_unit() {
    assert_eq!(MediaInfo::new(1_000, Folder::Safe, Type::Image).size, "1.00 KB");
    assert_eq!(MediaInfo::new(1_000_000, Folder::Safe, Type::Image).size, "1.00 MB");
    assert_eq!(MediaInfo::new(1_000_000_000, Folder::Safe, Type::Image).size, "1.00 GB");
    assert_eq!(MediaInfo::new(999_999, Folder::Safe, Type::Image).size, "1000.00 KB");
    assert_eq!(MediaInfo::new(1_004, Folder::Safe, Type::Image).size, "1.00 KB");
    assert_eq!(MediaInfo::new(1_006, Folder::Safe, Type::Image).size, "1.01 KB");
    assert_eq!(MediaInfo::new(u64::MAX, Folder::Safe, Type::Image).size, "18.45 EB");
}

#[test]
fn report_names_kind_and_folder() {
    let info = MediaInfo::new(2_350_000, Folder::Unsafe, Type::Video);
    assert_eq!(info, MediaInfo { size: "2.35 MB".to_string(), kind: Type::Video, folder: Folder::Unsafe });
}

#[test]
fn staging_slots_are_fresh_identifiers_in_the_scratch_directory() {
    let first = allocate("/tmp");
    let second = allocate("/tmp");
    assert_ne!(first, second);
    for slot in [first, second] {
        let id = slot.strip_prefix("/tmp/").unwrap();
        assert_eq!(id.len(), 36);
        for (i, c) in id.chars().enumerate() {
            if i == 8 || i == 13 || i == 18 || i == 23 {
                assert_eq!(c, '-');
            } else {
                assert!(matches!(c, '0'..='9' | 'a'..='f'));
            }
        }
    }
}

#[test]
fn only_a_video_with_extension_gets_one() {
    assert_eq!(stage("/tmp/id", Type::Video, true), Media { location: "/tmp/id.mp4".to_string(), kind: Type::Video });
    assert_eq!(stage("/tmp/id", Type::Video, false), Media { location: "/tmp/id".to_string(), kind: Type::Video });
    assert_eq!(stage("/tmp/id", Type::Image, true), Media { location: "/tmp/id".to_string(), kind: Type::Image });
    assert_eq!(stage("/tmp/id", Type::Image, false), Media { location: "/tmp/id".to_string(), kind: Type::Image });
}

#[test]
fn text_helpers_compare_characters() {
    assert_eq!(chars_of("añb"), vec!['a', 'ñ', 'b']);
    assert!(same_text("abc", "abc"));
    assert!(!same_text("abc", "abd"));
    assert!(!same_text("abc", "ab"));
    assert_eq!(concatenate("ab", "cd"), "abcd");
}
