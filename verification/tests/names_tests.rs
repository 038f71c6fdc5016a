use image_converter::names::{
    dest_file_name, extension, find_last_dot, matches_filter, same_text, stem,
};

#[test]
fn extension_is_what_follows_the_last_dot() {
    assert_eq!(extension("a.png"), Some(String::from("png")));
    assert_eq!(extension("archive.tar.gz"), Some(String::from("gz")));
    assert_eq!(extension("photo.JPEG"), Some(String::from("JPEG")));
    assert_eq!(extension("trailing."), Some(String::new()));
    assert_eq!(extension("h\u{e9}llo.w\u{e9}bp"), Some(String::from("w\u{e9}bp")));
}

#[test]
fn names_without_extension() {
    assert_eq!(extension("README"), None);
    assert_eq!(extension(".bashrc"), None);
    assert_eq!(extension(""), None);
    assert_eq!(extension(".."), None);
    assert_eq!(extension("."), None);
}

#[test]
fn hidden_file_with_extension() {
    assert_eq!(extension(".config.json"), Some(String::from("json")));
    assert_eq!(extension("..."), Some(String::new()));
}

#[test]
fn last_dot_is_found_by_character() {
    assert_eq!(find_last_dot("a.b.c"), Some(3));
    assert_eq!(find_last_dot("abc"), None);
    assert_eq!(find_last_dot(""), None);
    assert_eq!(find_last_dot("\u{e9}\u{e9}.x"), Some(2));
}

#[test]
fn texts_compare_by_character() {
    assert!(same_text("webp", "webp"));
    assert!(!same_text("webp", "WebP"));
    assert!(!same_text("webp", "webp "));
    assert!(same_text("", ""));
}

#[test]
fn wildcard_accepts_every_name() {
    assert!(matches_filter("*", "a.png"));
    assert!(matches_filter("*", "README"));
    assert!(matches_filter("*", ".hidden"));
    assert!(matches_filter("*", "b.JPG"));
    assert!(matches_filter("*", ""));
}

#[test]
fn filter_compares_the_extension_exactly() {
    assert!(matches_filter("png", "a.png"));
    assert!(!matches_filter("png", "a.PNG"));
    assert!(!matches_filter("png", "a.jpg"));
    assert!(!matches_filter("png", "png"));
    assert!(!matches_filter("png", "a.png.bak"));
    assert!(!matches_filter(".png", "a.png"));
    assert!(matches_filter("gz", "a.tar.gz"));
}

#[test]
fn filter_leaves_out_names_without_extension() {
    assert!(!matches_filter("png", "README"));
    assert!(!matches_filter("png", ".png"));
    assert!(!matches_filter("", "README"));
}

#[test]
fn empty_filter_matches_the_empty_extension() {
    assert!(matches_filter("", "trailing."));
}

#[test]
fn destination_is_stem_dot_output_type() {
    assert_eq!(dest_file_name("a.png", "webp"), "a.webp");
    assert_eq!(dest_file_name("archive.tar.gz", "png"), "archive.tar.png");
    assert_eq!(dest_file_name("photo.JPEG", "tiff"), "photo.tiff");
    assert_eq!(dest_file_name("trailing.", "jpeg"), "trailing.jpeg");
}

#[test]
fn source_without_extension_falls_back_to_converted() {
    assert_eq!(dest_file_name("README", "webp"), "converted.webp");
    assert_eq!(dest_file_name(".bashrc", "png"), "converted.png");
    assert_eq!(dest_file_name("", "png"), "converted.png");
}

#[test]
fn two_sources_without_extension_collide() {
    assert_eq!(dest_file_name("first", "webp"), dest_file_name("second", "webp"));
}

#[test]
fn sources_with_the_same_stem_collide() {
    assert_eq!(dest_file_name("a.png", "webp"), dest_file_name("a.PNG", "webp"));
}

#[test]
fn stem_is_what_precedes_the_last_dot() {
    assert_eq!(stem("a.png"), Some(String::from("a")));
    assert_eq!(stem("archive.tar.gz"), Some(String::from("archive.tar")));
    assert_eq!(stem("trailing."), Some(String::from("trailing")));
    assert_eq!(stem(".config.json"), Some(String::from(".config")));
    assert_eq!(stem("h\u{e9}llo.w\u{e9}bp"), Some(String::from("h\u{e9}llo")));
}

#[test]
fn name_without_extension_has_no_stem() {
    assert_eq!(stem("README"), None);
    assert_eq!(stem(".bashrc"), None);
    assert_eq!(stem(".."), None);
    assert_eq!(stem(""), None);
}
