use image_selector::paths::candidate_name;
use image_selector::paths::candidate_path;
use image_selector::paths::clone_bytes;
use image_selector::paths::file_name_of;
use image_selector::paths::is_png_path;
use image_selector::paths::join_path;
use image_selector::paths::rfind_byte;
use image_selector::paths::split_name;

fn bv(s: &str) -> Vec<u8> {
    s.as_bytes().to_vec()
}

#[test]
fn file_name_after_last_separator() {
    assert_eq!(file_name_of(&bv("dir/sub/photo.png")), Some(bv("photo.png")));
    assert_eq!(file_name_of(&bv("photo.png")), Some(bv("photo.png")));
}

#[test]
fn file_name_missing() {
    assert_eq!(file_name_of(&bv("dir/")), None);
    assert_eq!(file_name_of(&bv("")), None);
}

#[test]
fn split_name_stem_and_extension() {
    assert_eq!(split_name(&bv("photo.png")), (bv("photo"), Some(bv("png"))));
    assert_eq!(split_name(&bv("archive.tar.gz")), (bv("archive.tar"), Some(bv("gz"))));
    assert_eq!(split_name(&bv("trailing.")), (bv("trailing"), Some(bv(""))));
}

#[test]
fn split_name_without_extension() {
    assert_eq!(split_name(&bv("README")), (bv("README"), None));
    // A leading dot marks a hidden file, not an extension.
    assert_eq!(split_name(&bv(".bashrc")), (bv(".bashrc"), None));
}

#[test]
fn join_inserts_one_separator() {
    assert_eq!(join_path(&bv("dest"), &bv("a.png")), bv("dest/a.png"));
    assert_eq!(join_path(&bv("dest/"), &bv("a.png")), bv("dest/a.png"));
    assert_eq!(join_path(&bv(""), &bv("a.png")), bv("a.png"));
}

#[test]
fn candidate_names_grow_one_underscore_at_a_time() {
    assert_eq!(candidate_name(&bv("photo.png"), 0), bv("photo.png"));
    assert_eq!(candidate_name(&bv("photo.png"), 1), bv("photo_.png"));
    assert_eq!(candidate_name(&bv("photo.png"), 2), bv("photo__.png"));
}

#[test]
fn candidate_name_without_extension_appends() {
    assert_eq!(candidate_name(&bv("README"), 2), bv("README__"));
}

#[test]
fn candidate_paths_are_distinct() {
    let p0 = candidate_path(&bv("dest"), &bv("photo.png"), 0);
    let p1 = candidate_path(&bv("dest"), &bv("photo.png"), 1);
    let p2 = candidate_path(&bv("dest"), &bv("photo.png"), 2);
    assert_eq!(p0, bv("dest/photo.png"));
    assert_eq!(p1, bv("dest/photo_.png"));
    assert_eq!(p2, bv("dest/photo__.png"));
    assert_ne!(p0, p1);
    assert_ne!(p1, p2);
    assert_ne!(p0, p2);
}

#[test]
fn png_check_is_exact_and_case_sensitive() {
    assert!(is_png_path(&bv("a.png")));
    assert!(is_png_path(&bv("dir/b.png")));
    assert!(!is_png_path(&bv("a.PNG")));
    assert!(!is_png_path(&bv("a.jpg")));
    assert!(!is_png_path(&bv("apng")));
    assert!(!is_png_path(&bv(".png")));
    assert!(!is_png_path(&bv("dir/")));
}

#[test]
fn rfind_byte_finds_last_occurrence() {
    assert_eq!(rfind_byte(&bv("a/b/c"), b'/'), Some(3));
    assert_eq!(rfind_byte(&bv("abc"), b'/'), None);
}

#[test]
fn clone_bytes_copies_exactly() {
    let v = bv("dest/photo.png");
    assert_eq!(clone_bytes(&v), v);
}
