use movie_db::images::{ends_with, image_extension, image_file_name, JPEG, JPG, PNG};

#[test]
fn png_url_gives_png() {
    assert_eq!(image_extension("https://img.example/cover/medium.png"), PNG);
}

#[test]
fn jpg_url_gives_jpg() {
    assert_eq!(image_extension("https://img.example/cover/medium.jpg"), ".jpg");
    assert_eq!(JPG, ".jpg");
}

#[test]
fn other_urls_give_jpeg() {
    assert_eq!(image_extension("https://img.example/cover/medium.jpeg"), JPEG);
    assert_eq!(image_extension("https://img.example/cover/medium.gif"), ".jpeg");
    assert_eq!(image_extension(""), ".jpeg");
    assert_eq!(image_extension("png"), ".jpeg");
    assert_eq!(image_extension("cover.PNG"), ".jpeg");
}

#[test]
fn file_name_is_title_then_extension() {
    assert_eq!(image_file_name("Alien", ".png"), "Alien.png");
    assert_eq!(image_file_name("", ".jpeg"), ".jpeg");
}

#[test]
fn saved_file_keeps_detected_type() {
    for url in ["a.png", "b.jpg", "c.webp"] {
        let ext = image_extension(url);
        assert_eq!(image_extension(&image_file_name("Title", ext)), ext);
    }
}

#[test]
fn suffix_check() {
    assert!(ends_with("abc", "bc"));
    assert!(ends_with("abc", ""));
    assert!(!ends_with("bc", "abc"));
    assert!(!ends_with("abc", "ab"));
    assert!(ends_with("héllo.png", ".png"));
}
