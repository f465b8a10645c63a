use std::collections::HashMap;

use hotcocoa::photos::{
    deleted_photo, dirs_ready, encode_photo, fetched_photo, file_extension, has_photo_extension,
    is_photo_extension, list_photo_entries, listed_photos, photo_to_save, saved_photo, DirEntryInfo,
};

fn entry(name: &str, size: Option<u64>) -> DirEntryInfo {
    DirEntryInfo { name: name.to_string(), path: format!("/p/{}", name), size }
}

#[test]
fn encode_known_values() {
    assert_eq!(encode_photo(b"hello"), "aGVsbG8=");
    assert_eq!(encode_photo(b"hi"), "aGk=");
    assert_eq!(encode_photo(b"abc"), "YWJj");
    assert_eq!(encode_photo(&[0xff, 0xfe]), "//4=");
    assert_eq!(encode_photo(&[]), "");
}

#[test]
fn save_decodes_and_places_file() {
    let w = photo_to_save("/home/ann/.hotcocoa/photos", "a.jpg", "aGVsbG8=").unwrap();
    assert_eq!(w.bytes, b"hello".to_vec());
    assert_eq!(w.path, "/home/ann/.hotcocoa/photos/a.jpg");
}

#[test]
fn save_refuses_invalid_characters() {
    let e = photo_to_save("/h", "a.jpg", "a!bc").err().unwrap();
    assert!(e.starts_with("Failed to decode base64: "));
}

#[test]
fn save_refuses_missing_padding() {
    assert!(photo_to_save("/h", "a.jpg", "aGVsbG8").is_err());
}

#[test]
fn save_refuses_trailing_bits() {
    assert!(photo_to_save("/h", "a.jpg", "aGVsbG9=").is_err());
}

#[test]
fn save_then_fetch_round_trip() {
    let content: Vec<u8> = (0..=255u8).collect();
    let w = photo_to_save("/h", "all.png", &encode_photo(&content)).unwrap();
    let fetched = fetched_photo(Ok(w.bytes)).unwrap();
    let again = photo_to_save("/h", "all.png", &fetched).unwrap();
    assert_eq!(again.bytes, content);
}

#[test]
fn second_save_wins() {
    let mut disk: HashMap<String, Vec<u8>> = HashMap::new();
    for content in [b"first".to_vec(), b"second".to_vec()] {
        let w = photo_to_save("/h/.hotcocoa/photos", "same.jpg", &encode_photo(&content)).unwrap();
        disk.insert(w.path, w.bytes);
    }
    assert_eq!(disk.len(), 1);
    let path = "/h/.hotcocoa/photos/same.jpg".to_string();
    let text = fetched_photo(Ok(disk[&path].clone())).unwrap();
    assert_eq!(text, encode_photo(b"second"));
}

#[test]
fn fetch_reports_read_failure() {
    let r = fetched_photo(Err("not found".to_string()));
    assert_eq!(r.err().unwrap(), "Failed to read file: not found");
}

#[test]
fn delete_of_missing_photo_fails() {
    let r = deleted_photo(Err("No such file or directory".to_string()));
    assert_eq!(r.err().unwrap(), "Failed to delete file: No such file or directory");
    assert!(deleted_photo(Ok(())).is_ok());
}

#[test]
fn save_answers_with_path_or_error() {
    assert_eq!(saved_photo("/x/a.jpg".to_string(), Ok(())).unwrap(), "/x/a.jpg");
    let e = saved_photo("/x/a.jpg".to_string(), Err("denied".to_string()));
    assert_eq!(e.err().unwrap(), "Failed to write file: denied");
}

#[test]
fn dirs_failure_is_described() {
    assert!(dirs_ready(Ok(())).is_ok());
    let e = dirs_ready(Err("denied".to_string()));
    assert_eq!(e.err().unwrap(), "Failed to create photos dir: denied");
}

#[test]
fn extensions_of_names() {
    assert_eq!(file_extension("a.jpg"), Some("jpg".to_string()));
    assert_eq!(file_extension("archive.tar.gz"), Some("gz".to_string()));
    assert_eq!(file_extension("a."), Some("".to_string()));
    assert_eq!(file_extension(".bashrc"), None);
    assert_eq!(file_extension(".."), None);
    assert_eq!(file_extension("noext"), None);
}

#[test]
fn photo_extensions_lowercase_only() {
    assert!(is_photo_extension("jpeg"));
    assert!(is_photo_extension("webp"));
    assert!(!is_photo_extension("JPG"));
    assert!(!is_photo_extension("txt"));
}

#[test]
fn photo_names_ignore_case() {
    assert!(has_photo_extension("X.JpEg"));
    assert!(has_photo_extension("shot.PNG"));
    assert!(!has_photo_extension("notes.txt"));
    assert!(!has_photo_extension(".jpg"));
}

#[test]
fn listing_keeps_images_only() {
    let entries = vec![
        entry("a.jpg", Some(1)),
        entry("b.png", Some(2)),
        entry("c.gif", Some(3)),
        entry("d.webp", Some(4)),
        entry("e.JPEG", Some(5)),
        entry("f.txt", Some(6)),
    ];
    let listed = list_photo_entries(&entries);
    let names: Vec<&str> = listed.iter().map(|m| m.name.as_str()).collect();
    assert_eq!(names, vec!["a.jpg", "b.png", "c.gif", "d.webp", "e.JPEG"]);
    assert_eq!(listed[4].path, "/p/e.JPEG");
    assert_eq!(listed[4].size, 5);
}

#[test]
fn listing_skips_unreadable_metadata() {
    let entries = vec![entry("a.jpg", None), entry("b.jpg", Some(9))];
    let listed = list_photo_entries(&entries);
    assert_eq!(listed.len(), 1);
    assert_eq!(listed[0].name, "b.jpg");
    assert_eq!(listed[0].size, 9);
}

#[test]
fn listing_of_nothing_is_empty() {
    assert!(list_photo_entries(&Vec::new()).is_empty());
}

#[test]
fn listing_reports_read_failure() {
    let r = listed_photos(Err("denied".to_string()));
    assert_eq!(r.err().unwrap(), "Failed to read dir: denied");
    let ok = listed_photos(Ok(vec![entry("z.gif", Some(3))])).unwrap();
    assert_eq!(ok.len(), 1);
}
