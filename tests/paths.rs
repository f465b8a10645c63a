use hotcocoa::paths::{app_dir_for, config_path_for, join_path, photos_dir_for};

#[test]
fn join_adds_separator() {
    assert_eq!(join_path("/home/ann", ".hotcocoa"), "/home/ann/.hotcocoa");
}

#[test]
fn join_keeps_existing_separator() {
    assert_eq!(join_path("/home/ann/", "photos"), "/home/ann/photos");
}

#[test]
fn join_onto_empty_base() {
    assert_eq!(join_path("", "photos"), "photos");
}

#[test]
fn app_dir_under_home() {
    assert_eq!(app_dir_for("/home/ann"), "/home/ann/.hotcocoa");
}

#[test]
fn photos_dir_under_app_dir() {
    assert_eq!(photos_dir_for("/home/ann"), "/home/ann/.hotcocoa/photos");
}

#[test]
fn config_path_under_app_dir() {
    assert_eq!(config_path_for("/home/ann"), "/home/ann/.hotcocoa/config.json");
}
