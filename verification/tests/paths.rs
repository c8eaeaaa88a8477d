use screencrab::paths::{current_default_path, default_location_path, default_location_response, home_location_response, folder_response,
    plain_folder_response, folder_unavailable, home_response, current_dir_response};
use screencrab::hotkeys::{utils_dir, hotkeys_file, default_hotkeys_file, menu_default_hotkeys_file};

#[test]
fn default_location_trims_and_ends_with_slash() {
    assert_eq!(default_location_path("/Users/u/Desktop\n", "/Users/u"), "/Users/u/Desktop/");
    assert_eq!(default_location_path("  /Users/u/Shots/ \n", "/Users/u"), "/Users/u/Shots/");
}

#[test]
fn default_location_falls_back_to_home() {
    assert_eq!(default_location_path("", "/Users/u"), "/Users/u/");
    assert_eq!(default_location_path(" \n", "/Users/u"), "/Users/u/");
}

#[test]
fn default_location_expands_tilde() {
    assert_eq!(default_location_path("~/Pictures\n", "/Users/u"), "/Users/u/Pictures/");
    assert_eq!(default_location_path("~/a~b", "/H"), "/H/a/Hb/");
    assert_eq!(default_location_path("/a~b", "/H"), "/a~b/");
    let r = default_location_response("~", "/Users/u");
    assert!(r.success());
    assert_eq!(r.response, Some("/Users/u/".to_string()));
}

#[test]
fn home_location() {
    assert_eq!(home_location_response("/home/u", false).response, Some("/home/u/".to_string()));
    assert_eq!(home_location_response("C:\\Users\\u", true).response, Some("C:\\Users\\u\\".to_string()));
}

#[test]
fn folder_answers() {
    assert_eq!(folder_response(Some("/a/b"), false).response, Some("/a/b/".to_string()));
    assert_eq!(folder_response(Some("C:\\a"), true).response, Some("C:\\a\\".to_string()));
    let r = folder_response(None, false);
    assert_eq!((r.response, r.error), (None, Some("The path is empty.".to_string())));
    assert_eq!(plain_folder_response(Some("/a")).response, Some("/a".to_string()));
    assert_eq!(plain_folder_response(None).error, Some("The path is empty.".to_string()));
    assert_eq!(folder_unavailable().error, Some("Failed to retrieve the folder path.".to_string()));
}

#[test]
fn home_and_current_dir_answers() {
    assert_eq!(home_response(Some("/home/u")).response, Some("/home/u".to_string()));
    assert_eq!(home_response(None).error, Some("Error while retrieving current user home directory.".to_string()));
    let r = current_dir_response(Ok(Some("/w")));
    assert_eq!((r.response, r.error), (Some("/w".to_string()), None));
    let r = current_dir_response(Ok(None));
    assert_eq!((r.response, r.error), (None, None));
    let r = current_dir_response(Err("denied"));
    assert_eq!((r.response, r.error), (None, Some("denied".to_string())));
}

#[test]
fn own_files() {
    assert_eq!(utils_dir("/home/u"), "/home/u/.screencrab");
    assert_eq!(hotkeys_file("/home/u"), "/home/u/.screencrab/hotkeys.json");
    assert!(default_hotkeys_file().contains("\"fullscreen_capture\": \"CmdOrCtrl+F\""));
    assert!(menu_default_hotkeys_file().contains("\"fullscreen_capture\": \"Control+f\""));
    assert!(default_hotkeys_file().starts_with("{\n        \"custom_capture\""));
    assert!(default_hotkeys_file().ends_with("\"CmdOrCtrl+Option+S\"\n        }"));
    assert!(menu_default_hotkeys_file().ends_with("\"CmdOrCtrl+Option+S\"\n    }"));
}

#[test]
fn current_default_path_per_platform() {
    assert_eq!(current_default_path(Some("~/Desktop\n"), "/Users/u", false).response, Some("/Users/u/Desktop/".to_string()));
    assert_eq!(current_default_path(None, "/home/u", false).response, Some("/home/u/".to_string()));
    assert_eq!(current_default_path(None, "C:\\Users\\u", true).response, Some("C:\\Users\\u\\".to_string()));
}
