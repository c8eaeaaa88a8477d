use vstd::prelude::*;
use crate::text::{owned, joined};

verus! {

/// The shortcut of each action of the application, as the shortcut file
/// gives them.
#[derive(Clone, Debug)]
pub struct Hotkeys {
    pub fullscreen_capture: String,
    pub custom_capture: String,
    pub capture_mouse_pointer: String,
    pub copy_to_clipboard: String,
    pub edit_after_capture: String,
    pub fullscreen_record: String,
    pub custom_record: String,
    pub stop_recording: String,
    pub record_external_audio: String,
    pub open_after_record: String,
}

/// The path of a file, as sent to the front end.
#[derive(Clone, Debug)]
pub struct Payload {
    pub path: String,
}

/// The shortcut file that the settings window starts from.
pub fn default_hotkeys_file() -> (s: String)
    ensures
        s@ == "{\n        \"custom_capture\": \"CmdOrCtrl+C\",\n        \"fullscreen_capture\": \"CmdOrCtrl+F\",\n        \"capture_mouse_pointer\": \"Option+M\",\n        \"copy_to_clipboard\": \"Option+C\",\n        \"edit_after_capture\": \"Option+E\",\n        \"open_after_record\": \"Option+O\",\n        \"custom_record\": \"CmdOrCtrl+Option+C\",\n        \"record_external_audio\": \"Option+A\",\n        \"fullscreen_record\": \"CmdOrCtrl+Option+F\",\n        \"stop_recording\": \"CmdOrCtrl+Option+S\"\n        }"@,
{
    owned("{\n        \"custom_capture\": \"CmdOrCtrl+C\",\n        \"fullscreen_capture\": \"CmdOrCtrl+F\",\n        \"capture_mouse_pointer\": \"Option+M\",\n        \"copy_to_clipboard\": \"Option+C\",\n        \"edit_after_capture\": \"Option+E\",\n        \"open_after_record\": \"Option+O\",\n        \"custom_record\": \"CmdOrCtrl+Option+C\",\n        \"record_external_audio\": \"Option+A\",\n        \"fullscreen_record\": \"CmdOrCtrl+Option+F\",\n        \"stop_recording\": \"CmdOrCtrl+Option+S\"\n        }")
}

/// The shortcut file that the menus start from.
pub fn menu_default_hotkeys_file() -> (s: String)
    ensures
        s@ == "{\n        \"custom_capture\": \"CmdOrCtrl+C\",\n        \"fullscreen_capture\": \"Control+f\",\n        \"capture_mouse_pointer\": \"Control+m\",\n        \"copy_to_clipboard\": \"Option+C\",\n        \"edit_after_capture\": \"CmdOrCtrl+O\",\n        \"open_after_record\": \"Option+O\",\n        \"custom_record\": \"CmdOrCtrl+Option+C\",\n        \"record_external_audio\": \"Option+A\",\n        \"fullscreen_record\": \"CmdOrCtrl+Option+F\",\n        \"stop_recording\": \"CmdOrCtrl+Option+S\"\n    }"@,
{
    owned("{\n        \"custom_capture\": \"CmdOrCtrl+C\",\n        \"fullscreen_capture\": \"Control+f\",\n        \"capture_mouse_pointer\": \"Control+m\",\n        \"copy_to_clipboard\": \"Option+C\",\n        \"edit_after_capture\": \"CmdOrCtrl+O\",\n        \"open_after_record\": \"Option+O\",\n        \"custom_record\": \"CmdOrCtrl+Option+C\",\n        \"record_external_audio\": \"Option+A\",\n        \"fullscreen_record\": \"CmdOrCtrl+Option+F\",\n        \"stop_recording\": \"CmdOrCtrl+Option+S\"\n    }")
}

/// The directory of the application's own files, in the user's directory
/// `home`.
pub fn utils_dir(home: &str) -> (s: String)
    ensures
        s@ == home@ + "/.screencrab"@,
{
    joined(home, "/.screencrab")
}

/// The shortcut file, in the user's directory `home`.
pub fn hotkeys_file(home: &str) -> (s: String)
    ensures
        s@ == home@ + "/.screencrab"@ + "/hotkeys.json"@,
{
    let mut s = utils_dir(home);
    s.append("/hotkeys.json");
    s
}

} // verus!
