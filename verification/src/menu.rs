use vstd::prelude::*;
use crate::text::{same_text, owned};

verus! {

// ---------------------------------------------------------------------------
// Menu items
// ---------------------------------------------------------------------------

/// The items of the application's menus that it answers to.
#[derive(Clone, Copy, Debug, PartialEq, Eq, Structural)]
pub enum MenuItem {
    FullscreenCapture,
    CustomCapture,
    CaptureMousePointer,
    CopyToClipboard,
    EditAfterCapture,
    FullscreenRecord,
    CustomRecord,
    StopRecording,
    RecordExternalAudio,
    OpenAfterRecord,
    ChangeHotkeys,
    LearnMore,
}

/// The identifier of a menu item, which is also the event it sends.
pub open spec fn item_id(i: MenuItem) -> Seq<char> {
    match i {
        MenuItem::FullscreenCapture => "fullscreen_capture"@,
        MenuItem::CustomCapture => "custom_capture"@,
        MenuItem::CaptureMousePointer => "capture_mouse_pointer"@,
        MenuItem::CopyToClipboard => "copy_to_clipboard"@,
        MenuItem::EditAfterCapture => "edit_after_capture"@,
        MenuItem::FullscreenRecord => "fullscreen_record"@,
        MenuItem::CustomRecord => "custom_record"@,
        MenuItem::StopRecording => "stop_recording"@,
        MenuItem::RecordExternalAudio => "record_external_audio"@,
        MenuItem::OpenAfterRecord => "open_after_record"@,
        MenuItem::ChangeHotkeys => "change_hotkeys"@,
        MenuItem::LearnMore => "learn_more"@,
    }
}

/// The label of a menu item.
pub open spec fn item_label(i: MenuItem) -> Seq<char> {
    match i {
        MenuItem::FullscreenCapture => "Fullscreen Capture"@,
        MenuItem::CustomCapture => "Custom Capture"@,
        MenuItem::CaptureMousePointer => "Capture Mouse Pointer"@,
        MenuItem::CopyToClipboard => "Copy To Clipboard"@,
        MenuItem::EditAfterCapture => "Edit After Capture"@,
        MenuItem::FullscreenRecord => "Fullscreen Record"@,
        MenuItem::CustomRecord => "Custom Record"@,
        MenuItem::StopRecording => "Stop Recording"@,
        MenuItem::RecordExternalAudio => "Record External Audio"@,
        MenuItem::OpenAfterRecord => "Open After Record"@,
        MenuItem::ChangeHotkeys => "Change Shortcut Keys"@,
        MenuItem::LearnMore => "Learn More"@,
    }
}

impl MenuItem {
    /// The identifier of the item.
    pub fn id(self) -> (s: String)
        ensures
            s@ == item_id(self),
    {
        match self {
            MenuItem::FullscreenCapture => owned("fullscreen_capture"),
            MenuItem::CustomCapture => owned("custom_capture"),
            MenuItem::CaptureMousePointer => owned("capture_mouse_pointer"),
            MenuItem::CopyToClipboard => owned("copy_to_clipboard"),
            MenuItem::EditAfterCapture => owned("edit_after_capture"),
            MenuItem::FullscreenRecord => owned("fullscreen_record"),
            MenuItem::CustomRecord => owned("custom_record"),
            MenuItem::StopRecording => owned("stop_recording"),
            MenuItem::RecordExternalAudio => owned("record_external_audio"),
            MenuItem::OpenAfterRecord => owned("open_after_record"),
            MenuItem::ChangeHotkeys => owned("change_hotkeys"),
            MenuItem::LearnMore => owned("learn_more"),
        }
    }

    /// The label of the item.
    pub fn label(self) -> (s: String)
        ensures
            s@ == item_label(self),
    {
        match self {
            MenuItem::FullscreenCapture => owned("Fullscreen Capture"),
            MenuItem::CustomCapture => owned("Custom Capture"),
            MenuItem::CaptureMousePointer => owned("Capture Mouse Pointer"),
            MenuItem::CopyToClipboard => owned("Copy To Clipboard"),
            MenuItem::EditAfterCapture => owned("Edit After Capture"),
            MenuItem::FullscreenRecord => owned("Fullscreen Record"),
            MenuItem::CustomRecord => owned("Custom Record"),
            MenuItem::StopRecording => owned("Stop Recording"),
            MenuItem::RecordExternalAudio => owned("Record External Audio"),
            MenuItem::OpenAfterRecord => owned("Open After Record"),
            MenuItem::ChangeHotkeys => owned("Change Shortcut Keys"),
            MenuItem::LearnMore => owned("Learn More"),
        }
    }
}

/// The item that an identifier names.
pub open spec fn item_named(id: Seq<char>) -> Option<MenuItem> {
    if id == "fullscreen_capture"@ { Some(MenuItem::FullscreenCapture) }
    else if id == "custom_capture"@ { Some(MenuItem::CustomCapture) }
    else if id == "capture_mouse_pointer"@ { Some(MenuItem::CaptureMousePointer) }
    else if id == "copy_to_clipboard"@ { Some(MenuItem::CopyToClipboard) }
    else if id == "edit_after_capture"@ { Some(MenuItem::EditAfterCapture) }
    else if id == "fullscreen_record"@ { Some(MenuItem::FullscreenRecord) }
    else if id == "custom_record"@ { Some(MenuItem::CustomRecord) }
    else if id == "stop_recording"@ { Some(MenuItem::StopRecording) }
    else if id == "record_external_audio"@ { Some(MenuItem::RecordExternalAudio) }
    else if id == "open_after_record"@ { Some(MenuItem::OpenAfterRecord) }
    else if id == "change_hotkeys"@ { Some(MenuItem::ChangeHotkeys) }
    else if id == "learn_more"@ { Some(MenuItem::LearnMore) }
    else { None }
}

/// Reads the item that a menu event or a shortcut names.
pub fn menu_item(id: &str) -> (i: Option<MenuItem>)
    ensures
        i == item_named(id@),
{
    if same_text(id, "fullscreen_capture") { Some(MenuItem::FullscreenCapture) }
    else if same_text(id, "custom_capture") { Some(MenuItem::CustomCapture) }
    else if same_text(id, "capture_mouse_pointer") { Some(MenuItem::CaptureMousePointer) }
    else if same_text(id, "copy_to_clipboard") { Some(MenuItem::CopyToClipboard) }
    else if same_text(id, "edit_after_capture") { Some(MenuItem::EditAfterCapture) }
    else if same_text(id, "fullscreen_record") { Some(MenuItem::FullscreenRecord) }
    else if same_text(id, "custom_record") { Some(MenuItem::CustomRecord) }
    else if same_text(id, "stop_recording") { Some(MenuItem::StopRecording) }
    else if same_text(id, "record_external_audio") { Some(MenuItem::RecordExternalAudio) }
    else if same_text(id, "open_after_record") { Some(MenuItem::OpenAfterRecord) }
    else if same_text(id, "change_hotkeys") { Some(MenuItem::ChangeHotkeys) }
    else if same_text(id, "learn_more") { Some(MenuItem::LearnMore) }
    else { None }
}

/// Every item is read back from its identifier, so a menu event or a
/// shortcut names the item that sent it.
pub proof fn law_item_read_back(i: MenuItem)
    ensures
        item_named(item_id(i)) == Some(i),
{
    reveal_strlit("fullscreen_capture");
    reveal_strlit("custom_capture");
    reveal_strlit("capture_mouse_pointer");
    reveal_strlit("copy_to_clipboard");
    reveal_strlit("edit_after_capture");
    reveal_strlit("fullscreen_record");
    reveal_strlit("custom_record");
    reveal_strlit("stop_recording");
    reveal_strlit("record_external_audio");
    reveal_strlit("open_after_record");
    reveal_strlit("change_hotkeys");
    reveal_strlit("learn_more");
    // Identifiers of the same length differ in one of these characters.
    let id = item_id(i);
    assert(id[0] == 'f' || id[0] == 'c' || id[0] == 'e' || id[0] == 's' || id[0] == 'r' || id[0] == 'o' || id[0] == 'l');
    assert("fullscreen_capture"@[11] != "fullscreen_record"@[11]);
    assert("custom_capture"@[7] != "custom_record"@[7]);
    assert("capture_mouse_pointer"@[1] != "copy_to_clipboard"@[1]);
    assert("custom_capture"@[1] != "change_hotkeys"@[1]);
    assert("capture_mouse_pointer"@[1] != "change_hotkeys"@[1]);
    assert("custom_record"@[1] != "change_hotkeys"@[1]);
}

} // verus!
