use screencrab::settings::{Toggles, MenuSource, MenuEffect, Page, recording_menu};
use screencrab::menu::{MenuItem, menu_item};

const ALL: [MenuItem; 12] = [
    MenuItem::FullscreenCapture, MenuItem::CustomCapture, MenuItem::CaptureMousePointer, MenuItem::CopyToClipboard,
    MenuItem::EditAfterCapture, MenuItem::FullscreenRecord, MenuItem::CustomRecord, MenuItem::StopRecording,
    MenuItem::RecordExternalAudio, MenuItem::OpenAfterRecord, MenuItem::ChangeHotkeys, MenuItem::LearnMore,
];

#[test]
fn toggles_start_with_editing_and_opening() {
    let t = Toggles::new();
    assert!(!t.capture_mouse_pointer && !t.copy_to_clipboard && !t.record_external_audio);
    assert!(t.edit_after_capture && t.open_after_record);
}

#[test]
fn item_ids_round_trip() {
    for i in ALL {
        assert_eq!(menu_item(&i.id()), Some(i));
    }
    assert_eq!(menu_item("stop_reording"), None);
    assert_eq!(MenuItem::ChangeHotkeys.label(), "Change Shortcut Keys");
}

#[test]
fn pointer_toggle_checks_item() {
    let mut t = Toggles::new();
    let e = t.on_menu_event(MenuItem::CaptureMousePointer, MenuSource::MainWindow);
    assert!(t.capture_mouse_pointer);
    assert_eq!(e, vec![MenuEffect::SetSelected(MenuItem::CaptureMousePointer, true)]);
}

#[test]
fn clipboard_toggle_disables_editing() {
    let mut t = Toggles::new();
    let e = t.on_menu_event(MenuItem::CopyToClipboard, MenuSource::GlobalHotkey);
    assert!(t.copy_to_clipboard && !t.edit_after_capture);
    assert_eq!(e, vec![
        MenuEffect::SetSelected(MenuItem::CopyToClipboard, true),
        MenuEffect::SetEnabled(MenuItem::EditAfterCapture, false),
    ]);
    let e = t.on_menu_event(MenuItem::CopyToClipboard, MenuSource::OtherWindow);
    assert!(!t.copy_to_clipboard && t.edit_after_capture);
    assert_eq!(e[1], MenuEffect::SetEnabled(MenuItem::EditAfterCapture, true));
}

#[test]
fn toggling_twice_restores_settings() {
    for i in ALL {
        if i == MenuItem::CopyToClipboard {
            continue;
        }
        let mut t = Toggles { capture_mouse_pointer: true, copy_to_clipboard: false, edit_after_capture: false,
            record_external_audio: true, open_after_record: false };
        let before = t;
        t.on_menu_event(i, MenuSource::MainWindow);
        t.on_menu_event(i, MenuSource::MainWindow);
        assert_eq!(t, before);
    }
}

#[test]
fn clipboard_twice_sets_editing_opposite() {
    let mut t = Toggles { capture_mouse_pointer: false, copy_to_clipboard: false, edit_after_capture: false,
        record_external_audio: false, open_after_record: true };
    t.on_menu_event(MenuItem::CopyToClipboard, MenuSource::MainWindow);
    t.on_menu_event(MenuItem::CopyToClipboard, MenuSource::MainWindow);
    assert!(!t.copy_to_clipboard && t.edit_after_capture);
}

#[test]
fn windows_and_pages_from_menus_only() {
    let mut t = Toggles::new();
    assert_eq!(t.on_menu_event(MenuItem::ChangeHotkeys, MenuSource::MainWindow), vec![MenuEffect::ShowHotkeys]);
    assert_eq!(t.on_menu_event(MenuItem::ChangeHotkeys, MenuSource::GlobalHotkey), vec![]);
    assert_eq!(t.on_menu_event(MenuItem::LearnMore, MenuSource::MainWindow), vec![MenuEffect::OpenPage(Page::Repository)]);
    assert_eq!(t.on_menu_event(MenuItem::LearnMore, MenuSource::OtherWindow), vec![MenuEffect::OpenPage(Page::Readme)]);
    assert_eq!(t.on_menu_event(MenuItem::FullscreenCapture, MenuSource::MainWindow), vec![]);
    assert_eq!(t, Toggles::new());
    assert_eq!(Page::Repository.url(), "https://github.com/grzianod/screencrab/tree/main/screencrab#screen-crab");
    assert_eq!(Page::Readme.url(), "https://github.com/grzianod/screencrab/blob/main/screencrab/README.md");
}

#[test]
fn recording_menu_switches_items() {
    assert_eq!(recording_menu(true), vec![
        (MenuItem::StopRecording, true), (MenuItem::CustomRecord, false), (MenuItem::FullscreenRecord, false)]);
    assert_eq!(recording_menu(false), vec![
        (MenuItem::StopRecording, false), (MenuItem::CustomRecord, true), (MenuItem::FullscreenRecord, true)]);
}
