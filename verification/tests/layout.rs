use screencrab::layout::{create_context_menu, create_selector_menu, MenuEntry, NativeItem};
use screencrab::hotkeys::Hotkeys;
use screencrab::menu::MenuItem;

fn hk() -> Hotkeys {
    let s = |x: &str| x.to_string();
    Hotkeys {
        fullscreen_capture: s("Control+f"),
        custom_capture: s("CmdOrCtrl+C"),
        capture_mouse_pointer: s("Control+m"),
        copy_to_clipboard: s("Option+C"),
        edit_after_capture: s("CmdOrCtrl+O"),
        fullscreen_record: s("CmdOrCtrl+Option+F"),
        custom_record: s("CmdOrCtrl+Option+C"),
        stop_recording: s("CmdOrCtrl+Option+S"),
        record_external_audio: s("Option+A"),
        open_after_record: s("Option+O"),
    }
}

#[test]
fn menu_bar_titles() {
    let m = create_context_menu(&hk());
    let titles: Vec<&str> = m.iter().map(|s| s.title.as_str()).collect();
    assert_eq!(titles, vec!["Screen Crab", "Capture", "Record", "Settings", "Help"]);
    assert_eq!(m[0].entries.len(), 7);
    assert!(matches!(m[0].entries[6], MenuEntry::Native(NativeItem::Quit)));
}

#[test]
fn menu_bar_shortcuts_and_marks() {
    let m = create_context_menu(&hk());
    match &m[1].entries[5] {
        MenuEntry::Custom { item, accelerator, selected, disabled } => {
            assert_eq!(*item, MenuItem::EditAfterCapture);
            assert_eq!(accelerator.as_deref(), Some("CmdOrCtrl+O"));
            assert!(*selected && !*disabled);
        },
        e => panic!("{:?}", e),
    }
    match &m[2].entries[2] {
        MenuEntry::Custom { item, accelerator, selected, disabled } => {
            assert_eq!(*item, MenuItem::StopRecording);
            assert_eq!(accelerator.as_deref(), Some("CmdOrCtrl+Option+S"));
            assert!(!*selected && *disabled);
        },
        e => panic!("{:?}", e),
    }
    match &m[4].entries[0] {
        MenuEntry::Custom { item, accelerator, .. } => {
            assert_eq!(*item, MenuItem::LearnMore);
            assert!(accelerator.is_none());
        },
        e => panic!("{:?}", e),
    }
    assert_eq!(create_selector_menu(&hk()).len(), 5);
}
