use vstd::prelude::*;
use crate::menu::MenuItem;
use crate::text::{owned, decimal, push_decimal};

verus! {

/// The capture settings that the menus and shortcuts switch on and off.
#[derive(Clone, Copy, Debug, PartialEq, Eq, Structural)]
pub struct Toggles {
    pub capture_mouse_pointer: bool,
    pub copy_to_clipboard: bool,
    pub edit_after_capture: bool,
    pub record_external_audio: bool,
    pub open_after_record: bool,
}

/// Where a menu event comes from: the main window's menu, the menu of the
/// selector or of a helper window, or a global shortcut.
#[derive(Clone, Copy, Debug, PartialEq, Eq, Structural)]
pub enum MenuSource {
    MainWindow,
    OtherWindow,
    GlobalHotkey,
}

/// The pages that "Learn More" opens.
#[derive(Clone, Copy, Debug, PartialEq, Eq, Structural)]
pub enum Page {
    Repository,
    Readme,
}

/// What the application does to its windows after a menu event.
#[derive(Clone, Copy, Debug, PartialEq, Eq, Structural)]
pub enum MenuEffect {
    /// Check or uncheck an item of the main window's menu.
    SetSelected(MenuItem, bool),
    /// Enable or disable an item of the main window's menu.
    SetEnabled(MenuItem, bool),
    /// Show the shortcut settings window.
    ShowHotkeys,
    /// Open a page in the browser.
    OpenPage(Page),
}

/// The settings when the application starts: the picture is opened for
/// editing and a recording is opened when it ends; nothing else is on.
pub open spec fn initial_toggles() -> Toggles {
    Toggles {
        capture_mouse_pointer: false,
        copy_to_clipboard: false,
        edit_after_capture: true,
        record_external_audio: false,
        open_after_record: true,
    }
}

/// The settings after the item `i` was chosen: a setting item switches its
/// setting, and switching the clipboard sets editing to the opposite of the
/// clipboard; other items change nothing.
pub open spec fn toggled(t: Toggles, i: MenuItem) -> Toggles {
    match i {
        MenuItem::CaptureMousePointer => Toggles { capture_mouse_pointer: !t.capture_mouse_pointer, ..t },
        MenuItem::CopyToClipboard => Toggles {
            copy_to_clipboard: !t.copy_to_clipboard,
            edit_after_capture: t.copy_to_clipboard,
            ..t
        },
        MenuItem::EditAfterCapture => Toggles { edit_after_capture: !t.edit_after_capture, ..t },
        MenuItem::RecordExternalAudio => Toggles { record_external_audio: !t.record_external_audio, ..t },
        MenuItem::OpenAfterRecord => Toggles { open_after_record: !t.open_after_record, ..t },
        _ => t,
    }
}

/// What the application does after the item `i` was chosen from `source`,
/// given the settings `t` after the choice: a setting item is checked or
/// unchecked as its setting now is, and editing is enabled only when the
/// clipboard is off; the settings window and the page are opened from menus
/// only.
pub open spec fn menu_effects(t: Toggles, i: MenuItem, source: MenuSource) -> Seq<MenuEffect> {
    match i {
        MenuItem::CaptureMousePointer => seq![MenuEffect::SetSelected(i, t.capture_mouse_pointer)],
        MenuItem::CopyToClipboard => seq![
            MenuEffect::SetSelected(MenuItem::CopyToClipboard, t.copy_to_clipboard),
            MenuEffect::SetEnabled(MenuItem::EditAfterCapture, !t.copy_to_clipboard),
        ],
        MenuItem::EditAfterCapture => seq![MenuEffect::SetSelected(i, t.edit_after_capture)],
        MenuItem::RecordExternalAudio => seq![MenuEffect::SetSelected(i, t.record_external_audio)],
        MenuItem::OpenAfterRecord => seq![MenuEffect::SetSelected(i, t.open_after_record)],
        MenuItem::ChangeHotkeys => if source == MenuSource::GlobalHotkey { Seq::empty() } else { seq![MenuEffect::ShowHotkeys] },
        MenuItem::LearnMore => match source {
            MenuSource::MainWindow => seq![MenuEffect::OpenPage(Page::Repository)],
            MenuSource::OtherWindow => seq![MenuEffect::OpenPage(Page::Readme)],
            MenuSource::GlobalHotkey => Seq::empty(),
        },
        _ => Seq::empty(),
    }
}

impl Toggles {
    /// The settings when the application starts.
    pub fn new() -> (t: Toggles)
        ensures
            t == initial_toggles(),
    {
        Toggles {
            capture_mouse_pointer: false,
            copy_to_clipboard: false,
            edit_after_capture: true,
            record_external_audio: false,
            open_after_record: true,
        }
    }

    /// Applies the choice of the item `i` from `source`, and tells what to do
    /// to the windows.
    pub fn on_menu_event(&mut self, i: MenuItem, source: MenuSource) -> (effects: Vec<MenuEffect>)
        ensures
            *final(self) == toggled(*old(self), i),
            effects@ == menu_effects(*final(self), i, source),
    {
        let mut effects: Vec<MenuEffect> = Vec::new();
        match i {
            MenuItem::CaptureMousePointer => {
                self.capture_mouse_pointer = !self.capture_mouse_pointer;
                effects.push(MenuEffect::SetSelected(i, self.capture_mouse_pointer));
            },
            MenuItem::CopyToClipboard => {
                self.copy_to_clipboard = !self.copy_to_clipboard;
                self.edit_after_capture = !self.copy_to_clipboard;
                effects.push(MenuEffect::SetSelected(MenuItem::CopyToClipboard, self.copy_to_clipboard));
                effects.push(MenuEffect::SetEnabled(MenuItem::EditAfterCapture, !self.copy_to_clipboard));
            },
            MenuItem::EditAfterCapture => {
                self.edit_after_capture = !self.edit_after_capture;
                effects.push(MenuEffect::SetSelected(i, self.edit_after_capture));
            },
            MenuItem::RecordExternalAudio => {
                self.record_external_audio = !self.record_external_audio;
                effects.push(MenuEffect::SetSelected(i, self.record_external_audio));
            },
            MenuItem::OpenAfterRecord => {
                self.open_after_record = !self.open_after_record;
                effects.push(MenuEffect::SetSelected(i, self.open_after_record));
            },
            MenuItem::ChangeHotkeys => {
                if source != MenuSource::GlobalHotkey {
                    effects.push(MenuEffect::ShowHotkeys);
                }
            },
            MenuItem::LearnMore => {
                match source {
                    MenuSource::MainWindow => effects.push(MenuEffect::OpenPage(Page::Repository)),
                    MenuSource::OtherWindow => effects.push(MenuEffect::OpenPage(Page::Readme)),
                    MenuSource::GlobalHotkey => {},
                }
            },
            _ => {},
        }
        assert(effects@ =~= menu_effects(*self, i, source));
        effects
    }
}

impl Page {
    /// The address of the page.
    pub fn url(self) -> (s: String)
        ensures
            self == Page::Repository ==> s@ == "https://github.com/grzianod/screencrab/tree/main/screencrab#screen-crab"@,
            self == Page::Readme ==> s@ == "https://github.com/grzianod/screencrab/blob/main/screencrab/README.md"@,
    {
        match self {
            Page::Repository => owned("https://github.com/grzianod/screencrab/tree/main/screencrab#screen-crab"),
            Page::Readme => owned("https://github.com/grzianod/screencrab/blob/main/screencrab/README.md"),
        }
    }
}

/// Choosing a setting twice leaves it as it was; for the clipboard, it
/// leaves the clipboard as it was and editing opposite to it.
pub proof fn law_toggle_twice(t: Toggles, i: MenuItem)
    ensures
        i != MenuItem::CopyToClipboard ==> toggled(toggled(t, i), i) == t,
        i == MenuItem::CopyToClipboard ==> toggled(toggled(t, i), i) == (Toggles { edit_after_capture: !t.copy_to_clipboard, ..t }),
{
}

/// After the clipboard is switched, editing is on exactly when the clipboard
/// is off, and the editing item is enabled exactly then.
pub proof fn law_clipboard_excludes_editing(t: Toggles, source: MenuSource)
    ensures
        ({
            let after = toggled(t, MenuItem::CopyToClipboard);
            &&& after.edit_after_capture == !after.copy_to_clipboard
            &&& menu_effects(after, MenuItem::CopyToClipboard, source).contains(
                MenuEffect::SetEnabled(MenuItem::EditAfterCapture, after.edit_after_capture))
        }),
{
    let after = toggled(t, MenuItem::CopyToClipboard);
    let e = menu_effects(after, MenuItem::CopyToClipboard, source);
    assert(e[1] == MenuEffect::SetEnabled(MenuItem::EditAfterCapture, after.edit_after_capture));
}

/// An item that is not a setting leaves the settings as they are, from
/// whatever source it comes.
pub proof fn law_other_items_keep_settings(t: Toggles, i: MenuItem)
    ensures
        i != MenuItem::CaptureMousePointer && i != MenuItem::CopyToClipboard && i != MenuItem::EditAfterCapture
            && i != MenuItem::RecordExternalAudio && i != MenuItem::OpenAfterRecord ==> toggled(t, i) == t,
{
}

/// A checked item always shows the setting as it now is.
pub proof fn law_selection_shows_setting(t: Toggles, i: MenuItem, source: MenuSource, j: MenuItem, b: bool)
    ensures
        menu_effects(toggled(t, i), i, source).contains(MenuEffect::SetSelected(j, b)) ==> j == i && b == setting_of(
            toggled(t, i),
            i,
        ),
{
}

/// The value of the setting that an item switches.
pub open spec fn setting_of(t: Toggles, i: MenuItem) -> bool {
    match i {
        MenuItem::CaptureMousePointer => t.capture_mouse_pointer,
        MenuItem::CopyToClipboard => t.copy_to_clipboard,
        MenuItem::EditAfterCapture => t.edit_after_capture,
        MenuItem::RecordExternalAudio => t.record_external_audio,
        _ => t.open_after_record,
    }
}

/// The settings at start, by field: only editing after a capture and
/// opening after a recording are on.
pub proof fn law_initial_settings()
    ensures
        !initial_toggles().capture_mouse_pointer,
        !initial_toggles().copy_to_clipboard,
        initial_toggles().edit_after_capture,
        !initial_toggles().record_external_audio,
        initial_toggles().open_after_record,
{
}

/// Choosing a setting item flips exactly its own setting and keeps every
/// other one; choosing the clipboard flips it and sets editing to the
/// opposite of the new clipboard setting.
pub proof fn law_choice_flips_its_setting(t: Toggles)
    ensures
        toggled(t, MenuItem::CaptureMousePointer) == (Toggles {
            capture_mouse_pointer: !t.capture_mouse_pointer,
            copy_to_clipboard: t.copy_to_clipboard,
            edit_after_capture: t.edit_after_capture,
            record_external_audio: t.record_external_audio,
            open_after_record: t.open_after_record,
        }),
        toggled(t, MenuItem::CopyToClipboard) == (Toggles {
            capture_mouse_pointer: t.capture_mouse_pointer,
            copy_to_clipboard: !t.copy_to_clipboard,
            edit_after_capture: t.copy_to_clipboard,
            record_external_audio: t.record_external_audio,
            open_after_record: t.open_after_record,
        }),
        toggled(t, MenuItem::EditAfterCapture) == (Toggles {
            capture_mouse_pointer: t.capture_mouse_pointer,
            copy_to_clipboard: t.copy_to_clipboard,
            edit_after_capture: !t.edit_after_capture,
            record_external_audio: t.record_external_audio,
            open_after_record: t.open_after_record,
        }),
        toggled(t, MenuItem::RecordExternalAudio) == (Toggles {
            capture_mouse_pointer: t.capture_mouse_pointer,
            copy_to_clipboard: t.copy_to_clipboard,
            edit_after_capture: t.edit_after_capture,
            record_external_audio: !t.record_external_audio,
            open_after_record: t.open_after_record,
        }),
        toggled(t, MenuItem::OpenAfterRecord) == (Toggles {
            capture_mouse_pointer: t.capture_mouse_pointer,
            copy_to_clipboard: t.copy_to_clipboard,
            edit_after_capture: t.edit_after_capture,
            record_external_audio: t.record_external_audio,
            open_after_record: !t.open_after_record,
        }),
{
}

/// What a choice does to the windows, from the settings before it: a setting
/// item is checked exactly when its setting was off; the clipboard item also
/// enables editing exactly when the clipboard was on; the settings window is
/// shown from either menu and the page opened from the main menu (the
/// repository) or another (the README), and a global shortcut does neither;
/// the items that start or stop a capture do nothing to the windows.
pub proof fn law_choice_effects(t: Toggles, source: MenuSource)
    ensures
        menu_effects(toggled(t, MenuItem::CaptureMousePointer), MenuItem::CaptureMousePointer, source)
            == seq![MenuEffect::SetSelected(MenuItem::CaptureMousePointer, !t.capture_mouse_pointer)],
        menu_effects(toggled(t, MenuItem::CopyToClipboard), MenuItem::CopyToClipboard, source) == seq![
            MenuEffect::SetSelected(MenuItem::CopyToClipboard, !t.copy_to_clipboard),
            MenuEffect::SetEnabled(MenuItem::EditAfterCapture, t.copy_to_clipboard),
        ],
        menu_effects(toggled(t, MenuItem::EditAfterCapture), MenuItem::EditAfterCapture, source)
            == seq![MenuEffect::SetSelected(MenuItem::EditAfterCapture, !t.edit_after_capture)],
        menu_effects(toggled(t, MenuItem::RecordExternalAudio), MenuItem::RecordExternalAudio, source)
            == seq![MenuEffect::SetSelected(MenuItem::RecordExternalAudio, !t.record_external_audio)],
        menu_effects(toggled(t, MenuItem::OpenAfterRecord), MenuItem::OpenAfterRecord, source)
            == seq![MenuEffect::SetSelected(MenuItem::OpenAfterRecord, !t.open_after_record)],
        source != MenuSource::GlobalHotkey ==> menu_effects(toggled(t, MenuItem::ChangeHotkeys), MenuItem::ChangeHotkeys, source)
            == seq![MenuEffect::ShowHotkeys],
        source == MenuSource::MainWindow ==> menu_effects(toggled(t, MenuItem::LearnMore), MenuItem::LearnMore, source)
            == seq![MenuEffect::OpenPage(Page::Repository)],
        source == MenuSource::OtherWindow ==> menu_effects(toggled(t, MenuItem::LearnMore), MenuItem::LearnMore, source)
            == seq![MenuEffect::OpenPage(Page::Readme)],
        source == MenuSource::GlobalHotkey ==> menu_effects(toggled(t, MenuItem::ChangeHotkeys), MenuItem::ChangeHotkeys, source).len() == 0
            && menu_effects(toggled(t, MenuItem::LearnMore), MenuItem::LearnMore, source).len() == 0,
        forall|i: MenuItem| #![trigger toggled(t, i)]
            i == MenuItem::FullscreenCapture || i == MenuItem::CustomCapture || i == MenuItem::FullscreenRecord
            || i == MenuItem::CustomRecord || i == MenuItem::StopRecording ==> toggled(t, i) == t && menu_effects(t, i, source).len() == 0,
{
}

// ---------------------------------------------------------------------------
// Recording and helper windows
// ---------------------------------------------------------------------------

/// The menu items enabled while recording or not: only "Stop Recording"
/// while recording, only the two ways to start one otherwise.
pub open spec fn recording_menu_spec(recording: bool) -> Seq<(MenuItem, bool)> {
    seq![
        (MenuItem::StopRecording, recording),
        (MenuItem::CustomRecord, !recording),
        (MenuItem::FullscreenRecord, !recording),
    ]
}

/// The items to enable or disable when a recording starts or stops.
pub fn recording_menu(recording: bool) -> (v: Vec<(MenuItem, bool)>)
    ensures
        v@ == recording_menu_spec(recording),
{
    let mut v: Vec<(MenuItem, bool)> = Vec::new();
    v.push((MenuItem::StopRecording, recording));
    v.push((MenuItem::CustomRecord, !recording));
    v.push((MenuItem::FullscreenRecord, !recording));
    assert(v@ =~= recording_menu_spec(recording));
    v
}

/// A recording can be stopped exactly while it runs, and started again
/// exactly when it stopped.
pub proof fn law_recording_menu(recording: bool)
    ensures
        recording_menu_spec(recording)[0].1 == recording,
        recording_menu_spec(recording)[1].1 == !recording,
        recording_menu_spec(recording)[2].1 == !recording,
{
}

/// The label of the helper window that covers display `i`.
pub fn helper_label(i: usize) -> (s: String)
    ensures
        s@ == "helper_"@ + decimal(i as nat),
{
    let mut s = owned("helper_");
    push_decimal(&mut s, i as u64);
    s
}

} // verus!
