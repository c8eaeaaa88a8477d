use vstd::prelude::*;
use crate::menu::MenuItem;
use crate::hotkeys::Hotkeys;
use crate::response::opt_chars;
use crate::text::owned;

verus! {

/// The items that the platform's menus provide themselves.
#[derive(Clone, Copy, Debug, PartialEq, Eq, Structural)]
pub enum NativeItem {
    Services,
    Separator,
    Hide,
    HideOthers,
    ShowAll,
    Quit,
}

/// An entry of a menu: an item of the platform, or one of the application's
/// items with its shortcut, checked or not, disabled or not.
#[derive(Clone, Debug)]
pub enum MenuEntry {
    Native(NativeItem),
    Custom { item: MenuItem, accelerator: Option<String>, selected: bool, disabled: bool },
}

/// A menu of the menu bar: its title and its entries.
#[derive(Clone, Debug)]
pub struct Submenu {
    pub title: String,
    pub entries: Vec<MenuEntry>,
}

/// What an entry shows, its shortcut as characters.
pub enum EntryView {
    Native(NativeItem),
    Custom(MenuItem, Option<Seq<char>>, bool, bool),
}

pub open spec fn entry_view(e: MenuEntry) -> EntryView {
    match e {
        MenuEntry::Native(n) => EntryView::Native(n),
        MenuEntry::Custom { item, accelerator, selected, disabled } => EntryView::Custom(item, opt_chars(accelerator), selected, disabled),
    }
}

/// What a menu bar shows: each menu's title and entries.
pub open spec fn menu_bar_view(v: Seq<Submenu>) -> Seq<(Seq<char>, Seq<EntryView>)> {
    v.map_values(|s: Submenu| (s.title@, s.entries@.map_values(|e: MenuEntry| entry_view(e))))
}

/// An item of the application with a shortcut.
pub open spec fn keyed(i: MenuItem, k: String) -> EntryView {
    EntryView::Custom(i, Some(k@), false, false)
}

/// The menu bar of the application's windows, with the shortcuts of `hk`:
/// the application menu, then Capture, Record, Settings and Help. "Edit After
/// Capture" and "Open After Record" start checked, "Stop Recording" starts
/// disabled.
pub open spec fn menu_bar(hk: Hotkeys) -> Seq<(Seq<char>, Seq<EntryView>)> {
    seq![
        ("Screen Crab"@, seq![
            EntryView::Native(NativeItem::Services),
            EntryView::Native(NativeItem::Separator),
            EntryView::Native(NativeItem::Hide),
            EntryView::Native(NativeItem::HideOthers),
            EntryView::Native(NativeItem::ShowAll),
            EntryView::Native(NativeItem::Separator),
            EntryView::Native(NativeItem::Quit),
        ]),
        ("Capture"@, seq![
            keyed(MenuItem::FullscreenCapture, hk.fullscreen_capture),
            keyed(MenuItem::CustomCapture, hk.custom_capture),
            EntryView::Native(NativeItem::Separator),
            keyed(MenuItem::CaptureMousePointer, hk.capture_mouse_pointer),
            keyed(MenuItem::CopyToClipboard, hk.copy_to_clipboard),
            EntryView::Custom(MenuItem::EditAfterCapture, Some(hk.edit_after_capture@), true, false),
        ]),
        ("Record"@, seq![
            keyed(MenuItem::FullscreenRecord, hk.fullscreen_record),
            keyed(MenuItem::CustomRecord, hk.custom_record),
            EntryView::Custom(MenuItem::StopRecording, Some(hk.stop_recording@), false, true),
            EntryView::Native(NativeItem::Separator),
            keyed(MenuItem::RecordExternalAudio, hk.record_external_audio),
            EntryView::Custom(MenuItem::OpenAfterRecord, Some(hk.open_after_record@), true, false),
        ]),
        ("Settings"@, seq![EntryView::Custom(MenuItem::ChangeHotkeys, None, false, false)]),
        ("Help"@, seq![EntryView::Custom(MenuItem::LearnMore, None, false, false)]),
    ]
}

fn custom(item: MenuItem, accelerator: Option<String>, selected: bool, disabled: bool) -> (e: MenuEntry)
    ensures
        entry_view(e) == EntryView::Custom(item, opt_chars(accelerator), selected, disabled),
{
    MenuEntry::Custom { item, accelerator, selected, disabled }
}

fn keyed_entry(item: MenuItem, k: &String) -> (e: MenuEntry)
    ensures
        entry_view(e) == keyed(item, *k),
{
    custom(item, Some(k.clone()), false, false)
}

fn submenu(title: &str, entries: Vec<MenuEntry>) -> (s: Submenu)
    ensures
        s.title@ == title@,
        s.entries == entries,
{
    Submenu { title: owned(title), entries }
}

/// The menu bar of the application's windows, with the shortcuts of `hk`.
pub fn create_context_menu(hk: &Hotkeys) -> (v: Vec<Submenu>)
    ensures
        menu_bar_view(v@) == menu_bar(*hk),
{
    let mut app: Vec<MenuEntry> = Vec::new();
    app.push(MenuEntry::Native(NativeItem::Services));
    app.push(MenuEntry::Native(NativeItem::Separator));
    app.push(MenuEntry::Native(NativeItem::Hide));
    app.push(MenuEntry::Native(NativeItem::HideOthers));
    app.push(MenuEntry::Native(NativeItem::ShowAll));
    app.push(MenuEntry::Native(NativeItem::Separator));
    app.push(MenuEntry::Native(NativeItem::Quit));

    let mut capture: Vec<MenuEntry> = Vec::new();
    capture.push(keyed_entry(MenuItem::FullscreenCapture, &hk.fullscreen_capture));
    capture.push(keyed_entry(MenuItem::CustomCapture, &hk.custom_capture));
    capture.push(MenuEntry::Native(NativeItem::Separator));
    capture.push(keyed_entry(MenuItem::CaptureMousePointer, &hk.capture_mouse_pointer));
    capture.push(keyed_entry(MenuItem::CopyToClipboard, &hk.copy_to_clipboard));
    capture.push(custom(MenuItem::EditAfterCapture, Some(hk.edit_after_capture.clone()), true, false));

    let mut record: Vec<MenuEntry> = Vec::new();
    record.push(keyed_entry(MenuItem::FullscreenRecord, &hk.fullscreen_record));
    record.push(keyed_entry(MenuItem::CustomRecord, &hk.custom_record));
    record.push(custom(MenuItem::StopRecording, Some(hk.stop_recording.clone()), false, true));
    record.push(MenuEntry::Native(NativeItem::Separator));
    record.push(keyed_entry(MenuItem::RecordExternalAudio, &hk.record_external_audio));
    record.push(custom(MenuItem::OpenAfterRecord, Some(hk.open_after_record.clone()), true, false));

    let mut settings: Vec<MenuEntry> = Vec::new();
    settings.push(custom(MenuItem::ChangeHotkeys, None, false, false));

    let mut help: Vec<MenuEntry> = Vec::new();
    help.push(custom(MenuItem::LearnMore, None, false, false));

    let ghost bar = menu_bar(*hk);
    assert(app@.map_values(|e: MenuEntry| entry_view(e)) =~= bar[0].1);
    assert(capture@.map_values(|e: MenuEntry| entry_view(e)) =~= bar[1].1);
    assert(record@.map_values(|e: MenuEntry| entry_view(e)) =~= bar[2].1);
    assert(settings@.map_values(|e: MenuEntry| entry_view(e)) =~= bar[3].1);
    assert(help@.map_values(|e: MenuEntry| entry_view(e)) =~= bar[4].1);

    let mut v: Vec<Submenu> = Vec::new();
    v.push(submenu("Screen Crab", app));
    v.push(submenu("Capture", capture));
    v.push(submenu("Record", record));
    v.push(submenu("Settings", settings));
    v.push(submenu("Help", help));
    assert(menu_bar_view(v@) =~= bar);
    v
}

/// The menu bar of the selector window: the same as that of the other
/// windows.
pub fn create_selector_menu(hk: &Hotkeys) -> (v: Vec<Submenu>)
    ensures
        menu_bar_view(v@) == menu_bar(*hk),
{
    create_context_menu(hk)
}

} // verus!
