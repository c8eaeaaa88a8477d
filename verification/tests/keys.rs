use screencrab::keys::{parse_key_combination, create_mapping, try_create_mapping, mapping_of_entries, Key, KeyCombination, Modifiers};
use screencrab::hotkeys::{default_hotkeys_file, menu_default_hotkeys_file};

fn mods(ctrl: bool, shift: bool, win: bool, alt: bool) -> Modifiers {
    Modifiers { ctrl, shift, win, alt }
}

#[test]
fn shortcut_with_two_modifiers() {
    assert_eq!(
        parse_key_combination("CmdOrCtrl+Option+C"),
        KeyCombination { modifiers: mods(true, false, false, true), key: Key::C }
    );
}

#[test]
fn first_modifier_replaces_the_default() {
    assert_eq!(
        parse_key_combination("Option+A"),
        KeyCombination { modifiers: mods(false, false, false, true), key: Key::A }
    );
    assert_eq!(
        parse_key_combination("Shift+Win+Alt+9"),
        KeyCombination { modifiers: mods(false, true, true, true), key: Key::Number9 }
    );
}

#[test]
fn lower_case_letter_is_not_a_key() {
    assert_eq!(
        parse_key_combination("Control+f"),
        KeyCombination { modifiers: mods(true, false, false, false), key: Key::A }
    );
}

#[test]
fn key_alone_keeps_ctrl() {
    assert_eq!(
        parse_key_combination("Z"),
        KeyCombination { modifiers: mods(true, false, false, false), key: Key::Z }
    );
    assert_eq!(parse_key_combination(""), KeyCombination { modifiers: mods(true, false, false, false), key: Key::A });
}

#[test]
fn last_key_wins_and_unknown_parts_are_skipped() {
    assert_eq!(
        parse_key_combination("Alt+Q+Foo+0"),
        KeyCombination { modifiers: mods(false, false, false, true), key: Key::Number0 }
    );
    assert_eq!(
        parse_key_combination("Foo+Shift+B"),
        KeyCombination { modifiers: mods(true, true, false, false), key: Key::B }
    );
}

#[test]
fn mapping_reads_the_default_file() {
    let m = create_mapping(&default_hotkeys_file());
    assert_eq!(m.len(), 10);
    let get = |a: &str| m.iter().find(|(k, _)| k == a).map(|(_, v)| *v).unwrap();
    assert_eq!(get("stop_recording"), KeyCombination { modifiers: mods(true, false, false, true), key: Key::S });
    assert_eq!(get("capture_mouse_pointer"), KeyCombination { modifiers: mods(false, false, false, true), key: Key::M });
    let m2 = create_mapping(&menu_default_hotkeys_file());
    assert_eq!(m2.len(), 10);
}

#[test]
fn mapping_is_in_key_order_and_skips_other_values() {
    let m = create_mapping(r#"{"b": "Shift+B", "a": "Alt+1", "n": 5, "z": null}"#);
    assert_eq!(m.len(), 2);
    assert_eq!(m[0].0, "a");
    assert_eq!(m[0].1, KeyCombination { modifiers: mods(false, false, false, true), key: Key::Number1 });
    assert_eq!(m[1].0, "b");
}

#[test]
fn mapping_of_text_that_is_no_object_is_none() {
    assert!(try_create_mapping("[1, 2]").is_none());
    assert!(try_create_mapping("not json").is_none());
    assert!(try_create_mapping("\"Shift+A\"").is_none());
    assert!(try_create_mapping("null").is_none());
    assert_eq!(try_create_mapping("{}").map(|m| m.len()), Some(0));
    assert_eq!(create_mapping("{}").len(), 0);
}

#[test]
fn mapping_of_entries_keeps_order() {
    let e = vec![
        ("x".to_string(), Some("Win+X".to_string())),
        ("y".to_string(), None),
        ("w".to_string(), Some("W".to_string())),
    ];
    let m = mapping_of_entries(&e);
    assert_eq!(m.len(), 2);
    assert_eq!(m[0], ("x".to_string(), KeyCombination { modifiers: mods(false, false, true, false), key: Key::X }));
    assert_eq!(m[1], ("w".to_string(), KeyCombination { modifiers: mods(true, false, false, false), key: Key::W }));
}

#[test]
fn shortcut_written_and_read_back() {
    let names = [("CmdOrCtrl", 0), ("Shift", 1), ("Win", 2), ("Option", 3)];
    let keys = [("7", Key::Number7), ("Q", Key::Q), ("0", Key::Number0)];
    for mask in 0u32..16 {
        for (kname, key) in keys {
            let mut parts: Vec<&str> = names.iter().filter(|(_, b)| mask & (1 << b) != 0).map(|(n, _)| *n).collect();
            parts.push(kname);
            let text = parts.join("+");
            let expected = if mask == 0 {
                mods(true, false, false, false)
            } else {
                mods(mask & 1 != 0, mask & 2 != 0, mask & 4 != 0, mask & 8 != 0)
            };
            assert_eq!(parse_key_combination(&text), KeyCombination { modifiers: expected, key }, "{}", text);
        }
    }
}

#[test]
fn mapping_of_an_object_is_some() {
    let m = try_create_mapping(r#"{"stop": "Option+S"}"#).unwrap();
    assert_eq!(m, vec![("stop".to_string(), KeyCombination { modifiers: mods(false, false, false, true), key: Key::S })]);
}

#[test]
fn repeated_action_stands_once() {
    let m = create_mapping(r#"{"a": "Shift+A", "a": "Win+B"}"#);
    assert_eq!(m, vec![("a".to_string(), KeyCombination { modifiers: mods(false, false, true, false), key: Key::B })]);
}

#[test]
fn other_spellings_give_the_same_shortcut() {
    assert_eq!(parse_key_combination("CmdOrCtrl+Option+C"), parse_key_combination("Control+Alt+C"));
    assert_eq!(parse_key_combination("Option+7"), parse_key_combination("Alt+7"));
    assert_eq!(parse_key_combination("Shift+CmdOrCtrl+Z"), parse_key_combination("Shift+Control+Z"));
    let a = create_mapping(r#"{"x": "CmdOrCtrl+Option+C", "y": "Option+Shift+1", "z": 3}"#);
    let b = create_mapping(r#"{"x": "Control+Option+C", "y": "Alt+Shift+1", "z": 3}"#);
    assert_eq!(a, b);
}

#[test]
fn table_of_two_objects_is_the_union_of_their_tables() {
    let h1 = create_mapping(r#"{"b": "Shift+B", "d": "Win+4"}"#);
    let h2 = create_mapping(r#"{"a": "Alt+A", "c": 1}"#);
    let h = create_mapping(r#"{"b": "Shift+B", "d": "Win+4", "a": "Alt+A", "c": 1}"#);
    assert_eq!(h.len(), h1.len() + h2.len());
    for e in h1.iter().chain(h2.iter()) {
        assert!(h.contains(e));
    }
    for e in h.iter() {
        assert!(h1.contains(e) || h2.contains(e));
    }
}
