use vstd::prelude::*;
use crate::text::{chars_of, same_chars};
use crate::parse::{split, split_chars};
use crate::response::opt_chars;

verus! {

/// A modifier key of a shortcut.
#[derive(Clone, Copy, Debug, PartialEq, Eq, Structural)]
pub enum Modifier {
    Ctrl,
    Shift,
    Win,
    Alt,
}

/// The modifier keys held together in a shortcut.
#[derive(Clone, Copy, Debug, PartialEq, Eq, Structural)]
pub struct Modifiers {
    pub ctrl: bool,
    pub shift: bool,
    pub win: bool,
    pub alt: bool,
}

/// The key pressed with the modifiers of a shortcut.
#[derive(Clone, Copy, Debug, PartialEq, Eq, Structural)]
pub enum Key {
    Number1,
    Number2,
    Number3,
    Number4,
    Number5,
    Number6,
    Number7,
    Number8,
    Number9,
    Number0,
    A,
    B,
    C,
    D,
    E,
    F,
    G,
    H,
    I,
    J,
    K,
    L,
    M,
    N,
    O,
    P,
    Q,
    R,
    S,
    T,
    U,
    V,
    W,
    X,
    Y,
    Z,
}

/// A shortcut: modifier keys and one key.
#[derive(Clone, Copy, Debug, PartialEq, Eq, Structural)]
pub struct KeyCombination {
    pub modifiers: Modifiers,
    pub key: Key,
}

/// The set holding one modifier.
pub open spec fn only(m: Modifier) -> Modifiers {
    Modifiers {
        ctrl: m == Modifier::Ctrl,
        shift: m == Modifier::Shift,
        win: m == Modifier::Win,
        alt: m == Modifier::Alt,
    }
}

/// The set `ms` with the modifier `m` added.
pub open spec fn with(ms: Modifiers, m: Modifier) -> Modifiers {
    Modifiers {
        ctrl: ms.ctrl || m == Modifier::Ctrl,
        shift: ms.shift || m == Modifier::Shift,
        win: ms.win || m == Modifier::Win,
        alt: ms.alt || m == Modifier::Alt,
    }
}

/// The modifier that a part of a shortcut names.
pub open spec fn modifier_named(p: Seq<char>) -> Option<Modifier> {
    if p == "CmdOrCtrl"@ || p == "Control"@ {
        Some(Modifier::Ctrl)
    } else if p == "Shift"@ {
        Some(Modifier::Shift)
    } else if p == "Win"@ {
        Some(Modifier::Win)
    } else if p == "Option"@ || p == "Alt"@ {
        Some(Modifier::Alt)
    } else {
        None
    }
}

/// The key that a character names: a digit or an upper case letter.
pub open spec fn key_for_char(c: char) -> Option<Key> {
    if c == '1' { Some(Key::Number1) }
    else 
    if c == '2' { Some(Key::Number2) }
    else 
    if c == '3' { Some(Key::Number3) }
    else 
    if c == '4' { Some(Key::Number4) }
    else 
    if c == '5' { Some(Key::Number5) }
    else 
    if c == '6' { Some(Key::Number6) }
    else 
    if c == '7' { Some(Key::Number7) }
    else 
    if c == '8' { Some(Key::Number8) }
    else 
    if c == '9' { Some(Key::Number9) }
    else 
    if c == '0' { Some(Key::Number0) }
    else 
    if c == 'A' { Some(Key::A) }
    else 
    if c == 'B' { Some(Key::B) }
    else 
    if c == 'C' { Some(Key::C) }
    else 
    if c == 'D' { Some(Key::D) }
    else 
    if c == 'E' { Some(Key::E) }
    else 
    if c == 'F' { Some(Key::F) }
    else 
    if c == 'G' { Some(Key::G) }
    else 
    if c == 'H' { Some(Key::H) }
    else 
    if c == 'I' { Some(Key::I) }
    else 
    if c == 'J' { Some(Key::J) }
    else 
    if c == 'K' { Some(Key::K) }
    else 
    if c == 'L' { Some(Key::L) }
    else 
    if c == 'M' { Some(Key::M) }
    else 
    if c == 'N' { Some(Key::N) }
    else 
    if c == 'O' { Some(Key::O) }
    else 
    if c == 'P' { Some(Key::P) }
    else 
    if c == 'Q' { Some(Key::Q) }
    else 
    if c == 'R' { Some(Key::R) }
    else 
    if c == 'S' { Some(Key::S) }
    else 
    if c == 'T' { Some(Key::T) }
    else 
    if c == 'U' { Some(Key::U) }
    else 
    if c == 'V' { Some(Key::V) }
    else 
    if c == 'W' { Some(Key::W) }
    else 
    if c == 'X' { Some(Key::X) }
    else 
    if c == 'Y' { Some(Key::Y) }
    else 
    if c == 'Z' { Some(Key::Z) }
    else { None }
}

/// The key that a part of a shortcut names.
pub open spec fn key_named(p: Seq<char>) -> Option<Key> {
    if p.len() == 1 {
        key_for_char(p[0])
    } else {
        None
    }
}

/// The shortcut read so far from its first `parts.len()` parts: a modifier in
/// the first part starts the set anew, one in a later part joins it, a key
/// name sets the key, and any other part changes nothing. Before any part the
/// shortcut is Ctrl with the key A.
pub open spec fn read_parts(parts: Seq<Seq<char>>) -> KeyCombination
    decreases parts.len(),
{
    if parts.len() == 0 {
        KeyCombination { modifiers: only(Modifier::Ctrl), key: Key::A }
    } else {
        let before = read_parts(parts.drop_last());
        let p = parts.last();
        match modifier_named(p) {
            Some(m) => KeyCombination {
                modifiers: if parts.len() == 1 { only(m) } else { with(before.modifiers, m) },
                key: before.key,
            },
            None => match key_named(p) {
                Some(k) => KeyCombination { modifiers: before.modifiers, key: k },
                None => before,
            },
        }
    }
}

/// The shortcut that a text such as "CmdOrCtrl+Option+C" names.
pub open spec fn key_combination_of(text: Seq<char>) -> KeyCombination {
    read_parts(split(text, '+'))
}

fn key_for(c: char) -> (k: Option<Key>)
    ensures
        k == key_for_char(c),
{
    match c {
        '1' => Some(Key::Number1),
        '2' => Some(Key::Number2),
        '3' => Some(Key::Number3),
        '4' => Some(Key::Number4),
        '5' => Some(Key::Number5),
        '6' => Some(Key::Number6),
        '7' => Some(Key::Number7),
        '8' => Some(Key::Number8),
        '9' => Some(Key::Number9),
        '0' => Some(Key::Number0),
        'A' => Some(Key::A),
        'B' => Some(Key::B),
        'C' => Some(Key::C),
        'D' => Some(Key::D),
        'E' => Some(Key::E),
        'F' => Some(Key::F),
        'G' => Some(Key::G),
        'H' => Some(Key::H),
        'I' => Some(Key::I),
        'J' => Some(Key::J),
        'K' => Some(Key::K),
        'L' => Some(Key::L),
        'M' => Some(Key::M),
        'N' => Some(Key::N),
        'O' => Some(Key::O),
        'P' => Some(Key::P),
        'Q' => Some(Key::Q),
        'R' => Some(Key::R),
        'S' => Some(Key::S),
        'T' => Some(Key::T),
        'U' => Some(Key::U),
        'V' => Some(Key::V),
        'W' => Some(Key::W),
        'X' => Some(Key::X),
        'Y' => Some(Key::Y),
        'Z' => Some(Key::Z),
        _ => None,
    }
}

fn modifier_for(p: &Vec<char>) -> (m: Option<Modifier>)
    ensures
        m == modifier_named(p@),
{
    if same_chars(p, &chars_of("CmdOrCtrl")) || same_chars(p, &chars_of("Control")) {
        Some(Modifier::Ctrl)
    } else if same_chars(p, &chars_of("Shift")) {
        Some(Modifier::Shift)
    } else if same_chars(p, &chars_of("Win")) {
        Some(Modifier::Win)
    } else if same_chars(p, &chars_of("Option")) || same_chars(p, &chars_of("Alt")) {
        Some(Modifier::Alt)
    } else {
        None
    }
}

fn only_modifier(m: Modifier) -> (ms: Modifiers)
    ensures
        ms == only(m),
{
    Modifiers {
        ctrl: m == Modifier::Ctrl,
        shift: m == Modifier::Shift,
        win: m == Modifier::Win,
        alt: m == Modifier::Alt,
    }
}

fn with_modifier(ms: Modifiers, m: Modifier) -> (r: Modifiers)
    ensures
        r == with(ms, m),
{
    Modifiers {
        ctrl: ms.ctrl || m == Modifier::Ctrl,
        shift: ms.shift || m == Modifier::Shift,
        win: ms.win || m == Modifier::Win,
        alt: ms.alt || m == Modifier::Alt,
    }
}

/// Reads a shortcut such as "CmdOrCtrl+Option+C": the parts between the '+'
/// signs are read from left to right.
pub fn parse_key_combination(text: &str) -> (kc: KeyCombination)
    ensures
        kc == key_combination_of(text@),
{
    let cs = chars_of(text);
    let parts = split_chars(&cs, '+');
    let ghost sp = split(cs@, '+');
    let mut kc = KeyCombination { modifiers: only_modifier(Modifier::Ctrl), key: Key::A };
    let mut i: usize = 0;
    assert(sp.take(0) =~= Seq::<Seq<char>>::empty());
    while i < parts.len()
        invariant
            i <= parts@.len(),
            parts@.len() == sp.len(),
            forall|j: int| 0 <= j < parts@.len() ==> #[trigger] parts@[j]@ == sp[j],
            kc == read_parts(sp.take(i as int)),
        decreases parts.len() - i,
    {
        let part = &parts[i];
        proof {
            assert(sp.take(i + 1).drop_last() =~= sp.take(i as int));
            assert(sp.take(i + 1).last() == part@);
        }
        match modifier_for(part) {
            Some(m) => {
                if i == 0 {
                    kc = KeyCombination { modifiers: only_modifier(m), key: kc.key };
                } else {
                    kc = KeyCombination { modifiers: with_modifier(kc.modifiers, m), key: kc.key };
                }
            },
            None => {
                if part.len() == 1 {
                    match key_for(part[0]) {
                        Some(k) => {
                            kc = KeyCombination { modifiers: kc.modifiers, key: k };
                        },
                        None => {},
                    }
                }
            },
        }
        i = i + 1;
    }
    assert(sp.take(parts@.len() as int) =~= sp);
    kc
}


// ---------------------------------------------------------------------------
// Writing a shortcut and reading it back
// ---------------------------------------------------------------------------

/// The name of a modifier as the shortcut file writes it.
pub open spec fn modifier_name(m: Modifier) -> Seq<char> {
    match m {
        Modifier::Ctrl => "CmdOrCtrl"@,
        Modifier::Shift => "Shift"@,
        Modifier::Win => "Win"@,
        Modifier::Alt => "Option"@,
    }
}

/// The character that names a key.
pub open spec fn key_char(k: Key) -> char {
    match k {
        Key::Number1 => '1',
        Key::Number2 => '2',
        Key::Number3 => '3',
        Key::Number4 => '4',
        Key::Number5 => '5',
        Key::Number6 => '6',
        Key::Number7 => '7',
        Key::Number8 => '8',
        Key::Number9 => '9',
        Key::Number0 => '0',
        Key::A => 'A',
        Key::B => 'B',
        Key::C => 'C',
        Key::D => 'D',
        Key::E => 'E',
        Key::F => 'F',
        Key::G => 'G',
        Key::H => 'H',
        Key::I => 'I',
        Key::J => 'J',
        Key::K => 'K',
        Key::L => 'L',
        Key::M => 'M',
        Key::N => 'N',
        Key::O => 'O',
        Key::P => 'P',
        Key::Q => 'Q',
        Key::R => 'R',
        Key::S => 'S',
        Key::T => 'T',
        Key::U => 'U',
        Key::V => 'V',
        Key::W => 'W',
        Key::X => 'X',
        Key::Y => 'Y',
        Key::Z => 'Z',
    }
}

/// Parts joined with '+' between them.
pub open spec fn join_plus(parts: Seq<Seq<char>>) -> Seq<char>
    decreases parts.len(),
{
    if parts.len() == 0 {
        Seq::empty()
    } else if parts.len() == 1 {
        parts[0]
    } else {
        join_plus(parts.drop_last()) + seq!['+'] + parts.last()
    }
}

/// The text of a shortcut: the names of its modifiers, then its key, joined
/// with '+'.
pub open spec fn shortcut_text(ms: Seq<Modifier>, k: Key) -> Seq<char> {
    join_plus(ms.map_values(|m: Modifier| modifier_name(m)).push(seq![key_char(k)]))
}

/// The modifiers of a shortcut that names `ms`: Ctrl when it names none.
pub open spec fn modifiers_of(ms: Seq<Modifier>) -> Modifiers
    decreases ms.len(),
{
    if ms.len() == 0 {
        only(Modifier::Ctrl)
    } else if ms.len() == 1 {
        only(ms[0])
    } else {
        with(modifiers_of(ms.drop_last()), ms.last())
    }
}

proof fn lemma_names()
    ensures
        forall|m: Modifier| #[trigger] modifier_named(modifier_name(m)) == Some(m),
        forall|m: Modifier, i: int| 0 <= i < modifier_name(m).len() ==> #[trigger] modifier_name(m)[i] != '+',
        forall|c: char| #[trigger] modifier_named(seq![c]) is None,
{
    reveal_strlit("CmdOrCtrl");
    reveal_strlit("Control");
    reveal_strlit("Shift");
    reveal_strlit("Win");
    reveal_strlit("Option");
    reveal_strlit("Alt");
    assert("CmdOrCtrl"@.len() == 9);
    assert("Control"@.len() == 7);
    assert("Shift"@.len() == 5);
    assert("Win"@.len() == 3);
    assert("Option"@.len() == 6);
    assert("Alt"@.len() == 3);
    assert("Win"@[0] == 'W' && "Alt"@[0] == 'A');
    assert("Win"@ != "Alt"@);
    assert(modifier_named(modifier_name(Modifier::Ctrl)) == Some(Modifier::Ctrl));
    assert(modifier_named(modifier_name(Modifier::Shift)) == Some(Modifier::Shift));
    assert(modifier_named(modifier_name(Modifier::Win)) == Some(Modifier::Win));
    assert(modifier_named(modifier_name(Modifier::Alt)) == Some(Modifier::Alt));
    assert forall|c: char| #[trigger] modifier_named(seq![c]) is None by {
        assert(seq![c].len() == 1);
    }
}

proof fn lemma_split_plain(x: Seq<char>, p: Seq<char>)
    requires
        forall|i: int| 0 <= i < p.len() ==> p[i] != '+',
    ensures
        split(x + p, '+') == split(x, '+').update(split(x, '+').len() - 1, split(x, '+').last() + p),
    decreases p.len(),
{
    crate::parse::lemma_split_nonempty(x, '+');
    if p.len() == 0 {
        assert(x + p =~= x);
        assert(split(x, '+').last() + p =~= split(x, '+').last());
        assert(split(x, '+').update(split(x, '+').len() - 1, split(x, '+').last()) =~= split(x, '+'));
    } else {
        let q = p.drop_last();
        lemma_split_plain(x, q);
        assert((x + p).drop_last() =~= x + q);
        assert((x + p).last() == p.last());
        assert(q.push(p.last()) =~= p);
        crate::parse::lemma_split_nonempty(x + q, '+');
        assert(split(x + p, '+') =~= split(x, '+').update(split(x, '+').len() - 1, split(x, '+').last() + p));
    }
}

proof fn lemma_split_join(parts: Seq<Seq<char>>)
    requires
        parts.len() >= 1,
        forall|j: int, i: int| 0 <= j < parts.len() && 0 <= i < parts[j].len() ==> #[trigger] parts[j][i] != '+',
    ensures
        split(join_plus(parts), '+') == parts,
    decreases parts.len(),
{
    if parts.len() == 1 {
        lemma_split_plain(Seq::empty(), parts[0]);
        assert(Seq::<char>::empty() + parts[0] =~= parts[0]);
        assert(split(Seq::<char>::empty(), '+') =~= seq![Seq::<char>::empty()]);
        assert(Seq::<char>::empty() + parts[0] =~= parts[0]);
        assert(split(parts[0], '+') =~= parts);
    } else {
        let front = parts.drop_last();
        lemma_split_join(front);
        let a = join_plus(front) + seq!['+'];
        assert(a.drop_last() =~= join_plus(front));
        crate::parse::lemma_split_nonempty(join_plus(front), '+');
        assert(split(a, '+') =~= front.push(Seq::empty()));
        lemma_split_plain(a, parts.last());
        assert(Seq::<char>::empty() + parts.last() =~= parts.last());
        assert(split(join_plus(parts), '+') =~= parts);
    }
}

proof fn lemma_read_modifiers(ms: Seq<Modifier>)
    ensures
        read_parts(ms.map_values(|m: Modifier| modifier_name(m)))
            == (KeyCombination { modifiers: modifiers_of(ms), key: Key::A }),
    decreases ms.len(),
{
    lemma_names();
    let names = ms.map_values(|m: Modifier| modifier_name(m));
    if ms.len() > 0 {
        lemma_read_modifiers(ms.drop_last());
        assert(names.drop_last() =~= ms.drop_last().map_values(|m: Modifier| modifier_name(m)));
        assert(names.last() == modifier_name(ms.last()));
    }
}

/// Writing a shortcut as the names of its modifiers and of its key, joined
/// with '+', and reading it back gives the same modifiers (Ctrl when there
/// are none) and the same key.
pub proof fn law_shortcut_read_back(ms: Seq<Modifier>, k: Key)
    ensures
        key_combination_of(shortcut_text(ms, k)) == (KeyCombination { modifiers: modifiers_of(ms), key: k }),
{
    lemma_names();
    let names = ms.map_values(|m: Modifier| modifier_name(m));
    let parts = names.push(seq![key_char(k)]);
    assert forall|j: int, i: int| 0 <= j < parts.len() && 0 <= i < parts[j].len() implies #[trigger] parts[j][i] != '+' by {
        if j < names.len() {
            assert(parts[j] == modifier_name(ms[j]));
        }
    }
    lemma_split_join(parts);
    lemma_read_modifiers(ms);
    assert(parts.drop_last() =~= names);
    assert(key_for_char(key_char(k)) == Some(k));
}

// ---------------------------------------------------------------------------
// The table of shortcuts
// ---------------------------------------------------------------------------

/// What serde_json reads from `text` when it reads a JSON object: its entries
/// in the order of its map, each with its value when that value is a string;
/// `None` when `text` is not JSON or not an object.
pub uninterp spec fn json_object_entries(text: Seq<char>) -> Option<Seq<(Seq<char>, Option<Seq<char>>)>>;

/// The characters of the entries of a table of texts.
pub open spec fn entries_view(v: Seq<(String, Option<String>)>) -> Seq<(Seq<char>, Option<Seq<char>>)> {
    v.map_values(|e: (String, Option<String>)| (e.0@, opt_chars(e.1)))
}

/// The characters of the actions of a table of shortcuts.
pub open spec fn mapping_view(v: Seq<(String, KeyCombination)>) -> Seq<(Seq<char>, KeyCombination)> {
    v.map_values(|e: (String, KeyCombination)| (e.0@, e.1))
}

/// No two entries have the same key.
pub open spec fn distinct_keys<V>(es: Seq<(Seq<char>, V)>) -> bool {
    forall|i: int, j: int| 0 <= i < j < es.len() ==> (#[trigger] es[i]).0 != (#[trigger] es[j]).0
}

/// Reads `text` with `serde_json::from_str` as a `serde_json::Value`, and
/// hands out the entries of the object it holds, each string value as a
/// string and any other value as `None`. The contract claims that the result
/// is the one that `json_object_entries` names for `text`, and that no two
/// entries have the same key: serde_json keeps an object in a `BTreeMap`,
/// where a repeated key keeps one value.
#[verifier::external_body]
fn read_json_object(text: &str) -> (r: Option<Vec<(String, Option<String>)>>)
    ensures
        match r {
            Some(v) => json_object_entries(text@) == Some(entries_view(v@)),
            None => json_object_entries(text@) is None,
        },
        r matches Some(v) ==> distinct_keys(entries_view(v@)),
{
    match serde_json::from_str::<serde_json::Value>(text) {
        Ok(serde_json::Value::Object(map)) => Some(
            map.into_iter().map(|(k, v)| match v {
                serde_json::Value::String(s) => (k, Some(s)),
                _ => (k, None),
            }).collect(),
        ),
        _ => None,
    }
}

/// The shortcut of every action whose value is a text, in the order of the
/// entries; actions with any other value are left out.
pub open spec fn mapping_of(entries: Seq<(Seq<char>, Option<Seq<char>>)>) -> Seq<(Seq<char>, KeyCombination)>
    decreases entries.len(),
{
    if entries.len() == 0 {
        Seq::empty()
    } else {
        let rest = mapping_of(entries.drop_last());
        match entries.last().1 {
            Some(v) => rest.push((entries.last().0, key_combination_of(v))),
            None => rest,
        }
    }
}

/// Reads the shortcut of every action whose value is a text.
pub fn mapping_of_entries(entries: &Vec<(String, Option<String>)>) -> (m: Vec<(String, KeyCombination)>)
    ensures
        mapping_view(m@) == mapping_of(entries_view(entries@)),
{
    let mut m: Vec<(String, KeyCombination)> = Vec::new();
    let mut i: usize = 0;
    let ghost ev = entries_view(entries@);
    assert(ev.take(0) =~= Seq::<(Seq<char>, Option<Seq<char>>)>::empty());
    assert(mapping_view(m@) =~= Seq::<(Seq<char>, KeyCombination)>::empty());
    while i < entries.len()
        invariant
            i <= entries@.len(),
            ev == entries_view(entries@),
            mapping_view(m@) == mapping_of(ev.take(i as int)),
        decreases entries.len() - i,
    {
        proof {
            assert(ev.take(i + 1).drop_last() =~= ev.take(i as int));
            assert(ev.take(i + 1).last() == ev[i as int]);
        }
        let entry = &entries[i];
        match &entry.1 {
            Some(v) => {
                let kc = parse_key_combination(v.as_str());
                let ghost before = m@;
                m.push((entry.0.clone(), kc));
                assert(mapping_view(m@) =~= mapping_view(before).push((entry.0@, kc)));
            },
            None => {},
        }
        i = i + 1;
    }
    assert(ev.take(entries@.len() as int) =~= ev);
    m
}

/// Reads the table of shortcuts from the text of the shortcut file, which
/// must be a JSON object from action to shortcut. No action stands in it twice.
pub fn create_mapping(text: &str) -> (m: Vec<(String, KeyCombination)>)
    requires
        json_object_entries(text@) is Some,
    ensures
        mapping_view(m@) == mapping_of(json_object_entries(text@)->0),
        distinct_keys(mapping_view(m@)),
{
    match read_json_object(text) {
        Some(entries) => {
            let m = mapping_of_entries(&entries);
            proof {
                lemma_mapping_keys(entries_view(entries@));
            }
            m
        },
        None => Vec::new(),
    }
}

/// Reads the table of shortcuts when the text is a JSON object, and answers
/// `None` when it is not.
pub fn try_create_mapping(text: &str) -> (m: Option<Vec<(String, KeyCombination)>>)
    ensures
        m is Some <==> json_object_entries(text@) is Some,
        m matches Some(v) ==> mapping_view(v@) == mapping_of(json_object_entries(text@)->0),
        m matches Some(v) ==> distinct_keys(mapping_view(v@)),
{
    match read_json_object(text) {
        Some(_) => Some(create_mapping(text)),
        None => None,
    }
}

/// Whether the table of entries gives the action `k` the shortcut `kc`.
pub open spec fn gives(es: Seq<(Seq<char>, Option<Seq<char>>)>, k: Seq<char>, kc: KeyCombination) -> bool {
    exists|i: int| 0 <= i < es.len() && (#[trigger] es[i]).0 == k && es[i].1 is Some && key_combination_of(es[i].1->0) == kc
}

/// Each action of the table stands among the entries, and where no key of
/// the entries repeats, no action of the table repeats.
proof fn lemma_mapping_keys(es: Seq<(Seq<char>, Option<Seq<char>>)>)
    ensures
        forall|j: int| 0 <= j < mapping_of(es).len() ==> exists|i: int| 0 <= i < es.len() && (#[trigger] es[i]).0 == (#[trigger] mapping_of(es)[j]).0,
        distinct_keys(es) ==> distinct_keys(mapping_of(es)),
    decreases es.len(),
{
    if es.len() > 0 {
        let d = es.drop_last();
        lemma_mapping_keys(d);
        let rest = mapping_of(d);
        let m = mapping_of(es);
        assert forall|j: int| 0 <= j < m.len() implies exists|i: int| 0 <= i < es.len() && (#[trigger] es[i]).0 == (#[trigger] m[j]).0 by {
            if j < rest.len() {
                assert(m[j] == rest[j]);
                let i = choose|i: int| 0 <= i < d.len() && (#[trigger] d[i]).0 == rest[j].0;
                assert(es[i] == d[i]);
            } else {
                assert(es[es.len() - 1].0 == m[j].0);
            }
        }
        if distinct_keys(es) {
            assert(distinct_keys(d)) by {
                assert forall|i: int, j: int| 0 <= i < j < d.len() implies (#[trigger] d[i]).0 != (#[trigger] d[j]).0 by {
                    assert(d[i] == es[i] && d[j] == es[j]);
                }
            }
            assert forall|a: int, b: int| 0 <= a < b < m.len() implies (#[trigger] m[a]).0 != (#[trigger] m[b]).0 by {
                if b < rest.len() {
                    assert(m[a] == rest[a] && m[b] == rest[b]);
                } else {
                    assert(m[a] == rest[a]);
                    let i = choose|i: int| 0 <= i < d.len() && (#[trigger] d[i]).0 == rest[a].0;
                    assert(es[i] == d[i]);
                    assert(es[es.len() - 1].0 == m[b].0);
                }
            }
        }
    }
}

// ---------------------------------------------------------------------------
// Other spellings of the modifiers
// ---------------------------------------------------------------------------

/// The other spelling of a part of a shortcut: "Option" is also written
/// "Alt", and "CmdOrCtrl" also "Control"; any other part has none.
pub open spec fn alias_of(p: Seq<char>) -> Seq<char> {
    if p == "Option"@ {
        "Alt"@
    } else if p == "CmdOrCtrl"@ {
        "Control"@
    } else {
        p
    }
}

/// `qs` are the parts of `s` between its '+' signs, each as it stands or in
/// its other spelling.
pub open spec fn respelled_parts(s: Seq<char>, qs: Seq<Seq<char>>) -> bool {
    let ps = split(s, '+');
    &&& qs.len() == ps.len()
    &&& forall|i: int| 0 <= i < ps.len() ==> #[trigger] qs[i] == ps[i] || qs[i] == alias_of(ps[i])
}

/// `t` is the shortcut `s` with some of its parts written in their other
/// spelling.
pub open spec fn respelled(s: Seq<char>, t: Seq<char>) -> bool {
    exists|qs: Seq<Seq<char>>| respelled_parts(s, qs) && t == join_plus(qs)
}

proof fn lemma_aliases()
    ensures
        forall|p: Seq<char>| #[trigger] modifier_named(alias_of(p)) == modifier_named(p),
        forall|p: Seq<char>| alias_of(p) != p ==> (#[trigger] alias_of(p)) == "Alt"@ || alias_of(p) == "Control"@,
        forall|i: int| 0 <= i < "Alt"@.len() ==> "Alt"@[i] != '+',
        forall|i: int| 0 <= i < "Control"@.len() ==> "Control"@[i] != '+',
{
    reveal_strlit("CmdOrCtrl");
    reveal_strlit("Control");
    reveal_strlit("Shift");
    reveal_strlit("Win");
    reveal_strlit("Option");
    reveal_strlit("Alt");
    assert("CmdOrCtrl"@.len() == 9);
    assert("Control"@.len() == 7);
    assert("Shift"@.len() == 5);
    assert("Win"@.len() == 3);
    assert("Option"@.len() == 6);
    assert("Alt"@.len() == 3);
    assert("Win"@[0] == 'W' && "Alt"@[0] == 'A');
    assert("Alt"@ != "Win"@);
    assert(modifier_named("Alt"@) == Some(Modifier::Alt));
    assert(modifier_named("Option"@) == Some(Modifier::Alt));
    assert(modifier_named("Control"@) == Some(Modifier::Ctrl));
    assert(modifier_named("CmdOrCtrl"@) == Some(Modifier::Ctrl));
}

proof fn lemma_split_parts_plain(s: Seq<char>)
    ensures
        forall|j: int, i: int| 0 <= j < split(s, '+').len() && 0 <= i < split(s, '+')[j].len() ==> #[trigger] split(s, '+')[j][i] != '+',
    decreases s.len(),
{
    if s.len() > 0 {
        lemma_split_parts_plain(s.drop_last());
        crate::parse::lemma_split_nonempty(s.drop_last(), '+');
        let prev = split(s.drop_last(), '+');
        let cur = split(s, '+');
        assert forall|j: int, i: int| 0 <= j < cur.len() && 0 <= i < cur[j].len() implies #[trigger] cur[j][i] != '+' by {
            if s.last() == '+' {
                if j < prev.len() {
                    assert(cur[j] == prev[j]);
                }
            } else if j < prev.len() - 1 {
                assert(cur[j] == prev[j]);
            } else {
                assert(cur[j] == prev.last().push(s.last()));
                if i < prev.last().len() {
                    assert(cur[j][i] == prev[prev.len() - 1][i]);
                }
            }
        }
    }
}

proof fn lemma_read_respelled(ps: Seq<Seq<char>>, qs: Seq<Seq<char>>)
    requires
        qs.len() == ps.len(),
        forall|i: int| 0 <= i < ps.len() ==> #[trigger] qs[i] == ps[i] || qs[i] == alias_of(ps[i]),
    ensures
        read_parts(qs) == read_parts(ps),
    decreases ps.len(),
{
    lemma_aliases();
    if ps.len() > 0 {
        lemma_read_respelled(ps.drop_last(), qs.drop_last());
        let p = ps.last();
        let q = qs.last();
        assert(q == qs[qs.len() - 1]);
        assert(modifier_named(q) == modifier_named(p));
        if q != p {
            assert(modifier_named(p) is Some) by {
                assert(q == alias_of(p));
            }
        }
    }
}

/// Writing some parts of a shortcut in their other spelling ("Alt" for
/// "Option", "Control" for "CmdOrCtrl") leaves the shortcut it names
/// unchanged.
pub proof fn law_respelled_shortcut(s: Seq<char>, qs: Seq<Seq<char>>)
    requires
        respelled_parts(s, qs),
    ensures
        key_combination_of(join_plus(qs)) == key_combination_of(s),
{
    lemma_aliases();
    lemma_split_parts_plain(s);
    crate::parse::lemma_split_nonempty(s, '+');
    let ps = split(s, '+');
    assert forall|j: int, i: int| 0 <= j < qs.len() && 0 <= i < qs[j].len() implies #[trigger] qs[j][i] != '+' by {
        if qs[j] != ps[j] {
            assert(qs[j] == alias_of(ps[j]));
        } else {
            assert(ps[j][i] != '+');
        }
    }
    lemma_split_join(qs);
    lemma_read_respelled(ps, qs);
}

/// `fs` is the table of entries `es` with some shortcuts written in other
/// spellings: the same actions in the same order, the same values that are
/// not texts, and each text respelled.
pub open spec fn respelled_entries(es: Seq<(Seq<char>, Option<Seq<char>>)>, fs: Seq<(Seq<char>, Option<Seq<char>>)>) -> bool {
    &&& fs.len() == es.len()
    &&& forall|i: int| 0 <= i < es.len() ==> (#[trigger] fs[i]).0 == (#[trigger] es[i]).0 && (fs[i].1 is Some <==> es[i].1 is Some)
    &&& forall|i: int| 0 <= i < es.len() && (#[trigger] es[i]).1 is Some ==> respelled(es[i].1->0, (#[trigger] fs[i]).1->0)
}

/// A shortcut file whose shortcuts are written with "Alt" in place of
/// "Option" or "Control" in place of "CmdOrCtrl", in any of them, gives the
/// same table of shortcuts.
pub proof fn law_respelled_table(es: Seq<(Seq<char>, Option<Seq<char>>)>, fs: Seq<(Seq<char>, Option<Seq<char>>)>)
    requires
        respelled_entries(es, fs),
    ensures
        mapping_of(fs) == mapping_of(es),
    decreases es.len(),
{
    if es.len() > 0 {
        let n = es.len() - 1;
        assert(respelled_entries(es.drop_last(), fs.drop_last())) by {
            assert forall|i: int| 0 <= i < n implies (#[trigger] fs.drop_last()[i]) == fs[i] && (#[trigger] es.drop_last()[i]) == es[i] by {}
        }
        law_respelled_table(es.drop_last(), fs.drop_last());
        assert(fs[n].0 == es[n].0);
        if es[n].1 is Some {
            let qs = choose|qs: Seq<Seq<char>>| respelled_parts(es[n].1->0, qs) && fs[n].1->0 == join_plus(qs);
            law_respelled_shortcut(es[n].1->0, qs);
        }
    }
}

// ---------------------------------------------------------------------------
// Tables of several objects
// ---------------------------------------------------------------------------

/// The table of entries placed one after another is the one table followed
/// by the other.
pub proof fn law_table_of_concat(a: Seq<(Seq<char>, Option<Seq<char>>)>, b: Seq<(Seq<char>, Option<Seq<char>>)>)
    ensures
        mapping_of(a + b) == mapping_of(a) + mapping_of(b),
    decreases b.len(),
{
    if b.len() == 0 {
        assert(a + b =~= a);
        assert(mapping_of(a) + mapping_of(b) =~= mapping_of(a));
    } else {
        law_table_of_concat(a, b.drop_last());
        assert((a + b).drop_last() =~= a + b.drop_last());
        assert((a + b).last() == b.last());
        match b.last().1 {
            Some(v) => {
                assert(mapping_of(a) + mapping_of(b) =~= (mapping_of(a) + mapping_of(b.drop_last())).push((b.last().0, key_combination_of(v))));
            },
            None => {},
        }
    }
}

/// What the table holds is what the entries give.
proof fn lemma_mapping_members(es: Seq<(Seq<char>, Option<Seq<char>>)>)
    ensures
        forall|k: Seq<char>, kc: KeyCombination| #[trigger] mapping_of(es).contains((k, kc)) <==> gives(es, k, kc),
    decreases es.len(),
{
    if es.len() > 0 {
        let d = es.drop_last();
        let n = es.len() - 1;
        lemma_mapping_members(d);
        let rest = mapping_of(d);
        let m = mapping_of(es);
        assert forall|k: Seq<char>, kc: KeyCombination| #[trigger] m.contains((k, kc)) <==> gives(es, k, kc) by {
            if m.contains((k, kc)) {
                let j = choose|j: int| 0 <= j < m.len() && m[j] == (k, kc);
                if j < rest.len() {
                    assert(m[j] == rest[j]);
                    assert(rest.contains((k, kc)));
                    let i = choose|i: int| 0 <= i < d.len() && (#[trigger] d[i]).0 == k && d[i].1 is Some && key_combination_of(d[i].1->0) == kc;
                    assert(es[i] == d[i]);
                } else {
                    assert(es[n] == es.last());
                    assert(es[n].1 is Some);
                    assert(m == rest.push((es[n].0, key_combination_of(es[n].1->0))));
                    assert(es[n].0 == k && key_combination_of(es[n].1->0) == kc);
                }
            }
            if gives(es, k, kc) {
                let i = choose|i: int| 0 <= i < es.len() && (#[trigger] es[i]).0 == k && es[i].1 is Some && key_combination_of(es[i].1->0) == kc;
                if i < n {
                    assert(d[i] == es[i]);
                    assert(gives(d, k, kc));
                    assert(rest.contains((k, kc)));
                    let j = choose|j: int| 0 <= j < rest.len() && rest[j] == (k, kc);
                    assert(m[j] == rest[j]);
                } else {
                    assert(m[rest.len() as int] == (k, kc));
                }
            }
        }
    }
}

/// The table of a JSON object that holds the entries of two others is the
/// union of their tables: each shortcut comes from its own entry.
pub proof fn law_table_of_union(
    es: Seq<(Seq<char>, Option<Seq<char>>)>,
    a: Seq<(Seq<char>, Option<Seq<char>>)>,
    b: Seq<(Seq<char>, Option<Seq<char>>)>,
)
    requires
        forall|x: (Seq<char>, Option<Seq<char>>)| #[trigger] es.contains(x) <==> a.contains(x) || b.contains(x),
    ensures
        forall|x: (Seq<char>, KeyCombination)| #[trigger] mapping_of(es).contains(x) <==> mapping_of(a).contains(x) || mapping_of(b).contains(x),
{
    lemma_mapping_members(es);
    lemma_mapping_members(a);
    lemma_mapping_members(b);
    assert forall|x: (Seq<char>, KeyCombination)| #[trigger] mapping_of(es).contains(x) <==> mapping_of(a).contains(x) || mapping_of(b).contains(x) by {
        let k = x.0;
        let kc = x.1;
        assert(x == (k, kc));
        if gives(es, k, kc) {
            let i = choose|i: int| 0 <= i < es.len() && (#[trigger] es[i]).0 == k && es[i].1 is Some && key_combination_of(es[i].1->0) == kc;
            assert(es.contains(es[i]));
            if a.contains(es[i]) {
                let j = choose|j: int| 0 <= j < a.len() && a[j] == es[i];
                assert(gives(a, k, kc));
            } else {
                let j = choose|j: int| 0 <= j < b.len() && b[j] == es[i];
                assert(gives(b, k, kc));
            }
        }
        if gives(a, k, kc) {
            let i = choose|i: int| 0 <= i < a.len() && (#[trigger] a[i]).0 == k && a[i].1 is Some && key_combination_of(a[i].1->0) == kc;
            assert(a.contains(a[i]));
            assert(es.contains(a[i]));
            let j = choose|j: int| 0 <= j < es.len() && es[j] == a[i];
            assert(gives(es, k, kc));
        }
        if gives(b, k, kc) {
            let i = choose|i: int| 0 <= i < b.len() && (#[trigger] b[i]).0 == k && b[i].1 is Some && key_combination_of(b[i].1->0) == kc;
            assert(b.contains(b[i]));
            assert(es.contains(b[i]));
            let j = choose|j: int| 0 <= j < es.len() && es[j] == b[i];
            assert(gives(es, k, kc));
        }
    }
}

} // verus!
