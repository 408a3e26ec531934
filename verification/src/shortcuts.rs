//! Keyboard shortcuts that the user has changed, and how shortcuts are shown.

use crate::text;
use crate::text::{
    joined, same_ignoring_case, same_text, split_at_mark, to_lower, to_upper, trim,
};
use vstd::prelude::*;

verus! {

/// A shortcut that the user has changed.
#[derive(Debug)]
pub struct ShortcutOverride {
    /// What the shortcut does.
    pub name: String,
    /// The keys, with plus signs between them.
    pub combo: String,
}

/// The names and the keys of each shortcut.
pub open spec fn override_views(list: Seq<ShortcutOverride>) -> Seq<(Seq<char>, Seq<char>)> {
    list.map_values(|entry: ShortcutOverride| (entry.name@, entry.combo@))
}

/// The place of the first entry with this name, looking from `at` on.
pub open spec fn override_from(
    list: Seq<(Seq<char>, Seq<char>)>,
    name: Seq<char>,
    at: int,
) -> Option<int>
    decreases list.len() - at,
{
    if at >= list.len() {
        None
    } else if list[at].0 == name {
        Some(at)
    } else {
        override_from(list, name, at + 1)
    }
}

/// The list in which a shortcut has these keys; with the word `clear` in their place, in any case
/// of the letters, the list without the shortcut.
pub open spec fn overridden(
    list: Seq<(Seq<char>, Seq<char>)>,
    name: Seq<char>,
    combo: Seq<char>,
) -> Seq<(Seq<char>, Seq<char>)> {
    let place = override_from(list, name, 0);
    if text::lowered(combo) == text::lowered("clear"@) {
        match place {
            Some(at) => list.remove(at),
            None => list,
        }
    } else {
        match place {
            Some(at) => list.update(at, (name, combo)),
            None => list.push((name, combo)),
        }
    }
}

/// The keys of a shortcut that the user has not changed.
pub open spec fn default_combo(name: Seq<char>) -> Seq<char> {
    if name == "new_window"@ {
        "cmd+shift+n"@
    } else if name == "close_window"@ {
        "cmd+ctrl+w"@
    } else if name == "rename_tab"@ {
        "cmd+r"@
    } else {
        ""@
    }
}

/// The keys of a shortcut.
pub open spec fn combo_for(list: Seq<(Seq<char>, Seq<char>)>, name: Seq<char>) -> Seq<char> {
    match override_from(list, name, 0) {
        Some(at) => list[at].1,
        None => default_combo(name),
    }
}

/// The place of the first entry with this name.
pub fn override_index(list: &Vec<ShortcutOverride>, name: &str) -> (place: Option<usize>)
    ensures
        match place {
            Some(at) => at < list@.len() && override_from(override_views(list@), name@, 0) == Some(
                at as int,
            ),
            None => override_from(override_views(list@), name@, 0) is None,
        },
{
    let mut at: usize = 0;
    while at < list.len()
        invariant
            at <= list@.len(),
            override_from(override_views(list@), name@, 0) == override_from(
                override_views(list@),
                name@,
                at as int,
            ),
        decreases list@.len() - at,
    {
        if same_text(list[at].name.as_str(), name) {
            return Some(at);
        }
        at = at + 1;
    }
    None
}

/// Gives a shortcut these keys, or takes its keys back.
pub fn set_override(list: &mut Vec<ShortcutOverride>, name: &str, combo: &str)
    ensures
        override_views(final(list)@) == overridden(override_views(old(list)@), name@, combo@),
{
    let ghost before = override_views(list@);
    let place = override_index(list, name);
    if same_ignoring_case(combo, "clear") {
        match place {
            Some(at) => {
                let _ = list.remove(at);
                proof {
                    assert(override_views(list@) =~= before.remove(at as int));
                }
            },
            None => {},
        }
    } else {
        let entry = ShortcutOverride { name: name.to_owned(), combo: combo.to_owned() };
        match place {
            Some(at) => {
                list[at] = entry;
                proof {
                    assert(override_views(list@) =~= before.update(at as int, (name@, combo@)));
                }
            },
            None => {
                list.push(entry);
                proof {
                    assert(override_views(list@) =~= before.push((name@, combo@)));
                }
            },
        }
    }
}

// ---------------------------------------------------------------------------
// Showing shortcuts
// ---------------------------------------------------------------------------

/// A part of a shortcut, without white space around it and in lower case.
pub open spec fn tidy(part: Seq<char>) -> Seq<char> {
    text::lowered(text::trimmed(part))
}

/// Whether a part stands for the command key.
pub open spec fn is_command(part: Seq<char>) -> bool {
    part == "cmd"@ || part == "command"@ || part == "meta"@
}

/// Whether a part stands for the control key.
pub open spec fn is_control(part: Seq<char>) -> bool {
    part == "ctrl"@ || part == "control"@
}

/// Whether a part stands for the shift key.
pub open spec fn is_shift(part: Seq<char>) -> bool {
    part == "shift"@
}

/// Whether a part stands for the option key.
pub open spec fn is_option(part: Seq<char>) -> bool {
    part == "opt"@ || part == "alt"@ || part == "option"@
}

/// How a key that is no modifier is shown.
pub open spec fn key_label(part: Seq<char>) -> Seq<char> {
    if part == "enter"@ || part == "return"@ {
        "\u{21a9}"@
    } else if part == "space"@ {
        "Space"@
    } else {
        text::uppered(part)
    }
}

/// The keys of a shortcut.
#[verifier::ext_equal]
pub struct Keys {
    /// Whether the shift key is one.
    pub shift: bool,
    /// Whether the option key is one.
    pub option: bool,
    /// Whether the control key is one.
    pub control: bool,
    /// Whether the command key is one.
    pub command: bool,
    /// How the last other key is shown.
    pub key: Seq<char>,
}

/// The keys that the first `count` parts stand for.
pub open spec fn keys_of(list: Seq<Seq<char>>, count: int) -> Keys
    decreases count,
{
    if count <= 0 {
        Keys { shift: false, option: false, control: false, command: false, key: Seq::empty() }
    } else {
        let keys = keys_of(list, count - 1);
        let part = tidy(list[count - 1]);
        if is_command(part) {
            Keys { command: true, ..keys }
        } else if is_control(part) {
            Keys { control: true, ..keys }
        } else if is_shift(part) {
            Keys { shift: true, ..keys }
        } else if is_option(part) {
            Keys { option: true, ..keys }
        } else {
            Keys { key: key_label(part), ..keys }
        }
    }
}

/// The signs of the modifiers, in a fixed order.
pub open spec fn modifier_signs(keys: Keys) -> Seq<char> {
    (if keys.shift {
        seq!['\u{21e7}']
    } else {
        Seq::empty()
    }) + (if keys.option {
        seq!['\u{2325}']
    } else {
        Seq::empty()
    }) + (if keys.control {
        seq!['\u{2303}']
    } else {
        Seq::empty()
    }) + (if keys.command {
        seq!['\u{2318}']
    } else {
        Seq::empty()
    })
}

/// How a shortcut is shown: the signs of its modifiers, then its last other key.
pub open spec fn hint_for(combo: Seq<char>) -> Seq<char> {
    let tidied = text::trimmed(combo);
    if tidied.len() == 0 {
        Seq::empty()
    } else {
        let list = text::parts(tidied, '+');
        let keys = keys_of(list, list.len() as int);
        modifier_signs(keys) + keys.key
    }
}

/// Shows a shortcut.
pub fn format_shortcut_hint(combo: &str) -> (hint: String)
    ensures
        hint@ == hint_for(combo@),
{
    let tidied = trim(combo);
    if tidied.as_str().is_empty() {
        proof {
            assert(hint_for(combo@) =~= Seq::empty());
        }
        return String::new();
    }
    let list = split_at_mark(tidied.as_str(), '+');
    let ghost views = text::texts(list@);
    let mut shift: bool = false;
    let mut option: bool = false;
    let mut control: bool = false;
    let mut command: bool = false;
    let mut key = String::new();
    let mut at: usize = 0;
    proof {
        assert(key@ =~= Seq::empty());
    }
    while at < list.len()
        invariant
            at <= list@.len(),
            views == text::texts(list@),
            keys_of(views, at as int) == (Keys { shift, option, control, command, key: key@ }),
        decreases list@.len() - at,
    {
        let part = to_lower(trim(list[at].as_str()).as_str());
        proof {
            assert(part@ == tidy(views[at as int]));
        }
        let word = part.as_str();
        if same_text(word, "cmd") || same_text(word, "command") || same_text(word, "meta") {
            command = true;
        } else if same_text(word, "ctrl") || same_text(word, "control") {
            control = true;
        } else if same_text(word, "shift") {
            shift = true;
        } else if same_text(word, "opt") || same_text(word, "alt") || same_text(word, "option") {
            option = true;
        } else if same_text(word, "enter") || same_text(word, "return") {
            key = "\u{21a9}".to_owned();
        } else if same_text(word, "space") {
            key = "Space".to_owned();
        } else {
            key = to_upper(word);
        }
        at = at + 1;
    }
    let mut signs = String::new();
    if shift {
        signs.push('\u{21e7}');
    }
    if option {
        signs.push('\u{2325}');
    }
    if control {
        signs.push('\u{2303}');
    }
    if command {
        signs.push('\u{2318}');
    }
    proof {
        let keys = keys_of(views, views.len() as int);
        assert(signs@ =~= modifier_signs(keys));
    }
    joined(signs.as_str(), key.as_str())
}

/// How a shortcut is shown, where the user may have changed it.
pub fn shortcut_hint(list: &Vec<ShortcutOverride>, name: &str) -> (hint: String)
    ensures
        hint@ == hint_for(combo_for(override_views(list@), name@)),
{
    match override_index(list, name) {
        Some(at) => format_shortcut_hint(list[at].combo.as_str()),
        None => if same_text(name, "new_window") {
            format_shortcut_hint("cmd+shift+n")
        } else if same_text(name, "close_window") {
            format_shortcut_hint("cmd+ctrl+w")
        } else if same_text(name, "rename_tab") {
            format_shortcut_hint("cmd+r")
        } else {
            format_shortcut_hint("")
        },
    }
}

} // verus!
