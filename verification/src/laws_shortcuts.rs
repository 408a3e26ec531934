//! What holds of every shortcut that is shown.

use crate::laws_palette;
use crate::shortcuts;
use crate::shortcuts::Keys;
use crate::text;
use vstd::prelude::*;

verus! {

/// What a part of a shortcut stands for.
pub enum Meaning {
    /// The shift key.
    ShiftKey,
    /// The option key.
    OptionKey,
    /// The control key.
    ControlKey,
    /// The command key.
    CommandKey,
    /// Another key, by how it is shown.
    Other(Seq<char>),
}

/// What a part of a shortcut stands for.
pub open spec fn meaning(part: Seq<char>) -> Meaning {
    let word = shortcuts::tidy(part);
    if shortcuts::is_command(word) {
        Meaning::CommandKey
    } else if shortcuts::is_control(word) {
        Meaning::ControlKey
    } else if shortcuts::is_shift(word) {
        Meaning::ShiftKey
    } else if shortcuts::is_option(word) {
        Meaning::OptionKey
    } else {
        Meaning::Other(shortcuts::key_label(word))
    }
}

/// The parts of a shortcut.
pub open spec fn combo_parts(combo: Seq<char>) -> Seq<Seq<char>> {
    text::parts(text::trimmed(combo), '+')
}

/// Whether one of the parts of a shortcut stands for this.
pub open spec fn means(combo: Seq<char>, what: Meaning) -> bool {
    exists|at: int|
        0 <= at < combo_parts(combo).len() && meaning(#[trigger] combo_parts(combo)[at]) == what
}

/// Whether a shortcut has at most one key besides its modifiers.
pub open spec fn one_key(combo: Seq<char>) -> bool {
    forall|a: Seq<char>, b: Seq<char>|
        #[trigger] means(combo, Meaning::Other(a)) && #[trigger] means(combo, Meaning::Other(b))
            ==> a == b
}

/// A sign where something holds, and nothing where it does not.
pub open spec fn sign_if(holds: bool, sign: char) -> Seq<char> {
    if holds {
        seq![sign]
    } else {
        Seq::empty()
    }
}

proof fn lemma_keys(list: Seq<Seq<char>>, count: int)
    requires
        0 <= count <= list.len(),
    ensures
        shortcuts::keys_of(list, count).shift == exists|at: int|
            0 <= at < count && meaning(#[trigger] list[at]) == Meaning::ShiftKey,
        shortcuts::keys_of(list, count).option == exists|at: int|
            0 <= at < count && meaning(#[trigger] list[at]) == Meaning::OptionKey,
        shortcuts::keys_of(list, count).control == exists|at: int|
            0 <= at < count && meaning(#[trigger] list[at]) == Meaning::ControlKey,
        shortcuts::keys_of(list, count).command == exists|at: int|
            0 <= at < count && meaning(#[trigger] list[at]) == Meaning::CommandKey,
        (exists|at: int|
            0 <= at < count && meaning(#[trigger] list[at]) == Meaning::Other(
                shortcuts::keys_of(list, count).key,
            )) || (shortcuts::keys_of(list, count).key == Seq::<char>::empty() && forall|at: int|
            0 <= at < count ==> !(meaning(#[trigger] list[at]) is Other)),
    decreases count,
{
    if count > 0 {
        lemma_keys(list, count - 1);
        let last = list[count - 1];
        let keys = shortcuts::keys_of(list, count - 1);
        let all = shortcuts::keys_of(list, count);
        assert(meaning(last) == meaning(list[count - 1]));
        lemma_one_more(list, count, Meaning::ShiftKey);
        lemma_one_more(list, count, Meaning::OptionKey);
        lemma_one_more(list, count, Meaning::ControlKey);
        lemma_one_more(list, count, Meaning::CommandKey);
        if !(meaning(last) is Other) {
            assert(all.key == keys.key);
            lemma_one_more(list, count, Meaning::Other(keys.key));
        }
    }
}

proof fn lemma_one_more(list: Seq<Seq<char>>, count: int, what: Meaning)
    requires
        0 < count <= list.len(),
    ensures
        (exists|at: int| 0 <= at < count && meaning(#[trigger] list[at]) == what) == ((exists|at: int|
            0 <= at < count - 1 && meaning(#[trigger] list[at]) == what) || meaning(
            list[count - 1],
        ) == what),
{
    if exists|at: int| 0 <= at < count && meaning(#[trigger] list[at]) == what {
        let at = choose|at: int| 0 <= at < count && meaning(#[trigger] list[at]) == what;
        if at < count - 1 {
            assert(0 <= at < count - 1 && meaning(list[at]) == what);
        }
    }
    if exists|at: int| 0 <= at < count - 1 && meaning(#[trigger] list[at]) == what {
        let at = choose|at: int| 0 <= at < count - 1 && meaning(#[trigger] list[at]) == what;
        assert(0 <= at < count && meaning(list[at]) == what);
    }
}

/// The keys of a shortcut.
pub open spec fn all_keys(combo: Seq<char>) -> Keys {
    shortcuts::keys_of(combo_parts(combo), combo_parts(combo).len() as int)
}

/// A shortcut is shown by the sign of each modifier that it has, once and in a fixed order, and
/// then by its key.
pub proof fn law_signs_come_first(combo: Seq<char>)
    ensures
        shortcuts::hint_for(combo) == sign_if(means(combo, Meaning::ShiftKey), '\u{21e7}')
            + sign_if(means(combo, Meaning::OptionKey), '\u{2325}') + sign_if(
            means(combo, Meaning::ControlKey),
            '\u{2303}',
        ) + sign_if(means(combo, Meaning::CommandKey), '\u{2318}') + all_keys(combo).key,
        means(combo, Meaning::Other(all_keys(combo).key)) || (all_keys(combo).key
            == Seq::<char>::empty() && forall|label: Seq<char>|
            !#[trigger] means(combo, Meaning::Other(label))),
{
    let list = combo_parts(combo);
    lemma_keys(list, list.len() as int);
    let keys = all_keys(combo);
    assert(keys.shift == means(combo, Meaning::ShiftKey));
    assert(keys.option == means(combo, Meaning::OptionKey));
    assert(keys.control == means(combo, Meaning::ControlKey));
    assert(keys.command == means(combo, Meaning::CommandKey));
    let tidied = text::trimmed(combo);
    if tidied.len() == 0 {
        lemma_no_parts(tidied);
        assert(shortcuts::hint_for(combo) =~= sign_if(keys.shift, '\u{21e7}') + sign_if(
            keys.option,
            '\u{2325}',
        ) + sign_if(keys.control, '\u{2303}') + sign_if(keys.command, '\u{2318}') + keys.key);
    }
}

proof fn lemma_no_parts(tidied: Seq<char>)
    requires
        tidied.len() == 0,
    ensures
        shortcuts::keys_of(
            text::parts(tidied, '+'),
            text::parts(tidied, '+').len() as int,
        ) == (Keys {
            shift: false,
            option: false,
            control: false,
            command: false,
            key: Seq::empty(),
        }),
{
    let list = text::parts(tidied, '+');
    assert(text::part_end(tidied, '+', 0) == 0);
    assert(tidied.subrange(0, tidied.len() as int) =~= tidied);
    assert(list =~= seq![tidied]);
    assert(text::trimmed(tidied) =~= tidied);
    let word = shortcuts::tidy(tidied);
    assert(word.len() == 0);
    reveal_strlit("cmd");
    reveal_strlit("command");
    reveal_strlit("meta");
    reveal_strlit("ctrl");
    reveal_strlit("control");
    reveal_strlit("shift");
    reveal_strlit("opt");
    reveal_strlit("alt");
    reveal_strlit("option");
    reveal_strlit("enter");
    reveal_strlit("return");
    reveal_strlit("space");
    reveal_with_fuel(shortcuts::keys_of, 2);
    assert(text::uppered(word) =~= Seq::empty());
}

/// Two shortcuts whose parts stand for the same keys are shown alike, however often and in
/// whatever order the parts stand, and whatever the words for them, if they have at most one key
/// besides their modifiers.
pub proof fn law_same_keys_show_alike(first: Seq<char>, second: Seq<char>)
    requires
        forall|what: Meaning| #[trigger] means(first, what) == means(second, what),
        one_key(first),
    ensures
        shortcuts::hint_for(first) == shortcuts::hint_for(second),
{
    law_signs_come_first(first);
    law_signs_come_first(second);
    assert(means(first, Meaning::ShiftKey) == means(second, Meaning::ShiftKey));
    assert(means(first, Meaning::OptionKey) == means(second, Meaning::OptionKey));
    assert(means(first, Meaning::ControlKey) == means(second, Meaning::ControlKey));
    assert(means(first, Meaning::CommandKey) == means(second, Meaning::CommandKey));
    let a = all_keys(first).key;
    let b = all_keys(second).key;
    assert(means(first, Meaning::Other(a)) == means(second, Meaning::Other(a)));
    assert(means(first, Meaning::Other(b)) == means(second, Meaning::Other(b)));
    assert(a == b);
}

/// Two shortcuts with the same parts in another order have parts that stand for the same keys.
pub proof fn law_order_keeps_keys(first: Seq<char>, second: Seq<char>, what: Meaning)
    requires
        combo_parts(first).to_multiset() == combo_parts(second).to_multiset(),
    ensures
        means(first, what) == means(second, what),
{
    let a = combo_parts(first);
    let b = combo_parts(second);
    a.to_multiset_ensures();
    b.to_multiset_ensures();
    if means(first, what) {
        let at = choose|at: int| 0 <= at < a.len() && meaning(#[trigger] a[at]) == what;
        assert(a.contains(a[at]));
        assert(b.to_multiset().count(a[at]) > 0);
        assert(b.contains(a[at]));
        let k = choose|k: int| 0 <= k < b.len() && b[k] == a[at];
        assert(meaning(b[k]) == what);
    }
    if means(second, what) {
        let at = choose|at: int| 0 <= at < b.len() && meaning(#[trigger] b[at]) == what;
        assert(b.contains(b[at]));
        assert(a.to_multiset().count(b[at]) > 0);
        assert(a.contains(b[at]));
        let k = choose|k: int| 0 <= k < a.len() && a[k] == b[at];
        assert(meaning(a[k]) == what);
    }
}

proof fn lemma_lower_after_space(content: Seq<char>, at: int)
    requires
        0 <= at,
    ensures
        text::after_space(text::lowered(content), at) == text::after_space(content, at),
    decreases content.len() - at,
{
    if at < content.len() {
        assert(text::is_space(text::lower(content[at])) == text::is_space(content[at]));
        lemma_lower_after_space(content, at + 1);
    }
}

proof fn lemma_lower_before_space(content: Seq<char>, low: int, high: int)
    requires
        0 <= low,
        high <= content.len(),
    ensures
        text::before_space(text::lowered(content), low, high) == text::before_space(
            content,
            low,
            high,
        ),
    decreases high - low,
{
    if low < high {
        assert(text::is_space(text::lower(content[high - 1])) == text::is_space(
            content[high - 1],
        ));
        lemma_lower_before_space(content, low, high - 1);
    }
}

proof fn lemma_tidy(part: Seq<char>)
    ensures
        shortcuts::tidy(part) == text::trimmed(text::lowered(part)),
{
    let start = text::after_space(part, 0);
    laws_palette::lemma_after_space(part, 0);
    laws_palette::lemma_before_space(part, start, part.len() as int);
    lemma_lower_after_space(part, 0);
    lemma_lower_before_space(part, start, part.len() as int);
    assert(shortcuts::tidy(part) =~= text::trimmed(text::lowered(part)));
}

/// The case of its letters does not change what a part stands for.
pub proof fn law_case_keeps_meaning(first: Seq<char>, second: Seq<char>)
    requires
        text::lowered(first) == text::lowered(second),
    ensures
        meaning(first) == meaning(second),
{
    lemma_tidy(first);
    lemma_tidy(second);
}

/// Two words for the same modifier, in any case of their letters, stand for the same key.
pub proof fn law_words_for_a_modifier(first: Seq<char>, second: Seq<char>)
    requires
        ({
            let a = text::lowered(first);
            let b = text::lowered(second);
            ||| shortcuts::is_command(a) && shortcuts::is_command(b)
            ||| shortcuts::is_control(a) && shortcuts::is_control(b)
            ||| shortcuts::is_shift(a) && shortcuts::is_shift(b)
            ||| shortcuts::is_option(a) && shortcuts::is_option(b)
        }),
    ensures
        meaning(first) == meaning(second),
        !(meaning(first) is Other),
{
    reveal_strlit("cmd");
    reveal_strlit("command");
    reveal_strlit("meta");
    reveal_strlit("ctrl");
    reveal_strlit("control");
    reveal_strlit("shift");
    reveal_strlit("opt");
    reveal_strlit("alt");
    reveal_strlit("option");
    assert("ctrl"@[0] == 'c' && "ctrl"@[1] == 't' && "control"@[2] == 'n');
    assert("cmd"@[1] == 'm' && "command"@[2] == 'm' && "meta"@[0] == 'm');
    assert("shift"@[0] == 's' && "opt"@[0] == 'o' && "alt"@[0] == 'a' && "option"@[0] == 'o');
    lemma_tidy(first);
    lemma_tidy(second);
    lemma_plain_word(text::lowered(first));
    lemma_plain_word(text::lowered(second));
}

proof fn lemma_plain_word(word: Seq<char>)
    requires
        word.len() > 0,
        forall|k: int| 0 <= k < word.len() ==> 'a' <= #[trigger] word[k] <= 'z',
    ensures
        text::trimmed(word) == word,
{
    assert(!text::is_space(word[0]) && !text::is_space(word.last()));
    assert(text::trimmed(word) =~= word);
}

// ---------------------------------------------------------------------------
// Other keys
// ---------------------------------------------------------------------------

/// Whether no shortcut is given other keys twice.
pub open spec fn one_each(list: Seq<(Seq<char>, Seq<char>)>) -> bool {
    forall|a: int, b: int|
        0 <= a < b < list.len() ==> (#[trigger] list[a]).0 != (#[trigger] list[b]).0
}

proof fn lemma_override_from(list: Seq<(Seq<char>, Seq<char>)>, name: Seq<char>, at: int)
    requires
        0 <= at <= list.len(),
    ensures
        match shortcuts::override_from(list, name, at) {
            Some(found) => at <= found < list.len() && list[found].0 == name,
            None => forall|k: int| at <= k < list.len() ==> (#[trigger] list[k]).0 != name,
        },
    decreases list.len() - at,
{
    if at < list.len() && list[at].0 != name {
        lemma_override_from(list, name, at + 1);
    }
}

/// A shortcut that is given other keys has those, until that is taken back: then it has its usual
/// ones again. The others keep theirs, and no shortcut is given keys twice.
pub proof fn law_set_shortcut_is_used(
    list: Seq<(Seq<char>, Seq<char>)>,
    name: Seq<char>,
    other: Seq<char>,
    combo: Seq<char>,
)
    requires
        one_each(list),
        name != other,
    ensures
        ({
            let after = shortcuts::overridden(list, name, combo);
            let taken_back = text::lowered(combo) == text::lowered("clear"@);
            &&& one_each(after)
            &&& !taken_back ==> shortcuts::combo_for(after, name) == combo
            &&& taken_back ==> shortcuts::combo_for(after, name) == shortcuts::combo_for(
                Seq::empty(),
                name,
            )
            &&& shortcuts::combo_for(after, other) == shortcuts::combo_for(list, other)
        }),
{
    let after = shortcuts::overridden(list, name, combo);
    lemma_override_from(list, name, 0);
    lemma_override_from(after, name, 0);
    lemma_override_from(list, other, 0);
    lemma_override_from(after, other, 0);
    assert(shortcuts::override_from(Seq::empty(), name, 0) is None);
    let taken_back = text::lowered(combo) == text::lowered("clear"@);
    let place = shortcuts::override_from(list, name, 0);
    if let Some(at) = place {
        if let Some(found) = shortcuts::override_from(list, other, 0) {
            if taken_back {
                let now = if found < at {
                    found
                } else {
                    found - 1
                };
                assert(after[now] == list[found]);
            } else {
                assert(after[found] == list[found]);
            }
        }
        if !taken_back {
            assert(after[at] == (name, combo));
        }
    } else if !taken_back {
        assert(after[list.len() as int] == (name, combo));
        if let Some(found) = shortcuts::override_from(list, other, 0) {
            assert(after[found] == list[found]);
        }
    }
    if taken_back && place is Some {
        let at = place->0;
        assert forall|k: int| 0 <= k < after.len() implies (#[trigger] after[k]).0 != name by {
            if k < at {
                assert(list[k].0 != list[at].0);
            } else {
                assert(after[k] == list[k + 1]);
                assert(list[at].0 != list[k + 1].0);
            }
        }
    }
}

} // verus!
