//! The control sequences that a terminal gets for named keys.

use crate::reply::{ErrorView, MethodError};
use crate::text;
use crate::text::{chars_of, joined, same_text, strip_prefix, to_lower, trim};
use vstd::prelude::*;

verus! {

/// The contents of a text that may be an error.
pub open spec fn word_result(result: Result<String, MethodError>) -> Result<Seq<char>, ErrorView> {
    match result {
        Ok(content) => Ok(content@),
        Err(error) => Err(error@),
    }
}

/// What follows one of two prefixes.
pub open spec fn after_either(
    content: Seq<char>,
    first: Seq<char>,
    second: Seq<char>,
) -> Option<Seq<char>> {
    if text::begins(content, first) {
        Some(content.skip(first.len() as int))
    } else if text::begins(content, second) {
        Some(content.skip(second.len() as int))
    } else {
        None
    }
}

/// The control character of one character key.
pub open spec fn control_code(ch: char) -> Option<int> {
    if 'a' <= ch <= 'z' {
        Some(ch as int - 'a' as int + 1)
    } else if ch == '@' || ch == '2' {
        Some(0)
    } else if ch == '[' || ch == '3' {
        Some(0x1b)
    } else if ch == '\\' || ch == '4' {
        Some(0x1c)
    } else if ch == ']' || ch == '5' {
        Some(0x1d)
    } else if ch == '^' || ch == '6' {
        Some(0x1e)
    } else if ch == '_' || ch == '/' || ch == '7' {
        Some(0x1f)
    } else if ch == '8' || ch == '?' {
        Some(0x7f)
    } else {
        None
    }
}

/// What a terminal gets for a key that is held down with the control key.
pub open spec fn control_key(key: Seq<char>) -> Option<Seq<char>> {
    match after_either(key, "ctrl-"@, "control-"@) {
        None => None,
        Some(suffix) => if suffix == "space"@ {
            Some(seq![0 as char])
        } else if suffix.len() == 1 {
            match control_code(suffix[0]) {
                Some(code) => Some(seq![code as char]),
                None => None,
            }
        } else {
            None
        },
    }
}

/// What a terminal gets for a character that is typed with the meta key: the escape character and
/// the character.
pub open spec fn meta_key(key: Seq<char>) -> Option<Seq<char>> {
    match after_either(key, "alt-"@, "meta-"@) {
        None => None,
        Some(suffix) => if suffix.len() == 1 {
            Some("\u{1b}"@ + suffix)
        } else {
            None
        },
    }
}

/// What a terminal gets for a key that has a name.
pub open spec fn named_key(key: Seq<char>) -> Option<Seq<char>> {
    if key == "enter"@ || key == "return"@ {
        Some("\r"@)
    } else if key == "tab"@ {
        Some("\t"@)
    } else if key == "backtab"@ || key == "shift-tab"@ {
        Some("\u{1b}[Z"@)
    } else if key == "space"@ {
        Some(" "@)
    } else if key == "escape"@ || key == "esc"@ {
        Some("\u{1b}"@)
    } else if key == "backspace"@ {
        Some("\u{7f}"@)
    } else if key == "up"@ || key == "arrowup"@ {
        Some("\u{1b}[A"@)
    } else if key == "down"@ || key == "arrowdown"@ {
        Some("\u{1b}[B"@)
    } else if key == "right"@ || key == "arrowright"@ {
        Some("\u{1b}[C"@)
    } else if key == "left"@ || key == "arrowleft"@ {
        Some("\u{1b}[D"@)
    } else if key == "home"@ {
        Some("\u{1b}[H"@)
    } else if key == "end"@ {
        Some("\u{1b}[F"@)
    } else if key == "insert"@ {
        Some("\u{1b}[2~"@)
    } else if key == "delete"@ || key == "del"@ {
        Some("\u{1b}[3~"@)
    } else if key == "pageup"@ || key == "page_up"@ {
        Some("\u{1b}[5~"@)
    } else if key == "pagedown"@ || key == "page_down"@ {
        Some("\u{1b}[6~"@)
    } else if key == "f1"@ {
        Some("\u{1b}OP"@)
    } else if key == "f2"@ {
        Some("\u{1b}OQ"@)
    } else if key == "f3"@ {
        Some("\u{1b}OR"@)
    } else if key == "f4"@ {
        Some("\u{1b}OS"@)
    } else if key == "f5"@ {
        Some("\u{1b}[15~"@)
    } else if key == "f6"@ {
        Some("\u{1b}[17~"@)
    } else if key == "f7"@ {
        Some("\u{1b}[18~"@)
    } else if key == "f8"@ {
        Some("\u{1b}[19~"@)
    } else if key == "f9"@ {
        Some("\u{1b}[20~"@)
    } else if key == "f10"@ {
        Some("\u{1b}[21~"@)
    } else if key == "f11"@ {
        Some("\u{1b}[23~"@)
    } else if key == "f12"@ {
        Some("\u{1b}[24~"@)
    } else {
        None
    }
}

/// What a terminal gets for a key: for one with the control key, else for one with the meta key,
/// else for its name. White space and the case of letters do not matter.
pub open spec fn terminal_key(key: Seq<char>) -> Result<Seq<char>, ErrorView> {
    let name = text::lowered(text::trimmed(key));
    if name.len() == 0 {
        Err(ErrorView::invalid_params("key must not be empty"@))
    } else if control_key(name) is Some {
        Ok(control_key(name)->0)
    } else if meta_key(name) is Some {
        Ok(meta_key(name)->0)
    } else {
        match named_key(name) {
            Some(sequence) => Ok(sequence),
            None => Err(ErrorView::invalid_params("unknown key "@ + name)),
        }
    }
}

fn strip_either(content: &str, first: &str, second: &str) -> (rest: Option<String>)
    ensures
        text::opt_text(rest) == after_either(content@, first@, second@),
{
    match strip_prefix(content, first) {
        Some(rest) => Some(rest),
        None => strip_prefix(content, second),
    }
}

fn control_byte(ch: char) -> (code: Option<u8>)
    ensures
        match code {
            Some(inner) => control_code(ch) == Some(inner as int) && inner < 128,
            None => control_code(ch) is None,
        },
{
    if 'a' <= ch && ch <= 'z' {
        let code: u32 = ch as u32 - 96;
        Some(code as u8)
    } else if ch == '@' || ch == '2' {
        Some(0)
    } else if ch == '[' || ch == '3' {
        Some(0x1b)
    } else if ch == '\\' || ch == '4' {
        Some(0x1c)
    } else if ch == ']' || ch == '5' {
        Some(0x1d)
    } else if ch == '^' || ch == '6' {
        Some(0x1e)
    } else if ch == '_' || ch == '/' || ch == '7' {
        Some(0x1f)
    } else if ch == '8' || ch == '?' {
        Some(0x7f)
    } else {
        None
    }
}

fn one_char(code: u8) -> (content: String)
    requires
        code < 128,
    ensures
        content@ == seq![code as char],
{
    let mut content = String::new();
    content.push(code as char);
    proof {
        assert(content@ =~= seq![code as char]);
    }
    content
}

/// What a terminal gets for a key that is held down with the control key.
pub fn translate_ctrl_key(key: &str) -> (sequence: Option<String>)
    ensures
        text::opt_text(sequence) == control_key(key@),
{
    match strip_either(key, "ctrl-", "control-") {
        None => None,
        Some(suffix) => {
            if same_text(suffix.as_str(), "space") {
                return Some(one_char(0));
            }
            let chars = chars_of(suffix.as_str());
            if chars.len() != 1 {
                return None;
            }
            match control_byte(chars[0]) {
                Some(code) => Some(one_char(code)),
                None => None,
            }
        },
    }
}

/// What a terminal gets for a character that is typed with the meta key.
pub fn translate_meta_key(key: &str) -> (sequence: Option<String>)
    ensures
        text::opt_text(sequence) == meta_key(key@),
{
    match strip_either(key, "alt-", "meta-") {
        None => None,
        Some(suffix) => {
            let chars = chars_of(suffix.as_str());
            if chars.len() != 1 {
                return None;
            }
            Some(joined("\u{1b}", suffix.as_str()))
        },
    }
}

fn name_is(key: &str, first: &str, second: &str) -> (result: bool)
    ensures
        result == (key@ == first@ || key@ == second@),
{
    same_text(key, first) || same_text(key, second)
}

/// What a terminal gets for a key that has a name.
pub fn translate_named_key(key: &str) -> (sequence: Option<&'static str>)
    ensures
        match sequence {
            Some(inner) => named_key(key@) == Some(inner@),
            None => named_key(key@) is None,
        },
{
    if name_is(key, "enter", "return") {
        Some("\r")
    } else if same_text(key, "tab") {
        Some("\t")
    } else if name_is(key, "backtab", "shift-tab") {
        Some("\u{1b}[Z")
    } else if same_text(key, "space") {
        Some(" ")
    } else if name_is(key, "escape", "esc") {
        Some("\u{1b}")
    } else if same_text(key, "backspace") {
        Some("\u{7f}")
    } else if name_is(key, "up", "arrowup") {
        Some("\u{1b}[A")
    } else if name_is(key, "down", "arrowdown") {
        Some("\u{1b}[B")
    } else if name_is(key, "right", "arrowright") {
        Some("\u{1b}[C")
    } else if name_is(key, "left", "arrowleft") {
        Some("\u{1b}[D")
    } else if same_text(key, "home") {
        Some("\u{1b}[H")
    } else if same_text(key, "end") {
        Some("\u{1b}[F")
    } else if same_text(key, "insert") {
        Some("\u{1b}[2~")
    } else if name_is(key, "delete", "del") {
        Some("\u{1b}[3~")
    } else if name_is(key, "pageup", "page_up") {
        Some("\u{1b}[5~")
    } else if name_is(key, "pagedown", "page_down") {
        Some("\u{1b}[6~")
    } else if same_text(key, "f1") {
        Some("\u{1b}OP")
    } else if same_text(key, "f2") {
        Some("\u{1b}OQ")
    } else if same_text(key, "f3") {
        Some("\u{1b}OR")
    } else if same_text(key, "f4") {
        Some("\u{1b}OS")
    } else if same_text(key, "f5") {
        Some("\u{1b}[15~")
    } else if same_text(key, "f6") {
        Some("\u{1b}[17~")
    } else if same_text(key, "f7") {
        Some("\u{1b}[18~")
    } else if same_text(key, "f8") {
        Some("\u{1b}[19~")
    } else if same_text(key, "f9") {
        Some("\u{1b}[20~")
    } else if same_text(key, "f10") {
        Some("\u{1b}[21~")
    } else if same_text(key, "f11") {
        Some("\u{1b}[23~")
    } else if same_text(key, "f12") {
        Some("\u{1b}[24~")
    } else {
        None
    }
}

/// What a terminal gets for a key.
pub fn translate_terminal_key(key: &str) -> (result: Result<String, MethodError>)
    ensures
        word_result(result) == terminal_key(key@),
{
    let name = to_lower(trim(key).as_str());
    if name.as_str().is_empty() {
        return Err(MethodError::invalid("key must not be empty"));
    }
    if let Some(sequence) = translate_ctrl_key(name.as_str()) {
        return Ok(sequence);
    }
    if let Some(sequence) = translate_meta_key(name.as_str()) {
        return Ok(sequence);
    }
    match translate_named_key(name.as_str()) {
        Some(sequence) => Ok(sequence.to_owned()),
        None => Err(MethodError::invalid_params(joined("unknown key ", name.as_str()))),
    }
}

/// The control key with a letter gives the letter's place in the alphabet.
pub proof fn law_control_letters(key: Seq<char>, letter: char)
    requires
        'a' <= letter <= 'z',
        text::lowered(text::trimmed(key)) == "ctrl-"@ + seq![letter],
    ensures
        terminal_key(key) == Ok::<Seq<char>, ErrorView>(
            seq![(letter as int - 'a' as int + 1) as char],
        ),
{
    let name = "ctrl-"@ + seq![letter];
    reveal_strlit("ctrl-");
    reveal_strlit("space");
    assert(name.take(5) =~= "ctrl-"@);
    assert(name.skip(5) =~= seq![letter]);
}

/// A key is translated alike whatever the case of its letters and the white space around it.
pub proof fn law_key_case(key: Seq<char>, other: Seq<char>)
    requires
        text::lowered(text::trimmed(key)) == text::lowered(text::trimmed(other)),
    ensures
        terminal_key(key) == terminal_key(other),
{
}

} // verus!
