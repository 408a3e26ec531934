//! Identifiers: UUIDs held as their 128-bit value.

use crate::text;
use vstd::prelude::*;

verus! {

/// A window's identifier.
pub type WindowId = u128;

/// A workspace's identifier.
pub type WorkspaceId = u128;

/// A pane's identifier.
pub type PaneId = u128;

/// A surface's identifier.
pub type SurfaceId = u128;

/// A notification's identifier.
pub type NotificationId = u128;

/// The nil UUID, which stands for no object.
pub const NIL: u128 = 0;

/// The character of a hexadecimal digit, in lower case.
pub open spec fn hex_digit(value: int) -> char {
    if value < 10 {
        (48 + value) as char
    } else {
        (87 + value) as char
    }
}

/// The hexadecimal digit of `id` at `place`, counted from the most significant of the 32.
pub open spec fn id_digit(id: u128, place: int) -> char {
    hex_digit((id as int / vstd::arithmetic::power::pow(16, (31 - place) as nat)) % 16)
}

/// The hyphenated form of an identifier: groups of 8, 4, 4, 4 and 12 hexadecimal digits.
pub open spec fn id_text(id: u128) -> Seq<char> {
    Seq::new(
        36,
        |at: int|
            if at == 8 || at == 13 || at == 18 || at == 23 {
                '-'
            } else if at < 8 {
                id_digit(id, at)
            } else if at < 13 {
                id_digit(id, at - 1)
            } else if at < 18 {
                id_digit(id, at - 2)
            } else if at < 23 {
                id_digit(id, at - 3)
            } else {
                id_digit(id, at - 4)
            },
    )
}

/// The value of a hexadecimal digit, in either case.
pub open spec fn hex_value(ch: char) -> Option<int> {
    if '0' <= ch <= '9' {
        Some(ch as int - 48)
    } else if 'a' <= ch <= 'f' {
        Some(ch as int - 87)
    } else if 'A' <= ch <= 'F' {
        Some(ch as int - 55)
    } else {
        None
    }
}

/// The number that the first `count` hexadecimal digits of a text make.
pub open spec fn hex_number(text: Seq<char>, count: int) -> int
    decreases count,
{
    if count <= 0 {
        0
    } else {
        16 * hex_number(text, count - 1) + hex_value(text[count - 1]).unwrap()
    }
}

/// The identifier that 32 hexadecimal digits make.
pub open spec fn plain_id(text: Seq<char>) -> Option<u128> {
    if text.len() == 32 && forall|at: int|
        0 <= at < 32 ==> hex_value(#[trigger] text[at]) is Some {
        Some(hex_number(text, 32) as u128)
    } else {
        None
    }
}

/// The identifier that groups of 8, 4, 4, 4 and 12 hexadecimal digits with hyphens between them
/// make.
pub open spec fn hyphenated_id(text: Seq<char>) -> Option<u128> {
    if text.len() == 36 && text[8] == '-' && text[13] == '-' && text[18] == '-' && text[23] == '-' {
        plain_id(
            text.subrange(0, 8) + text.subrange(9, 13) + text.subrange(14, 18) + text.subrange(
                19,
                23,
            ) + text.subrange(24, 36),
        )
    } else {
        None
    }
}

/// The identifier that a text makes: 32 hexadecimal digits, or the hyphenated form, alone, in
/// braces, or after `urn:uuid:` in any case.
#[verifier::opaque]
pub open spec fn parsed_id(text: Seq<char>) -> Option<u128> {
    if text.len() == 32 {
        plain_id(text)
    } else if text.len() == 36 {
        hyphenated_id(text)
    } else if text.len() == 38 && text[0] == '{' && text[37] == '}' {
        hyphenated_id(text.subrange(1, 37))
    } else if text.len() == 45 && text::lowered(text.subrange(0, 9)) == "urn:uuid:"@ {
        hyphenated_id(text.subrange(9, 45))
    } else {
        None
    }
}

/// `uuid::Uuid::parse_str`: reads an identifier from a text in one of the forms that `uuid` writes,
/// and nothing else.
#[verifier::external_body]
pub(crate) fn parse_id(text: &str) -> (id: Option<u128>)
    ensures
        id == parsed_id(text@),
{
    match uuid::Uuid::parse_str(text) {
        Ok(id) => Some(id.as_u128()),
        Err(_) => None,
    }
}

/// `uuid::Uuid`'s `Display`: writes an identifier as 36 characters, lower-case hexadecimal digits
/// in groups of 8, 4, 4, 4 and 12 with hyphens between them.
#[verifier::external_body]
pub(crate) fn id_string(id: u128) -> (text: String)
    ensures
        text@ == id_text(id),
{
    uuid::Uuid::from_u128(id).to_string()
}

/// The plain form of an identifier: its 32 hexadecimal digits.
pub open spec fn plain_id_text(id: u128) -> Seq<char> {
    Seq::new(32, |at: int| id_digit(id, at))
}

/// `uuid::Uuid::as_simple` and its `Display`: writes an identifier as 32 lower-case hexadecimal
/// digits without hyphens.
#[verifier::external_body]
pub(crate) fn plain_id_string(id: u128) -> (text: String)
    ensures
        text@ == plain_id_text(id),
{
    uuid::Uuid::from_u128(id).as_simple().to_string()
}

/// `uuid::Uuid::new_v4`: draws a random identifier. The version and variant bits are set in every
/// one of them, so none is nil.
#[verifier::external_body]
pub(crate) fn fresh_id() -> (id: u128)
    ensures
        id != NIL,
{
    uuid::Uuid::new_v4().as_u128()
}

/// The identifiers that an operation may give to the objects it makes.
#[derive(Debug, Clone, Copy, PartialEq, Eq, Structural)]
pub struct Drawn {
    /// For a window.
    pub window: WindowId,
    /// For a workspace.
    pub workspace: WorkspaceId,
    /// For a pane.
    pub pane: PaneId,
    /// For a surface.
    pub surface: SurfaceId,
    /// For a notification.
    pub notification: NotificationId,
}

impl Drawn {
    /// Whether none of the identifiers is nil.
    pub open spec fn usable(self) -> bool {
        self.window != NIL && self.workspace != NIL && self.pane != NIL && self.surface != NIL
            && self.notification != NIL
    }

    /// Draws identifiers at random.
    pub fn draw() -> (drawn: Drawn)
        ensures
            drawn.usable(),
    {
        Drawn {
            window: fresh_id(),
            workspace: fresh_id(),
            pane: fresh_id(),
            surface: fresh_id(),
            notification: fresh_id(),
        }
    }
}

/// The message that an object of this kind, with this identifier, does not exist.
pub open spec fn not_found_text(kind: Seq<char>, id: u128) -> Seq<char> {
    kind + " "@ + id_text(id) + " not found"@
}

/// Writes the message that an object does not exist.
pub fn not_found(kind: &str, id: u128) -> (message: String)
    ensures
        message@ == not_found_text(kind@, id),
{
    let mut message = kind.to_owned();
    message.append(" ");
    message.append(id_string(id).as_str());
    message.append(" not found");
    message
}

/// An optional identifier, without the nil one.
pub open spec fn non_nil(id: u128) -> Option<u128> {
    if id != NIL {
        Some(id)
    } else {
        None
    }
}

/// The identifier, unless it is nil.
pub fn unless_nil(id: u128) -> (result: Option<u128>)
    ensures
        result == non_nil(id),
{
    if id != NIL {
        Some(id)
    } else {
        None
    }
}

/// Whether `ids` holds `id`.
pub fn holds(ids: &Vec<u128>, id: u128) -> (found: bool)
    ensures
        found == ids@.contains(id),
{
    let mut at: usize = 0;
    while at < ids.len()
        invariant
            at <= ids@.len(),
            forall|k: int| 0 <= k < at ==> ids@[k] != id,
        decreases ids@.len() - at,
    {
        if ids[at] == id {
            proof {
                assert(ids@[at as int] == id);
            }
            return true;
        }
        at = at + 1;
    }
    false
}

} // verus!
