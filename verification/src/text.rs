//! Text helpers on sequences of characters.

use vstd::prelude::*;

verus! {

/// `str`'s equality, from the standard library: two strings are equal when they
/// hold the same characters in the same order.
pub assume_specification[ <str as PartialEq>::eq ](left: &str, right: &str) -> (same: bool)
    ensures
        same == (left@ == right@),
;

/// `String::push`, from the standard library: adds one character at the end.
pub assume_specification[ String::push ](target: &mut String, ch: char)
    ensures
        final(target)@ == old(target)@.push(ch),
;

/// Whether two texts hold the same characters.
pub fn same_text(left: &str, right: &str) -> (same: bool)
    ensures
        same == (left@ == right@),
{
    *left == *right
}

/// The characters of an optional text.
pub open spec fn opt_text(text: Option<String>) -> Option<Seq<char>> {
    match text {
        Some(inner) => Some(inner@),
        None => None,
    }
}

/// A result whose error is a message, with the message taken as characters.
pub open spec fn text_result<T>(result: Result<T, String>) -> Result<T, Seq<char>> {
    match result {
        Ok(value) => Ok(value),
        Err(message) => Err(message@),
    }
}

/// Copies an optional text.
pub fn copy_opt(text: &Option<String>) -> (copy: Option<String>)
    ensures
        opt_text(copy) == opt_text(*text),
{
    match text {
        Some(inner) => Some(inner.clone()),
        None => None,
    }
}

/// Whether two optional texts are equal.
pub fn same_opt(left: &Option<String>, right: &Option<String>) -> (same: bool)
    ensures
        same == (opt_text(*left) == opt_text(*right)),
{
    match (left, right) {
        (Some(a), Some(b)) => same_text(a.as_str(), b.as_str()),
        (None, None) => true,
        _ => false,
    }
}

/// The characters of `text`, one by one.
pub fn chars_of(text: &str) -> (chars: Vec<char>)
    ensures
        chars@ == text@,
{
    let mut chars: Vec<char> = Vec::new();
    for ch in it: text.chars()
        invariant
            chars@ == it.seq().take(it.index() as int),
    {
        chars.push(ch);
    }
    chars
}

/// The characters `from..to` of `chars` as a text.
pub fn text_of(chars: &Vec<char>, from: usize, to: usize) -> (text: String)
    requires
        from <= to <= chars@.len(),
    ensures
        text@ == chars@.subrange(from as int, to as int),
{
    let mut text = String::new();
    let mut at: usize = from;
    while at < to
        invariant
            from <= at <= to <= chars@.len(),
            text@ == chars@.subrange(from as int, at as int),
        decreases to - at,
    {
        text.push(chars[at]);
        at = at + 1;
        proof {
            assert(chars@.subrange(from as int, at as int) =~= chars@.subrange(
                from as int,
                at - 1,
            ).push(chars@[at - 1]));
        }
    }
    text
}

/// The length of a text in UTF-8 bytes.
pub open spec fn byte_len(text: Seq<char>) -> nat {
    vstd::utf8::encode_utf8(text).len()
}

/// The length of a text in UTF-8 bytes.
pub fn byte_count(text: &str) -> (count: usize)
    ensures
        count == byte_len(text@),
{
    text.as_bytes().len()
}

/// Whether a character begins, or the text ends, at byte `at`.
pub open spec fn is_boundary(text: Seq<char>, at: int) -> bool {
    vstd::utf8::is_char_boundary(vstd::utf8::encode_utf8(text), at)
}

/// The characters of the first `at` bytes of a text.
pub open spec fn before_byte(text: Seq<char>, at: int) -> Seq<char> {
    vstd::utf8::decode_utf8(vstd::utf8::encode_utf8(text).subrange(0, at))
}

/// The characters of a text from byte `at` on.
pub open spec fn from_byte(text: Seq<char>, at: int) -> Seq<char> {
    vstd::utf8::decode_utf8(
        vstd::utf8::encode_utf8(text).subrange(at, byte_len(text) as int),
    )
}

/// Cuts a text in two at a byte.
pub fn cut(text: &str, at: usize) -> (result: (String, String))
    requires
        is_boundary(text@, at as int),
    ensures
        result.0@ == before_byte(text@, at as int),
        result.1@ == from_byte(text@, at as int),
{
    let (first, second) = text.split_at(at);
    proof {
        vstd::utf8::encode_utf8_decode_utf8(first@);
        vstd::utf8::encode_utf8_decode_utf8(second@);
    }
    (first.to_owned(), second.to_owned())
}

/// A text begins and ends at character boundaries.
pub proof fn lemma_text_ends(text: Seq<char>)
    ensures
        is_boundary(text, 0),
        is_boundary(text, byte_len(text) as int),
{
    vstd::utf8::encode_utf8_valid_utf8(text);
    vstd::utf8::is_char_boundary_start_end_of_seq(vstd::utf8::encode_utf8(text));
}

/// Two texts one after the other.
pub fn joined(first: &str, second: &str) -> (text: String)
    ensures
        text@ == first@ + second@,
{
    let mut text = first.to_owned();
    text.append(second);
    text
}

/// Three texts one after the other.
pub fn joined3(first: &str, second: &str, third: &str) -> (text: String)
    ensures
        text@ == first@ + second@ + third@,
{
    let mut text = first.to_owned();
    text.append(second);
    text.append(third);
    text
}

// ---------------------------------------------------------------------------
// White space
// ---------------------------------------------------------------------------

/// The characters with Unicode's `White_Space` property.
pub open spec fn is_space(ch: char) -> bool {
    ||| '\u{9}' <= ch <= '\u{d}'
    ||| ch == '\u{20}'
    ||| ch == '\u{85}'
    ||| ch == '\u{a0}'
    ||| ch == '\u{1680}'
    ||| '\u{2000}' <= ch <= '\u{200a}'
    ||| ch == '\u{2028}'
    ||| ch == '\u{2029}'
    ||| ch == '\u{202f}'
    ||| ch == '\u{205f}'
    ||| ch == '\u{3000}'
}

/// Whether `ch` is white space.
pub fn is_space_char(ch: char) -> (space: bool)
    ensures
        space == is_space(ch),
{
    ('\u{9}' <= ch && ch <= '\u{d}') || ch == '\u{20}' || ch == '\u{85}' || ch == '\u{a0}' || ch
        == '\u{1680}' || ('\u{2000}' <= ch && ch <= '\u{200a}') || ch == '\u{2028}' || ch
        == '\u{2029}' || ch == '\u{202f}' || ch == '\u{205f}' || ch == '\u{3000}'
}

/// The first position from `at` on that holds no white space, or the end.
pub open spec fn after_space(text: Seq<char>, at: int) -> int
    decreases text.len() - at,
{
    if at < text.len() && is_space(text[at]) {
        after_space(text, at + 1)
    } else {
        at
    }
}

/// The position after the last character in `low..high` that is no white space, or `low`.
pub open spec fn before_space(text: Seq<char>, low: int, high: int) -> int
    decreases high - low,
{
    if low < high && is_space(text[high - 1]) {
        before_space(text, low, high - 1)
    } else {
        high
    }
}

/// `text` without the white space at its two ends.
pub open spec fn trimmed(text: Seq<char>) -> Seq<char> {
    let low = after_space(text, 0);
    text.subrange(low, before_space(text, low, text.len() as int))
}

/// Removes the white space at the two ends of a text.
pub fn trim(text: &str) -> (result: String)
    ensures
        result@ == trimmed(text@),
{
    let chars = chars_of(text);
    let mut low: usize = 0;
    while low < chars.len() && is_space_char(chars[low])
        invariant
            low <= chars@.len(),
            after_space(chars@, 0) == after_space(chars@, low as int),
        decreases chars@.len() - low,
    {
        low = low + 1;
    }
    let mut high: usize = chars.len();
    while low < high && is_space_char(chars[high - 1])
        invariant
            low <= high <= chars@.len(),
            before_space(chars@, low as int, chars@.len() as int) == before_space(
                chars@,
                low as int,
                high as int,
            ),
        decreases high - low,
    {
        high = high - 1;
    }
    text_of(&chars, low, high)
}

// ---------------------------------------------------------------------------
// Decimal numbers
// ---------------------------------------------------------------------------

/// The character of a decimal digit.
pub open spec fn digit(value: nat) -> char {
    (48 + value) as char
}

/// A number in decimal, without leading zeros.
pub open spec fn decimal(value: nat) -> Seq<char>
    decreases value,
{
    if value < 10 {
        seq![digit(value)]
    } else {
        decimal(value / 10).push(digit(value % 10))
    }
}

fn digit_char(value: u64) -> (ch: char)
    requires
        value < 10,
    ensures
        ch == digit(value as nat),
{
    if value == 0 {
        '0'
    } else if value == 1 {
        '1'
    } else if value == 2 {
        '2'
    } else if value == 3 {
        '3'
    } else if value == 4 {
        '4'
    } else if value == 5 {
        '5'
    } else if value == 6 {
        '6'
    } else if value == 7 {
        '7'
    } else if value == 8 {
        '8'
    } else {
        '9'
    }
}

/// Writes a number in decimal.
pub fn decimal_text(value: u64) -> (text: String)
    ensures
        text@ == decimal(value as nat),
    decreases value,
{
    if value < 10 {
        let mut text = String::new();
        text.push(digit_char(value));
        proof {
            assert(text@ =~= seq![digit(value as nat)]);
        }
        text
    } else {
        let mut text = decimal_text(value / 10);
        text.push(digit_char(value % 10));
        text
    }
}

// ---------------------------------------------------------------------------
// Lines
// ---------------------------------------------------------------------------

/// The position of the first line feed from `at` on, or the end.
pub open spec fn line_end(text: Seq<char>, at: int) -> int
    decreases text.len() - at,
{
    if at < text.len() && text[at] != '\n' {
        line_end(text, at + 1)
    } else {
        at
    }
}

/// The part `from..to` of `text`, without a carriage return at its end.
pub open spec fn without_return(text: Seq<char>, from: int, to: int) -> Seq<char> {
    if from < to && text[to - 1] == '\r' {
        text.subrange(from, to - 1)
    } else {
        text.subrange(from, to)
    }
}

proof fn lemma_line_end(text: Seq<char>, at: int)
    requires
        0 <= at <= text.len(),
    ensures
        at <= line_end(text, at) <= text.len(),
        line_end(text, at) < text.len() ==> text[line_end(text, at)] == '\n',
    decreases text.len() - at,
{
    if at < text.len() && text[at] != '\n' {
        lemma_line_end(text, at + 1);
    }
}

/// The lines of `text` from position `at` on. A line ends with a line feed, or with a carriage
/// return and a line feed; the last line may lack its end.
pub open spec fn lines_from(text: Seq<char>, at: int) -> Seq<Seq<char>>
    decreases text.len() - at,
    when 0 <= at
    via lines_from_decreases
{
    if at >= text.len() {
        Seq::empty()
    } else {
        let end = line_end(text, at);
        if end >= text.len() {
            seq![text.subrange(at, text.len() as int)]
        } else {
            seq![without_return(text, at, end)] + lines_from(text, end + 1)
        }
    }
}

#[via_fn]
proof fn lines_from_decreases(text: Seq<char>, at: int) {
    if at < text.len() {
        lemma_line_end(text, at);
    }
}

/// All the lines of `text`.
pub open spec fn lines(text: Seq<char>) -> Seq<Seq<char>> {
    lines_from(text, 0)
}

/// The characters of each text.
pub open spec fn texts(list: Seq<String>) -> Seq<Seq<char>> {
    list.map_values(|text: String| text@)
}

/// Splits a text into its lines.
pub fn line_texts(text: &str) -> (result: Vec<String>)
    ensures
        texts(result@) == lines(text@),
{
    let chars = chars_of(text);
    let mut result: Vec<String> = Vec::new();
    let mut at: usize = 0;
    proof {
        assert(texts(result@) + lines_from(chars@, 0) =~= lines(text@));
    }
    while at < chars.len()
        invariant
            at <= chars@.len(),
            chars@ == text@,
            texts(result@) + lines_from(chars@, at as int) == lines(text@),
        decreases chars@.len() - at,
    {
        let mut end: usize = at;
        while end < chars.len() && chars[end] != '\n'
            invariant
                at <= end <= chars@.len(),
                line_end(chars@, at as int) == line_end(chars@, end as int),
            decreases chars@.len() - end,
        {
            end = end + 1;
        }
        let ghost before = texts(result@);
        if end >= chars.len() {
            result.push(text_of(&chars, at, end));
            proof {
                let last = chars@.subrange(at as int, end as int);
                assert(texts(result@) =~= before + seq![last]);
                assert(lines_from(chars@, at as int) == seq![last]);
                assert(texts(result@) + lines_from(chars@, end as int) =~= texts(result@));
            }
            at = end;
        } else {
            let mut stop: usize = end;
            if at < end && chars[end - 1] == '\r' {
                stop = end - 1;
            }
            result.push(text_of(&chars, at, stop));
            proof {
                let line = without_return(chars@, at as int, end as int);
                assert(texts(result@) =~= before + seq![line]);
                assert(lines_from(chars@, at as int) == seq![line] + lines_from(
                    chars@,
                    end + 1,
                ));
                assert(texts(result@) + lines_from(chars@, end + 1) =~= before + (seq![line]
                    + lines_from(chars@, end + 1)));
            }
            at = end + 1;
        }
    }
    proof {
        assert(lines_from(chars@, at as int) =~= Seq::empty());
        assert(texts(result@) + lines_from(chars@, at as int) =~= texts(result@));
    }
    result
}

/// The texts of `list` from position `at` on, with `glue` between them.
pub open spec fn glued_from(list: Seq<Seq<char>>, glue: Seq<char>, at: int) -> Seq<char>
    decreases list.len() - at,
{
    if at >= list.len() {
        Seq::empty()
    } else if at + 1 == list.len() {
        list[at]
    } else {
        list[at] + glue + glued_from(list, glue, at + 1)
    }
}

/// The texts of `list` with `glue` between them.
pub open spec fn glued(list: Seq<Seq<char>>, glue: Seq<char>) -> Seq<char> {
    glued_from(list, glue, 0)
}

/// Puts texts together, with `glue` between them, from position `from` on.
pub fn glue_from(list: &Vec<String>, glue: &str, from: usize) -> (text: String)
    requires
        from <= list@.len(),
    ensures
        text@ == glued_from(texts(list@), glue@, from as int),
{
    let mut text = String::new();
    let mut at: usize = from;
    proof {
        assert(text@ + glued_from(texts(list@), glue@, at as int) =~= glued_from(
            texts(list@),
            glue@,
            from as int,
        ));
    }
    while at < list.len()
        invariant
            from <= at <= list@.len(),
            text@ + glued_from(texts(list@), glue@, at as int) == glued_from(
                texts(list@),
                glue@,
                from as int,
            ),
        decreases list@.len() - at,
    {
        let ghost before = text@;
        text.append(list[at].as_str());
        if at + 1 < list.len() {
            text.append(glue);
        }
        proof {
            let rest = glued_from(texts(list@), glue@, at + 1);
            let now = texts(list@)[at as int];
            if at + 1 < list@.len() {
                assert(text@ + rest =~= before + (now + glue@ + rest));
            } else {
                assert(text@ + rest =~= before + now);
            }
        }
        at = at + 1;
    }
    proof {
        assert(text@ + glued_from(texts(list@), glue@, at as int) =~= text@);
    }
    text
}

// ---------------------------------------------------------------------------
// ASCII case
// ---------------------------------------------------------------------------

/// The lower-case form of an ASCII letter; another character stays as it is.
pub open spec fn lower(ch: char) -> char {
    if 'A' <= ch <= 'Z' {
        (ch as u32 + 32) as char
    } else {
        ch
    }
}

/// The upper-case form of an ASCII letter; another character stays as it is.
pub open spec fn upper(ch: char) -> char {
    if 'a' <= ch <= 'z' {
        (ch as u32 - 32) as char
    } else {
        ch
    }
}

/// `text` with its ASCII letters in lower case.
pub open spec fn lowered(text: Seq<char>) -> Seq<char> {
    Seq::new(text.len(), |at: int| lower(text[at]))
}

/// `text` with its ASCII letters in upper case.
pub open spec fn uppered(text: Seq<char>) -> Seq<char> {
    Seq::new(text.len(), |at: int| upper(text[at]))
}

fn lower_char(ch: char) -> (result: char)
    ensures
        result == lower(ch),
{
    if 'A' <= ch && ch <= 'Z' {
        ((ch as u8) + 32) as char
    } else {
        ch
    }
}

fn upper_char(ch: char) -> (result: char)
    ensures
        result == upper(ch),
{
    if 'a' <= ch && ch <= 'z' {
        ((ch as u8) - 32) as char
    } else {
        ch
    }
}

/// Puts the ASCII letters of a text in lower case.
pub fn to_lower(text: &str) -> (result: String)
    ensures
        result@ == lowered(text@),
{
    let mut result = String::new();
    for ch in it: text.chars()
        invariant
            result@.len() == it.index(),
            it.seq() == text@,
            forall|k: int| 0 <= k < it.index() ==> result@[k] == lower(text@[k]),
    {
        result.push(lower_char(ch));
    }
    proof {
        assert(result@ =~= lowered(text@));
    }
    result
}

/// Puts the ASCII letters of a text in upper case.
pub fn to_upper(text: &str) -> (result: String)
    ensures
        result@ == uppered(text@),
{
    let mut result = String::new();
    for ch in it: text.chars()
        invariant
            result@.len() == it.index(),
            it.seq() == text@,
            forall|k: int| 0 <= k < it.index() ==> result@[k] == upper(text@[k]),
    {
        result.push(upper_char(ch));
    }
    proof {
        assert(result@ =~= uppered(text@));
    }
    result
}

/// Whether two texts are equal but for the case of ASCII letters.
pub fn same_ignoring_case(left: &str, right: &str) -> (same: bool)
    ensures
        same == (lowered(left@) == lowered(right@)),
{
    let a = to_lower(left);
    let b = to_lower(right);
    same_text(a.as_str(), b.as_str())
}

// ---------------------------------------------------------------------------
// Prefixes and parts
// ---------------------------------------------------------------------------

/// Whether `text` begins with `prefix`.
pub open spec fn begins(text: Seq<char>, prefix: Seq<char>) -> bool {
    prefix.len() <= text.len() && text.take(prefix.len() as int) == prefix
}

/// What follows `prefix` at the beginning of a text, if the text begins with it.
pub fn strip_prefix(text: &str, prefix: &str) -> (rest: Option<String>)
    ensures
        match rest {
            Some(inner) => begins(text@, prefix@) && inner@ == text@.skip(prefix@.len() as int),
            None => !begins(text@, prefix@),
        },
{
    let chars = chars_of(text);
    let start = chars_of(prefix);
    if start.len() > chars.len() {
        return None;
    }
    let mut at: usize = 0;
    while at < start.len()
        invariant
            at <= start@.len() <= chars@.len(),
            chars@ == text@,
            start@ == prefix@,
            forall|k: int| 0 <= k < at ==> chars@[k] == start@[k],
        decreases start@.len() - at,
    {
        if chars[at] != start[at] {
            proof {
                assert(text@.take(prefix@.len() as int)[at as int] != prefix@[at as int]);
            }
            return None;
        }
        at = at + 1;
    }
    proof {
        assert(text@.take(prefix@.len() as int) =~= prefix@);
        assert(chars@.subrange(at as int, chars@.len() as int) =~= text@.skip(
            prefix@.len() as int,
        ));
    }
    Some(text_of(&chars, at, chars.len()))
}

/// Whether a text begins with `prefix`.
pub fn begins_with(text: &str, prefix: &str) -> (begins_so: bool)
    ensures
        begins_so == begins(text@, prefix@),
{
    strip_prefix(text, prefix).is_some()
}

/// The position of the first `mark` from `at` on, or the end.
pub open spec fn part_end(text: Seq<char>, mark: char, at: int) -> int
    decreases text.len() - at,
{
    if at < text.len() && text[at] != mark {
        part_end(text, mark, at + 1)
    } else {
        at
    }
}

proof fn lemma_part_end(text: Seq<char>, mark: char, at: int)
    requires
        0 <= at <= text.len(),
    ensures
        at <= part_end(text, mark, at) <= text.len(),
    decreases text.len() - at,
{
    if at < text.len() && text[at] != mark {
        lemma_part_end(text, mark, at + 1);
    }
}

/// The parts of `text`, from position `at` on, that lie between marks.
pub open spec fn parts_from(text: Seq<char>, mark: char, at: int) -> Seq<Seq<char>>
    decreases text.len() - at,
    when 0 <= at <= text.len()
    via parts_from_decreases
{
    let end = part_end(text, mark, at);
    if end >= text.len() {
        seq![text.subrange(at, text.len() as int)]
    } else {
        seq![text.subrange(at, end)] + parts_from(text, mark, end + 1)
    }
}

#[via_fn]
proof fn parts_from_decreases(text: Seq<char>, mark: char, at: int) {
    lemma_part_end(text, mark, at);
}

/// The parts of `text` that lie between marks.
pub open spec fn parts(text: Seq<char>, mark: char) -> Seq<Seq<char>> {
    parts_from(text, mark, 0)
}

/// Splits a text at each mark.
pub fn split_at_mark(text: &str, mark: char) -> (result: Vec<String>)
    ensures
        texts(result@) == parts(text@, mark),
{
    let chars = chars_of(text);
    let mut result: Vec<String> = Vec::new();
    let mut at: usize = 0;
    proof {
        assert(texts(result@) + parts_from(chars@, mark, 0) =~= parts(text@, mark));
    }
    loop
        invariant
            at <= chars@.len(),
            chars@ == text@,
            texts(result@) + parts_from(chars@, mark, at as int) == parts(text@, mark),
        decreases chars@.len() - at,
    {
        let mut end: usize = at;
        while end < chars.len() && chars[end] != mark
            invariant
                at <= end <= chars@.len(),
                part_end(chars@, mark, at as int) == part_end(chars@, mark, end as int),
            decreases chars@.len() - end,
        {
            end = end + 1;
        }
        let ghost before = texts(result@);
        result.push(text_of(&chars, at, end));
        let ghost part = chars@.subrange(at as int, end as int);
        proof {
            assert(texts(result@) =~= before + seq![part]);
        }
        if end >= chars.len() {
            return result;
        }
        proof {
            assert(parts_from(chars@, mark, at as int) == seq![part] + parts_from(
                chars@,
                mark,
                end + 1,
            ));
            assert(texts(result@) + parts_from(chars@, mark, end + 1) =~= before + (seq![part]
                + parts_from(chars@, mark, end + 1)));
        }
        at = end + 1;
    }
}

// ---------------------------------------------------------------------------
// Search
// ---------------------------------------------------------------------------

/// The first place from `at` on that has this character.
pub open spec fn char_from(content: Seq<char>, ch: char, at: int) -> Option<int>
    decreases content.len() - at,
{
    if at >= content.len() {
        None
    } else if content[at] == ch {
        Some(at)
    } else {
        char_from(content, ch, at + 1)
    }
}

/// Whether `pattern` stands at a place of `content`.
pub open spec fn stands_at(content: Seq<char>, pattern: Seq<char>, at: int) -> bool {
    &&& at + pattern.len() <= content.len()
    &&& forall|k: int| 0 <= k < pattern.len() ==> content[at + k] == #[trigger] pattern[k]
}

/// The first place from `at` on at which `pattern` stands.
pub open spec fn found_from(content: Seq<char>, pattern: Seq<char>, at: int) -> Option<int>
    decreases content.len() - at,
{
    if at + pattern.len() > content.len() {
        None
    } else if stands_at(content, pattern, at) {
        Some(at)
    } else if at >= content.len() {
        None
    } else {
        found_from(content, pattern, at + 1)
    }
}

/// The first place from `from` on that has this character.
pub fn find_char(content: &Vec<char>, ch: char, from: usize) -> (place: Option<usize>)
    requires
        from <= content@.len(),
    ensures
        match place {
            Some(at) => from <= at < content@.len() && char_from(content@, ch, from as int)
                == Some(at as int),
            None => char_from(content@, ch, from as int) is None,
        },
{
    let mut at: usize = from;
    while at < content.len()
        invariant
            from <= at <= content@.len(),
            char_from(content@, ch, from as int) == char_from(content@, ch, at as int),
        decreases content@.len() - at,
    {
        if content[at] == ch {
            return Some(at);
        }
        at = at + 1;
    }
    None
}

/// Whether a pattern stands at a place of a text.
pub fn stands(content: &Vec<char>, pattern: &Vec<char>, at: usize) -> (result: bool)
    ensures
        result == stands_at(content@, pattern@, at as int),
{
    let total = content.len();
    if pattern.len() > total || at > total - pattern.len() {
        return false;
    }
    let mut place: usize = 0;
    while place < pattern.len()
        invariant
            place <= pattern@.len(),
            at + pattern@.len() <= total,
            total == content@.len(),
            forall|k: int| 0 <= k < place ==> content@[at + k] == #[trigger] pattern@[k],
        decreases pattern@.len() - place,
    {
        if content[at + place] != pattern[place] {
            return false;
        }
        place = place + 1;
    }
    true
}

/// The first place at which a pattern stands.
pub fn find(content: &Vec<char>, pattern: &Vec<char>) -> (place: Option<usize>)
    ensures
        match place {
            Some(at) => found_from(content@, pattern@, 0) == Some(at as int) && at + pattern@.len()
                <= content@.len(),
            None => found_from(content@, pattern@, 0) is None,
        },
{
    if pattern.len() > content.len() {
        return None;
    }
    let last = content.len() - pattern.len();
    let mut at: usize = 0;
    while at <= last
        invariant
            at <= last + 1,
            last + pattern@.len() == content@.len(),
            found_from(content@, pattern@, 0) == found_from(content@, pattern@, at as int),
        decreases last + 1 - at,
    {
        if stands(content, pattern, at) {
            return Some(at);
        }
        if at == last {
            proof {
                assert(found_from(content@, pattern@, at + 1) is None);
            }
            return None;
        }
        at = at + 1;
    }
    None
}

} // verus!
