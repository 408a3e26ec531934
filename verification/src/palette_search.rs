//! How well a text fits what was typed into the palette.

use crate::text;
use crate::text::{chars_of, find, find_char, stands, text_of, trim};
use vstd::prelude::*;

verus! {

/// The lower case of a character, as Unicode has it: one or more characters.
pub uninterp spec fn lowercase(ch: char) -> Seq<char>;

/// `char::to_lowercase`: the characters that Unicode gives as the lower case of one. For the
/// characters of ASCII it is the small letter of a capital one, and else the character itself.
#[verifier::external_body]
fn lowercase_chars(ch: char) -> (chars: Vec<char>)
    ensures
        chars@ == lowercase(ch),
        (ch as u32) < 128 ==> chars@ == seq![text::lower(ch)],
{
    ch.to_lowercase().collect()
}

/// The lower case of a character: that of an ASCII letter is its small letter, another character
/// of ASCII stays as it is, and for the rest it is as Unicode has it.
pub open spec fn lower_chars(ch: char) -> Seq<char> {
    if (ch as u32) < 128 {
        seq![text::lower(ch)]
    } else {
        lowercase(ch)
    }
}

/// Whether a character is a small letter or a digit of ASCII; a text in lower case has no other
/// letters of ASCII.
pub open spec fn is_word_char(ch: char) -> bool {
    'a' <= ch <= 'z' || '0' <= ch <= '9'
}

fn is_word(ch: char) -> (result: bool)
    ensures
        result == is_word_char(ch),
{
    ('a' <= ch && ch <= 'z') || ('0' <= ch && ch <= '9')
}

/// The lower case of the first `count` characters.
pub open spec fn lower_from(content: Seq<char>, count: int) -> Seq<char>
    decreases count,
{
    if count <= 0 {
        Seq::empty()
    } else {
        lower_from(content, count - 1) + lower_chars(content[count - 1])
    }
}

/// The first `count` characters with a single space in place of all that are no letters and no
/// digits.
pub open spec fn squeezed(content: Seq<char>, count: int) -> Seq<char>
    decreases count,
{
    if count <= 0 {
        Seq::empty()
    } else {
        let before = squeezed(content, count - 1);
        let ch = content[count - 1];
        if is_word_char(ch) {
            before.push(ch)
        } else if before.len() > 0 && before.last() == ' ' {
            before
        } else {
            before.push(' ')
        }
    }
}

/// The words of a text in lower case, with one space between them.
pub open spec fn normalized(content: Seq<char>) -> Seq<char> {
    let lower = lower_from(content, content.len() as int);
    text::trimmed(squeezed(lower, lower.len() as int))
}

/// Whether all characters are of ASCII.
pub open spec fn is_ascii(content: Seq<char>) -> bool {
    forall|at: int| 0 <= at < content.len() ==> (#[trigger] content[at] as u32) < 128
}

/// The words of a text in ASCII, in lower case, with one space between them.
pub open spec fn plain_normalized(content: Seq<char>) -> Seq<char> {
    text::trimmed(squeezed(text::lowered(content), content.len() as int))
}

proof fn lemma_plain_lower(content: Seq<char>, count: int)
    requires
        0 <= count <= content.len(),
        is_ascii(content),
    ensures
        lower_from(content, count) == text::lowered(content).take(count),
    decreases count,
{
    if count > 0 {
        lemma_plain_lower(content, count - 1);
        assert((content[count - 1] as u32) < 128);
    }
    assert(lower_from(content, count) =~= text::lowered(content).take(count));
}

/// The first `count` characters without spaces.
pub open spec fn compacted(content: Seq<char>, count: int) -> Seq<char>
    decreases count,
{
    if count <= 0 {
        Seq::empty()
    } else if content[count - 1] == ' ' {
        compacted(content, count - 1)
    } else {
        compacted(content, count - 1).push(content[count - 1])
    }
}

/// A text without spaces.
pub open spec fn compact(content: Seq<char>) -> Seq<char> {
    compacted(content, content.len() as int)
}

/// The points for a character that was found at `index`, the one before at `previous`.
pub open spec fn points(previous: Option<int>, index: int) -> int {
    match previous {
        Some(before) => if index == before + 1 {
            18
        } else if 10 - (index - (before + 1)) > 1 {
            10 - (index - (before + 1))
        } else {
            1
        },
        None => if 15 - index > 1 {
            15 - index
        } else {
            1
        },
    }
}

/// The points for the characters of `query` from `place` on, each looked for after the one before.
pub open spec fn points_from(
    query: Seq<char>,
    candidate: Seq<char>,
    place: int,
    from: int,
    previous: Option<int>,
) -> Option<int>
    decreases query.len() - place,
{
    if place >= query.len() {
        Some(0)
    } else {
        match text::char_from(candidate, query[place], from) {
            None => None,
            Some(index) => match points_from(
                query,
                candidate,
                place + 1,
                index + 1,
                Some(index),
            ) {
                None => None,
                Some(rest) => Some(points(previous, index) + rest),
            },
        }
    }
}

/// How well the characters of `query` can be found in `candidate`, one after the other.
pub open spec fn subsequence_score(query: Seq<char>, candidate: Seq<char>) -> Option<int> {
    points_from(query, candidate, 0, 0, None)
}

/// How well a text fits a query, both made of words in lower case: best where they are the same but
/// for spaces, then where the text begins with the query, then where it has it, then where it has
/// its characters one after the other. All fit a query without words.
pub open spec fn fit_score(words: Seq<char>, content: Seq<char>) -> Option<int> {
    let short_words = compact(words);
    let short_text = compact(content);
    if words.len() == 0 {
        Some(0)
    } else if short_text == short_words {
        Some(1000)
    } else if text::stands_at(short_text, short_words, 0) {
        Some(900 - short_text.len())
    } else if text::found_from(short_text, short_words, 0) is Some {
        Some(800 - text::found_from(short_text, short_words, 0)->0)
    } else if text::stands_at(content, words, 0) {
        Some(760 - content.len())
    } else if text::found_from(content, words, 0) is Some {
        Some(700 - text::found_from(content, words, 0)->0)
    } else {
        match subsequence_score(short_words, short_text) {
            Some(score) => Some(500 + score),
            None => None,
        }
    }
}

/// How well the words of `candidate` fit those of `query`.
pub open spec fn match_score(query: Seq<char>, candidate: Seq<char>) -> Option<int> {
    fit_score(normalized(query), normalized(candidate))
}

/// The better of two scores.
pub open spec fn better(first: Option<int>, second: Option<int>) -> Option<int> {
    match (first, second) {
        (Some(left), Some(right)) => if right > left {
            Some(right)
        } else {
            Some(left)
        },
        (Some(left), None) => Some(left),
        (None, Some(right)) => Some(right),
        (None, None) => None,
    }
}

/// The best score of the first `count` texts.
pub open spec fn best_score(query: Seq<char>, terms: Seq<Seq<char>>, count: int) -> Option<int>
    decreases count,
{
    if count <= 0 {
        None
    } else {
        better(best_score(query, terms, count - 1), match_score(query, terms[count - 1]))
    }
}

/// How well one of these texts fits `query`; all fit one without words.
pub open spec fn terms_score(query: Seq<char>, terms: Seq<Seq<char>>) -> Option<int> {
    if text::trimmed(query).len() == 0 {
        Some(0)
    } else {
        best_score(query, terms, terms.len() as int)
    }
}

/// The contents of a score.
pub open spec fn score_view(score: Option<i128>) -> Option<int> {
    match score {
        Some(inner) => Some(inner as int),
        None => None,
    }
}

/// The words of a text in lower case, with one space between them.
pub fn palette_normalize(content: &str) -> (result: String)
    ensures
        result@ == normalized(content@),
        is_ascii(content@) ==> result@ == plain_normalized(content@),
{
    proof {
        if is_ascii(content@) {
            lemma_plain_lower(content@, content@.len() as int);
            assert(text::lowered(content@).take(content@.len() as int) =~= text::lowered(content@));
        }
    }
    let chars = chars_of(content);
    let mut lower: Vec<char> = Vec::new();
    let mut at: usize = 0;
    while at < chars.len()
        invariant
            at <= chars@.len(),
            lower@ == lower_from(chars@, at as int),
        decreases chars@.len() - at,
    {
        let mut more = lowercase_chars(chars[at]);
        lower.append(&mut more);
        at = at + 1;
    }
    let mut kept: Vec<char> = Vec::new();
    let mut place: usize = 0;
    while place < lower.len()
        invariant
            place <= lower@.len(),
            kept@ == squeezed(lower@, place as int),
        decreases lower@.len() - place,
    {
        let ch = lower[place];
        if is_word(ch) {
            kept.push(ch);
        } else if kept.len() == 0 || kept[kept.len() - 1] != ' ' {
            kept.push(' ');
        }
        place = place + 1;
    }
    let count = kept.len();
    let whole = text_of(&kept, 0, count);
    proof {
        assert(whole@ =~= kept@);
    }
    trim(whole.as_str())
}

fn compact_chars(content: &Vec<char>) -> (kept: Vec<char>)
    ensures
        kept@ == compact(content@),
{
    let mut kept: Vec<char> = Vec::new();
    let mut at: usize = 0;
    while at < content.len()
        invariant
            at <= content@.len(),
            kept@ == compacted(content@, at as int),
        decreases content@.len() - at,
    {
        if content[at] != ' ' {
            kept.push(content[at]);
        }
        at = at + 1;
    }
    kept
}

fn points_for(previous: Option<usize>, index: usize) -> (result: i128)
    requires
        match previous {
            Some(before) => before < index,
            None => true,
        },
    ensures
        result == points(
            match previous {
                Some(before) => Some(before as int),
                None => None,
            },
            index as int,
        ),
        1 <= result <= 18,
{
    match previous {
        Some(before) => {
            if index == before + 1 {
                18
            } else {
                let gap: i128 = index as i128 - (before as i128 + 1);
                if 10 - gap > 1 {
                    10 - gap
                } else {
                    1
                }
            }
        },
        None => {
            let rest: i128 = 15 - index as i128;
            if rest > 1 {
                rest
            } else {
                1
            }
        },
    }
}

/// The contents of an optional place.
pub open spec fn opt_place(place: Option<usize>) -> Option<int> {
    match place {
        Some(at) => Some(at as int),
        None => None,
    }
}

/// How well the characters of a query can be found in a text, one after the other.
pub fn palette_subsequence_score(query: &Vec<char>, candidate: &Vec<char>) -> (score: Option<i128>)
    ensures
        score_view(score) == subsequence_score(query@, candidate@),
        match score {
            Some(inner) => 0 <= inner <= 18 * usize::MAX,
            None => true,
        },
{
    let total = candidate.len();
    let count = query.len();
    let mut score: i128 = 0;
    let mut from: usize = 0;
    let mut previous: Option<usize> = None;
    let mut place: usize = 0;
    while place < count
        invariant
            place <= count,
            count == query@.len(),
            from <= total,
            total == candidate@.len(),
            match previous {
                Some(before) => before < from,
                None => true,
            },
            0 <= score <= 18 * place,
            subsequence_score(query@, candidate@) == (match points_from(
                query@,
                candidate@,
                place as int,
                from as int,
                opt_place(previous),
            ) {
                Some(rest) => Some(score + rest),
                None => None,
            }),
        decreases query@.len() - place,
    {
        match find_char(candidate, query[place], from) {
            None => {
                return None;
            },
            Some(index) => {
                score = score + points_for(previous, index);
                previous = Some(index);
                from = index + 1;
            },
        }
        place = place + 1;
    }
    Some(score)
}

/// How well a text fits a query, both made of words in lower case.
pub fn palette_fit_score(query: &str, candidate: &str) -> (score: Option<i128>)
    ensures
        score_view(score) == fit_score(query@, candidate@),
{
    let words = chars_of(query);
    let content = chars_of(candidate);
    if words.len() == 0 {
        return Some(0);
    }
    let short_words = compact_chars(&words);
    let short_text = compact_chars(&content);
    if stands(&short_text, &short_words, 0) {
        if short_text.len() == short_words.len() {
            proof {
                assert(short_text@ =~= short_words@);
            }
            return Some(1000);
        }
        return Some(900 - short_text.len() as i128);
    }
    if let Some(at) = find(&short_text, &short_words) {
        return Some(800 - at as i128);
    }
    if stands(&content, &words, 0) {
        return Some(760 - content.len() as i128);
    }
    if let Some(at) = find(&content, &words) {
        return Some(700 - at as i128);
    }
    match palette_subsequence_score(&short_words, &short_text) {
        Some(score) => Some(500 + score),
        None => None,
    }
}

/// How well a text fits a query.
pub fn palette_match_score(query: &str, candidate: &str) -> (score: Option<i128>)
    ensures
        score_view(score) == match_score(query@, candidate@),
{
    palette_fit_score(palette_normalize(query).as_str(), palette_normalize(candidate).as_str())
}

/// How well one of these texts fits a query.
pub fn palette_score_terms(query: &str, terms: &Vec<String>) -> (score: Option<i128>)
    ensures
        score_view(score) == terms_score(query@, text::texts(terms@)),
{
    if trim(query).as_str().is_empty() {
        return Some(0);
    }
    let mut best: Option<i128> = None;
    let mut at: usize = 0;
    while at < terms.len()
        invariant
            at <= terms@.len(),
            score_view(best) == best_score(query@, text::texts(terms@), at as int),
        decreases terms@.len() - at,
    {
        let next = palette_match_score(query, terms[at].as_str());
        best = match (best, next) {
            (Some(left), Some(right)) => if right > left {
                Some(right)
            } else {
                Some(left)
            },
            (Some(left), None) => Some(left),
            (None, Some(right)) => Some(right),
            (None, None) => None,
        };
        at = at + 1;
    }
    best
}

/// A text that is the same as what is looked for, but for its spaces, has the highest score.
pub proof fn law_same_text_scores_best(query: Seq<char>, candidate: Seq<char>)
    requires
        normalized(query).len() > 0,
        compact(normalized(query)) == compact(normalized(candidate)),
    ensures
        match_score(query, candidate) == Some(1000int),
{
}

} // verus!
