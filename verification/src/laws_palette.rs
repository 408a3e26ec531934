//! What holds of every search in the palette.

use crate::palette_search;
use crate::text;
use vstd::prelude::*;

verus! {

// ---------------------------------------------------------------------------
// White space at the ends
// ---------------------------------------------------------------------------

/// Where white space ends.
pub proof fn lemma_after_space(content: Seq<char>, at: int)
    requires
        0 <= at <= content.len(),
    ensures
        at <= text::after_space(content, at) <= content.len(),
        forall|k: int|
            at <= k < text::after_space(content, at) ==> text::is_space(#[trigger] content[k]),
        text::after_space(content, at) < content.len() ==> !text::is_space(
            content[text::after_space(content, at)],
        ),
    decreases content.len() - at,
{
    if at < content.len() && text::is_space(content[at]) {
        lemma_after_space(content, at + 1);
    }
}

/// Where the white space at the end begins.
pub proof fn lemma_before_space(content: Seq<char>, low: int, high: int)
    requires
        0 <= low <= high <= content.len(),
    ensures
        low <= text::before_space(content, low, high) <= high,
        forall|k: int|
            text::before_space(content, low, high) <= k < high ==> text::is_space(
                #[trigger] content[k],
            ),
        low < text::before_space(content, low, high) ==> !text::is_space(
            content[text::before_space(content, low, high) - 1],
        ),
    decreases high - low,
{
    if low < high && text::is_space(content[high - 1]) {
        lemma_before_space(content, low, high - 1);
    }
}

/// Where a text without white space at its ends lies in the text: nothing but white space stands
/// around it.
proof fn lemma_trimmed(content: Seq<char>) -> (ends: (int, int))
    ensures
        0 <= ends.0 <= ends.1 <= content.len(),
        text::trimmed(content) == content.subrange(ends.0, ends.1),
        forall|k: int| 0 <= k < ends.0 ==> text::is_space(#[trigger] content[k]),
        forall|k: int| ends.1 <= k < content.len() ==> text::is_space(#[trigger] content[k]),
        ends.0 < ends.1 ==> !text::is_space(content[ends.0]) && !text::is_space(
            content[ends.1 - 1],
        ),
{
    let low = text::after_space(content, 0);
    lemma_after_space(content, 0);
    lemma_before_space(content, low, content.len() as int);
    (low, text::before_space(content, low, content.len() as int))
}

// ---------------------------------------------------------------------------
// Without spaces
// ---------------------------------------------------------------------------

proof fn lemma_compacted_of(longer: Seq<char>, content: Seq<char>, count: int)
    requires
        0 <= count <= content.len(),
        count <= longer.len(),
        forall|k: int| 0 <= k < count ==> longer[k] == #[trigger] content[k],
    ensures
        palette_search::compacted(longer, count) == palette_search::compacted(content, count),
    decreases count,
{
    if count > 0 {
        lemma_compacted_of(longer, content, count - 1);
        assert(longer[count - 1] == content[count - 1]);
    }
}

proof fn lemma_compact_joined(first: Seq<char>, second: Seq<char>, count: int)
    requires
        0 <= count <= second.len(),
    ensures
        palette_search::compacted(first + second, first.len() + count) == palette_search::compact(
            first,
        ) + palette_search::compacted(second, count),
    decreases count,
{
    let whole = first + second;
    if count > 0 {
        lemma_compact_joined(first, second, count - 1);
        assert(whole[first.len() + count - 1] == second[count - 1]);
        assert(palette_search::compacted(whole, first.len() + count) =~= palette_search::compact(
            first,
        ) + palette_search::compacted(second, count));
    } else {
        lemma_compacted_of(whole, first, first.len() as int);
        assert(palette_search::compacted(whole, first.len() as int) =~= palette_search::compact(
            first,
        ) + palette_search::compacted(second, 0));
    }
}

proof fn lemma_compact_spaces(content: Seq<char>, count: int)
    requires
        0 <= count <= content.len(),
        forall|k: int| 0 <= k < content.len() ==> #[trigger] content[k] == ' ',
    ensures
        palette_search::compacted(content, count) == Seq::<char>::empty(),
    decreases count,
{
    if count > 0 {
        lemma_compact_spaces(content, count - 1);
        assert(content[count - 1] == ' ');
    }
}

/// A piece of a text that stands between two others stands so without the spaces too.
proof fn lemma_compact_between(before: Seq<char>, piece: Seq<char>, after: Seq<char>)
    ensures
        palette_search::compact(before + piece + after) == palette_search::compact(before)
            + palette_search::compact(piece) + palette_search::compact(after),
{
    lemma_compact_joined(before + piece, after, after.len() as int);
    lemma_compact_joined(before, piece, piece.len() as int);
}

// ---------------------------------------------------------------------------
// The words of a text
// ---------------------------------------------------------------------------

/// Whether a text is made of small letters and digits of ASCII and single spaces.
pub open spec fn spaced(content: Seq<char>) -> bool {
    &&& forall|k: int|
        0 <= k < content.len() ==> palette_search::is_word_char(#[trigger] content[k])
            || content[k] == ' '
    &&& forall|i: int, j: int|
        0 <= i && j == i + 1 && j < content.len() ==> !(#[trigger] content[i] == ' '
            && #[trigger] content[j] == ' ')
}

/// Whether a text is made of words in lower case with one space between them: of small letters and
/// digits of ASCII and single spaces, with none at its ends.
pub open spec fn tidy(content: Seq<char>) -> bool {
    &&& spaced(content)
    &&& content.len() > 0 ==> content[0] != ' ' && content.last() != ' '
}

/// The small letters and digits of ASCII among the first `count` characters.
pub open spec fn letters(content: Seq<char>, count: int) -> Seq<char>
    decreases count,
{
    if count <= 0 {
        Seq::empty()
    } else if palette_search::is_word_char(content[count - 1]) {
        letters(content, count - 1).push(content[count - 1])
    } else {
        letters(content, count - 1)
    }
}

proof fn lemma_squeezed(content: Seq<char>, count: int)
    requires
        0 <= count <= content.len(),
    ensures
        spaced(palette_search::squeezed(content, count)),
        palette_search::compact(palette_search::squeezed(content, count)) == letters(
            content,
            count,
        ),
    decreases count,
{
    let whole = palette_search::squeezed(content, count);
    if count > 0 {
        lemma_squeezed(content, count - 1);
        let before = palette_search::squeezed(content, count - 1);
        if whole != before {
            let last = whole.last();
            assert(whole == before.push(last));
            assert forall|i: int, j: int| 0 <= i && j == i + 1 && j < whole.len() implies !(
            #[trigger] whole[i] == ' ' && #[trigger] whole[j] == ' ') by {
                if j < before.len() {
                    assert(whole[i] == before[i] && whole[j] == before[j]);
                } else {
                    assert(whole[i] == before.last());
                }
            }
            lemma_compacted_of(whole, before, before.len() as int);
        }
    }
}

proof fn lemma_only_space(ch: char)
    requires
        palette_search::is_word_char(ch) || ch == ' ',
    ensures
        text::is_space(ch) == (ch == ' '),
{
}

/// What the palette looks for, and in, is made of words in lower case with one space between them;
/// without the spaces, it is the letters and digits of the text in lower case, in their order.
pub proof fn law_normalized_is_tidy(content: Seq<char>)
    ensures
        tidy(palette_search::normalized(content)),
        palette_search::compact(palette_search::normalized(content)) == letters(
            palette_search::lower_from(content, content.len() as int),
            palette_search::lower_from(content, content.len() as int).len() as int,
        ),
{
    let lower = palette_search::lower_from(content, content.len() as int);
    let whole = palette_search::squeezed(lower, lower.len() as int);
    lemma_squeezed(lower, lower.len() as int);
    let (low, high) = lemma_trimmed(whole);
    let result = whole.subrange(low, high);
    assert forall|k: int| 0 <= k < whole.len() implies text::is_space(#[trigger] whole[k]) == (
    whole[k] == ' ') by {
        lemma_only_space(whole[k]);
    }
    assert forall|i: int, j: int| 0 <= i && j == i + 1 && j < result.len() implies !(
    #[trigger] result[i] == ' ' && #[trigger] result[j] == ' ') by {
        assert(result[i] == whole[low + i] && result[j] == whole[low + j]);
    }
    let before = whole.subrange(0, low);
    let after = whole.subrange(high, whole.len() as int);
    assert(whole =~= before + result + after);
    assert forall|k: int| 0 <= k < before.len() implies #[trigger] before[k] == ' ' by {
        assert(before[k] == whole[k]);
    }
    assert forall|k: int| 0 <= k < after.len() implies #[trigger] after[k] == ' ' by {
        assert(after[k] == whole[high + k]);
    }
    lemma_compact_between(before, result, after);
    lemma_compact_spaces(before, before.len() as int);
    lemma_compact_spaces(after, after.len() as int);
    assert(palette_search::compact(whole) =~= palette_search::compact(result));
}

proof fn lemma_tidy_lower(content: Seq<char>, count: int)
    requires
        0 <= count <= content.len(),
        spaced(content),
    ensures
        palette_search::lower_from(content, count) == content.take(count),
    decreases count,
{
    if count > 0 {
        lemma_tidy_lower(content, count - 1);
        let ch = content[count - 1];
        assert(palette_search::is_word_char(ch) || ch == ' ');
        assert(palette_search::lower_chars(ch) =~= seq![ch]);
    }
    assert(palette_search::lower_from(content, count) =~= content.take(count));
}

proof fn lemma_tidy_squeezed(content: Seq<char>, count: int)
    requires
        0 <= count <= content.len(),
        spaced(content),
    ensures
        palette_search::squeezed(content, count) == content.take(count),
    decreases count,
{
    if count > 0 {
        lemma_tidy_squeezed(content, count - 1);
        let before = content.take(count - 1);
        let ch = content[count - 1];
        assert(palette_search::is_word_char(ch) || ch == ' ');
        if before.len() > 0 {
            assert(before.last() == content[count - 2]);
            assert(!(content[count - 2] == ' ' && content[count - 1] == ' '));
        }
    }
    assert(palette_search::squeezed(content, count) =~= content.take(count));
}

proof fn lemma_tidy_stays(content: Seq<char>)
    requires
        tidy(content),
    ensures
        palette_search::normalized(content) == content,
{
    lemma_tidy_lower(content, content.len() as int);
    assert(content.take(content.len() as int) =~= content);
    lemma_tidy_squeezed(content, content.len() as int);
    if content.len() > 0 {
        lemma_only_space(content[0]);
        lemma_only_space(content.last());
    }
    assert(text::trimmed(content) =~= content);
}

/// What is made of words in lower case already stays as it is.
pub proof fn law_normalizing_twice(content: Seq<char>)
    ensures
        palette_search::normalized(palette_search::normalized(content))
            == palette_search::normalized(content),
{
    law_normalized_is_tidy(content);
    lemma_tidy_stays(palette_search::normalized(content));
}

// ---------------------------------------------------------------------------
// What is found
// ---------------------------------------------------------------------------

/// Whether the characters of a query stand at these places of a text, one after the other.
pub open spec fn placed(query: Seq<char>, content: Seq<char>, places: Seq<int>) -> bool {
    &&& places.len() == query.len()
    &&& forall|k: int|
        0 <= k < query.len() ==> 0 <= #[trigger] places[k] < content.len() && content[places[k]]
            == query[k]
    &&& forall|i: int, j: int|
        0 <= i < j < query.len() ==> #[trigger] places[i] < #[trigger] places[j]
}

/// Whether a text has the characters of a query in their order, others between them or not.
pub open spec fn has_in_order(query: Seq<char>, content: Seq<char>) -> bool {
    exists|places: Seq<int>| placed(query, content, places)
}

proof fn lemma_char_from(content: Seq<char>, ch: char, at: int)
    requires
        0 <= at,
    ensures
        match text::char_from(content, ch, at) {
            Some(found) => at <= found < content.len() && content[found] == ch && forall|k: int|
                at <= k < found ==> #[trigger] content[k] != ch,
            None => forall|k: int| at <= k < content.len() ==> #[trigger] content[k] != ch,
        },
    decreases content.len() - at,
{
    if at < content.len() && content[at] != ch {
        lemma_char_from(content, ch, at + 1);
    }
}

proof fn lemma_found_from(content: Seq<char>, pattern: Seq<char>, at: int)
    requires
        0 <= at,
    ensures
        match text::found_from(content, pattern, at) {
            Some(found) => at <= found && text::stands_at(content, pattern, found),
            None => true,
        },
    decreases content.len() - at,
{
    if at + pattern.len() <= content.len() && !text::stands_at(content, pattern, at) && at
        < content.len() {
        lemma_found_from(content, pattern, at + 1);
    }
}

proof fn lemma_points_miss_nothing(
    query: Seq<char>,
    content: Seq<char>,
    places: Seq<int>,
    place: int,
    from: int,
    previous: Option<int>,
)
    requires
        placed(query, content, places),
        0 <= place <= query.len(),
        0 <= from,
        place < query.len() ==> from <= places[place],
    ensures
        palette_search::points_from(query, content, place, from, previous) is Some,
    decreases query.len() - place,
{
    if place < query.len() {
        lemma_char_from(content, query[place], from);
        let wanted = places[place];
        assert(content[wanted] == query[place]);
        let index = text::char_from(content, query[place], from)->0;
        assert(index <= wanted);
        if place + 1 < query.len() {
            assert(places[place] < places[place + 1]);
        }
        lemma_points_miss_nothing(query, content, places, place + 1, index + 1, Some(index));
    }
}

proof fn lemma_points_are_places(
    query: Seq<char>,
    content: Seq<char>,
    place: int,
    from: int,
    previous: Option<int>,
) -> (places: Seq<int>)
    requires
        0 <= place <= query.len(),
        0 <= from,
        palette_search::points_from(query, content, place, from, previous) is Some,
    ensures
        placed(query.skip(place), content, places),
        places.len() > 0 ==> from <= places[0],
    decreases query.len() - place,
{
    if place < query.len() {
        lemma_char_from(content, query[place], from);
        let index = text::char_from(content, query[place], from)->0;
        let rest = lemma_points_are_places(query, content, place + 1, index + 1, Some(index));
        let places = seq![index] + rest;
        let here = query.skip(place);
        let next = query.skip(place + 1);
        assert forall|k: int| 0 <= k < here.len() implies 0 <= #[trigger] places[k]
            < content.len() && content[places[k]] == here[k] by {
            if k > 0 {
                assert(places[k] == rest[k - 1]);
                assert(here[k] == next[k - 1]);
            }
        }
        assert forall|i: int, j: int| 0 <= i < j < here.len() implies #[trigger] places[i]
            < #[trigger] places[j] by {
            assert(places[j] == rest[j - 1]);
            if i > 0 {
                assert(places[i] == rest[i - 1]);
            } else if j > 1 {
                assert(rest[0] < rest[j - 1]);
            }
        }
        places
    } else {
        Seq::empty()
    }
}

proof fn lemma_standing_is_in_order(query: Seq<char>, content: Seq<char>, at: int)
    requires
        0 <= at,
        text::stands_at(content, query, at),
    ensures
        has_in_order(query, content),
{
    let places = Seq::new(query.len(), |k: int| at + k);
    assert forall|k: int| 0 <= k < query.len() implies 0 <= #[trigger] places[k] < content.len()
        && content[places[k]] == query[k] by {
        assert(content[at + k] == query[k]);
    }
    assert(placed(query, content, places));
}

proof fn lemma_standing_without_spaces(words: Seq<char>, content: Seq<char>, at: int)
    requires
        0 <= at,
        text::stands_at(content, words, at),
    ensures
        has_in_order(palette_search::compact(words), palette_search::compact(content)),
{
    let before = content.subrange(0, at);
    let after = content.subrange(at + words.len(), content.len() as int);
    assert forall|k: int| 0 <= k < content.len() implies content[k] == (before + words + after)[k]
        by {
        if at <= k < at + words.len() {
            assert(content[at + (k - at)] == words[k - at]);
        }
    }
    assert(content =~= before + words + after);
    lemma_compact_between(before, words, after);
    let short = palette_search::compact(words);
    let whole = palette_search::compact(content);
    let start = palette_search::compact(before).len() as int;
    assert(text::stands_at(whole, short, start));
    lemma_standing_is_in_order(short, whole, start);
}

/// Where the words do not stand in a text without the spaces, they do not stand in it with them.
pub proof fn lemma_spaced_standing(words: Seq<char>, content: Seq<char>)
    requires
        palette_search::compact(words).len() > 0,
        forall|at: int|
            0 <= at <= palette_search::compact(content).len() - palette_search::compact(words).len()
                ==> #[trigger] palette_search::compact(content).subrange(
                at,
                at + palette_search::compact(words).len(),
            ) != palette_search::compact(words),
    ensures
        !text::stands_at(content, words, 0),
        text::found_from(content, words, 0) is None,
{
    assert forall|at: int| 0 <= at implies !#[trigger] text::stands_at(content, words, at) by {
        if text::stands_at(content, words, at) {
            let before = content.subrange(0, at);
            let after = content.subrange(at + words.len(), content.len() as int);
            assert forall|k: int| 0 <= k < content.len() implies content[k] == (before + words
                + after)[k] by {
                if at <= k < at + words.len() {
                    assert(content[at + (k - at)] == words[k - at]);
                }
            }
            assert(content =~= before + words + after);
            lemma_compact_between(before, words, after);
            let short = palette_search::compact(words);
            let whole = palette_search::compact(content);
            let start = palette_search::compact(before).len() as int;
            assert(whole.subrange(start, start + short.len()) =~= short);
        }
    }
    lemma_never_found(content, words, 0);
}

proof fn lemma_never_found(content: Seq<char>, pattern: Seq<char>, from: int)
    requires
        0 <= from,
        forall|at: int| 0 <= at ==> !#[trigger] text::stands_at(content, pattern, at),
    ensures
        text::found_from(content, pattern, from) is None,
    decreases content.len() - from,
{
    if from + pattern.len() <= content.len() && from < content.len() {
        lemma_never_found(content, pattern, from + 1);
    }
}

/// A text fits a query just where it has the characters of the query in their order, the spaces
/// of both left out; a query without words fits every text, and tells nothing of how well.
pub proof fn law_fitting_is_in_order(query: Seq<char>, candidate: Seq<char>)
    ensures
        palette_search::match_score(query, candidate) is Some <==> has_in_order(
            palette_search::compact(palette_search::normalized(query)),
            palette_search::compact(palette_search::normalized(candidate)),
        ),
        palette_search::compact(palette_search::normalized(query)).len() == 0
            ==> palette_search::match_score(query, candidate) == Some(0int),
{
    let words = palette_search::normalized(query);
    let content = palette_search::normalized(candidate);
    let short = palette_search::compact(words);
    let whole = palette_search::compact(content);
    law_normalized_is_tidy(query);
    if words.len() == 0 {
        assert(short =~= Seq::empty());
        assert(placed(short, whole, Seq::empty()));
    } else {
        let first = seq![words[0]];
        assert(words =~= Seq::empty() + first + words.skip(1));
        lemma_compact_between(Seq::empty(), first, words.skip(1));
        assert(palette_search::compacted(first, 1) =~= palette_search::compacted(first, 0).push(
            words[0],
        ));
        assert(palette_search::compact(first).len() == 1);
        assert(short.len() > 0);
        if short == whole {
            lemma_standing_is_in_order(short, whole, 0);
        } else if text::stands_at(whole, short, 0) {
            lemma_standing_is_in_order(short, whole, 0);
        } else if text::found_from(whole, short, 0) is Some {
            lemma_found_from(whole, short, 0);
            lemma_standing_is_in_order(short, whole, text::found_from(whole, short, 0)->0);
        } else if text::stands_at(content, words, 0) {
            lemma_standing_without_spaces(words, content, 0);
        } else if text::found_from(content, words, 0) is Some {
            lemma_found_from(content, words, 0);
            lemma_standing_without_spaces(words, content, text::found_from(content, words, 0)->0);
        } else if palette_search::subsequence_score(short, whole) is Some {
            let places = lemma_points_are_places(short, whole, 0, 0, None);
            assert(short.skip(0) =~= short);
            assert(placed(short, whole, places));
        } else if has_in_order(short, whole) {
            let places = choose|places: Seq<int>| placed(short, whole, places);
            assert(0 <= places[0]);
            lemma_points_miss_nothing(short, whole, places, 0, 0, None);
        }
    }
}

/// How well a text fits a query does not change where both are made words in lower case first.
pub proof fn law_normalizing_first(query: Seq<char>, candidate: Seq<char>)
    ensures
        palette_search::match_score(
            palette_search::normalized(query),
            palette_search::normalized(candidate),
        ) == palette_search::match_score(query, candidate),
{
    law_normalizing_twice(query);
    law_normalizing_twice(candidate);
}

} // verus!
