//! What the palette finds, and in which order it shows it.

use crate::ids::WindowId;
use crate::laws_palette;
use crate::model::ModelView;
use crate::palette;
use crate::palette::{CommandPaletteMode, PaletteView};
use crate::palette_rows;
use crate::palette_rows::{PaletteRowView, Ranked};
use crate::palette_search;
use crate::text;
use crate::workspace_ops;
use vstd::prelude::*;

verus! {

// ---------------------------------------------------------------------------
// The order of the rows
// ---------------------------------------------------------------------------

/// Each ranked row is one of the rows, with the score of its texts, and each row that has a score
/// is ranked.
proof fn lemma_ranked(query: Seq<char>, rows: Seq<PaletteRowView>, count: int)
    requires
        0 <= count <= rows.len(),
    ensures
        forall|k: int|
            0 <= k < palette_rows::ranked(query, rows, count).len() ==> {
                let item = #[trigger] palette_rows::ranked(query, rows, count)[k];
                &&& palette_search::terms_score(query, item.row.search_terms) == Some(item.score)
                &&& rows.take(count).contains(item.row)
            },
        forall|k: int|
            0 <= k < count && palette_search::terms_score(
                query,
                (#[trigger] rows[k]).search_terms,
            ) is Some ==> exists|at: int|
                0 <= at < palette_rows::ranked(query, rows, count).len()
                    && (#[trigger] palette_rows::ranked(query, rows, count)[at]).row == rows[k],
    decreases count,
{
    if count > 0 {
        lemma_ranked(query, rows, count - 1);
        let before = palette_rows::ranked(query, rows, count - 1);
        let after = palette_rows::ranked(query, rows, count);
        let row = rows[count - 1];
        assert(rows.take(count)[count - 1] == row);
        assert forall|other: PaletteRowView|
            rows.take(count - 1).contains(other) implies #[trigger] rows.take(count).contains(
            other,
        ) by {
            let shorter = rows.take(count - 1);
            let k = choose|k: int| 0 <= k < shorter.len() && shorter[k] == other;
            assert(rows.take(count)[k] == other);
        }
        match palette_search::terms_score(query, row.search_terms) {
            None => {},
            Some(score) => {
                let item = Ranked { score, row };
                palette_rows::lemma_place_among(before, item, 0);
                let place = palette_rows::place_among(before, item, 0);
                assert(after == before.insert(place, item));
                assert forall|k: int| 0 <= k < after.len() implies {
                    let entry = #[trigger] after[k];
                    &&& palette_search::terms_score(query, entry.row.search_terms) == Some(
                        entry.score,
                    )
                    &&& rows.take(count).contains(entry.row)
                } by {
                    if k < place {
                        assert(after[k] == before[k]);
                    } else if k > place {
                        assert(after[k] == before[k - 1]);
                    }
                }
                assert forall|k: int|
                    0 <= k < count && palette_search::terms_score(
                        query,
                        (#[trigger] rows[k]).search_terms,
                    ) is Some implies exists|at: int|
                    0 <= at < after.len() && (#[trigger] after[at]).row == rows[k] by {
                    if k == count - 1 {
                        assert(after[place].row == rows[k]);
                    } else {
                        let at = choose|at: int|
                            0 <= at < before.len() && (#[trigger] before[at]).row == rows[k];
                        if at < place {
                            assert(after[at].row == rows[k]);
                        } else {
                            assert(after[at + 1].row == rows[k]);
                        }
                    }
                }
            },
        }
    }
}

/// The palette shows the row with the best score first: of two rows, the one that stands earlier
/// has a score that is not lower; with equal scores, a rank that is not higher; with equal ranks, a
/// number that is not higher. It shows rows that it could show, just those that have a score.
pub proof fn law_best_rows_come_first(
    model: ModelView,
    window_id: WindowId,
    palette: PaletteView,
    low: int,
    high: int,
)
    requires
        0 <= low < high < model.palette_rows(window_id, palette).len(),
    ensures
        ({
            let rows = model.palette_rows(window_id, palette);
            let query = palette.query_text();
            let first = palette_search::terms_score(query, rows[low].search_terms);
            let second = palette_search::terms_score(query, rows[high].search_terms);
            &&& first is Some
            &&& second is Some
            &&& first->0 >= second->0
            &&& first->0 == second->0 ==> rows[low].kind_rank <= rows[high].kind_rank
            &&& first->0 == second->0 && rows[low].kind_rank == rows[high].kind_rank
                ==> rows[low].order <= rows[high].order
        }),
{
    let query = palette.query_text();
    let offered = model.offered_rows(window_id, palette);
    let count = offered.len() as int;
    palette_rows::law_rows_in_rank(query, offered, count);
    lemma_ranked(query, offered, count);
    let list = palette_rows::ranked(query, offered, count);
    assert(!list[high].comes_first(list[low]));
}

/// The palette shows a row just where it offers it and one of its texts fits what is looked for.
pub proof fn law_fitting_rows_are_shown(
    model: ModelView,
    window_id: WindowId,
    palette: PaletteView,
    row: PaletteRowView,
)
    ensures
        model.palette_rows(window_id, palette).contains(row) <==> model.offered_rows(
            window_id,
            palette,
        ).contains(row) && palette_search::terms_score(
            palette.query_text(),
            row.search_terms,
        ) is Some,
{
    let query = palette.query_text();
    let offered = model.offered_rows(window_id, palette);
    let count = offered.len() as int;
    lemma_ranked(query, offered, count);
    assert(offered.take(count) =~= offered);
    let list = palette_rows::ranked(query, offered, count);
    let rows = model.palette_rows(window_id, palette);
    if rows.contains(row) {
        let k = choose|k: int| 0 <= k < rows.len() && rows[k] == row;
        assert(list[k].row == row);
    }
    if offered.contains(row) && palette_search::terms_score(query, row.search_terms) is Some {
        let k = choose|k: int| 0 <= k < offered.len() && offered[k] == row;
        let at = choose|at: int| 0 <= at < list.len() && (#[trigger] list[at]).row == offered[k];
        assert(rows[at] == row);
    }
}

// ---------------------------------------------------------------------------
// Scores
// ---------------------------------------------------------------------------

/// A row is as good as the best of its texts: no text fits better, and one fits so well. It has no
/// score just where none of its texts fits. To a query of white space each row fits alike.
pub proof fn law_best_text_counts(query: Seq<char>, terms: Seq<Seq<char>>)
    ensures
        (forall|k: int| 0 <= k < query.len() ==> text::is_space(#[trigger] query[k]))
            ==> palette_search::terms_score(query, terms) == Some(0int),
        (exists|k: int| 0 <= k < query.len() && !text::is_space(#[trigger] query[k])) ==> {
            match palette_search::terms_score(query, terms) {
                Some(score) => {
                    &&& forall|k: int|
                        0 <= k < terms.len() ==> match palette_search::match_score(
                            query,
                            #[trigger] terms[k],
                        ) {
                            Some(other) => other <= score,
                            None => true,
                        }
                    &&& exists|k: int|
                        0 <= k < terms.len() && palette_search::match_score(
                            query,
                            #[trigger] terms[k],
                        ) == Some(score)
                },
                None => forall|k: int|
                    0 <= k < terms.len() ==> palette_search::match_score(
                        query,
                        #[trigger] terms[k],
                    ) is None,
            }
        },
{
    lemma_blank(query);
    lemma_best(query, terms, terms.len() as int);
}

proof fn lemma_blank(content: Seq<char>)
    ensures
        text::trimmed(content).len() == 0 <==> forall|k: int|
            0 <= k < content.len() ==> text::is_space(#[trigger] content[k]),
{
    laws_palette::lemma_after_space(content, 0);
    let low = text::after_space(content, 0);
    laws_palette::lemma_before_space(content, low, content.len() as int);
    let high = text::before_space(content, low, content.len() as int);
    if forall|k: int| 0 <= k < content.len() ==> text::is_space(#[trigger] content[k]) {
        if low < content.len() {
            assert(text::is_space(content[low]));
        }
    }
    if text::trimmed(content).len() == 0 {
        assert forall|k: int| 0 <= k < content.len() implies text::is_space(
            #[trigger] content[k],
        ) by {}
    }
}

proof fn lemma_best(query: Seq<char>, terms: Seq<Seq<char>>, count: int)
    requires
        0 <= count <= terms.len(),
    ensures
        match palette_search::best_score(query, terms, count) {
            Some(score) => {
                &&& forall|k: int|
                    0 <= k < count ==> match palette_search::match_score(
                        query,
                        #[trigger] terms[k],
                    ) {
                        Some(other) => other <= score,
                        None => true,
                    }
                &&& exists|k: int|
                    0 <= k < count && palette_search::match_score(query, #[trigger] terms[k])
                        == Some(score)
            },
            None => forall|k: int|
                0 <= k < count ==> palette_search::match_score(query, #[trigger] terms[k]) is None,
        },
    decreases count,
{
    if count > 0 {
        lemma_best(query, terms, count - 1);
        let before = palette_search::best_score(query, terms, count - 1);
        let last = palette_search::match_score(query, terms[count - 1]);
        if before is Some {
            let k = choose|k: int|
                0 <= k < count - 1 && palette_search::match_score(query, #[trigger] terms[k])
                    == before;
            assert(palette_search::match_score(query, terms[k]) == before);
        }
        assert(palette_search::match_score(query, terms[count - 1]) == last);
    }
}

/// The score of a text, where `q` and `t` are the letters and digits of the query and of the text:
/// 1000 where they are the same; else 900 less the length of `t` where `t` begins with `q`; else
/// 800 less the first place of `q` in `t` where `t` has `q` somewhere.
pub proof fn law_scores(query: Seq<char>, candidate: Seq<char>, at: int)
    requires
        palette_search::compact(palette_search::normalized(query)).len() > 0,
    ensures
        ({
            let q = palette_search::compact(palette_search::normalized(query));
            let t = palette_search::compact(palette_search::normalized(candidate));
            let score = palette_search::match_score(query, candidate);
            &&& t == q ==> score == Some(1000int)
            &&& t.len() > q.len() && t.take(q.len() as int) == q ==> score == Some(900 - t.len())
            &&& {
                &&& 0 < at <= t.len() - q.len()
                &&& t.subrange(at, at + q.len()) == q
                &&& forall|k: int|
                    0 <= k < at ==> #[trigger] t.subrange(k, k + q.len()) != q
            } ==> score == Some(800 - at)
        }),
{
    let words = palette_search::normalized(query);
    let q = palette_search::compact(words);
    let t = palette_search::compact(palette_search::normalized(candidate));
    assert(words.len() > 0);
    if t.len() > q.len() && t.take(q.len() as int) == q {
        assert forall|k: int| 0 <= k < q.len() implies t[0 + k] == #[trigger] q[k] by {
            assert(t.take(q.len() as int)[k] == t[k]);
        }
        assert(text::stands_at(t, q, 0));
    }
    if {
        &&& 0 < at <= t.len() - q.len()
        &&& t.subrange(at, at + q.len()) == q
        &&& forall|k: int| 0 <= k < at ==> #[trigger] t.subrange(k, k + q.len()) != q
    } {
        lemma_first(t, q, at, 0);
        assert(!text::stands_at(t, q, 0)) by {
            if text::stands_at(t, q, 0) {
                assert(t.subrange(0int, 0int + q.len()) =~= q);
            }
        }
    }
}

proof fn lemma_first(content: Seq<char>, pattern: Seq<char>, at: int, from: int)
    requires
        0 <= from <= at <= content.len() - pattern.len(),
        pattern.len() > 0,
        content.subrange(at, at + pattern.len()) == pattern,
        forall|k: int|
            from <= k < at ==> #[trigger] content.subrange(k, k + pattern.len()) != pattern,
    ensures
        text::found_from(content, pattern, from) == Some(at),
    decreases at - from,
{
    if from == at {
        assert forall|k: int| 0 <= k < pattern.len() implies content[at + k]
            == #[trigger] pattern[k] by {
            assert(content.subrange(at, at + pattern.len())[k] == content[at + k]);
        }
        assert(text::stands_at(content, pattern, at));
    } else {
        assert(!text::stands_at(content, pattern, from)) by {
            if text::stands_at(content, pattern, from) {
                assert(content.subrange(from, from + pattern.len()) =~= pattern);
            }
        }
        lemma_first(content, pattern, at, from + 1);
    }
}

/// Whether a place is the first one behind the place before that has the next character.
pub open spec fn next_place(q: Seq<char>, t: Seq<char>, places: Seq<int>, k: int) -> bool {
    let from = if k == 0 {
        0
    } else {
        places[k - 1] + 1
    };
    &&& from <= places[k] < t.len()
    &&& t[places[k]] == q[k]
    &&& forall|j: int| from <= j < places[k] ==> #[trigger] t[j] != q[k]
}

/// Where the text has the letters and digits of the query only one after the other, each counts,
/// looked for behind the one before: 18 points directly behind it, else 10 less the distance; the
/// first one 15 less its place; and at least 1. The score is 500 and the points.
pub proof fn law_scattered_scores(query: Seq<char>, candidate: Seq<char>, places: Seq<int>)
    requires
        ({
            let q = palette_search::compact(palette_search::normalized(query));
            let t = palette_search::compact(palette_search::normalized(candidate));
            &&& q.len() > 0
            &&& places.len() == q.len()
            &&& forall|at: int|
                0 <= at <= t.len() - q.len() ==> #[trigger] t.subrange(at, at + q.len()) != q
            &&& forall|k: int| 0 <= k < q.len() ==> #[trigger] next_place(q, t, places, k)
        }),
    ensures
        palette_search::match_score(query, candidate) == Some(
            500 + scattered_points(places, places.len() as int),
        ),
{
    let words = palette_search::normalized(query);
    let content = palette_search::normalized(candidate);
    let q = palette_search::compact(words);
    let t = palette_search::compact(content);
    lemma_scattered(q, t, places, 0);
    lemma_nowhere(t, q, 0);
    assert(t != q) by {
        if t == q {
            assert(t.subrange(0int, 0int + q.len()) =~= q);
        }
    }
    assert(!text::stands_at(t, q, 0)) by {
        if text::stands_at(t, q, 0) {
            assert(t.subrange(0int, 0int + q.len()) =~= q);
        }
    }
    laws_palette::lemma_spaced_standing(words, content);
    assert(points_behind(places, 0) == scattered_points(places, places.len() as int)) by {
        lemma_points_agree(places, 0);
    }
}

/// The points for the first `count` places.
pub open spec fn scattered_points(places: Seq<int>, count: int) -> int
    decreases count,
{
    if count <= 0 {
        0
    } else {
        let at = places[count - 1];
        let points = if count == 1 {
            15 - at
        } else if at == places[count - 2] + 1 {
            18
        } else {
            10 - (at - places[count - 2] - 1)
        };
        scattered_points(places, count - 1) + if points > 1 {
            points
        } else {
            1
        }
    }
}

spec fn points_behind(places: Seq<int>, from: int) -> int
    decreases places.len() - from,
{
    if from >= places.len() {
        0
    } else {
        scattered_points(places, from + 1) - scattered_points(places, from) + points_behind(
            places,
            from + 1,
        )
    }
}

proof fn lemma_points_agree(places: Seq<int>, from: int)
    requires
        0 <= from <= places.len(),
    ensures
        points_behind(places, from) == scattered_points(places, places.len() as int)
            - scattered_points(places, from),
    decreases places.len() - from,
{
    if from < places.len() {
        lemma_points_agree(places, from + 1);
    }
}

proof fn lemma_char_place(content: Seq<char>, ch: char, at: int, from: int)
    requires
        0 <= from <= at < content.len(),
        content[at] == ch,
        forall|j: int| from <= j < at ==> #[trigger] content[j] != ch,
    ensures
        text::char_from(content, ch, from) == Some(at),
    decreases at - from,
{
    if from < at {
        assert(content[from] != ch);
        lemma_char_place(content, ch, at, from + 1);
    }
}

proof fn lemma_scattered(q: Seq<char>, t: Seq<char>, places: Seq<int>, from: int)
    requires
        0 <= from <= q.len(),
        places.len() == q.len(),
        forall|k: int| 0 <= k < q.len() ==> #[trigger] next_place(q, t, places, k),
    ensures
        palette_search::points_from(
            q,
            t,
            from,
            if from == 0 {
                0
            } else {
                places[from - 1] + 1
            },
            if from == 0 {
                None
            } else {
                Some(places[from - 1])
            },
        ) == Some(points_behind(places, from)),
    decreases q.len() - from,
{
    if from < q.len() {
        lemma_scattered(q, t, places, from + 1);
        let start = if from == 0 {
            0
        } else {
            places[from - 1] + 1
        };
        assert(next_place(q, t, places, from));
        if from > 0 {
            assert(places[from - 1] >= 0) by {
                lemma_not_negative(q, t, places, from - 1);
            }
        }
        lemma_char_place(t, q[from], places[from], start);
    }
}

proof fn lemma_not_negative(q: Seq<char>, t: Seq<char>, places: Seq<int>, at: int)
    requires
        0 <= at < q.len(),
        places.len() == q.len(),
        forall|k: int| 0 <= k < q.len() ==> #[trigger] next_place(q, t, places, k),
    ensures
        places[at] >= 0,
    decreases at,
{
    assert(next_place(q, t, places, at));
    if at > 0 {
        lemma_not_negative(q, t, places, at - 1);
    }
}

proof fn lemma_nowhere(content: Seq<char>, pattern: Seq<char>, from: int)
    requires
        0 <= from,
        pattern.len() > 0,
        forall|k: int|
            0 <= k <= content.len() - pattern.len() ==> #[trigger] content.subrange(
                k,
                k + pattern.len(),
            ) != pattern,
    ensures
        text::found_from(content, pattern, from) is None,
    decreases content.len() - from,
{
    if from + pattern.len() <= content.len() {
        assert(!text::stands_at(content, pattern, from)) by {
            if text::stands_at(content, pattern, from) {
                assert(content.subrange(from, from + pattern.len()) =~= pattern);
            }
        }
        if from < content.len() {
            lemma_nowhere(content, pattern, from + 1);
        }
    }
}

// ---------------------------------------------------------------------------
// What is looked for
// ---------------------------------------------------------------------------

/// A mark for commands at the beginning of the text, after white space, makes the palette look for
/// commands; what is looked for is what comes behind it. A palette for commands does without the
/// mark. A palette for workspaces and surfaces looks for its text as it is.
pub proof fn law_mark_asks_for_commands(
    palette: PaletteView,
    space: Seq<char>,
    more: Seq<char>,
    rest: Seq<char>,
)
    requires
        palette.mode != CommandPaletteMode::RenameInput,
        forall|k: int| 0 <= k < space.len() ==> text::is_space(#[trigger] space[k]),
        forall|k: int| 0 <= k < more.len() ==> text::is_space(#[trigger] more[k]),
        rest.len() > 0 ==> !text::is_space(rest[0]),
    ensures
        palette.text == space + seq!['>'] + more + rest ==> palette.effective_mode()
            == CommandPaletteMode::Commands && palette.query_text() == rest,
        palette.text == space + rest && (rest.len() == 0 || rest[0] != '>')
            ==> palette.effective_mode() == palette.mode && palette.query_text() == (
        if palette.mode == CommandPaletteMode::Commands {
            rest
        } else {
            palette.text
        }),
{
    lemma_skips(space, seq!['>'] + more + rest);
    lemma_skips(more, rest);
    lemma_skips(space, rest);
    let marked = seq!['>'] + more + rest;
    assert(space + marked =~= space + seq!['>'] + more + rest);
    assert(marked.skip(1) =~= more + rest);
}

proof fn lemma_skips(space: Seq<char>, rest: Seq<char>)
    requires
        forall|k: int| 0 <= k < space.len() ==> text::is_space(#[trigger] space[k]),
        rest.len() > 0 ==> !text::is_space(rest[0]),
    ensures
        palette_rows::start_trimmed(space + rest) == rest,
{
    let whole = space + rest;
    laws_palette::lemma_after_space(whole, 0);
    let low = text::after_space(whole, 0);
    if low < space.len() {
        assert(text::is_space(space[low]));
        assert(whole[low] == space[low]);
    }
    if low > space.len() {
        assert(whole[space.len() as int] == rest[0]);
    }
    assert(whole.skip(space.len() as int) =~= rest);
}

// ---------------------------------------------------------------------------
// The selected row
// ---------------------------------------------------------------------------

/// The palette that a window gets is the palette that it has; the others stay as they are.
pub proof fn law_palette_is_read_back(
    model: ModelView,
    window_id: WindowId,
    state: PaletteView,
    other: WindowId,
)
    ensures
        model.with_palette(window_id, state).palette(window_id) == state,
        other != window_id ==> model.with_palette(window_id, state).palette(other)
            == model.palette(other),
{
    lemma_entry_put(model.palettes, window_id, state, window_id, 0);
    lemma_entry_put(model.palettes, window_id, state, other, 0);
}

/// Looking for a palette after one was put in, from a place at which none of the window was yet.
proof fn lemma_entry_put(
    list: Seq<(WindowId, PaletteView)>,
    window_id: WindowId,
    state: PaletteView,
    sought: WindowId,
    from: int,
)
    requires
        0 <= from <= list.len(),
        palette::palette_from(list, window_id, 0) == palette::palette_from(list, window_id, from)
            || sought != window_id,
        match palette::palette_from(list, window_id, 0) {
            Some(at) => 0 <= at < list.len() && list[at].0 == window_id,
            None => true,
        } || from == 0,
    ensures
        ({
            let after = palette::with_palette(list, window_id, state);
            let found = palette::palette_from(after, sought, from);
            if sought == window_id {
                found is Some && 0 <= found->0 < after.len() && after[found->0].1 == state
            } else {
                &&& found == palette::palette_from(list, sought, from)
                &&& found is Some ==> 0 <= found->0 < list.len() && after[found->0]
                    == list[found->0]
            }
        }),
    decreases list.len() - from,
{
    lemma_entry(list, window_id, 0);
    lemma_entry(list, window_id, from);
    let after = palette::with_palette(list, window_id, state);
    if from < list.len() {
        if sought == window_id {
            if list[from].0 != window_id {
                lemma_entry_put(list, window_id, state, sought, from + 1);
            }
        } else if list[from].0 != sought {
            lemma_entry_put(list, window_id, state, sought, from + 1);
        }
    } else if palette::palette_from(list, window_id, 0) is None {
        assert(after[from] == (window_id, state));
        reveal_with_fuel(palette::palette_from, 2);
    }
}

proof fn lemma_entry(list: Seq<(WindowId, PaletteView)>, window_id: WindowId, from: int)
    requires
        0 <= from,
    ensures
        match palette::palette_from(list, window_id, from) {
            Some(at) => from <= at < list.len() && list[at].0 == window_id,
            None => true,
        },
    decreases list.len() - from,
{
    if from < list.len() && list[from].0 != window_id {
        lemma_entry(list, window_id, from + 1);
    }
}

/// Going down selects the next row, and from the last one the first; going up selects the one
/// before, and from the first one the last.
pub proof fn law_selection_goes_round(model: ModelView, window_id: WindowId, at: int)
    requires
        0 <= at < model.palette_rows(window_id, model.palette(window_id)).len(),
        model.palette(window_id).selected_index == at,
        model.palette_rows(window_id, model.palette(window_id)).len() <= usize::MAX,
    ensures
        ({
            let count = model.palette_rows(window_id, model.palette(window_id)).len();
            let down = model.reselected(window_id, 1).palette(window_id).selected_index;
            let up = model.reselected(window_id, -1).palette(window_id).selected_index;
            &&& down == (if at + 1 < count {
                at + 1
            } else {
                0
            })
            &&& up == (if at > 0 {
                at - 1
            } else {
                count - 1
            })
        }),
        model.selected_row(window_id) == Some(
            model.palette_rows(window_id, model.palette(window_id))[at],
        ),
{
    let palette = model.palette(window_id);
    let count = model.palette_rows(window_id, palette).len() as int;
    let down = workspace_ops::ring(at, 1, count);
    let up = workspace_ops::ring(at, -1, count);
    law_palette_is_read_back(
        model,
        window_id,
        PaletteView { selected_index: down as usize, ..palette },
        window_id,
    );
    law_palette_is_read_back(
        model,
        window_id,
        PaletteView { selected_index: up as usize, ..palette },
        window_id,
    );
    assert((at + 1) % count == if at + 1 < count {
        at + 1
    } else {
        0
    }) by {
        if at + 1 == count {
            vstd::arithmetic::div_mod::lemma_mod_self_0(count);
        } else {
            vstd::arithmetic::div_mod::lemma_small_mod((at + 1) as nat, count as nat);
        }
    }
    assert((at - 1) % count == if at > 0 {
        at - 1
    } else {
        count - 1
    }) by {
        if at > 0 {
            vstd::arithmetic::div_mod::lemma_small_mod((at - 1) as nat, count as nat);
        } else {
            vstd::arithmetic::div_mod::lemma_fundamental_div_mod_converse(-1, count, -1, count - 1);
        }
    }
}

} // verus!
