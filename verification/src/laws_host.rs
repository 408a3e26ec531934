//! What holds of the processes behind the terminals: what they are sent, and which of them stay.

use crate::answer_surfaces;
use crate::host;
use crate::host::{WriteEvent, WriteStep};
use crate::ids::SurfaceId;
use crate::keys;
use crate::laws_tabs;
use crate::params;
use crate::state::StateView;
use crate::surface::PaneView;
use vstd::prelude::*;

verus! {

// ---------------------------------------------------------------------------
// What is sent
// ---------------------------------------------------------------------------

/// How many bytes the first `count` attempts wrote.
pub open spec fn written(counts: Seq<usize>, count: int) -> int
    decreases count,
{
    if count <= 0 {
        0
    } else {
        written(counts, count - 1) + counts[count - 1]
    }
}

/// Bytes are written in order and whole, whatever part of them each attempt writes: the next
/// attempt goes on where the last one ended, and there is none once all are written. One that a
/// signal came before is made again; one that failed is the last.
pub proof fn law_all_is_written_in_order(counts: Seq<usize>, at: int, total: usize)
    requires
        0 <= at < counts.len(),
        written(counts, at) < total,
        written(counts, at + 1) <= total,
        0 <= written(counts, at),
    ensures
        ({
            let here = written(counts, at);
            let there = written(counts, at + 1);
            let next = host::after_write(here, total as int, WriteEvent::Wrote(counts[at]));
            &&& there == total ==> next == WriteStep::Done
            &&& there < total ==> next == WriteStep::WriteFrom(there as usize)
            &&& host::after_write(here, total as int, WriteEvent::Interrupted)
                == WriteStep::WriteFrom(here as usize)
            &&& host::after_write(here, total as int, WriteEvent::Failed) == WriteStep::GiveUp
        }),
{
}

/// A terminal gets the bytes of a text one for one, and the end of a line as a carriage return.
pub proof fn law_terminal_gets_the_text(content: Seq<char>, at: int)
    requires
        0 <= at < vstd::utf8::encode_utf8(content).len(),
    ensures
        ({
            let bytes = vstd::utf8::encode_utf8(content);
            let sent = host::typed_bytes(content);
            &&& sent.len() == bytes.len()
            &&& sent[at] != 10
            &&& bytes[at] == 10 ==> sent[at] == 13
            &&& bytes[at] != 10 ==> sent[at] == bytes[at]
        }),
{
}

// ---------------------------------------------------------------------------
// Keys
// ---------------------------------------------------------------------------

/// The control key takes a letter or one of the signs behind the letters to its control character,
/// and the digits from three to seven to those of the signs.
pub proof fn law_control_characters(ch: char)
    ensures
        'a' <= ch <= 'z' ==> keys::control_code(ch) == Some(ch as int - 96),
        ch == '@' || '[' <= ch <= '_' ==> keys::control_code(ch) == Some(ch as int - 64),
        '3' <= ch <= '7' ==> keys::control_code(ch) == Some(27 + (ch as int - '3' as int)),
{
}

/// The names of the arrow keys, in the order of their codes.
pub open spec fn arrows() -> Seq<Seq<char>> {
    seq!["up"@, "down"@, "right"@, "left"@]
}

/// An arrow key gives the escape character, a bracket and the letter of its place; it may also be
/// called an arrow.
pub proof fn law_arrow_keys(place: int)
    requires
        0 <= place < 4,
    ensures
        keys::named_key(arrows()[place]) == Some(
            seq!['\u{1b}', '[', (('A' as int) + place) as char],
        ),
        keys::named_key("arrow"@ + arrows()[place]) == keys::named_key(arrows()[place]),
{
    lemma_key_words();
    reveal_strlit("\u{1b}[A");
    reveal_strlit("\u{1b}[B");
    reveal_strlit("\u{1b}[C");
    reveal_strlit("\u{1b}[D");
    assert("\u{1b}[A"@ =~= seq!['\u{1b}', '[', 'A']);
    assert("\u{1b}[B"@ =~= seq!['\u{1b}', '[', 'B']);
    assert("\u{1b}[C"@ =~= seq!['\u{1b}', '[', 'C']);
    assert("\u{1b}[D"@ =~= seq!['\u{1b}', '[', 'D']);
    assert((('A' as int) + 1) as char == 'B');
    assert((('A' as int) + 2) as char == 'C');
    assert((('A' as int) + 3) as char == 'D');
    assert("arrow"@ + "up"@ =~= "arrowup"@);
    assert("arrow"@ + "down"@ =~= "arrowdown"@);
    assert("arrow"@ + "right"@ =~= "arrowright"@);
    assert("arrow"@ + "left"@ =~= "arrowleft"@);
}

proof fn lemma_key_words()
    ensures
        "arrow"@ == seq!['a', 'r', 'r', 'o', 'w'],
        "up"@ == seq!['u', 'p'],
        "down"@ == seq!['d', 'o', 'w', 'n'],
        "right"@ == seq!['r', 'i', 'g', 'h', 't'],
        "left"@ == seq!['l', 'e', 'f', 't'],
        "arrowup"@ == seq!['a', 'r', 'r', 'o', 'w', 'u', 'p'],
        "arrowdown"@ == seq!['a', 'r', 'r', 'o', 'w', 'd', 'o', 'w', 'n'],
        "arrowright"@ == seq!['a', 'r', 'r', 'o', 'w', 'r', 'i', 'g', 'h', 't'],
        "arrowleft"@ == seq!['a', 'r', 'r', 'o', 'w', 'l', 'e', 'f', 't'],
        "enter"@.len() == 5,
        "enter"@[0] == 'e',
        "return"@.len() == 6,
        "tab"@.len() == 3,
        "backtab"@.len() == 7,
        "backtab"@[0] == 'b',
        "shift-tab"@.len() == 9,
        "shift-tab"@[0] == 's',
        "space"@.len() == 5,
        "space"@[0] == 's',
        "escape"@.len() == 6,
        "esc"@.len() == 3,
        "backspace"@.len() == 9,
        "backspace"@[0] == 'b',
{
    reveal_strlit("arrow");
    reveal_strlit("up");
    reveal_strlit("down");
    reveal_strlit("right");
    reveal_strlit("left");
    reveal_strlit("arrowup");
    reveal_strlit("arrowdown");
    reveal_strlit("arrowright");
    reveal_strlit("arrowleft");
    reveal_strlit("enter");
    reveal_strlit("return");
    reveal_strlit("tab");
    reveal_strlit("backtab");
    reveal_strlit("shift-tab");
    reveal_strlit("space");
    reveal_strlit("escape");
    reveal_strlit("esc");
    reveal_strlit("backspace");
}

// ---------------------------------------------------------------------------
// Which processes stay
// ---------------------------------------------------------------------------

proof fn lemma_ids_of(panes: Seq<PaneView>, count: int, id: SurfaceId)
    requires
        0 <= count <= panes.len(),
    ensures
        answer_surfaces::ids_of(panes, count).contains(id) == exists|place: int, tab: int|
            #![trigger panes[place].surfaces[tab]]
            0 <= place < count && 0 <= tab < panes[place].surfaces.len()
                && panes[place].surfaces[tab].id == id,
    decreases count,
{
    if count > 0 {
        lemma_ids_of(panes, count - 1, id);
        let before = answer_surfaces::ids_of(panes, count - 1);
        let more = params::surface_ids(panes[count - 1]);
        let all = before + more;
        if before.contains(id) {
            let at = choose|at: int| 0 <= at < before.len() && before[at] == id;
            assert(all[at] == id);
        }
        if more.contains(id) {
            let at = choose|at: int| 0 <= at < more.len() && more[at] == id;
            assert(all[before.len() + at] == id);
            assert(panes[count - 1].surfaces[at].id == id);
        }
        if all.contains(id) && !before.contains(id) {
            let at = choose|at: int| 0 <= at < all.len() && all[at] == id;
            if at < before.len() {
                assert(before[at] == id);
            }
            assert(more[at - before.len()] == id);
        }
        assert forall|place: int, tab: int|
            #![trigger panes[place].surfaces[tab]]
            0 <= place < count && 0 <= tab < panes[place].surfaces.len()
                && panes[place].surfaces[tab].id == id implies all.contains(id) by {
            if place == count - 1 {
                assert(more[tab] == id);
            }
        }
    }
}

/// Whether one of the first `count` workspaces has a tab with this identifier.
pub open spec fn has_surface(state: StateView, count: int, id: SurfaceId) -> bool {
    exists|at: int, place: int, tab: int|
        #![trigger state.workspaces[at].panes[place].surfaces[tab]]
        0 <= at < count && laws_tabs::has_tab(state, (at, place, tab))
            && state.workspaces[at].panes[place].surfaces[tab].id == id
}

proof fn lemma_surfaces_of(state: StateView, count: int, id: SurfaceId)
    requires
        0 <= count <= state.workspaces.len(),
    ensures
        state.surfaces_of(count).contains(id) == has_surface(state, count, id),
    decreases count,
{
    if count > 0 {
        lemma_surfaces_of(state, count - 1, id);
        let last = state.workspaces[count - 1].panes;
        lemma_ids_of(last, last.len() as int, id);
        let before = state.surfaces_of(count - 1);
        let more = answer_surfaces::ids_of(last, last.len() as int);
        let all = before + more;
        if before.contains(id) {
            let at = choose|at: int| 0 <= at < before.len() && before[at] == id;
            assert(all[at] == id);
        }
        if more.contains(id) {
            let at = choose|at: int| 0 <= at < more.len() && more[at] == id;
            assert(all[before.len() + at] == id);
            let (place, tab) = choose|place: int, tab: int|
                #![trigger last[place].surfaces[tab]]
                0 <= place < last.len() && 0 <= tab < last[place].surfaces.len()
                    && last[place].surfaces[tab].id == id;
            assert(state.workspaces[count - 1].panes[place].surfaces[tab].id == id);
        }
        if all.contains(id) && !before.contains(id) {
            let at = choose|at: int| 0 <= at < all.len() && all[at] == id;
            if at < before.len() {
                assert(before[at] == id);
            }
            assert(more[at - before.len()] == id);
        }
        assert forall|at: int, place: int, tab: int|
            #![trigger state.workspaces[at].panes[place].surfaces[tab]]
            0 <= at < count && laws_tabs::has_tab(state, (at, place, tab))
                && state.workspaces[at].panes[place].surfaces[tab].id == id implies all.contains(
            id,
        ) by {
            if at == count - 1 {
                assert(last[place].surfaces[tab].id == id);
            }
        }
    }
}

/// The process of a terminal stays just as long as some workspace has its tab.
pub proof fn law_processes_stay_with_their_tabs(state: StateView, running: Seq<u128>, id: u128)
    ensures
        host::missing_from(running, state.all_surfaces(), running.len() as int).contains(id) == (
        running.contains(id) && !has_surface(state, state.workspaces.len() as int, id)),
{
    lemma_surfaces_of(state, state.workspaces.len() as int, id);
    host::law_stale(running, state.all_surfaces(), running.len() as int, id);
    assert(running.take(running.len() as int) =~= running);
}

} // verus!
