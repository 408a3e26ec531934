//! What the user reads: names out of paths, and the rows of the sidebar.

use crate::display;
use crate::ids::{SurfaceId, WindowId, WorkspaceId};
use crate::state;
use crate::state::StateView;
use crate::surface::PaneView;
use crate::text;
use crate::workspace::WorkspaceView;
use vstd::prelude::*;

verus! {

// ---------------------------------------------------------------------------
// Names
// ---------------------------------------------------------------------------

/// Whether a text names a file or a directory by itself.
pub open spec fn is_name(name: Seq<char>) -> bool {
    &&& name.len() > 0
    &&& !name.contains('/')
    &&& name != seq!['.']
    &&& name != seq!['.', '.']
}

proof fn lemma_part_end(content: Seq<char>, mark: char, at: int, bound: int)
    requires
        0 <= at <= bound <= content.len(),
        bound < content.len() ==> content[bound] == mark,
    ensures
        at <= text::part_end(content, mark, at) <= bound,
        text::part_end(content, mark, at) < content.len() ==> content[text::part_end(
            content,
            mark,
            at,
        )] == mark,
    decreases content.len() - at,
{
    if at < content.len() && content[at] != mark {
        lemma_part_end(content, mark, at + 1, bound);
    }
}

proof fn lemma_last_part(dir: Seq<char>, name: Seq<char>, at: int)
    requires
        !name.contains('/'),
        0 <= at <= dir.len() + 1,
    ensures
        text::parts_from(dir + seq!['/'] + name, '/', at).len() > 0,
        text::parts_from(dir + seq!['/'] + name, '/', at).last() == name,
    decreases dir.len() + 1 - at,
{
    let path = dir + seq!['/'] + name;
    let bound = dir.len() as int;
    if at > bound {
        lemma_part_end(path, '/', at, path.len() as int);
        let end = text::part_end(path, '/', at);
        if end < path.len() {
            assert(name[end - at] == '/');
            assert(false);
        }
        assert(path.subrange(at, path.len() as int) =~= name);
    } else {
        lemma_part_end(path, '/', at, bound);
        lemma_last_part(dir, name, text::part_end(path, '/', at) + 1);
    }
}

/// The name of what a path leads to is what stands behind its last slash.
pub proof fn law_path_leads_to_its_name(dir: Seq<char>, name: Seq<char>)
    requires
        is_name(name),
    ensures
        display::base_name(dir + seq!['/'] + name) == Some(name),
{
    lemma_last_part(dir, name, 0);
    reveal_strlit("");
    reveal_strlit(".");
    reveal_strlit("..");
    assert("."@ =~= seq!['.']);
    assert(".."@ =~= seq!['.', '.']);
    assert(""@.len() == 0);
}

proof fn lemma_trimmed(content: Seq<char>)
    requires
        content.len() > 0,
        !text::is_space(content[0]),
        !text::is_space(content.last()),
    ensures
        text::trimmed(content) == content,
{
    assert(text::after_space(content, 0) == 0);
    assert(text::before_space(content, 0, content.len() as int) == content.len());
    assert(content.subrange(0, content.len() as int) =~= content);
}

/// A mark is found where it stands first.
proof fn lemma_first_found(content: Seq<char>, pattern: Seq<char>, from: int, at: int)
    requires
        0 <= from <= at,
        text::stands_at(content, pattern, at),
        forall|k: int| from <= k < at ==> !#[trigger] text::stands_at(content, pattern, k),
    ensures
        text::found_from(content, pattern, from) == Some(at),
    decreases at - from,
{
    if from < at {
        lemma_first_found(content, pattern, from + 1, at);
    }
}

proof fn lemma_none_found(content: Seq<char>, pattern: Seq<char>, from: int)
    requires
        0 <= from,
        forall|k: int| from <= k ==> !#[trigger] text::stands_at(content, pattern, k),
    ensures
        text::found_from(content, pattern, from) is None,
    decreases content.len() - from,
{
    if from + pattern.len() <= content.len() && from < content.len() {
        lemma_none_found(content, pattern, from + 1);
    }
}

/// A terminal whose title is a path, or a path behind the name of a user or a program, is shown by
/// the last name of the path.
pub proof fn law_title_shows_the_last_name(user: Seq<char>, dir: Seq<char>, name: Seq<char>)
    requires
        is_name(name),
        !text::is_space(name.last()),
        dir.len() > 0 ==> dir[0] == '/' || dir[0] == '~',
        user.len() > 0,
        !text::is_space(user[0]),
        !user.contains(':') && !dir.contains(':') && !name.contains(':'),
    ensures
        display::short_title(dir + seq!['/'] + name) == name,
        display::short_title(user + seq![':', ' '] + (dir + seq!['/'] + name)) == name,
        user.contains('@') || text::byte_len(user) <= 6 ==> display::short_title(
            user + seq![':'] + (dir + seq!['/'] + name),
        ) == name,
{
    reveal_strlit(": ");
    reveal_strlit(":");
    reveal_strlit("~");
    reveal_strlit("/");
    let path = dir + seq!['/'] + name;
    law_path_leads_to_its_name(dir, name);
    assert(path.last() == name.last());
    assert(path[0] == '/' || path[0] == '~');
    lemma_trimmed(path);
    assert forall|k: int| 0 <= k < path.len() implies #[trigger] path[k] != ':' by {
        if k < dir.len() {
            assert(dir.contains(dir[k]));
        } else if k > dir.len() {
            assert(name.contains(name[k - dir.len() - 1]));
        }
    }
    assert(path != "~"@ && path != "/"@) by {
        assert("~"@.len() == 1 && "/"@.len() == 1);
    }
    assert forall|k: int| 0 <= k implies !#[trigger] text::stands_at(path, ": "@, k) by {
        if text::stands_at(path, ": "@, k) {
            assert(path[k + 0] == ": "@[0]);
        }
    }
    assert forall|k: int| 0 <= k implies !#[trigger] text::stands_at(path, ":"@, k) by {
        if text::stands_at(path, ":"@, k) {
            assert(path[k + 0] == ":"@[0]);
        }
    }
    lemma_none_found(path, ": "@, 0);
    lemma_none_found(path, ":"@, 0);
    lemma_spaced_title(user, path);
    lemma_led_title(user, path);
}

proof fn lemma_spaced_title(user: Seq<char>, path: Seq<char>)
    requires
        path.len() > 0,
        path[0] == '/' || path[0] == '~',
        !text::is_space(path.last()),
        text::trimmed(path) == path,
        user.len() > 0,
        !text::is_space(user[0]),
        !user.contains(':'),
    ensures
        text::trimmed(user + seq![':', ' '] + path) == user + seq![':', ' '] + path,
        display::path_in_title(user + seq![':', ' '] + path) == path,
{
    reveal_strlit(": ");
    let title = user + seq![':', ' '] + path;
    let mark = ": "@;
    let at = user.len() as int;
    assert(title[0] == user[0]);
    assert(title.last() == path.last());
    lemma_trimmed(title);
    assert forall|k: int| 0 <= k < at implies !#[trigger] text::stands_at(title, mark, k) by {
        if text::stands_at(title, mark, k) {
            assert(title[k + 0] == mark[0]);
            assert(user.contains(user[k]));
        }
    }
    assert(text::stands_at(title, mark, at));
    lemma_first_found(title, mark, 0, at);
    assert(title.skip(at + mark.len()) =~= path);
}

proof fn lemma_led_title(user: Seq<char>, path: Seq<char>)
    requires
        path.len() > 0,
        path[0] == '/' || path[0] == '~',
        !text::is_space(path.last()),
        text::trimmed(path) == path,
        forall|k: int| 0 <= k < path.len() ==> #[trigger] path[k] != ':',
        user.len() > 0,
        !text::is_space(user[0]),
        !user.contains(':'),
    ensures
        text::trimmed(user + seq![':'] + path) == user + seq![':'] + path,
        user.contains('@') || text::byte_len(user) <= 6 ==> display::path_in_title(
            user + seq![':'] + path,
        ) == path,
{
    reveal_strlit(": ");
    reveal_strlit(":");
    let title = user + seq![':'] + path;
    let spaced = ": "@;
    let mark = ":"@;
    let at = user.len() as int;
    assert(title[0] == user[0]);
    assert(title.last() == path.last());
    lemma_trimmed(title);
    assert forall|k: int| 0 <= k < title.len() && k != at implies #[trigger] title[k] != ':' by {
        if k < at {
            assert(user.contains(user[k]));
        } else {
            assert(title[k] == path[k - at - 1]);
        }
    }
    assert forall|k: int| 0 <= k implies !#[trigger] text::stands_at(title, spaced, k) by {
        if text::stands_at(title, spaced, k) {
            assert(title[k + 0] == spaced[0]);
            assert(title[k + 1] == spaced[1]);
            assert(title[at + 1] == path[0]);
        }
    }
    assert forall|k: int| 0 <= k < at implies !#[trigger] text::stands_at(title, mark, k) by {
        if text::stands_at(title, mark, k) {
            assert(title[k + 0] == mark[0]);
        }
    }
    lemma_none_found(title, spaced, 0);
    assert(text::stands_at(title, mark, at));
    lemma_first_found(title, mark, 0, at);
    assert(title.skip(at + mark.len()) =~= path);
    assert(title.take(at) =~= user);
}

// ---------------------------------------------------------------------------
// The sidebar
// ---------------------------------------------------------------------------

/// The sidebar of a window has one row for each of its workspaces, in order, with its title; the
/// row of the one on screen is marked.
pub proof fn law_sidebar_has_its_workspaces(
    list: Seq<WorkspaceView>,
    window_id: WindowId,
    shown: WorkspaceId,
    count: int,
)
    requires
        0 <= count <= list.len(),
    ensures
        ({
            let rows = display::sidebar_rows(list, window_id, shown, count);
            let held = state::held_by(list, window_id, count);
            &&& rows.len() == held.len()
            &&& forall|k: int|
                0 <= k < rows.len() ==> {
                    &&& (#[trigger] rows[k]).workspace_id == held[k].id
                    &&& rows[k].title == held[k].title
                    &&& rows[k].selected == (held[k].id == shown)
                }
        }),
    decreases count,
{
    if count > 0 {
        law_sidebar_has_its_workspaces(list, window_id, shown, count - 1);
    }
}

/// The sidebar of a window marks the workspace that the window shows, and no other.
pub proof fn law_sidebar_marks_what_is_shown(state: StateView, at: int)
    requires
        state.sound(),
        0 <= at < state.windows.len(),
    ensures
        ({
            let window = state.windows[at];
            let rows = state.sidebar(window.id);
            forall|k: int|
                0 <= k < rows.len() ==> (#[trigger] rows[k]).selected == (rows[k].workspace_id
                    == window.selected_workspace_id)
        }),
{
    let window = state.windows[at];
    state::lemma_window_from(state.windows, window.id, 0);
    law_sidebar_has_its_workspaces(
        state.workspaces,
        window.id,
        window.selected_workspace_id,
        state.workspaces.len() as int,
    );
}

/// A tab counts among those that ask for attention just where it does.
pub proof fn law_unread_is_listed(pane: PaneView, count: int, id: SurfaceId)
    requires
        0 <= count <= pane.surfaces.len(),
    ensures
        display::unread_in(pane, count).contains(id) == exists|k: int|
            0 <= k < count && (#[trigger] pane.surfaces[k]).id == id && pane.surfaces[k].unread,
        display::unread_in(pane, count).len() <= count,
    decreases count,
{
    if count > 0 {
        law_unread_is_listed(pane, count - 1, id);
        let before = display::unread_in(pane, count - 1);
        let last = pane.surfaces[count - 1];
        if last.unread {
            let now = before.push(last.id);
            assert(now[before.len() as int] == last.id);
            if before.contains(id) {
                let at = choose|k: int| 0 <= k < before.len() && before[k] == id;
                assert(now[at] == id);
            }
        }
    }
}

} // verus!
