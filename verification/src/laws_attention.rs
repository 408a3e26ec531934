//! What asks for attention, and what no longer does: texts, notifications and flashes.

use crate::answer_notifications::StepView;
use crate::ids::{Drawn, SurfaceId, WorkspaceId};
use crate::laws_tabs;
use crate::model::{AppFocusOverride, ModelView};
use crate::params;
use crate::params::ParamsView;
use crate::sound_states;
use crate::sound_workspaces;
use crate::state::{NotificationView, StateView};
use crate::state_text;
use crate::surface::{HealthView, SurfaceView};
use crate::text;
use vstd::prelude::*;

verus! {

/// Whether two states differ in one tab at most, which is now `surface`, and in nothing else but
/// the notifications and the count of changes.
pub open spec fn only_tab_changed(
    before: StateView,
    after: StateView,
    at: int,
    place: int,
    tab: int,
    surface: SurfaceView,
) -> bool {
    let workspace = before.workspaces[at];
    let pane = workspace.panes[place];
    &&& after.workspaces.len() == before.workspaces.len()
    &&& forall|k: int|
        0 <= k < before.workspaces.len() && k != at ==> after.workspaces[k]
            == #[trigger] before.workspaces[k]
    &&& after.workspaces[at].panes.len() == workspace.panes.len()
    &&& forall|k: int|
        0 <= k < workspace.panes.len() && k != place ==> after.workspaces[at].panes[k]
            == #[trigger] workspace.panes[k]
    &&& after.workspaces[at].panes[place].surfaces == pane.surfaces.update(tab, surface)
    &&& after.workspaces[at].panes[place].id == pane.id
    &&& after.workspaces[at].panes[place].selected_surface_id == pane.selected_surface_id
    &&& after.workspaces[at].id == workspace.id
    &&& after.workspaces[at].window_id == workspace.window_id
    &&& after.workspaces[at].title == workspace.title
    &&& after.workspaces[at].current_directory == workspace.current_directory
    &&& after.workspaces[at].layout == workspace.layout
    &&& after.workspaces[at].selected_pane_id == workspace.selected_pane_id
    &&& after.windows == before.windows
    &&& after.window_id == before.window_id
    &&& after.selected_workspace_id == before.selected_workspace_id
}

proof fn lemma_tab_changed(
    state: StateView,
    at: int,
    place: int,
    tab: int,
    surface: SurfaceView,
)
    requires
        state.sound(),
        state.one_place(),
        laws_tabs::has_tab(state, (at, place, tab)),
    ensures
        ({
            let id = state.workspaces[at].panes[place].surfaces[tab].id;
            &&& state.target(id) == Some((at, state.workspaces[at].panes[place].surfaces[tab]))
            &&& only_tab_changed(
                state,
                state.with_surface(at, id, surface),
                at,
                place,
                tab,
                surface,
            )
            &&& state.with_tab((at, place, tab), surface) == state.with_surface(at, id, surface)
        }),
{
    let id = state.workspaces[at].panes[place].surfaces[tab].id;
    laws_tabs::lemma_found(state, id, at, place, tab);
}

// ---------------------------------------------------------------------------
// Texts
// ---------------------------------------------------------------------------

/// A text that a terminal prints is added to what it has printed. It asks for attention just where
/// its tab is not on screen: where its workspace is not the current one, its pane is not the
/// selected one, or another tab of the pane is. A reason that a notification gave stays.
pub proof fn law_unseen_text_asks_for_attention(
    state: StateView,
    at: int,
    place: int,
    tab: int,
    content: Seq<char>,
)
    requires
        state.sound(),
        state.one_place(),
        laws_tabs::has_tab(state, (at, place, tab)),
    ensures
        ({
            let workspace = state.workspaces[at];
            let pane = workspace.panes[place];
            let old = pane.surfaces[tab];
            let on_screen = state.selected_workspace_id == workspace.id
                && workspace.selected_pane_id == pane.id && pane.selected_surface_id == old.id;
            let (after, result) = state.append_terminal_text(old.id, content);
            &&& result == Ok::<_, Seq<char>>((workspace.id, pane.id))
            &&& only_tab_changed(
                state,
                after,
                at,
                place,
                tab,
                SurfaceView {
                    transcript: old.transcript + content,
                    unread_activity: !on_screen,
                    unread: !on_screen || old.unread_notification,
                    ..old
                },
            )
            &&& after.notifications == state.notifications
        }),
{
    let workspace = state.workspaces[at];
    assert(workspace.sound());
    let pane = workspace.panes[place];
    let old = pane.surfaces[tab];
    laws_tabs::lemma_found(state, old.id, at, place, tab);
    sound_workspaces::lemma_pane_place(workspace.panes, place);
    let on_screen = state.selected_workspace_id == workspace.id && workspace.selected_pane_id
        == pane.id && pane.selected_surface_id == old.id;
    let next = SurfaceView {
        transcript: old.transcript + content,
        unread_activity: !on_screen,
        unread: !on_screen || old.unread_notification,
        ..old
    };
    lemma_tab_changed(state, at, place, tab, next);
    assert(state.unseen(old.id) == !on_screen);
}

/// Of a text whose lines are `list`, the last `limit` lines are the last ones of the list, with a
/// line feed between two.
pub proof fn law_last_lines_are_read(list: Seq<Seq<char>>, limit: int)
    requires
        list.len() > 0,
        list.last().len() > 0,
        forall|k: int|
            0 <= k < list.len() ==> {
                &&& !(#[trigger] list[k]).contains('\n')
                &&& !list[k].contains('\r')
            },
        0 <= limit,
    ensures
        state_text::last_lines(text::glued(list, "\n"@), limit) == text::glued(
            if limit < list.len() {
                list.skip(list.len() - limit)
            } else {
                list
            },
            "\n"@,
        ),
{
    lemma_lines_of(list, 0, Seq::empty());
    assert(Seq::<char>::empty() + text::glued(list, "\n"@) =~= text::glued(list, "\n"@));
    assert(list.skip(0) =~= list);
    let from = if list.len() > limit {
        list.len() - limit
    } else {
        0
    };
    lemma_glued_skip(list, from, from);
    if limit < list.len() {
        assert(text::lines(text::glued(list, "\n"@)) == list);
    }
}

proof fn lemma_glued_skip(list: Seq<Seq<char>>, skipped: int, from: int)
    requires
        0 <= skipped <= from <= list.len(),
    ensures
        text::glued_from(list, "\n"@, from) == text::glued_from(
            list.skip(skipped),
            "\n"@,
            from - skipped,
        ),
    decreases list.len() - from,
{
    if from < list.len() {
        lemma_glued_skip(list, skipped, from + 1);
        assert(list.skip(skipped)[from - skipped] == list[from]);
    }
}

/// The lines of a text behind `before`.
proof fn lemma_lines_of(list: Seq<Seq<char>>, from: int, before: Seq<char>)
    requires
        0 <= from < list.len(),
        list.last().len() > 0,
        forall|k: int|
            0 <= k < list.len() ==> {
                &&& !(#[trigger] list[k]).contains('\n')
                &&& !list[k].contains('\r')
            },
    ensures
        text::lines_from(before + text::glued_from(list, "\n"@, from), before.len() as int)
            == list.skip(from),
    decreases list.len() - from,
{
    reveal_strlit("\n");
    let line = list[from];
    let rest = text::glued_from(list, "\n"@, from);
    let whole = before + rest;
    let start = before.len() as int;
    let end = start + line.len();
    if from + 1 == list.len() {
        assert(rest == line);
        lemma_line_ends(whole, start, end as int);
        assert(whole.subrange(start, whole.len() as int) =~= line);
        assert(list.skip(from) =~= seq![line]);
    } else {
        let more = text::glued_from(list, "\n"@, from + 1);
        assert(rest == line + "\n"@ + more);
        let longer = before + line + "\n"@;
        assert(whole =~= longer + more);
        lemma_lines_of(list, from + 1, longer);
        assert(whole[end as int] == '\n');
        lemma_line_ends(whole, start, end as int);
        assert(text::without_return(whole, start, end as int) =~= line) by {
            if end > start {
                assert(whole[end - 1] == line[line.len() - 1]);
                assert(line.contains(line[line.len() - 1]));
            }
        }
        assert(list.skip(from) =~= seq![line] + list.skip(from + 1));
    }
}

proof fn lemma_line_ends(content: Seq<char>, from: int, end: int)
    requires
        0 <= from <= end <= content.len(),
        end < content.len() ==> content[end] == '\n',
        forall|k: int| from <= k < end ==> #[trigger] content[k] != '\n',
    ensures
        text::line_end(content, from) == end,
    decreases end - from,
{
    if from < end {
        assert(content[from] != '\n');
        lemma_line_ends(content, from + 1, end);
    }
}

// ---------------------------------------------------------------------------
// Notifications
// ---------------------------------------------------------------------------

/// A notification is suppressed just where the user sees anyway what it is about: the application
/// counts as active, the workspace is the current one, and the surface, if it is about one, is the
/// one that has the focus. Otherwise the desktop is to show what the request says.
pub proof fn law_suppressed_just_where_seen(
    model: ModelView,
    params: ParamsView,
    workspace_id: WorkspaceId,
    surface_id: Option<SurfaceId>,
)
    ensures
        ({
            let seen = model.app_focus_override == Some(AppFocusOverride::Active)
                && model.state.selected_workspace_id == workspace_id && (surface_id is None
                || model.state.current_surface_id() == surface_id);
            let (after, step) = model.notification_step(params, workspace_id, surface_id);
            &&& after.state == model.state
            &&& seen ==> step is Suppressed
            &&& !seen ==> step is Deliver
            &&& match step {
                StepView::Deliver(pending) => pending.workspace_id == workspace_id
                    && pending.surface_id == surface_id,
                StepView::Suppressed(_) => true,
            }
        }),
{
}

/// A notification about a tab is noted behind the others, as unread, with what it says; its tab
/// asks for attention because of it, and nothing else changes.
pub proof fn law_notification_marks_its_tab(
    state: StateView,
    drawn: Drawn,
    at: int,
    place: int,
    tab: int,
    title: Seq<char>,
    subtitle: Seq<char>,
    body: Seq<char>,
    delivered: bool,
)
    requires
        state.sound(),
        state.one_place(),
        laws_tabs::has_tab(state, (at, place, tab)),
    ensures
        ({
            let workspace = state.workspaces[at];
            let old = workspace.panes[place].surfaces[tab];
            let (after, result) = state.create_notification(
                drawn,
                workspace.id,
                Some(old.id),
                title,
                subtitle,
                body,
                delivered,
            );
            &&& result == Ok::<_, Seq<char>>(drawn.notification)
            &&& after.notifications.len() == state.notifications.len() + 1
            &&& after.notifications.drop_last() == state.notifications
            &&& after.notifications.last().id == drawn.notification
            &&& after.notifications.last().workspace_id == workspace.id
            &&& after.notifications.last().surface_id == Some(old.id)
            &&& !after.notifications.last().is_read
            &&& after.notifications.last().title == title
            &&& after.notifications.last().subtitle == subtitle
            &&& after.notifications.last().body == body
            &&& after.notifications.last().delivered == delivered
            &&& only_tab_changed(
                state,
                after,
                at,
                place,
                tab,
                SurfaceView { unread: true, unread_notification: true, ..old },
            )
        }),
{
    let workspace = state.workspaces[at];
    let old = workspace.panes[place].surfaces[tab];
    laws_tabs::lemma_found(state, old.id, at, place, tab);
    let next = SurfaceView { unread: true, unread_notification: true, ..old };
    lemma_tab_changed(state, at, place, tab, next);
    let after = state.create_notification(
        drawn,
        workspace.id,
        Some(old.id),
        title,
        subtitle,
        body,
        delivered,
    ).0;
    assert(after.notifications.drop_last() =~= state.notifications);
}

/// Whether a notification becomes seen by a look at a workspace with this tab selected: it is about
/// the workspace, and about no tab or about this one. Nothing else of it changes.
pub open spec fn looked_at(
    before: NotificationView,
    after: NotificationView,
    workspace_id: WorkspaceId,
    surface_id: SurfaceId,
) -> bool {
    let seen = before.workspace_id == workspace_id && (before.surface_id is None
        || before.surface_id == Some(surface_id));
    after == (NotificationView { is_read: before.is_read || seen, ..before })
}

/// Selecting a workspace reads the notifications about it that are about no tab or about its
/// selected tab, and no others.
pub proof fn law_selecting_reads_only_what_is_seen(state: StateView, at: int, place: int)
    requires
        state.sound(),
        laws_tabs::has_pane(state, at, place),
        state.workspaces[at].panes[place].id == state.workspaces[at].selected_pane_id,
    ensures
        ({
            let workspace = state.workspaces[at];
            let after = state.select_workspace(workspace.id).0;
            &&& after.notifications.len() == state.notifications.len()
            &&& forall|k: int|
                0 <= k < state.notifications.len() ==> looked_at(
                    state.notifications[k],
                    #[trigger] after.notifications[k],
                    workspace.id,
                    workspace.panes[place].selected_surface_id,
                )
        }),
{
    let workspace = state.workspaces[at];
    assert(workspace.sound());
    sound_states::lemma_workspace_place(state.workspaces, at, 0);
    sound_workspaces::lemma_pane_place(workspace.panes, place);
}

/// Focusing a tab reads the notifications about its workspace that are about no tab or about this
/// one, and no others.
pub proof fn law_focusing_reads_only_what_is_seen(state: StateView, at: int, place: int, tab: int)
    requires
        state.sound(),
        state.one_place(),
        laws_tabs::has_tab(state, (at, place, tab)),
    ensures
        ({
            let id = state.workspaces[at].panes[place].surfaces[tab].id;
            let after = state.focus_surface(id).0;
            &&& after.notifications.len() == state.notifications.len()
            &&& forall|k: int|
                0 <= k < state.notifications.len() ==> looked_at(
                    state.notifications[k],
                    #[trigger] after.notifications[k],
                    state.workspaces[at].id,
                    id,
                )
        }),
{
    let id = state.workspaces[at].panes[place].surfaces[tab].id;
    laws_tabs::lemma_found(state, id, at, place, tab);
}

/// Clearing the notifications leaves none; no tab asks for attention because of one, and each tab
/// that asks for it because of its text still does. Nothing else changes.
pub proof fn law_clearing_forgets_notifications(state: StateView, at: int, place: int, tab: int)
    requires
        laws_tabs::has_tab(state, (at, place, tab)),
    ensures
        ({
            let after = state.clear_notifications();
            let old = state.workspaces[at].panes[place].surfaces[tab];
            &&& after.notifications.len() == 0
            &&& after.workspaces.len() == state.workspaces.len()
            &&& after.workspaces[at].panes.len() == state.workspaces[at].panes.len()
            &&& after.workspaces[at].panes[place].surfaces.len()
                == state.workspaces[at].panes[place].surfaces.len()
            &&& after.workspaces[at].panes[place].surfaces[tab] == (SurfaceView {
                unread: old.unread_activity,
                unread_notification: false,
                ..old
            })
            &&& after.workspaces[at].panes[place].selected_surface_id
                == state.workspaces[at].panes[place].selected_surface_id
            &&& after.workspaces[at].selected_pane_id == state.workspaces[at].selected_pane_id
            &&& after.windows == state.windows
            &&& after.selected_workspace_id == state.selected_workspace_id
        }),
{
}

// ---------------------------------------------------------------------------
// Marks and flashes
// ---------------------------------------------------------------------------

/// Marking a tab as unread or read sets or takes away its reasons to ask for attention, and changes
/// nothing else. Flashing a tab counts one flash more, up to the largest number, and makes it ask
/// for attention.
pub proof fn law_marks_change_only_the_tab(state: StateView, at: int, place: int, tab: int)
    requires
        state.sound(),
        state.one_place(),
        laws_tabs::has_tab(state, (at, place, tab)),
    ensures
        ({
            let old = state.workspaces[at].panes[place].surfaces[tab];
            let unread = SurfaceView { unread: true, unread_activity: true, ..old };
            let read = SurfaceView {
                unread: false,
                unread_activity: false,
                unread_notification: false,
                ..old
            };
            let flashed = SurfaceView {
                flash_count: if old.flash_count < u64::MAX {
                    (old.flash_count + 1) as u64
                } else {
                    u64::MAX
                },
                unread: true,
                unread_notification: true,
                ..old
            };
            &&& only_tab_changed(
                state,
                state.mark_surface_unread(old.id).0,
                at,
                place,
                tab,
                unread,
            )
            &&& only_tab_changed(state, state.mark_surface_read(old.id).0, at, place, tab, read)
            &&& only_tab_changed(state, state.trigger_flash(old.id).0, at, place, tab, flashed)
            &&& state.mark_surface_unread(old.id).1 is Ok
            &&& state.mark_surface_read(old.id).1 is Ok
            &&& state.trigger_flash(old.id).1 is Ok
        }),
{
    let old = state.workspaces[at].panes[place].surfaces[tab];
    laws_tabs::lemma_found(state, old.id, at, place, tab);
    lemma_tab_changed(
        state,
        at,
        place,
        tab,
        SurfaceView { unread: true, unread_activity: true, ..old },
    );
    lemma_tab_changed(
        state,
        at,
        place,
        tab,
        SurfaceView {
            unread: false,
            unread_activity: false,
            unread_notification: false,
            ..old
        },
    );
    lemma_tab_changed(
        state,
        at,
        place,
        tab,
        SurfaceView {
            flash_count: if old.flash_count < u64::MAX {
                (old.flash_count + 1) as u64
            } else {
                u64::MAX
            },
            unread: true,
            unread_notification: true,
            ..old
        },
    );
}

/// What is known of how a terminal is doing is what was last told of it; nothing else changes.
pub proof fn law_health_is_kept(state: StateView, at: int, place: int, tab: int, health: HealthView)
    requires
        state.sound(),
        state.one_place(),
        laws_tabs::has_tab(state, (at, place, tab)),
    ensures
        ({
            let old = state.workspaces[at].panes[place].surfaces[tab];
            let (after, result) = state.update_health(old.id, health);
            &&& result == Ok::<_, Seq<char>>(state.workspaces[at].id)
            &&& only_tab_changed(
                state,
                after,
                at,
                place,
                tab,
                SurfaceView { terminal_health: health, ..old },
            )
        }),
{
    let old = state.workspaces[at].panes[place].surfaces[tab];
    laws_tabs::lemma_found(state, old.id, at, place, tab);
    lemma_tab_changed(state, at, place, tab, SurfaceView { terminal_health: health, ..old });
    let surfaces = state.workspaces[at].panes[place].surfaces;
    assert(surfaces.update(tab, old) =~= surfaces);
}

/// The words for what is done with a tab mean what they say.
pub proof fn law_words_mark_the_tab(model: ModelView, id: SurfaceId, params: ParamsView)
    ensures
        model.surface_acted(id, "mark_unread"@, params).0.state == model.state.mark_surface_unread(
            id,
        ).0,
        model.surface_acted(id, "mark_read"@, params).0.state == model.state.mark_surface_read(
            id,
        ).0,
        model.surface_acted(id, "clear_name"@, params).0.state == model.state.clear_surface_title(
            id,
        ).0,
        params::word(params, "title"@) is Some ==> model.surface_acted(
            id,
            "rename"@,
            params,
        ).0.state == model.state.rename_surface(id, params::word(params, "title"@)->0).0,
{
    reveal_strlit("rename");
    reveal_strlit("mark_read");
    reveal_strlit("clear_name");
    reveal_strlit("mark_unread");
    assert("rename"@.len() == 6);
    assert("mark_read"@.len() == 9);
    assert("clear_name"@.len() == 10);
    assert("mark_unread"@.len() == 11);
}

/// Flashes that are forgotten are forgotten in every tab; nothing else of a tab changes.
pub proof fn law_no_tab_was_flashed(state: StateView, at: int, place: int, tab: int)
    requires
        laws_tabs::has_tab(state, (at, place, tab)),
    ensures
        ({
            let after = state.reset_flash_counts();
            let old = state.workspaces[at].panes[place].surfaces[tab];
            &&& after.workspaces[at].panes[place].surfaces[tab] == (SurfaceView {
                flash_count: 0,
                ..old
            })
            &&& after.workspaces.len() == state.workspaces.len()
            &&& after.workspaces[at].panes.len() == state.workspaces[at].panes.len()
            &&& after.workspaces[at].panes[place].surfaces.len()
                == state.workspaces[at].panes[place].surfaces.len()
        }),
{
}

} // verus!
