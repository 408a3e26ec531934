//! Making, closing, renaming and moving windows and workspaces.

use crate::ids;
use crate::ids::{holds, id_string, not_found, unless_nil, Drawn, WindowId, WorkspaceId, NIL};
use crate::layout::WorkspaceLayout;
use crate::state;
use crate::state::{AppState, Notification, NotificationView, StateView, WindowState};
use crate::surface::Pane;
use crate::text;
use crate::text::trim;
use crate::workspace;
use crate::workspace::{Workspace, WorkspaceView};
use vstd::prelude::*;

verus! {

/// Those of the first `count` workspaces that this window does not hold.
pub open spec fn outside(list: Seq<WorkspaceView>, window_id: WindowId, count: int) -> Seq<
    WorkspaceView,
>
    decreases count,
{
    if count <= 0 {
        Seq::empty()
    } else {
        let shorter = outside(list, window_id, count - 1);
        if list[count - 1].window_id == window_id {
            shorter
        } else {
            shorter.push(list[count - 1])
        }
    }
}

impl NotificationView {
    /// Whether the notification outlives a window that held these workspaces, where `rest` are the
    /// workspaces that stay.
    pub open spec fn outlives(self, closed: Seq<WorkspaceId>, rest: Seq<WorkspaceView>) -> bool {
        !closed.contains(self.workspace_id) && match self.surface_id {
            Some(surface_id) => state::located_from(rest, surface_id, 0) is Some,
            None => true,
        }
    }
}

/// Those of the first `count` notifications that outlive a window.
pub open spec fn outliving(
    list: Seq<NotificationView>,
    closed: Seq<WorkspaceId>,
    rest: Seq<WorkspaceView>,
    count: int,
) -> Seq<NotificationView>
    decreases count,
{
    if count <= 0 {
        Seq::empty()
    } else {
        let shorter = outliving(list, closed, rest, count - 1);
        if list[count - 1].outlives(closed, rest) {
            shorter.push(list[count - 1])
        } else {
            shorter
        }
    }
}

/// Those of the first `count` identifiers that are not `id`.
pub open spec fn others(list: Seq<u128>, id: u128, count: int) -> Seq<u128>
    decreases count,
{
    if count <= 0 {
        Seq::empty()
    } else {
        let shorter = others(list, id, count - 1);
        if list[count - 1] != id {
            shorter.push(list[count - 1])
        } else {
            shorter
        }
    }
}

/// The places of those of the first `count` workspaces that this window holds.
pub open spec fn places_in(list: Seq<WorkspaceView>, window_id: WindowId, count: int) -> Seq<int>
    decreases count,
{
    if count <= 0 {
        Seq::empty()
    } else {
        let shorter = places_in(list, window_id, count - 1);
        if list[count - 1].window_id == window_id {
            shorter.push(count - 1)
        } else {
            shorter
        }
    }
}

/// Where a workspace goes that is to be the one at `index` among those of its window.
pub open spec fn insertion_place(
    list: Seq<WorkspaceView>,
    window_id: WindowId,
    index: int,
) -> int {
    let places = places_in(list, window_id, list.len() as int);
    if places.len() == 0 {
        list.len() as int
    } else if index >= places.len() {
        places.last() + 1
    } else {
        places[index]
    }
}

/// The places of the workspaces of a window are places of the list.
pub proof fn lemma_places(list: Seq<WorkspaceView>, window_id: WindowId, count: int)
    requires
        0 <= count <= list.len(),
    ensures
        forall|k: int|
            0 <= k < places_in(list, window_id, count).len() ==> 0 <= #[trigger] places_in(
                list,
                window_id,
                count,
            )[k] < count,
    decreases count,
{
    if count > 0 {
        lemma_places(list, window_id, count - 1);
        let shorter = places_in(list, window_id, count - 1);
        assert forall|k: int| 0 <= k < places_in(list, window_id, count).len() implies 0
            <= #[trigger] places_in(list, window_id, count)[k] < count by {
            if k < shorter.len() {
                assert(places_in(list, window_id, count)[k] == shorter[k]);
            }
        }
    }
}

/// The identifier, if it is one of the list, else the first of the list.
pub open spec fn kept_or_first(candidate: Option<u128>, list: Seq<u128>) -> u128 {
    match candidate {
        Some(id) => if list.contains(id) {
            id
        } else {
            list[0]
        },
        None => list[0],
    }
}

fn keep_or_first(candidate: Option<u128>, list: &Vec<u128>) -> (id: u128)
    requires
        list@.len() > 0,
    ensures
        id == kept_or_first(candidate, list@),
{
    match candidate {
        Some(id) => if holds(list, id) {
            id
        } else {
            list[0]
        },
        None => list[0],
    }
}

impl StateView {
    /// A state without windows.
    pub open spec fn blank() -> StateView {
        StateView {
            windows: Seq::empty(),
            window_id: NIL,
            workspaces: Seq::empty(),
            selected_workspace_id: NIL,
            last_selected_workspace_id: None,
            notifications: Seq::empty(),
            revision: 0,
            next_workspace_title_number: 1,
            next_surface_title_number: 1,
        }
    }

    /// The state at the start: one window with one workspace.
    pub open spec fn initial(drawn: Drawn) -> StateView {
        StateView {
            window_id: drawn.window,
            selected_workspace_id: drawn.workspace,
            ..Self::blank().create_window(drawn, true)
        }
    }

    /// The state in which a window shows these workspaces.
    pub open spec fn pointing(
        self,
        window_id: WindowId,
        selected: WorkspaceId,
        last: Option<WorkspaceId>,
    ) -> StateView {
        match self.window_at(window_id) {
            Some(at) => self.with_window(
                at,
                WindowState {
                    selected_workspace_id: selected,
                    last_selected_workspace_id: last,
                    ..self.windows[at]
                },
            ),
            None => self,
        }
    }

    /// The state in which a window shows this workspace, if it is to be shown or if the window
    /// shows none.
    pub open spec fn offered(
        self,
        window_id: WindowId,
        workspace_id: WorkspaceId,
        focus: bool,
    ) -> StateView {
        match self.window(window_id) {
            Some(window) => if focus || window.selected_workspace_id == NIL {
                self.pointing(
                    window_id,
                    workspace_id,
                    ids::non_nil(window.selected_workspace_id),
                )
            } else {
                self
            },
            None => self,
        }
    }

    /// A workspace with the next terminal in it.
    pub open spec fn fresh_workspace(
        self,
        drawn: Drawn,
        window_id: WindowId,
        directory: Option<Seq<char>>,
    ) -> WorkspaceView {
        WorkspaceView {
            id: drawn.workspace,
            window_id,
            title: self.workspace_title(),
            current_directory: directory,
            layout: WorkspaceLayout::Pane(drawn.pane),
            panes: seq![self.fresh_pane(drawn)],
            selected_pane_id: drawn.pane,
            last_selected_pane_id: None,
        }
    }

    /// Adds a workspace to a window, after the others. It is shown if `focus`, or if the window
    /// shows none.
    pub open spec fn create_workspace(
        self,
        drawn: Drawn,
        window_id: WindowId,
        focus: bool,
        directory: Option<Seq<char>>,
    ) -> StateView {
        let added = StateView {
            workspaces: self.workspaces.push(self.fresh_workspace(drawn, window_id, directory)),
            ..self.numbered_terminal().numbered_workspace()
        };
        let shown = added.offered(window_id, drawn.workspace, focus);
        let current = if window_id == self.window_id && (focus || self.selected_workspace_id
            == NIL) {
            StateView {
                selected_workspace_id: drawn.workspace,
                last_selected_workspace_id: ids::non_nil(self.selected_workspace_id),
                ..shown
            }
        } else {
            shown
        };
        current.touched()
    }

    /// Adds a window with one workspace. It becomes the current one if `focus`, or if there was
    /// none.
    pub open spec fn create_window(self, drawn: Drawn, focus: bool) -> StateView {
        let window = WindowState {
            id: drawn.window,
            selected_workspace_id: NIL,
            last_selected_workspace_id: None,
        };
        let filled = StateView { windows: self.windows.push(window), ..self }.create_workspace(
            drawn,
            drawn.window,
            focus,
            None,
        );
        if focus || filled.window_id == NIL {
            filled.synced_from(drawn.window).touched()
        } else {
            filled.touched()
        }
    }

    /// The state without a window, its workspaces and the notifications about them.
    pub open spec fn without_window(self, at: int) -> StateView {
        let window_id = self.windows[at].id;
        let rest = outside(self.workspaces, window_id, self.workspaces.len() as int);
        StateView {
            windows: self.windows.remove(at),
            workspaces: rest,
            notifications: outliving(
                self.notifications,
                self.workspace_ids_in(window_id),
                rest,
                self.notifications.len() as int,
            ),
            ..self
        }
    }

    /// Closes a window. The one before it becomes the current one; where it was the last, a new
    /// one takes its place.
    pub open spec fn close_window(self, drawn: Drawn, window_id: WindowId) -> (
        StateView,
        Result<(), Seq<char>>,
    ) {
        match self.window_at(window_id) {
            None => (self, Err(ids::not_found_text("window"@, window_id))),
            Some(at) => {
                let rest = self.without_window(at);
                if rest.windows.len() == 0 {
                    let next = StateView {
                        window_id: drawn.window,
                        selected_workspace_id: drawn.workspace,
                        last_selected_workspace_id: None,
                        ..rest.create_window(drawn, true)
                    };
                    (next.touched(), Ok(()))
                } else {
                    let before = if at > 0 {
                        at - 1
                    } else {
                        0
                    };
                    (rest.synced_from(rest.windows[before].id).touched(), Ok(()))
                }
            },
        }
    }

    /// The state without the workspace at `at`.
    pub open spec fn without_workspace(self, at: int) -> StateView {
        StateView { workspaces: self.workspaces.remove(at), ..self }
    }

    /// Closes a workspace. Its window shows the workspace it showed before, or its first; where it
    /// was the only one, a new one takes its place.
    pub open spec fn close_workspace(self, drawn: Drawn, workspace_id: WorkspaceId) -> (
        StateView,
        Result<(), Seq<char>>,
    ) {
        match self.workspace_at(workspace_id) {
            None => (self, Err(ids::not_found_text("workspace"@, workspace_id))),
            Some(at) => {
                let window_id = self.workspaces[at].window_id;
                let rest = self.without_workspace(at);
                if self.workspace_ids_in(window_id).len() == 1 {
                    let filled = rest.create_workspace(drawn, window_id, true, None);
                    let next = if window_id == self.window_id {
                        StateView {
                            selected_workspace_id: drawn.workspace,
                            last_selected_workspace_id: None,
                            ..filled
                        }.synced_to(window_id)
                    } else {
                        filled
                    };
                    (next.touched(), Ok(()))
                } else {
                    let last = match self.window(window_id) {
                        Some(window) => window.last_selected_workspace_id,
                        None => None,
                    };
                    let shown = kept_or_first(last, rest.workspace_ids_in(window_id));
                    let pointed = rest.pointing(window_id, shown, None);
                    let next = if window_id == self.window_id {
                        StateView {
                            selected_workspace_id: shown,
                            last_selected_workspace_id: None,
                            ..pointed
                        }
                    } else {
                        pointed
                    };
                    (next.touched(), Ok(()))
                }
            },
        }
    }

    /// Renames a workspace, without the white space around the title.
    pub open spec fn rename_workspace(self, workspace_id: WorkspaceId, title: Seq<char>) -> (
        StateView,
        Result<(), Seq<char>>,
    ) {
        let name = text::trimmed(title);
        if name.len() == 0 {
            (self, Err("workspace title cannot be empty"@))
        } else {
            match self.workspace_at(workspace_id) {
                None => (self, Err(ids::not_found_text("workspace"@, workspace_id))),
                Some(at) => {
                    let workspace = self.workspaces[at];
                    (
                        self.with_workspace(
                            at,
                            WorkspaceView { title: name, ..workspace },
                        ).touched_if(workspace.title != name),
                        Ok(()),
                    )
                },
            }
        }
    }

    /// Moves a workspace to another place among those of its window.
    pub open spec fn reorder_workspace(
        self,
        workspace_id: WorkspaceId,
        window_id: WindowId,
        index: int,
    ) -> (StateView, Result<(), Seq<char>>) {
        match self.workspace_at(workspace_id) {
            None => (self, Err(ids::not_found_text("workspace"@, workspace_id))),
            Some(at) => if self.workspaces[at].window_id != window_id {
                (
                    self,
                    Err(
                        "workspace "@ + ids::id_text(workspace_id) + " is not in window "@
                            + ids::id_text(window_id),
                    ),
                )
            } else {
                let rest = self.workspaces.remove(at);
                (
                    StateView {
                        workspaces: rest.insert(
                            insertion_place(rest, window_id, index),
                            self.workspaces[at],
                        ),
                        ..self
                    }.touched(),
                    Ok(()),
                )
            },
        }
    }

    /// The workspace at `at` changes its window; the new window shows it, if it is to be shown or
    /// if the window shows none.
    pub open spec fn handed_over(
        self,
        at: int,
        target: WindowId,
        focus: bool,
    ) -> StateView {
        let workspace = self.workspaces[at];
        self.with_workspace(at, WorkspaceView { window_id: target, ..workspace }).offered(
            target,
            workspace.id,
            focus,
        )
    }

    /// A window loses a workspace, where `rest` are those it has left: it shows the workspace it
    /// showed before, or its first. Where none is left, a new one takes its place.
    pub open spec fn bereft(
        self,
        drawn: Drawn,
        window_id: WindowId,
        workspace_id: WorkspaceId,
        rest: Seq<WorkspaceId>,
        was_shown: bool,
    ) -> StateView {
        if rest.len() == 0 {
            self.create_workspace(drawn, window_id, false, None).pointing(
                window_id,
                drawn.workspace,
                None,
            )
        } else {
            match self.window(window_id) {
                Some(window) => if was_shown || window.selected_workspace_id == workspace_id {
                    self.pointing(
                        window_id,
                        kept_or_first(window.last_selected_workspace_id, rest),
                        None,
                    )
                } else {
                    self
                },
                None => self,
            }
        }
    }

    /// Moves a workspace to another window.
    pub open spec fn move_workspace(
        self,
        drawn: Drawn,
        workspace_id: WorkspaceId,
        target: WindowId,
        focus: bool,
    ) -> (StateView, Result<(), Seq<char>>) {
        if self.window_at(target) is None {
            (self, Err(ids::not_found_text("window"@, target)))
        } else {
            match self.workspace_at(workspace_id) {
                None => (self, Err(ids::not_found_text("workspace"@, workspace_id))),
                Some(at) => {
                    let source = self.workspaces[at].window_id;
                    if source == target {
                        if focus {
                            match self.focus_window(target) {
                                (next, Err(message)) => (next, Err(message)),
                                (next, Ok(_)) => next.select_workspace(workspace_id),
                            }
                        } else {
                            (self, Ok(()))
                        }
                    } else {
                        let list = self.workspace_ids_in(source);
                        let was_shown = match self.window(source) {
                            Some(window) => window.selected_workspace_id == workspace_id,
                            None => workspace_id == NIL,
                        };
                        let next = self.handed_over(at, target, focus).bereft(
                            drawn,
                            source,
                            workspace_id,
                            others(list, workspace_id, list.len() as int),
                            was_shown,
                        ).repaired(source).repaired(target);
                        let synced = if focus {
                            next.synced_from(target)
                        } else if next.window_id == source || next.window_id == target {
                            next.synced_from(next.window_id)
                        } else {
                            next
                        };
                        (synced.touched(), Ok(()))
                    }
                },
            }
        }
    }
}

proof fn lemma_skip_first<T>(list: Seq<T>, at: int)
    requires
        0 <= at < list.len(),
    ensures
        list.skip(at)[0] == list[at],
        list.skip(at).remove(0) == list.skip(at + 1),
{
    assert(list.skip(at).remove(0) =~= list.skip(at + 1));
}

impl AppState {
    /// A state without windows.
    fn blank() -> (state: AppState)
        ensures
            state@ == StateView::blank(),
    {
        let state = AppState {
            windows: Vec::new(),
            window_id: NIL,
            workspaces: Vec::new(),
            selected_workspace_id: NIL,
            last_selected_workspace_id: None,
            notifications: Vec::new(),
            revision: 0,
            next_workspace_title_number: 1,
            next_surface_title_number: 1,
        };
        proof {
            assert(state@ =~= StateView::blank());
        }
        state
    }

    /// The state at the start, with these identifiers for its objects.
    pub fn new_with_ids(drawn: Drawn) -> (state: AppState)
        ensures
            state@ == StateView::initial(drawn),
    {
        let mut state = AppState::blank();
        let (window_id, workspace_id) = state.create_window_with_ids(drawn, true);
        state.window_id = window_id;
        state.selected_workspace_id = workspace_id;
        state
    }

    /// The state at the start: one window with one workspace.
    pub fn new() -> (state: AppState)
        ensures
            exists|drawn: Drawn| drawn.usable() && state@ == #[trigger] StateView::initial(drawn),
    {
        AppState::new_with_ids(Drawn::draw())
    }

    /// Makes a window show these workspaces.
    pub fn point_window(
        &mut self,
        window_id: WindowId,
        selected: WorkspaceId,
        last: Option<WorkspaceId>,
    )
        ensures
            final(self)@ == old(self)@.pointing(window_id, selected, last),
    {
        if let Some(window) = self.window_mut(window_id) {
            window.selected_workspace_id = selected;
            window.last_selected_workspace_id = last;
        }
    }

    /// Makes a window show this workspace, if it is to be shown or if the window shows none.
    pub fn offer_to_window(&mut self, window_id: WindowId, workspace_id: WorkspaceId, focus: bool)
        ensures
            final(self)@ == old(self)@.offered(window_id, workspace_id, focus),
    {
        if let Some(at) = self.window_index(window_id) {
            let selected = self.windows[at].selected_workspace_id;
            if focus || selected == NIL {
                self.point_window(window_id, workspace_id, unless_nil(selected));
            }
        }
    }

    /// Adds a window with one workspace, with these identifiers.
    pub fn create_window_with_ids(&mut self, drawn: Drawn, focus_new: bool) -> (made: (
        WindowId,
        WorkspaceId,
    ))
        requires
            old(self)@.has_room(),
        ensures
            final(self)@ == old(self)@.create_window(drawn, focus_new),
            made == (drawn.window, drawn.workspace),
    {
        self.windows.push(
            WindowState {
                id: drawn.window,
                selected_workspace_id: NIL,
                last_selected_workspace_id: None,
            },
        );
        let workspace_id = self.create_workspace_with_ids(drawn, drawn.window, focus_new, None);
        if focus_new || self.window_id == NIL {
            self.sync_global_selection_from_window(drawn.window);
        }
        self.touch();
        (drawn.window, workspace_id)
    }

    /// Adds a window with one workspace.
    pub fn create_window_with_focus(&mut self, focus_new: bool) -> (made: (WindowId, WorkspaceId))
        requires
            old(self)@.has_room(),
        ensures
            exists|drawn: Drawn|
                drawn.usable() && final(self)@ == #[trigger] old(self)@.create_window(
                    drawn,
                    focus_new,
                ) && made == (drawn.window, drawn.workspace),
    {
        self.create_window_with_ids(Drawn::draw(), focus_new)
    }

    fn remove_window_workspaces(&mut self, window_id: WindowId)
        ensures
            final(self)@ == (StateView {
                workspaces: outside(
                    old(self)@.workspaces,
                    window_id,
                    old(self)@.workspaces.len() as int,
                ),
                ..old(self)@
            }),
    {
        let ghost before = self@;
        let ghost list = self@.workspaces;
        let mut kept: Vec<Workspace> = Vec::new();
        let mut rest: Vec<Workspace> = Vec::new();
        std::mem::swap(&mut self.workspaces, &mut rest);
        let ghost mut done: int = 0;
        proof {
            assert(state::workspace_views(kept@) =~= Seq::empty());
            assert(state::workspace_views(rest@) =~= list.skip(0));
        }
        while rest.len() > 0
            invariant
                0 <= done <= list.len(),
                state::workspace_views(kept@) == outside(list, window_id, done),
                state::workspace_views(rest@) == list.skip(done),
                rest@.len() == list.len() - done,
            decreases rest@.len(),
        {
            let ghost kept_before = state::workspace_views(kept@);
            let ghost rest_before = state::workspace_views(rest@);
            let workspace = rest.remove(0);
            proof {
                lemma_skip_first(list, done);
                assert(rest_before[0] == workspace@);
                assert(state::workspace_views(rest@) =~= rest_before.remove(0));
            }
            if workspace.window_id != window_id {
                kept.push(workspace);
                proof {
                    assert(state::workspace_views(kept@) =~= kept_before.push(list[done]));
                }
            }
            proof {
                done = done + 1;
            }
        }
        self.workspaces = kept;
        proof {
            assert(self@ =~= StateView {
                workspaces: outside(list, window_id, list.len() as int),
                ..before
            });
        }
    }

    fn remove_window_notifications(&mut self, closed: &Vec<WorkspaceId>)
        ensures
            final(self)@ == (StateView {
                notifications: outliving(
                    old(self)@.notifications,
                    closed@,
                    old(self)@.workspaces,
                    old(self)@.notifications.len() as int,
                ),
                ..old(self)@
            }),
    {
        let ghost before = self@;
        let ghost list = self@.notifications;
        let ghost workspaces = self@.workspaces;
        let mut kept: Vec<Notification> = Vec::new();
        let mut rest: Vec<Notification> = Vec::new();
        std::mem::swap(&mut self.notifications, &mut rest);
        let ghost mut done: int = 0;
        proof {
            assert(state::notification_views(kept@) =~= Seq::empty());
            assert(state::notification_views(rest@) =~= list.skip(0));
        }
        while rest.len() > 0
            invariant
                0 <= done <= list.len(),
                self@.workspaces == workspaces,
                state::notification_views(kept@) == outliving(
                    list,
                    closed@,
                    workspaces,
                    done,
                ),
                state::notification_views(rest@) == list.skip(done),
                rest@.len() == list.len() - done,
            decreases rest@.len(),
        {
            let ghost kept_before = state::notification_views(kept@);
            let ghost rest_before = state::notification_views(rest@);
            let notification = rest.remove(0);
            proof {
                lemma_skip_first(list, done);
                assert(rest_before[0] == notification@);
                assert(state::notification_views(rest@) =~= rest_before.remove(0));
            }
            let keep = !holds(closed, notification.workspace_id) && match notification.surface_id {
                Some(surface_id) => self.located_index(surface_id).is_some(),
                None => true,
            };
            if keep {
                kept.push(notification);
                proof {
                    assert(state::notification_views(kept@) =~= kept_before.push(
                        list[done],
                    ));
                }
            }
            proof {
                done = done + 1;
            }
        }
        self.notifications = kept;
        proof {
            assert(self@ =~= StateView {
                notifications: outliving(list, closed@, workspaces, list.len() as int),
                ..before
            });
        }
    }

    /// Closes a window, with these identifiers for what takes its place.
    pub fn close_window_with_ids(&mut self, drawn: Drawn, window_id: WindowId) -> (result: Result<
        (),
        String,
    >)
        requires
            old(self)@.has_room(),
        ensures
            final(self)@ == old(self)@.close_window(drawn, window_id).0,
            text::text_result(result) == old(self)@.close_window(drawn, window_id).1,
    {
        let index = match self.window_index(window_id) {
            Some(at) => at,
            None => {
                return Err(not_found("window", window_id));
            },
        };
        let workspace_ids = self.workspace_ids_in(window_id);
        self.remove_window_workspaces(window_id);
        self.remove_window_notifications(&workspace_ids);
        let _ = self.windows.remove(index);
        proof {
            assert(self@ =~= old(self)@.without_window(index as int));
        }
        if self.windows.len() == 0 {
            let (new_window_id, new_workspace_id) = self.create_window_with_ids(drawn, true);
            self.window_id = new_window_id;
            self.selected_workspace_id = new_workspace_id;
            self.last_selected_workspace_id = None;
            self.touch();
            return Ok(());
        }
        let before: usize = if index > 0 {
            index - 1
        } else {
            0
        };
        let fallback_window_id = self.windows[before].id;
        self.sync_global_selection_from_window(fallback_window_id);
        self.touch();
        Ok(())
    }

    /// Closes a window. The one before it becomes the current one; where it was the last, a new
    /// one takes its place.
    pub fn close_window(&mut self, window_id: WindowId) -> (result: Result<(), String>)
        requires
            old(self)@.has_room(),
        ensures
            exists|drawn: Drawn|
                drawn.usable() && final(self)@ == (#[trigger] old(self)@.close_window(
                    drawn,
                    window_id,
                )).0 && text::text_result(result) == old(self)@.close_window(drawn, window_id).1,
    {
        self.close_window_with_ids(Drawn::draw(), window_id)
    }

    /// Adds a workspace to the current window and makes it the current one.
    pub fn create_workspace(&mut self) -> (id: WorkspaceId)
        requires
            old(self)@.has_room(),
        ensures
            exists|drawn: Drawn|
                drawn.usable() && id == drawn.workspace && final(self)@ == #[trigger] old(
                    self,
                )@.create_workspace(drawn, old(self)@.window_id, true, None),
    {
        self.create_workspace_with_focus(true)
    }

    /// Adds a workspace to the current window.
    pub fn create_workspace_with_focus(&mut self, focus_new: bool) -> (id: WorkspaceId)
        requires
            old(self)@.has_room(),
        ensures
            exists|drawn: Drawn|
                drawn.usable() && id == drawn.workspace && final(self)@ == #[trigger] old(
                    self,
                )@.create_workspace(drawn, old(self)@.window_id, focus_new, None),
    {
        self.create_workspace_with_focus_and_cwd(focus_new, None)
    }

    /// Adds a workspace in a directory to the current window.
    pub fn create_workspace_with_focus_and_cwd(
        &mut self,
        focus_new: bool,
        current_directory: Option<String>,
    ) -> (id: WorkspaceId)
        requires
            old(self)@.has_room(),
        ensures
            exists|drawn: Drawn|
                drawn.usable() && id == drawn.workspace && final(self)@ == #[trigger] old(
                    self,
                )@.create_workspace(
                    drawn,
                    old(self)@.window_id,
                    focus_new,
                    text::opt_text(current_directory),
                ),
    {
        let window_id = self.window_id;
        self.create_workspace_in_window_with_focus_and_cwd(window_id, focus_new, current_directory)
    }

    /// Adds a workspace in a directory to a window.
    pub fn create_workspace_in_window_with_focus_and_cwd(
        &mut self,
        window_id: WindowId,
        focus_new: bool,
        current_directory: Option<String>,
    ) -> (id: WorkspaceId)
        requires
            old(self)@.has_room(),
        ensures
            exists|drawn: Drawn|
                drawn.usable() && id == drawn.workspace && final(self)@ == #[trigger] old(
                    self,
                )@.create_workspace(
                    drawn,
                    window_id,
                    focus_new,
                    text::opt_text(current_directory),
                ),
    {
        self.create_workspace_with_ids(Drawn::draw(), window_id, focus_new, current_directory)
    }

    /// Adds a workspace in a directory to a window, with these identifiers.
    pub fn create_workspace_with_ids(
        &mut self,
        drawn: Drawn,
        window_id: WindowId,
        focus_new: bool,
        current_directory: Option<String>,
    ) -> (id: WorkspaceId)
        requires
            old(self)@.has_room(),
        ensures
            final(self)@ == old(self)@.create_workspace(
                drawn,
                window_id,
                focus_new,
                text::opt_text(current_directory),
            ),
            id == drawn.workspace,
    {
        let ghost before = self@;
        let ghost directory = text::opt_text(current_directory);
        let pane = self.new_terminal_pane(drawn);
        let title = self.next_workspace_title();
        let mut panes: Vec<Pane> = Vec::new();
        panes.push(pane);
        proof {
            assert(workspace::pane_views(panes@) =~= seq![before.fresh_pane(drawn)]);
        }
        let workspace = Workspace {
            id: drawn.workspace,
            window_id,
            title,
            current_directory,
            layout: WorkspaceLayout::Pane(drawn.pane),
            panes,
            selected_pane_id: drawn.pane,
            last_selected_pane_id: None,
        };
        proof {
            assert(workspace@ == before.fresh_workspace(drawn, window_id, directory));
        }
        self.workspaces.push(workspace);
        proof {
            assert(self@ =~= StateView {
                workspaces: before.workspaces.push(
                    before.fresh_workspace(drawn, window_id, directory),
                ),
                ..before.numbered_terminal().numbered_workspace()
            });
        }
        self.offer_to_window(window_id, drawn.workspace, focus_new);
        if window_id == self.window_id && (focus_new || self.selected_workspace_id == NIL) {
            self.last_selected_workspace_id = unless_nil(self.selected_workspace_id);
            self.selected_workspace_id = drawn.workspace;
        }
        self.touch();
        drawn.workspace
    }

    fn remove_workspace(&mut self, at: usize) -> (workspace: Workspace)
        requires
            at < old(self)@.workspaces.len(),
        ensures
            workspace@ == old(self)@.workspaces[at as int],
            final(self)@ == old(self)@.without_workspace(at as int),
    {
        self.workspaces.remove(at)
    }

    /// Closes a workspace, with these identifiers for what takes its place.
    pub fn close_workspace_with_ids(&mut self, drawn: Drawn, workspace_id: WorkspaceId) -> (result:
        Result<(), String>)
        requires
            old(self)@.has_room(),
        ensures
            final(self)@ == old(self)@.close_workspace(drawn, workspace_id).0,
            text::text_result(result) == old(self)@.close_workspace(drawn, workspace_id).1,
    {
        let index = match self.workspace_index(workspace_id) {
            Some(at) => at,
            None => {
                return Err(not_found("workspace", workspace_id));
            },
        };
        let window_id = self.workspaces[index].window_id;
        let window_workspace_ids = self.workspace_ids_in(window_id);
        let _ = self.remove_workspace(index);
        if window_workspace_ids.len() == 1 {
            let new_workspace_id = self.create_workspace_with_ids(drawn, window_id, true, None);
            if window_id == self.window_id {
                self.selected_workspace_id = new_workspace_id;
                self.last_selected_workspace_id = None;
                self.sync_window_selection_from_global(window_id);
            }
            self.touch();
            return Ok(());
        }
        let remaining = self.workspace_ids_in(window_id);
        proof {
            let list = old(self)@.workspaces;
            lemma_ids_without(list, window_id, index as int, list.len() as int);
        }
        let last = match self.window(window_id) {
            Some(window) => window.last_selected_workspace_id,
            None => None,
        };
        let fallback_workspace_id = keep_or_first(last, &remaining);
        self.point_window(window_id, fallback_workspace_id, None);
        if window_id == self.window_id {
            self.selected_workspace_id = fallback_workspace_id;
            self.last_selected_workspace_id = None;
        }
        self.touch();
        Ok(())
    }

    /// Closes a workspace. Its window shows the workspace it showed before, or its first; where it
    /// was the only one, a new one takes its place.
    pub fn close_workspace(&mut self, workspace_id: WorkspaceId) -> (result: Result<(), String>)
        requires
            old(self)@.has_room(),
        ensures
            exists|drawn: Drawn|
                drawn.usable() && final(self)@ == (#[trigger] old(self)@.close_workspace(
                    drawn,
                    workspace_id,
                )).0 && text::text_result(result) == old(self)@.close_workspace(
                    drawn,
                    workspace_id,
                ).1,
    {
        self.close_workspace_with_ids(Drawn::draw(), workspace_id)
    }

    /// Renames a workspace, without the white space around the title.
    pub fn rename_workspace(&mut self, workspace_id: WorkspaceId, title: String) -> (result: Result<
        (),
        String,
    >)
        ensures
            final(self)@ == old(self)@.rename_workspace(workspace_id, title@).0,
            text::text_result(result) == old(self)@.rename_workspace(workspace_id, title@).1,
    {
        let name = trim(title.as_str());
        if name.as_str().is_empty() {
            return Err("workspace title cannot be empty".to_owned());
        }
        let changed = match self.workspace_mut(workspace_id) {
            None => {
                return Err(not_found("workspace", workspace_id));
            },
            Some(workspace) => workspace.rename(name),
        };
        if changed {
            self.touch();
        }
        Ok(())
    }

    /// Moves a workspace to another place among those of its window.
    pub fn reorder_workspace_in_window(
        &mut self,
        workspace_id: WorkspaceId,
        window_id: WindowId,
        target_index: usize,
    ) -> (result: Result<(), String>)
        ensures
            final(self)@ == old(self)@.reorder_workspace(
                workspace_id,
                window_id,
                target_index as int,
            ).0,
            text::text_result(result) == old(self)@.reorder_workspace(
                workspace_id,
                window_id,
                target_index as int,
            ).1,
    {
        let source_index = match self.workspace_index(workspace_id) {
            Some(at) => at,
            None => {
                return Err(not_found("workspace", workspace_id));
            },
        };
        if self.workspaces[source_index].window_id != window_id {
            let mut message = "workspace ".to_owned();
            message.append(id_string(workspace_id).as_str());
            message.append(" is not in window ");
            message.append(id_string(window_id).as_str());
            return Err(message);
        }
        let workspace = self.remove_workspace(source_index);
        let ghost rest = self@.workspaces;
        let mut places: Vec<usize> = Vec::new();
        let mut at: usize = 0;
        while at < self.workspaces.len()
            invariant
                at <= self.workspaces@.len(),
                rest == self@.workspaces,
                places@.len() == places_in(rest, window_id, at as int).len(),
                forall|k: int|
                    0 <= k < places@.len() ==> places@[k] as int == places_in(
                        rest,
                        window_id,
                        at as int,
                    )[k],
            decreases self.workspaces@.len() - at,
        {
            if self.workspaces[at].window_id == window_id {
                places.push(at);
            }
            at = at + 1;
        }
        proof {
            assert(at == rest.len());
            lemma_places(rest, window_id, rest.len() as int);
        }
        let insert_index: usize = if places.len() == 0 {
            self.workspaces.len()
        } else if target_index >= places.len() {
            places[places.len() - 1] + 1
        } else {
            places[target_index]
        };
        self.workspaces.insert(insert_index, workspace);
        proof {
            assert(self@.workspaces =~= rest.insert(insert_index as int, workspace@));
        }
        self.touch();
        Ok(())
    }

    pub fn other_ids(list: &Vec<u128>, id: u128) -> (rest: Vec<u128>)
        ensures
            rest@ == others(list@, id, list@.len() as int),
    {
        let mut rest: Vec<u128> = Vec::new();
        let mut at: usize = 0;
        while at < list.len()
            invariant
                at <= list@.len(),
                rest@ == others(list@, id, at as int),
            decreases list@.len() - at,
        {
            if list[at] != id {
                rest.push(list[at]);
            }
            at = at + 1;
        }
        rest
    }

    /// Lets a window lose a workspace, with these identifiers for what takes its place.
    pub fn bereave_window(
        &mut self,
        drawn: Drawn,
        window_id: WindowId,
        workspace_id: WorkspaceId,
        rest: &Vec<WorkspaceId>,
        was_shown: bool,
    )
        requires
            old(self)@.has_room(),
        ensures
            final(self)@ == old(self)@.bereft(drawn, window_id, workspace_id, rest@, was_shown),
    {
        if rest.len() == 0 {
            let replacement = self.create_workspace_with_ids(drawn, window_id, false, None);
            self.point_window(window_id, replacement, None);
        } else if let Some(at) = self.window_index(window_id) {
            let window = self.windows[at];
            if was_shown || window.selected_workspace_id == workspace_id {
                let shown = keep_or_first(window.last_selected_workspace_id, rest);
                self.point_window(window_id, shown, None);
            }
        }
    }

    /// Moves a workspace to another window, with these identifiers for what takes its place.
    pub fn move_workspace_with_ids(
        &mut self,
        drawn: Drawn,
        workspace_id: WorkspaceId,
        target_window_id: WindowId,
        focus: bool,
    ) -> (result: Result<(), String>)
        requires
            old(self)@.has_room(),
        ensures
            final(self)@ == old(self)@.move_workspace(
                drawn,
                workspace_id,
                target_window_id,
                focus,
            ).0,
            text::text_result(result) == old(self)@.move_workspace(
                drawn,
                workspace_id,
                target_window_id,
                focus,
            ).1,
    {
        if self.window_index(target_window_id).is_none() {
            return Err(not_found("window", target_window_id));
        }
        let index = match self.workspace_index(workspace_id) {
            Some(at) => at,
            None => {
                return Err(not_found("workspace", workspace_id));
            },
        };
        let source_window_id = self.workspaces[index].window_id;
        if source_window_id == target_window_id {
            if focus {
                return match self.focus_window(target_window_id) {
                    Err(message) => Err(message),
                    Ok(_) => self.select_workspace(workspace_id),
                };
            }
            return Ok(());
        }
        let source_ids = self.workspace_ids_in(source_window_id);
        let was_shown = match self.window(source_window_id) {
            Some(window) => window.selected_workspace_id == workspace_id,
            None => workspace_id == NIL,
        };
        self.workspace_slot(index).window_id = target_window_id;
        self.offer_to_window(target_window_id, workspace_id, focus);
        let rest = AppState::other_ids(&source_ids, workspace_id);
        self.bereave_window(drawn, source_window_id, workspace_id, &rest, was_shown);
        self.repair_window_selection(source_window_id);
        self.repair_window_selection(target_window_id);
        if focus {
            self.sync_global_selection_from_window(target_window_id);
        } else if self.window_id == source_window_id || self.window_id == target_window_id {
            let window_id = self.window_id;
            self.sync_global_selection_from_window(window_id);
        }
        self.touch();
        Ok(())
    }

    /// Moves a workspace to another window. Where its window has none left, a new one takes its
    /// place.
    pub fn move_workspace_to_window(
        &mut self,
        workspace_id: WorkspaceId,
        target_window_id: WindowId,
        focus: bool,
    ) -> (result: Result<(), String>)
        requires
            old(self)@.has_room(),
        ensures
            exists|drawn: Drawn|
                drawn.usable() && final(self)@ == (#[trigger] old(self)@.move_workspace(
                    drawn,
                    workspace_id,
                    target_window_id,
                    focus,
                )).0 && text::text_result(result) == old(self)@.move_workspace(
                    drawn,
                    workspace_id,
                    target_window_id,
                    focus,
                ).1,
    {
        self.move_workspace_with_ids(Drawn::draw(), workspace_id, target_window_id, focus)
    }
}

/// Taking one workspace of a window out takes one identifier out.
pub proof fn lemma_ids_without(
    list: Seq<WorkspaceView>,
    window_id: WindowId,
    at: int,
    count: int,
)
    requires
        0 <= at < list.len(),
        0 <= count <= list.len(),
        list[at].window_id == window_id,
    ensures
        count <= at ==> state::ids_in(list.remove(at), window_id, count) == state::ids_in(
            list,
            window_id,
            count,
        ),
        count > at ==> state::ids_in(list.remove(at), window_id, count - 1).len() + 1
            == state::ids_in(list, window_id, count).len(),
    decreases count,
{
    if count > 0 {
        lemma_ids_without(list, window_id, at, count - 1);
    }
}

} // verus!
