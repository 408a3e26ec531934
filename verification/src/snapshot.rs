//! What is kept of the state between two runs.

use crate::ids;
use crate::ids::{fresh_id, WindowId, WorkspaceId, NIL};
use crate::state;
use crate::state::{AppState, Notification, NotificationView, StateView, WindowState};
use crate::surface::{Pane, PaneView, SurfaceView};
use crate::text;
use crate::text::{decimal_text, joined};
use crate::workspace;
use crate::workspace::{Workspace, WorkspaceView};
use crate::workspace_ops::about;
use vstd::prelude::*;

verus! {

/// The part of the state that is kept between two runs.
#[derive(Debug)]
pub struct PersistentStateSnapshot {
    /// The version of the format.
    pub version: u32,
    /// See [`AppState::windows`].
    pub windows: Vec<WindowState>,
    /// See [`AppState::window_id`].
    pub window_id: WindowId,
    /// See [`AppState::workspaces`].
    pub workspaces: Vec<Workspace>,
    /// See [`AppState::selected_workspace_id`].
    pub selected_workspace_id: WorkspaceId,
    /// See [`AppState::last_selected_workspace_id`].
    pub last_selected_workspace_id: Option<WorkspaceId>,
    /// See [`AppState::notifications`].
    pub notifications: Vec<Notification>,
    /// See [`AppState::next_workspace_title_number`].
    pub next_workspace_title_number: usize,
    /// See [`AppState::next_surface_title_number`].
    pub next_surface_title_number: usize,
}

/// The contents of a [`PersistentStateSnapshot`].
#[verifier::ext_equal]
pub struct SnapshotView {
    /// See [`PersistentStateSnapshot::version`].
    pub version: u32,
    /// See [`PersistentStateSnapshot::windows`].
    pub windows: Seq<WindowState>,
    /// See [`PersistentStateSnapshot::window_id`].
    pub window_id: WindowId,
    /// See [`PersistentStateSnapshot::workspaces`].
    pub workspaces: Seq<WorkspaceView>,
    /// See [`PersistentStateSnapshot::selected_workspace_id`].
    pub selected_workspace_id: WorkspaceId,
    /// See [`PersistentStateSnapshot::last_selected_workspace_id`].
    pub last_selected_workspace_id: Option<WorkspaceId>,
    /// See [`PersistentStateSnapshot::notifications`].
    pub notifications: Seq<NotificationView>,
    /// See [`PersistentStateSnapshot::next_workspace_title_number`].
    pub next_workspace_title_number: usize,
    /// See [`PersistentStateSnapshot::next_surface_title_number`].
    pub next_surface_title_number: usize,
}

impl View for PersistentStateSnapshot {
    type V = SnapshotView;

    open spec fn view(&self) -> SnapshotView {
        SnapshotView {
            version: self.version,
            windows: self.windows@,
            window_id: self.window_id,
            workspaces: state::workspace_views(self.workspaces@),
            selected_workspace_id: self.selected_workspace_id,
            last_selected_workspace_id: self.last_selected_workspace_id,
            notifications: state::notification_views(self.notifications@),
            next_workspace_title_number: self.next_workspace_title_number,
            next_surface_title_number: self.next_surface_title_number,
        }
    }
}

impl StateView {
    /// What is kept of the state.
    pub open spec fn snapshot(self) -> SnapshotView {
        SnapshotView {
            version: 2,
            windows: self.windows,
            window_id: self.window_id,
            workspaces: self.workspaces,
            selected_workspace_id: self.selected_workspace_id,
            last_selected_workspace_id: self.last_selected_workspace_id,
            notifications: self.notifications,
            next_workspace_title_number: self.next_workspace_title_number,
            next_surface_title_number: self.next_surface_title_number,
        }
    }
}

// ---------------------------------------------------------------------------
// Mending what was kept
// ---------------------------------------------------------------------------

impl SurfaceView {
    /// The surface, where one that asks for attention has a reason to.
    pub open spec fn mended(self) -> SurfaceView {
        self.attention(
            self.unread_activity || (self.unread && !self.unread_notification),
            self.unread_notification,
        )
    }
}

impl PaneView {
    /// The pane with one of its surfaces selected, the first where it was another.
    pub open spec fn mended(self) -> PaneView {
        PaneView {
            selected_surface_id: if self.surface_at(self.selected_surface_id) is Some {
                self.selected_surface_id
            } else {
                self.surfaces[0].id
            },
            surfaces: Seq::new(self.surfaces.len(), |at: int| self.surfaces[at].mended()),
            ..self
        }
    }
}

/// The first `count` panes, mended; each must hold a surface.
pub open spec fn mended_panes(panes: Seq<PaneView>, count: int) -> Result<
    Seq<PaneView>,
    Seq<char>,
>
    decreases count,
{
    if count <= 0 {
        Ok(Seq::empty())
    } else {
        match mended_panes(panes, count - 1) {
            Err(message) => Err(message),
            Ok(shorter) => if panes[count - 1].surfaces.len() == 0 {
                Err("pane "@ + ids::id_text(panes[count - 1].id) + " has no surfaces"@)
            } else {
                Ok(shorter.push(panes[count - 1].mended()))
            },
        }
    }
}

impl WorkspaceView {
    /// The workspace in a window, with one of its panes selected, the first where it was another.
    pub open spec fn mended(self, window_id: WindowId) -> Result<WorkspaceView, Seq<char>> {
        if self.panes.len() == 0 {
            Err("workspace "@ + ids::id_text(self.id) + " has no panes"@)
        } else {
            match mended_panes(self.panes, self.panes.len() as int) {
                Err(message) => Err(message),
                Ok(panes) => Ok(
                    WorkspaceView {
                        window_id: if self.window_id == NIL {
                            window_id
                        } else {
                            self.window_id
                        },
                        selected_pane_id: if self.pane_at(self.selected_pane_id) is Some {
                            self.selected_pane_id
                        } else {
                            self.panes[0].id
                        },
                        last_selected_pane_id: match self.last_selected_pane_id {
                            Some(last) => if self.pane_at(last) is Some {
                                Some(last)
                            } else {
                                None
                            },
                            None => None,
                        },
                        panes,
                        ..self
                    },
                ),
            }
        }
    }
}

/// The first `count` workspaces, mended.
pub open spec fn mended_workspaces(
    list: Seq<WorkspaceView>,
    window_id: WindowId,
    count: int,
) -> Result<Seq<WorkspaceView>, Seq<char>>
    decreases count,
{
    if count <= 0 {
        Ok(Seq::empty())
    } else {
        match mended_workspaces(list, window_id, count - 1) {
            Err(message) => Err(message),
            Ok(shorter) => match list[count - 1].mended(window_id) {
                Err(message) => Err(message),
                Ok(workspace) => Ok(shorter.push(workspace)),
            },
        }
    }
}

/// The workspaces, with those that no window holds in this one.
pub open spec fn adopted(list: Seq<WorkspaceView>, window_id: WindowId) -> Seq<WorkspaceView> {
    Seq::new(
        list.len(),
        |at: int|
            if list[at].window_id == NIL {
                WorkspaceView { window_id, ..list[at] }
            } else {
                list[at]
            },
    )
}

/// The first workspace of the first window, from `at` on, that has one.
pub open spec fn first_shown(
    windows: Seq<WindowState>,
    list: Seq<WorkspaceView>,
    at: int,
) -> Option<WorkspaceId>
    decreases windows.len() - at,
{
    if at >= windows.len() {
        None
    } else {
        let held = state::ids_in(list, windows[at].id, list.len() as int);
        if held.len() > 0 {
            Some(held[0])
        } else {
            first_shown(windows, list, at + 1)
        }
    }
}

/// Those of the first `count` windows that hold a workspace.
pub open spec fn inhabited(
    windows: Seq<WindowState>,
    list: Seq<WorkspaceView>,
    count: int,
) -> Seq<WindowState>
    decreases count,
{
    if count <= 0 {
        Seq::empty()
    } else {
        let shorter = inhabited(windows, list, count - 1);
        if state::ids_in(list, windows[count - 1].id, list.len() as int).len() > 0 {
            shorter.push(windows[count - 1])
        } else {
            shorter
        }
    }
}

/// Those of the first `count` notifications whose workspace and surface exist.
pub open spec fn relevant(
    notifications: Seq<NotificationView>,
    list: Seq<WorkspaceView>,
    count: int,
) -> Seq<NotificationView>
    decreases count,
{
    if count <= 0 {
        Seq::empty()
    } else {
        let shorter = relevant(notifications, list, count - 1);
        let notification = notifications[count - 1];
        if state::workspace_from(list, notification.workspace_id, 0) is Some && match notification.surface_id {
            Some(surface_id) => state::located_from(list, surface_id, 0) is Some,
            None => true,
        } {
            shorter.push(notification)
        } else {
            shorter
        }
    }
}

/// How many surfaces the first `count` workspaces hold.
pub open spec fn surface_total(list: Seq<WorkspaceView>, count: int) -> nat
    decreases count,
{
    if count <= 0 {
        0
    } else {
        surface_total(list, count - 1) + workspace::surfaces_in(
            list[count - 1].panes,
            list[count - 1].panes.len() as int,
        )
    }
}

impl StateView {
    /// The state in which the window of this workspace exists and shows one of its own workspaces.
    pub open spec fn housing(self, at: int) -> StateView {
        let window_id = self.workspaces[at].window_id;
        let window = WindowState {
            id: window_id,
            selected_workspace_id: self.workspace_ids_in(window_id)[0],
            last_selected_workspace_id: None,
        };
        if self.window_at(window_id) is None {
            StateView { windows: self.windows.push(window), ..self }.repaired(window_id)
        } else {
            self.repaired(window_id)
        }
    }

    /// The state in which the windows of the first `count` workspaces exist and show their own
    /// workspaces.
    pub open spec fn housed(self, count: int) -> StateView
        decreases count,
    {
        if count <= 0 {
            self
        } else {
            self.housed(count - 1).housing(count - 1)
        }
    }

    /// The state in which the current workspace, and the one before, are among the workspaces.
    pub open spec fn anchored(self) -> StateView {
        StateView {
            selected_workspace_id: if self.workspace_at(self.selected_workspace_id) is Some {
                self.selected_workspace_id
            } else {
                match first_shown(self.windows, self.workspaces, 0) {
                    Some(id) => id,
                    None => self.workspaces[0].id,
                }
            },
            last_selected_workspace_id: match self.last_selected_workspace_id {
                Some(last) => if self.workspace_at(last) is Some {
                    Some(last)
                } else {
                    None
                },
                None => None,
            },
            ..self
        }
    }

    /// The state without windows that hold no workspace, and with one for each workspace.
    pub open spec fn settled_windows(self) -> StateView {
        StateView {
            windows: inhabited(self.windows, self.workspaces, self.windows.len() as int),
            ..self
        }.housed(self.workspaces.len() as int)
    }

    /// The state in which the current window is one of the windows.
    pub open spec fn centered(self) -> StateView {
        let window_id = if self.window_at(self.window_id) is Some {
            self.window_id
        } else {
            self.windows[0].id
        };
        self.synced_from(window_id)
    }
}

impl SnapshotView {
    /// The state that was kept, before it is mended. `current` is the current window where none
    /// was kept.
    pub open spec fn loaded(self, current: WindowId) -> StateView {
        StateView {
            windows: self.windows,
            window_id: if self.window_id == NIL {
                current
            } else {
                self.window_id
            },
            workspaces: self.workspaces,
            selected_workspace_id: self.selected_workspace_id,
            last_selected_workspace_id: self.last_selected_workspace_id,
            notifications: self.notifications,
            revision: 0,
            next_workspace_title_number: if self.next_workspace_title_number == 0 {
                (self.workspaces.len() + 1) as usize
            } else {
                self.next_workspace_title_number
            },
            next_surface_title_number: if self.next_surface_title_number == 0 {
                (surface_total(self.workspaces, self.workspaces.len() as int) + 1) as usize
            } else {
                self.next_surface_title_number
            },
        }
    }

    /// The state with a window, where none was kept. `fallback` is that window, where the first
    /// workspace names none.
    pub open spec fn windowed(self, current: WindowId, fallback: WindowId) -> StateView {
        let loaded = self.loaded(current);
        if self.windows.len() == 0 {
            let window_id = if self.workspaces[0].window_id == NIL {
                fallback
            } else {
                self.workspaces[0].window_id
            };
            StateView {
                windows: seq![
                    WindowState {
                        id: window_id,
                        selected_workspace_id: self.selected_workspace_id,
                        last_selected_workspace_id: self.last_selected_workspace_id,
                    },
                ],
                workspaces: adopted(self.workspaces, window_id),
                ..loaded
            }
        } else {
            loaded
        }
    }

    /// The state that was kept, mended. The two windows are those of [`SnapshotView::windowed`].
    pub open spec fn restored(self, current: WindowId, fallback: WindowId) -> Result<
        StateView,
        Seq<char>,
    > {
        if self.version != 1 && self.version != 2 {
            Err("unsupported session snapshot version "@ + text::decimal(self.version as nat))
        } else if self.workspaces.len() == 0 {
            Err("session snapshot has no workspaces"@)
        } else {
            let windowed = self.windowed(current, fallback);
            match mended_workspaces(
                windowed.workspaces,
                windowed.window_id,
                windowed.workspaces.len() as int,
            ) {
                Err(message) => Err(message),
                Ok(workspaces) => {
                    let next = StateView {
                        workspaces,
                        ..windowed
                    }.anchored().settled_windows().centered();
                    Ok(
                        StateView {
                            notifications: relevant(
                                next.notifications,
                                next.workspaces,
                                next.notifications.len() as int,
                            ),
                            ..next
                        },
                    )
                },
            }
        }
    }

    /// Whether the objects can be numbered.
    pub open spec fn countable(self) -> bool {
        &&& self.next_workspace_title_number == 0 ==> self.workspaces.len() < usize::MAX
        &&& self.next_surface_title_number == 0 ==> surface_total(
            self.workspaces,
            self.workspaces.len() as int,
        ) < usize::MAX
    }
}

/// The contents of what [`AppState::from_persistent_snapshot`] gives.
pub open spec fn state_result(result: Result<AppState, String>) -> Result<StateView, Seq<char>> {
    match result {
        Ok(state) => Ok(state@),
        Err(message) => Err(message@),
    }
}

// ---------------------------------------------------------------------------
// Keeping and restoring
// ---------------------------------------------------------------------------

impl Pane {
    fn mend(&mut self)
        requires
            old(self)@.surfaces.len() > 0,
        ensures
            final(self)@ == old(self)@.mended(),
    {
        let ghost before = self@;
        if self.surface_index(self.selected_surface_id).is_none() {
            self.selected_surface_id = self.surfaces[0].id;
        }
        let ghost selected = self.selected_surface_id;
        let mut at: usize = 0;
        while at < self.surfaces.len()
            invariant
                at <= before.surfaces.len(),
                self@ == (PaneView {
                    surfaces: self@.surfaces,
                    selected_surface_id: selected,
                    ..before
                }),
                self@.surfaces.len() == before.surfaces.len(),
                forall|k: int|
                    0 <= k < at ==> self@.surfaces[k] == before.surfaces[k].mended(),
                forall|k: int|
                    at <= k < before.surfaces.len() ==> self@.surfaces[k] == before.surfaces[k],
            decreases before.surfaces.len() - at,
        {
            proof {
                assert(self@.surfaces[at as int] == before.surfaces[at as int]);
            }
            let surface = self.surface_slot(at);
            if surface.unread && !surface.unread_activity && !surface.unread_notification {
                surface.unread_activity = true;
            }
            surface.sync_unread();
            at = at + 1;
        }
        proof {
            assert(self@.surfaces =~= before.mended().surfaces);
        }
    }
}

proof fn lemma_mended_panes(panes: Seq<PaneView>, low: int, high: int)
    requires
        0 <= low <= high,
        mended_panes(panes, low) is Err,
    ensures
        mended_panes(panes, high) == mended_panes(panes, low),
    decreases high - low,
{
    if low < high {
        lemma_mended_panes(panes, low, high - 1);
    }
}

proof fn lemma_mended_workspaces(
    list: Seq<WorkspaceView>,
    window_id: WindowId,
    low: int,
    high: int,
)
    requires
        0 <= low <= high,
        mended_workspaces(list, window_id, low) is Err,
    ensures
        mended_workspaces(list, window_id, high) == mended_workspaces(list, window_id, low),
    decreases high - low,
{
    if low < high {
        lemma_mended_workspaces(list, window_id, low, high - 1);
    }
}

impl Workspace {
    fn mend(&mut self, window_id: WindowId) -> (result: Result<(), String>)
        ensures
            match result {
                Ok(_) => old(self)@.mended(window_id) == Ok::<WorkspaceView, Seq<char>>(
                    final(self)@,
                ),
                Err(message) => old(self)@.mended(window_id) == Err::<WorkspaceView, Seq<char>>(
                    message@,
                ),
            },
    {
        let ghost before = self@;
        if self.panes.len() == 0 {
            return Err(about("workspace ", self.id, " has no panes"));
        }
        if self.window_id == NIL {
            self.window_id = window_id;
        }
        match self.last_selected_pane_id {
            Some(last) => if self.pane_index(last).is_none() {
                self.last_selected_pane_id = None;
            },
            None => {},
        }
        if self.pane_index(self.selected_pane_id).is_none() {
            self.selected_pane_id = self.panes[0].id;
        }
        let ghost anchored = self@;
        let mut at: usize = 0;
        while at < self.panes.len()
            invariant
                at <= before.panes.len(),
                anchored.panes == before.panes,
                self@ == (WorkspaceView { panes: self@.panes, ..anchored }),
                self@.panes.len() == before.panes.len(),
                match mended_panes(before.panes, at as int) {
                    Ok(list) => list.len() == at && forall|k: int|
                        0 <= k < at ==> self@.panes[k] == list[k],
                    Err(_) => false,
                },
                forall|k: int|
                    at <= k < before.panes.len() ==> self@.panes[k] == before.panes[k],
                before.panes.len() > 0,
                before == old(self)@,
            decreases before.panes.len() - at,
        {
            proof {
                assert(self@.panes[at as int] == before.panes[at as int]);
            }
            if self.panes[at].surfaces.len() == 0 {
                proof {
                    assert(mended_panes(before.panes, at + 1) is Err);
                    lemma_mended_panes(before.panes, at + 1, before.panes.len() as int);
                }
                return Err(about("pane ", self.panes[at].id, " has no surfaces"));
            }
            self.pane_slot(at).mend();
            at = at + 1;
        }
        proof {
            let list = mended_panes(before.panes, before.panes.len() as int)->Ok_0;
            assert(self@.panes =~= list);
        }
        Ok(())
    }
}

impl AppState {
    /// What is kept of the state.
    pub fn to_persistent_snapshot(&self) -> (snapshot: PersistentStateSnapshot)
        ensures
            snapshot@ == self@.snapshot(),
    {
        let windows = self.windows.clone();
        let workspaces = self.workspaces.clone();
        let notifications = self.notifications.clone();
        proof {
            assert(windows@ =~= self.windows@);
            assert(state::workspace_views(workspaces@) =~= self@.workspaces);
            assert(state::notification_views(notifications@) =~= self@.notifications);
        }
        PersistentStateSnapshot {
            version: 2,
            windows,
            window_id: self.window_id,
            workspaces,
            selected_workspace_id: self.selected_workspace_id,
            last_selected_workspace_id: self.last_selected_workspace_id,
            notifications,
            next_workspace_title_number: self.next_workspace_title_number,
            next_surface_title_number: self.next_surface_title_number,
        }
    }

    fn count_surfaces(&self) -> (total: usize)
        requires
            surface_total(self@.workspaces, self@.workspaces.len() as int) <= usize::MAX,
        ensures
            total == surface_total(self@.workspaces, self@.workspaces.len() as int),
    {
        let mut total: usize = 0;
        let mut at: usize = 0;
        while at < self.workspaces.len()
            invariant
                at <= self.workspaces@.len(),
                total == surface_total(self@.workspaces, at as int),
                surface_total(self@.workspaces, self@.workspaces.len() as int) <= usize::MAX,
            decreases self.workspaces@.len() - at,
        {
            proof {
                lemma_total_grows(self@.workspaces, at + 1, self@.workspaces.len() as int);
            }
            total = total + self.workspaces[at].surface_count();
            at = at + 1;
        }
        total
    }

    fn load(snapshot: PersistentStateSnapshot, current: WindowId) -> (state: AppState)
        requires
            snapshot@.countable(),
        ensures
            state@ == snapshot@.loaded(current),
    {
        let window_id = if snapshot.window_id == NIL {
            current
        } else {
            snapshot.window_id
        };
        let ghost kept = snapshot@;
        let mut state = AppState {
            windows: snapshot.windows,
            window_id,
            workspaces: snapshot.workspaces,
            selected_workspace_id: snapshot.selected_workspace_id,
            last_selected_workspace_id: snapshot.last_selected_workspace_id,
            notifications: snapshot.notifications,
            revision: 0,
            next_workspace_title_number: snapshot.next_workspace_title_number,
            next_surface_title_number: snapshot.next_surface_title_number,
        };
        proof {
            assert(state@.workspaces == kept.workspaces);
            assert(state.workspaces@.len() == kept.workspaces.len());
        }
        if state.next_workspace_title_number == 0 {
            state.next_workspace_title_number = state.workspaces.len() + 1;
        }
        if state.next_surface_title_number == 0 {
            let total = state.count_surfaces();
            state.next_surface_title_number = total + 1;
        }
        state
    }

    fn adopt(&mut self, window_id: WindowId)
        ensures
            final(self)@ == (StateView {
                workspaces: adopted(old(self)@.workspaces, window_id),
                ..old(self)@
            }),
    {
        let ghost before = self@;
        let mut at: usize = 0;
        while at < self.workspaces.len()
            invariant
                at <= before.workspaces.len(),
                self@ == (StateView { workspaces: self@.workspaces, ..before }),
                self@.workspaces.len() == before.workspaces.len(),
                forall|k: int|
                    0 <= k < at ==> self@.workspaces[k] == adopted(
                        before.workspaces,
                        window_id,
                    )[k],
                forall|k: int|
                    at <= k < before.workspaces.len() ==> self@.workspaces[k]
                        == before.workspaces[k],
            decreases before.workspaces.len() - at,
        {
            proof {
                assert(self@.workspaces[at as int] == before.workspaces[at as int]);
            }
            if self.workspaces[at].window_id == NIL {
                self.workspace_slot(at).window_id = window_id;
            }
            at = at + 1;
        }
        proof {
            assert(self@.workspaces =~= adopted(before.workspaces, window_id));
        }
    }

    fn mend_workspaces(&mut self) -> (result: Result<(), String>)
        ensures
            match result {
                Ok(_) => match mended_workspaces(
                    old(self)@.workspaces,
                    old(self)@.window_id,
                    old(self)@.workspaces.len() as int,
                ) {
                    Ok(workspaces) => final(self)@ == (StateView { workspaces, ..old(self)@ }),
                    Err(_) => false,
                },
                Err(message) => mended_workspaces(
                    old(self)@.workspaces,
                    old(self)@.window_id,
                    old(self)@.workspaces.len() as int,
                ) == Err::<Seq<WorkspaceView>, Seq<char>>(message@),
            },
    {
        let ghost before = self@;
        let window_id = self.window_id;
        let mut at: usize = 0;
        while at < self.workspaces.len()
            invariant
                at <= before.workspaces.len(),
                before == old(self)@,
                window_id == before.window_id,
                self@ == (StateView { workspaces: self@.workspaces, ..before }),
                self@.workspaces.len() == before.workspaces.len(),
                match mended_workspaces(before.workspaces, window_id, at as int) {
                    Ok(list) => list.len() == at && forall|k: int|
                        0 <= k < at ==> self@.workspaces[k] == list[k],
                    Err(_) => false,
                },
                forall|k: int|
                    at <= k < before.workspaces.len() ==> self@.workspaces[k]
                        == before.workspaces[k],
            decreases before.workspaces.len() - at,
        {
            proof {
                assert(self@.workspaces[at as int] == before.workspaces[at as int]);
            }
            match self.workspace_slot(at).mend(window_id) {
                Err(message) => {
                    proof {
                        assert(mended_workspaces(before.workspaces, window_id, at + 1) is Err);
                        lemma_mended_workspaces(
                            before.workspaces,
                            window_id,
                            at + 1,
                            before.workspaces.len() as int,
                        );
                    }
                    return Err(message);
                },
                Ok(_) => {},
            }
            at = at + 1;
        }
        proof {
            let list = mended_workspaces(
                before.workspaces,
                window_id,
                before.workspaces.len() as int,
            )->Ok_0;
            assert(self@.workspaces =~= list);
        }
        Ok(())
    }

    fn anchor(&mut self)
        requires
            old(self)@.workspaces.len() > 0,
        ensures
            final(self)@ == old(self)@.anchored(),
    {
        if self.workspace_index(self.selected_workspace_id).is_none() {
            let mut found: Option<WorkspaceId> = None;
            let mut at: usize = 0;
            while at < self.windows.len() && found.is_none()
                invariant
                    at <= self.windows@.len(),
                    match found {
                        Some(_) => first_shown(self@.windows, self@.workspaces, 0) == found,
                        None => first_shown(self@.windows, self@.workspaces, 0) == first_shown(
                            self@.windows,
                            self@.workspaces,
                            at as int,
                        ),
                    },
                decreases self.windows@.len() - at,
            {
                let held = self.workspace_ids_in(self.windows[at].id);
                if held.len() > 0 {
                    found = Some(held[0]);
                }
                at = at + 1;
            }
            self.selected_workspace_id = match found {
                Some(id) => id,
                None => self.workspaces[0].id,
            };
        }
        match self.last_selected_workspace_id {
            Some(last) => if self.workspace_index(last).is_none() {
                self.last_selected_workspace_id = None;
            },
            None => {},
        }
    }

    fn settle_windows(&mut self)
        ensures
            final(self)@ == old(self)@.settled_windows(),
    {
        let ghost before = self@;
        let mut kept: Vec<WindowState> = Vec::new();
        let mut at: usize = 0;
        while at < self.windows.len()
            invariant
                at <= self.windows@.len(),
                kept@ == inhabited(self@.windows, self@.workspaces, at as int),
            decreases self.windows@.len() - at,
        {
            let held = self.workspace_ids_in(self.windows[at].id);
            if held.len() > 0 {
                kept.push(self.windows[at]);
            }
            at = at + 1;
        }
        self.windows = kept;
        let ghost emptied = self@;
        let mut done: usize = 0;
        while done < self.workspaces.len()
            invariant
                done <= self.workspaces@.len(),
                self@.workspaces == emptied.workspaces,
                self@ == emptied.housed(done as int),
            decreases self.workspaces@.len() - done,
        {
            let window_id = self.workspaces[done].window_id;
            let held = self.workspace_ids_in(window_id);
            proof {
                lemma_held(self@.workspaces, done as int, self@.workspaces.len() as int);
            }
            if self.window_index(window_id).is_none() {
                self.windows.push(
                    WindowState {
                        id: window_id,
                        selected_workspace_id: held[0],
                        last_selected_workspace_id: None,
                    },
                );
            }
            self.repair_window_selection(window_id);
            proof {
                assert(self@.workspaces == emptied.workspaces);
                assert(self.workspaces@.len() == emptied.workspaces.len());
            }
            done = done + 1;
        }
        proof {
            assert(self.workspaces@.len() == emptied.workspaces.len());
        }
    }

    fn drop_stale_notifications(&mut self)
        ensures
            final(self)@ == (StateView {
                notifications: relevant(
                    old(self)@.notifications,
                    old(self)@.workspaces,
                    old(self)@.notifications.len() as int,
                ),
                ..old(self)@
            }),
    {
        let ghost before = self@;
        let mut kept: Vec<Notification> = Vec::new();
        let mut at: usize = 0;
        proof {
            assert(state::notification_views(kept@) =~= Seq::empty());
        }
        while at < self.notifications.len()
            invariant
                at <= self.notifications@.len(),
                self@ == before,
                state::notification_views(kept@) == relevant(
                    before.notifications,
                    before.workspaces,
                    at as int,
                ),
            decreases self.notifications@.len() - at,
        {
            let ghost kept_before = state::notification_views(kept@);
            let keep = {
                let notification = &self.notifications[at];
                self.workspace_index(notification.workspace_id).is_some()
                    && match notification.surface_id {
                    Some(surface_id) => self.located_index(surface_id).is_some(),
                    None => true,
                }
            };
            if keep {
                kept.push(self.notifications[at].clone());
                proof {
                    assert(state::notification_views(kept@) =~= kept_before.push(
                        before.notifications[at as int],
                    ));
                }
            }
            at = at + 1;
        }
        self.notifications = kept;
    }

    /// Restores the state from what was kept. `current` is the current window where none was kept;
    /// `fallback` is the one window where none was kept and the first workspace names none.
    pub fn from_persistent_snapshot_with_ids(
        snapshot: PersistentStateSnapshot,
        current: WindowId,
        fallback: WindowId,
    ) -> (result: Result<AppState, String>)
        requires
            snapshot@.countable(),
        ensures
            state_result(result) == snapshot@.restored(current, fallback),
    {
        if snapshot.version != 1 && snapshot.version != 2 {
            let number = decimal_text(snapshot.version as u64);
            return Err(joined("unsupported session snapshot version ", number.as_str()));
        }
        if snapshot.workspaces.len() == 0 {
            return Err("session snapshot has no workspaces".to_owned());
        }
        let ghost kept = snapshot@;
        let mut state = AppState::load(snapshot, current);
        proof {
            assert(state@.workspaces.len() == state.workspaces@.len());
        }
        if state.windows.len() == 0 {
            let window_id = if state.workspaces[0].window_id == NIL {
                fallback
            } else {
                state.workspaces[0].window_id
            };
            state.adopt(window_id);
            let window = WindowState {
                id: window_id,
                selected_workspace_id: state.selected_workspace_id,
                last_selected_workspace_id: state.last_selected_workspace_id,
            };
            state.windows.push(window);
            proof {
                assert(state@.windows =~= seq![window]);
            }
        }
        proof {
            assert(state@ =~= kept.windowed(current, fallback));
        }
        let ghost windowed = state@;
        match state.mend_workspaces() {
            Err(message) => {
                return Err(message);
            },
            Ok(_) => {},
        }
        proof {
            lemma_mended_length(
                windowed.workspaces,
                windowed.window_id,
                windowed.workspaces.len() as int,
            );
        }
        state.anchor();
        let ghost anchored = state@;
        state.settle_windows();
        proof {
            lemma_housed_windows(
                StateView {
                    windows: inhabited(
                        anchored.windows,
                        anchored.workspaces,
                        anchored.windows.len() as int,
                    ),
                    ..anchored
                },
                anchored.workspaces.len() as int,
            );
        }
        let window_id = if state.window_index(state.window_id).is_some() {
            state.window_id
        } else {
            state.windows[0].id
        };
        state.sync_global_selection_from_window(window_id);
        state.drop_stale_notifications();
        Ok(state)
    }

    /// Restores the state from what was kept.
    pub fn from_persistent_snapshot(snapshot: PersistentStateSnapshot) -> (result: Result<
        AppState,
        String,
    >)
        requires
            snapshot@.countable(),
        ensures
            exists|current: WindowId, fallback: WindowId|
                current != NIL && fallback != NIL && state_result(result)
                    == #[trigger] snapshot@.restored(current, fallback),
    {
        AppState::from_persistent_snapshot_with_ids(snapshot, fresh_id(), fresh_id())
    }
}

impl PersistentStateSnapshot {
    /// Whether the objects can be numbered.
    pub fn countable(&self) -> (fits: bool)
        ensures
            fits == self@.countable(),
    {
        let named = self.next_workspace_title_number != 0 || self.workspaces.len() < usize::MAX;
        let kept = self.next_surface_title_number != 0 || self.surfaces_fit();
        named && kept
    }

    fn surfaces_fit(&self) -> (fits: bool)
        ensures
            fits == (surface_total(self@.workspaces, self@.workspaces.len() as int) < usize::MAX),
    {
        let mut total: usize = 0;
        let mut at: usize = 0;
        while at < self.workspaces.len()
            invariant
                at <= self.workspaces@.len(),
                total == surface_total(self@.workspaces, at as int),
            decreases self.workspaces@.len() - at,
        {
            proof {
                lemma_total_grows(self@.workspaces, at + 1, self@.workspaces.len() as int);
            }
            match counted_onto(total, &self.workspaces[at]) {
                Some(sum) => {
                    total = sum;
                },
                None => {
                    return false;
                },
            }
            at = at + 1;
        }
        total < usize::MAX
    }
}

fn counted_onto(start: usize, workspace: &Workspace) -> (total: Option<usize>)
    ensures
        match total {
            Some(sum) => sum == start + workspace::surfaces_in(
                workspace@.panes,
                workspace@.panes.len() as int,
            ),
            None => start + workspace::surfaces_in(
                workspace@.panes,
                workspace@.panes.len() as int,
            ) > usize::MAX,
        },
{
    let mut total: usize = start;
    let mut at: usize = 0;
    while at < workspace.panes.len()
        invariant
            at <= workspace.panes@.len(),
            total == start + workspace::surfaces_in(workspace@.panes, at as int),
        decreases workspace.panes@.len() - at,
    {
        proof {
            workspace::lemma_surfaces_grow(
                workspace@.panes,
                at + 1,
                workspace@.panes.len() as int,
            );
        }
        match total.checked_add(workspace.panes[at].surfaces.len()) {
            Some(sum) => {
                total = sum;
            },
            None => {
                return None;
            },
        }
        at = at + 1;
    }
    Some(total)
}

proof fn lemma_total_grows(list: Seq<WorkspaceView>, low: int, high: int)
    requires
        0 <= low <= high,
    ensures
        surface_total(list, low) <= surface_total(list, high),
    decreases high - low,
{
    if low < high {
        lemma_total_grows(list, low, high - 1);
    }
}

proof fn lemma_held(list: Seq<WorkspaceView>, at: int, count: int)
    requires
        0 <= at < count <= list.len(),
    ensures
        state::ids_in(list, list[at].window_id, count).len() > 0,
    decreases count,
{
    if at < count - 1 {
        lemma_held(list, at, count - 1);
    }
}

proof fn lemma_mended_length(list: Seq<WorkspaceView>, window_id: WindowId, count: int)
    requires
        0 <= count <= list.len(),
    ensures
        match mended_workspaces(list, window_id, count) {
            Ok(mended) => mended.len() == count,
            Err(_) => true,
        },
    decreases count,
{
    if count > 0 {
        lemma_mended_length(list, window_id, count - 1);
    }
}

proof fn lemma_housed_windows(state: StateView, count: int)
    requires
        0 <= count <= state.workspaces.len(),
    ensures
        state.housed(count).workspaces == state.workspaces,
        state.housed(count).windows.len() >= state.windows.len(),
        count > 0 ==> state.housed(count).windows.len() > 0,
    decreases count,
{
    if count > 0 {
        lemma_housed_windows(state, count - 1);
        let before = state.housed(count - 1);
        let window_id = before.workspaces[count - 1].window_id;
        let window = WindowState {
            id: window_id,
            selected_workspace_id: before.workspace_ids_in(window_id)[0],
            last_selected_workspace_id: None,
        };
        state::lemma_window_from(before.windows, window_id, 0);
        state::lemma_window_from(before.windows.push(window), window_id, 0);
    }
}

} // verus!
