//! Moving the focus between windows, workspaces, panes and surfaces.

use crate::ids;
use crate::ids::{holds, not_found, unless_nil, PaneId, SurfaceId, WindowId, WorkspaceId, NIL};
use crate::layout::FocusDirection;
use crate::state;
use crate::state::{AppState, Notification, NotificationView, StateView, WindowState};
use crate::surface::SurfaceView;
use crate::text;
use crate::text::copy_opt;
use crate::workspace::WorkspaceView;
use crate::workspace_ops;
use crate::workspace_ops::{about, ring_step};
use vstd::prelude::*;

verus! {

impl NotificationView {
    /// Whether looking at this workspace, with this surface selected, makes the notification seen.
    pub open spec fn seen_from(self, workspace_id: WorkspaceId, surface_id: Option<SurfaceId>) -> bool {
        self.workspace_id == workspace_id && !self.is_read && (self.surface_id is None
            || self.surface_id == surface_id)
    }
}

/// The notifications after a look at this workspace, with this surface selected.
pub open spec fn seen(
    list: Seq<NotificationView>,
    workspace_id: WorkspaceId,
    surface_id: Option<SurfaceId>,
) -> Seq<NotificationView> {
    Seq::new(
        list.len(),
        |at: int|
            if list[at].seen_from(workspace_id, surface_id) {
                NotificationView { is_read: true, ..list[at] }
            } else {
                list[at]
            },
    )
}

/// How many of the first `count` notifications become seen.
pub open spec fn seen_count(
    list: Seq<NotificationView>,
    workspace_id: WorkspaceId,
    surface_id: Option<SurfaceId>,
    count: int,
) -> nat
    decreases count,
{
    if count <= 0 {
        0
    } else {
        seen_count(list, workspace_id, surface_id, count - 1) + if list[count - 1].seen_from(
            workspace_id,
            surface_id,
        ) {
            1nat
        } else {
            0nat
        }
    }
}

/// `value` raised by `amount`, or by 1 where that is 0, up to the largest number.
pub open spec fn raised(value: u64, amount: u64) -> u64 {
    let step = if amount > 1 {
        amount
    } else {
        1
    };
    if value + step <= u64::MAX {
        (value + step) as u64
    } else {
        u64::MAX
    }
}

impl StateView {
    /// The current window becomes this one, with the workspaces it shows; or none, where there is
    /// no such window.
    pub open spec fn synced_from(self, window_id: WindowId) -> StateView {
        match self.window(window_id) {
            Some(window) => StateView {
                window_id,
                selected_workspace_id: window.selected_workspace_id,
                last_selected_workspace_id: window.last_selected_workspace_id,
                ..self
            },
            None => StateView {
                window_id: NIL,
                selected_workspace_id: NIL,
                last_selected_workspace_id: None,
                ..self
            },
        }
    }

    /// This window shows the current workspace.
    pub open spec fn synced_to(self, window_id: WindowId) -> StateView {
        match self.window_at(window_id) {
            Some(at) => self.with_window(
                at,
                WindowState {
                    selected_workspace_id: self.selected_workspace_id,
                    last_selected_workspace_id: self.last_selected_workspace_id,
                    ..self.windows[at]
                },
            ),
            None => self,
        }
    }

    /// This window shows one of its own workspaces, the first where it showed another, or nil
    /// where it has none.
    pub open spec fn repaired(self, window_id: WindowId) -> StateView {
        match self.window_at(window_id) {
            Some(at) => {
                let list = self.workspace_ids_in(window_id);
                let window = self.windows[at];
                self.with_window(
                    at,
                    WindowState {
                        selected_workspace_id: if list.contains(window.selected_workspace_id) {
                            window.selected_workspace_id
                        } else if list.len() > 0 {
                            list[0]
                        } else {
                            NIL
                        },
                        last_selected_workspace_id: match window.last_selected_workspace_id {
                            Some(last) => if list.contains(last) {
                                Some(last)
                            } else {
                                None
                            },
                            None => None,
                        },
                        ..window
                    },
                )
            },
            None => self,
        }
    }

    /// This window shows this workspace.
    pub open spec fn showing(self, window_id: WindowId, workspace_id: WorkspaceId) -> StateView {
        match self.window_at(window_id) {
            Some(at) => if self.windows[at].selected_workspace_id != workspace_id {
                self.with_window(
                    at,
                    WindowState {
                        selected_workspace_id: workspace_id,
                        last_selected_workspace_id: ids::non_nil(
                            self.windows[at].selected_workspace_id,
                        ),
                        ..self.windows[at]
                    },
                )
            } else {
                self
            },
            None => self,
        }
    }

    /// The place of the workspace, and the surface in it, that an operation on this surface
    /// reaches.
    pub open spec fn target(self, surface_id: SurfaceId) -> Option<(int, SurfaceView)> {
        match self.located(surface_id) {
            None => None,
            Some(found) => {
                let at = self.workspace_at(self.workspaces[found].id)->0;
                match self.workspaces[at].surface(surface_id) {
                    None => None,
                    Some(surface) => Some((at, surface)),
                }
            },
        }
    }

    /// The state with another surface in place of this one, in the workspace at `at`.
    pub open spec fn with_surface(
        self,
        at: int,
        surface_id: SurfaceId,
        surface: SurfaceView,
    ) -> StateView {
        self.with_workspace(at, self.workspaces[at].with_surface(surface_id, surface))
    }

    /// Looks at a workspace: its notifications are seen.
    pub open spec fn noticed(
        self,
        workspace_id: WorkspaceId,
        surface_id: Option<SurfaceId>,
    ) -> StateView {
        StateView {
            notifications: seen(self.notifications, workspace_id, surface_id),
            ..self
        }
    }

    /// How many notifications a look at a workspace makes seen.
    pub open spec fn notices(self, workspace_id: WorkspaceId, surface_id: Option<SurfaceId>) -> nat {
        seen_count(
            self.notifications,
            workspace_id,
            surface_id,
            self.notifications.len() as int,
        )
    }

    /// A surface asks for no attention any more; tells whether it did.
    pub open spec fn calmed(self, surface_id: SurfaceId) -> (StateView, bool) {
        match self.target(surface_id) {
            None => (self, false),
            Some((at, surface)) => (
                self.with_surface(at, surface_id, surface.attention(false, false)),
                surface.unread,
            ),
        }
    }

    /// A surface is flashed `amount` times.
    pub open spec fn flashed(self, surface_id: SurfaceId, amount: u64) -> StateView {
        match self.target(surface_id) {
            None => self,
            Some((at, surface)) => self.with_surface(
                at,
                surface_id,
                SurfaceView { flash_count: raised(surface.flash_count, amount), ..surface },
            ),
        }
    }

    /// Looks at a workspace with this surface selected: the notifications are seen, the surface
    /// asks for no attention any more, and it is flashed once for each notification that became
    /// seen. Tells whether anything changed.
    pub open spec fn attended(
        self,
        workspace_id: WorkspaceId,
        surface_id: Option<SurfaceId>,
    ) -> (StateView, bool) {
        let count = self.notices(workspace_id, surface_id);
        let noticed = self.noticed(workspace_id, surface_id);
        match surface_id {
            None => (noticed, count > 0),
            Some(surface) => {
                let (calm, cleared) = noticed.calmed(surface);
                (
                    if count > 0 {
                        calm.flashed(surface, count as u64)
                    } else {
                        calm
                    },
                    count > 0 || cleared,
                )
            },
        }
    }

    /// Makes a window the current one.
    pub open spec fn focus_window(self, window_id: WindowId) -> (
        StateView,
        Result<WorkspaceId, Seq<char>>,
    ) {
        if self.window_at(window_id) is None {
            (self, Err(ids::not_found_text("window"@, window_id)))
        } else {
            let shown = self.repaired(window_id).synced_from(window_id);
            let workspace_id = shown.selected_workspace_id;
            if workspace_id == NIL {
                (
                    shown,
                    Err("window "@ + ids::id_text(window_id) + " has no selected workspace"@),
                )
            } else {
                let (next, changed) = shown.attended(workspace_id, shown.current_surface_id());
                (
                    next.touched_if(
                        self.window_id != window_id || self.selected_workspace_id != workspace_id
                            || changed,
                    ),
                    Ok(workspace_id),
                )
            }
        }
    }

    /// Makes a workspace, and the window that holds it, the current one.
    pub open spec fn select_workspace(self, workspace_id: WorkspaceId) -> (
        StateView,
        Result<(), Seq<char>>,
    ) {
        match self.workspace(workspace_id) {
            None => (self, Err(ids::not_found_text("workspace"@, workspace_id))),
            Some(workspace) => {
                let shown = self.showing(workspace.window_id, workspace_id).synced_from(
                    workspace.window_id,
                );
                let (next, changed) = shown.attended(
                    workspace_id,
                    workspace.selected_surface_id(),
                );
                (
                    next.touched_if(
                        self.window_id != workspace.window_id || self.selected_workspace_id
                            != workspace_id || changed,
                    ),
                    Ok(()),
                )
            },
        }
    }

    /// Makes this workspace the current one and tells which it is.
    pub open spec fn select_to(self, workspace_id: WorkspaceId) -> (
        StateView,
        Result<WorkspaceId, Seq<char>>,
    ) {
        match self.select_workspace(workspace_id) {
            (next, Ok(_)) => (next, Ok(workspace_id)),
            (next, Err(message)) => (next, Err(message)),
        }
    }

    /// The workspace that was current before, if it is still there, else the current one.
    pub open spec fn last_workspace(self) -> WorkspaceId {
        match self.last_selected_workspace_id {
            Some(id) => if self.workspace_at(id) is Some {
                id
            } else {
                self.selected_workspace_id
            },
            None => self.selected_workspace_id,
        }
    }

    /// The workspace `delta` places after the current one in the current window, in a ring.
    pub open spec fn relative_workspace(self, delta: int) -> WorkspaceId {
        let list = self.workspace_ids_in(self.window_id);
        let current = match place_from(list, self.selected_workspace_id, 0) {
            Some(at) => at,
            None => 0,
        };
        list[workspace_ops::ring(current, delta, list.len() as int)]
    }

    /// Makes the workspace `delta` places after the current one the current one.
    pub open spec fn select_relative_workspace(self, delta: int) -> (
        StateView,
        Result<WorkspaceId, Seq<char>>,
    ) {
        if self.workspace_ids_in(self.window_id).len() == 0 {
            (self, Err("no workspaces"@))
        } else {
            self.select_to(self.relative_workspace(delta))
        }
    }

    /// Makes a pane the selected one of its workspace, and that workspace the current one.
    pub open spec fn focus_pane(self, pane_id: PaneId) -> (
        StateView,
        Result<WorkspaceId, Seq<char>>,
    ) {
        match self.owner(pane_id) {
            None => (self, Err(ids::not_found_text("pane"@, pane_id))),
            Some(at) => {
                let workspace = self.workspaces[at];
                let next = self.with_workspace(at, workspace.selecting(pane_id)).showing(
                    workspace.window_id,
                    workspace.id,
                ).synced_from(workspace.window_id);
                (
                    next.touched_if(
                        self.window_id != workspace.window_id || self.selected_workspace_id
                            != workspace.id || self.current_pane_id() != Some(pane_id),
                    ),
                    Ok(workspace.id),
                )
            },
        }
    }

    /// Applies a change of the selected pane to the current workspace.
    pub open spec fn refocus(self, pane_id: PaneId) -> (
        StateView,
        Result<(WorkspaceId, PaneId), Seq<char>>,
    ) {
        let at = self.workspace_at(self.selected_workspace_id)->0;
        let workspace = self.workspaces[at];
        match workspace.focus_to(pane_id) {
            (next, Err(message)) => (self.with_workspace(at, next), Err(message)),
            (next, Ok(_)) => (
                self.with_workspace(at, next).touched_if(workspace.selected_pane_id != pane_id),
                Ok((self.selected_workspace_id, pane_id)),
            ),
        }
    }

    /// Selects the pane of the current workspace that was selected before.
    pub open spec fn focus_last_pane(self) -> (
        StateView,
        Result<(WorkspaceId, PaneId), Seq<char>>,
    ) {
        match self.selected_workspace() {
            None => (self, Err(ids::not_found_text("workspace"@, self.selected_workspace_id))),
            Some(workspace) => self.refocus(workspace.last_pane()),
        }
    }

    /// Selects the nearest pane of the current workspace in a direction.
    pub open spec fn focus_adjacent_pane(self, direction: FocusDirection) -> (
        StateView,
        Result<(WorkspaceId, PaneId), Seq<char>>,
    ) {
        match self.selected_workspace() {
            None => (self, Err(ids::not_found_text("workspace"@, self.selected_workspace_id))),
            Some(workspace) => self.refocus(workspace.adjacent_pane(direction)),
        }
    }

    /// The state in which this workspace is in this directory, if one is given.
    pub open spec fn in_directory(
        self,
        workspace_id: WorkspaceId,
        directory: Option<Seq<char>>,
    ) -> StateView {
        match (directory, self.workspace_at(workspace_id)) {
            (Some(_), Some(at)) => self.with_workspace(
                at,
                WorkspaceView { current_directory: directory, ..self.workspaces[at] },
            ),
            _ => self,
        }
    }

    /// Makes a surface the selected one of its pane, that pane the selected one of its workspace,
    /// and that workspace, which takes over the surface's directory, the current one.
    pub open spec fn focus_surface(self, surface_id: SurfaceId) -> (
        StateView,
        Result<(WorkspaceId, PaneId), Seq<char>>,
    ) {
        match self.located(surface_id) {
            None => (self, Err(ids::not_found_text("surface"@, surface_id))),
            Some(at) => {
                let workspace = self.workspaces[at];
                let focused = workspace.focus_surface(surface_id).0;
                let directory = match focused.surface(surface_id) {
                    Some(surface) => surface.current_directory,
                    None => None,
                };
                let moved = WorkspaceView {
                    current_directory: if directory is Some {
                        directory
                    } else {
                        focused.current_directory
                    },
                    ..focused
                };
                let shown = self.with_workspace(at, moved).showing(
                    workspace.window_id,
                    workspace.id,
                ).synced_from(workspace.window_id).in_directory(workspace.id, directory);
                let (next, changed) = shown.attended(workspace.id, Some(surface_id));
                (
                    next.touched_if(
                        self.window_id != workspace.window_id || self.selected_workspace_id
                            != workspace.id || self.current_surface_id() != Some(surface_id)
                            || changed,
                    ),
                    Ok((workspace.id, workspace.pane_id_for_surface(surface_id)->0)),
                )
            },
        }
    }

    /// Makes the surface `delta` tabs after the selected one the selected one.
    pub open spec fn focus_relative_surface(self, delta: int) -> (
        StateView,
        Result<(WorkspaceId, PaneId, SurfaceId), Seq<char>>,
    ) {
        match self.current_surface_id() {
            None => (self, Err("no focused surface"@)),
            Some(current) => match self.selected_workspace()->0.neighbor(delta) {
                Err(message) => (self, Err(message)),
                Ok(next_id) => if next_id == current {
                    match self.locate_surface(next_id) {
                        None => (self, Err(ids::not_found_text("surface"@, next_id))),
                        Some((workspace_id, pane_id)) => (
                            self,
                            Ok((workspace_id, pane_id, next_id)),
                        ),
                    }
                } else {
                    match self.focus_surface(next_id) {
                        (next, Err(message)) => (next, Err(message)),
                        (next, Ok((workspace_id, pane_id))) => (
                            next,
                            Ok((workspace_id, pane_id, next_id)),
                        ),
                    }
                },
            },
        }
    }
}

/// The place of the first identifier equal to `id`, looking from `at` on.
pub open spec fn place_from(list: Seq<u128>, id: u128, at: int) -> Option<int>
    decreases list.len() - at,
{
    if at >= list.len() {
        None
    } else if list[at] == id {
        Some(at)
    } else {
        place_from(list, id, at + 1)
    }
}

/// The place of the first identifier equal to `id`.
pub fn place_of(list: &Vec<u128>, id: u128) -> (place: Option<usize>)
    ensures
        match place {
            Some(at) => at < list@.len() && place_from(list@, id, 0) == Some(at as int),
            None => place_from(list@, id, 0) is None,
        },
{
    let mut at: usize = 0;
    while at < list.len()
        invariant
            at <= list@.len(),
            place_from(list@, id, 0) == place_from(list@, id, at as int),
        decreases list@.len() - at,
    {
        if list[at] == id {
            return Some(at);
        }
        at = at + 1;
    }
    None
}

/// Whether two optional identifiers are equal.
pub fn same_id(left: Option<u128>, right: Option<u128>) -> (same: bool)
    ensures
        same == (left == right),
{
    match (left, right) {
        (Some(a), Some(b)) => a == b,
        (None, None) => true,
        _ => false,
    }
}

impl AppState {
    /// Makes this window, with the workspaces it shows, the current one.
    pub fn sync_global_selection_from_window(&mut self, window_id: WindowId)
        ensures
            final(self)@ == old(self)@.synced_from(window_id),
    {
        match self.window_index(window_id) {
            Some(at) => {
                let window = self.windows[at];
                self.window_id = window_id;
                self.selected_workspace_id = window.selected_workspace_id;
                self.last_selected_workspace_id = window.last_selected_workspace_id;
            },
            None => {
                self.window_id = NIL;
                self.selected_workspace_id = NIL;
                self.last_selected_workspace_id = None;
            },
        }
    }

    /// Makes this window show the current workspace.
    pub fn sync_window_selection_from_global(&mut self, window_id: WindowId)
        ensures
            final(self)@ == old(self)@.synced_to(window_id),
    {
        let selected_workspace_id = self.selected_workspace_id;
        let last_selected_workspace_id = self.last_selected_workspace_id;
        if let Some(window) = self.window_mut(window_id) {
            window.selected_workspace_id = selected_workspace_id;
            window.last_selected_workspace_id = last_selected_workspace_id;
        }
    }

    /// Makes this window show one of its own workspaces.
    pub fn repair_window_selection(&mut self, window_id: WindowId)
        ensures
            final(self)@ == old(self)@.repaired(window_id),
    {
        let workspace_ids = self.workspace_ids_in(window_id);
        let first: WorkspaceId = if workspace_ids.len() > 0 {
            workspace_ids[0]
        } else {
            NIL
        };
        if let Some(window) = self.window_mut(window_id) {
            if !holds(&workspace_ids, window.selected_workspace_id) {
                window.selected_workspace_id = first;
            }
            match window.last_selected_workspace_id {
                Some(last) => if !holds(&workspace_ids, last) {
                    window.last_selected_workspace_id = None;
                },
                None => {},
            }
        }
    }

    /// Makes this window show this workspace.
    pub fn show_in_window(&mut self, window_id: WindowId, workspace_id: WorkspaceId)
        ensures
            final(self)@ == old(self)@.showing(window_id, workspace_id),
    {
        if let Some(at) = self.window_index(window_id) {
            let selected = self.windows[at].selected_workspace_id;
            if selected != workspace_id {
                let window = self.window_slot(at);
                window.last_selected_workspace_id = unless_nil(selected);
                window.selected_workspace_id = workspace_id;
            }
        }
    }

    /// Gives access to the notification at a place.
    pub fn notification_slot(&mut self, at: usize) -> (notification: &mut Notification)
        requires
            at < old(self)@.notifications.len(),
        ensures
            notification@ == old(self)@.notifications[at as int],
            final(self)@ == (StateView {
                notifications: old(self)@.notifications.update(at as int, final(notification)@),
                ..old(self)@
            }),
    {
        &mut self.notifications[at]
    }

    /// Looks at a workspace: its notifications are seen. Tells how many became so.
    pub fn mark_notifications_read(
        &mut self,
        workspace_id: WorkspaceId,
        surface_id: Option<SurfaceId>,
    ) -> (changed: usize)
        ensures
            final(self)@ == old(self)@.noticed(workspace_id, surface_id),
            changed == old(self)@.notices(workspace_id, surface_id),
    {
        let mut changed: usize = 0;
        let mut at: usize = 0;
        let ghost before = self@;
        while at < self.notifications.len()
            invariant
                at <= before.notifications.len(),
                changed <= at,
                changed == seen_count(before.notifications, workspace_id, surface_id, at as int),
                self@ == (StateView { notifications: self@.notifications, ..before }),
                self@.notifications.len() == before.notifications.len(),
                forall|k: int|
                    0 <= k < at ==> self@.notifications[k] == seen(
                        before.notifications,
                        workspace_id,
                        surface_id,
                    )[k],
                forall|k: int|
                    at <= k < before.notifications.len() ==> self@.notifications[k]
                        == before.notifications[k],
            decreases before.notifications.len() - at,
        {
            let hit = {
                let notification = &self.notifications[at];
                notification.workspace_id == workspace_id && !notification.is_read && (
                notification.surface_id.is_none() || same_id(notification.surface_id, surface_id))
            };
            proof {
                assert(self@.notifications[at as int] == before.notifications[at as int]);
            }
            if hit {
                self.notification_slot(at).is_read = true;
                changed = changed + 1;
            }
            at = at + 1;
        }
        proof {
            assert(self@.notifications =~= seen(before.notifications, workspace_id, surface_id));
        }
        changed
    }

    /// The place of the workspace that an operation on this surface reaches.
    pub fn target_index(&self, surface_id: SurfaceId) -> (place: Option<usize>)
        ensures
            match place {
                Some(at) => at < self@.workspaces.len() && self@.target(surface_id) == Some(
                    (at as int, self@.workspaces[at as int].surface(surface_id)->0),
                ) && self@.workspaces[at as int].surface(surface_id) is Some,
                None => self@.target(surface_id) is None,
            },
    {
        match self.located_index(surface_id) {
            None => None,
            Some(found) => {
                proof {
                    state::lemma_workspace_found(self@.workspaces, found as int, 0);
                }
                match self.workspace_index(self.workspaces[found].id) {
                    None => None,
                    Some(at) => if self.workspaces[at].surface(surface_id).is_some() {
                        Some(at)
                    } else {
                        None
                    },
                }
            },
        }
    }

    /// A surface asks for no attention any more; tells whether it did.
    pub fn clear_surface_unread(&mut self, surface_id: SurfaceId) -> (changed: bool)
        ensures
            final(self)@ == old(self)@.calmed(surface_id).0,
            changed == old(self)@.calmed(surface_id).1,
    {
        match self.target_index(surface_id) {
            None => false,
            Some(at) => {
                let workspace = self.workspace_slot(at);
                match workspace.surface_mut(surface_id) {
                    None => false,
                    Some(surface) => {
                        let previous_unread = surface.unread;
                        surface.set_attention(false, false);
                        previous_unread
                    },
                }
            },
        }
    }

    /// Flashes a surface `amount` times; tells how often it was flashed in all.
    pub fn increment_surface_flash(&mut self, surface_id: SurfaceId, amount: u64) -> (result: Result<
        u64,
        String,
    >)
        ensures
            final(self)@ == old(self)@.flashed(surface_id, amount),
            text::text_result(result) == match old(self)@.target(surface_id) {
                None => Err(ids::not_found_text("surface"@, surface_id)),
                Some((_, surface)) => Ok(raised(surface.flash_count, amount)),
            },
    {
        match self.target_index(surface_id) {
            None => Err(not_found("surface", surface_id)),
            Some(at) => {
                let workspace = self.workspace_slot(at);
                match workspace.surface_mut(surface_id) {
                    None => Err(not_found("surface", surface_id)),
                    Some(surface) => {
                        let step: u64 = if amount > 1 {
                            amount
                        } else {
                            1
                        };
                        let total: u64 = surface.flash_count.saturating_add(step);
                        surface.flash_count = total;
                        Ok(total)
                    },
                }
            },
        }
    }

    /// Looks at a workspace with this surface selected; tells whether anything changed.
    pub fn attend(&mut self, workspace_id: WorkspaceId, surface_id: Option<SurfaceId>) -> (changed: bool)
        ensures
            final(self)@ == old(self)@.attended(workspace_id, surface_id).0,
            changed == old(self)@.attended(workspace_id, surface_id).1,
    {
        let notification_reads = self.mark_notifications_read(workspace_id, surface_id);
        match surface_id {
            None => notification_reads > 0,
            Some(surface) => {
                let unread_cleared = self.clear_surface_unread(surface);
                if notification_reads > 0 {
                    let _ = self.increment_surface_flash(surface, notification_reads as u64);
                }
                notification_reads > 0 || unread_cleared
            },
        }
    }

    /// Makes a window the current one; tells which workspace it shows.
    pub fn focus_window(&mut self, window_id: WindowId) -> (result: Result<WorkspaceId, String>)
        ensures
            final(self)@ == old(self)@.focus_window(window_id).0,
            text::text_result(result) == old(self)@.focus_window(window_id).1,
    {
        if self.window_index(window_id).is_none() {
            return Err(not_found("window", window_id));
        }
        self.repair_window_selection(window_id);
        let previous_window_id = self.window_id;
        let previous_workspace_id = self.selected_workspace_id;
        self.sync_global_selection_from_window(window_id);
        let workspace_id = self.selected_workspace_id;
        if workspace_id == NIL {
            return Err(about("window ", window_id, " has no selected workspace"));
        }
        let surface_id = self.current_surface_id();
        let changed = self.attend(workspace_id, surface_id);
        if previous_window_id != window_id || previous_workspace_id != workspace_id || changed {
            self.touch();
        }
        Ok(workspace_id)
    }

    /// Makes a workspace, and the window that holds it, the current one.
    pub fn select_workspace(&mut self, workspace_id: WorkspaceId) -> (result: Result<(), String>)
        ensures
            final(self)@ == old(self)@.select_workspace(workspace_id).0,
            text::text_result(result) == old(self)@.select_workspace(workspace_id).1,
    {
        let (window_id, surface_id) = match self.workspace(workspace_id) {
            None => {
                return Err(not_found("workspace", workspace_id));
            },
            Some(workspace) => (workspace.window_id, workspace.selected_surface_id()),
        };
        let previous_selected_workspace_id = self.selected_workspace_id;
        let previous_window_id = self.window_id;
        self.show_in_window(window_id, workspace_id);
        self.sync_global_selection_from_window(window_id);
        let changed = self.attend(workspace_id, surface_id);
        if previous_window_id != window_id || previous_selected_workspace_id != workspace_id
            || changed {
            self.touch();
        }
        Ok(())
    }

    fn select_to(&mut self, workspace_id: WorkspaceId) -> (result: Result<WorkspaceId, String>)
        ensures
            final(self)@ == old(self)@.select_to(workspace_id).0,
            text::text_result(result) == old(self)@.select_to(workspace_id).1,
    {
        match self.select_workspace(workspace_id) {
            Ok(_) => Ok(workspace_id),
            Err(message) => Err(message),
        }
    }

    /// Makes the next workspace of the current window the current one.
    pub fn select_next_workspace(&mut self) -> (result: Result<WorkspaceId, String>)
        ensures
            final(self)@ == old(self)@.select_relative_workspace(1).0,
            text::text_result(result) == old(self)@.select_relative_workspace(1).1,
    {
        self.select_relative_workspace(1)
    }

    /// Makes the previous workspace of the current window the current one.
    pub fn select_previous_workspace(&mut self) -> (result: Result<WorkspaceId, String>)
        ensures
            final(self)@ == old(self)@.select_relative_workspace(-1).0,
            text::text_result(result) == old(self)@.select_relative_workspace(-1).1,
    {
        self.select_relative_workspace(-1)
    }

    /// Makes the workspace that was current before the current one.
    pub fn select_last_workspace(&mut self) -> (result: Result<WorkspaceId, String>)
        ensures
            final(self)@ == old(self)@.select_to(old(self)@.last_workspace()).0,
            text::text_result(result) == old(self)@.select_to(old(self)@.last_workspace()).1,
    {
        let workspace_id = match self.last_selected_workspace_id {
            Some(candidate) => if self.workspace_index(candidate).is_some() {
                candidate
            } else {
                self.selected_workspace_id
            },
            None => self.selected_workspace_id,
        };
        self.select_to(workspace_id)
    }

    /// Makes the workspace `delta` places after the current one the current one.
    pub fn select_relative_workspace(&mut self, delta: isize) -> (result: Result<
        WorkspaceId,
        String,
    >)
        ensures
            final(self)@ == old(self)@.select_relative_workspace(delta as int).0,
            text::text_result(result) == old(self)@.select_relative_workspace(delta as int).1,
    {
        let list = self.workspace_ids_in(self.window_id);
        if list.len() == 0 {
            return Err("no workspaces".to_owned());
        }
        let current_index: usize = match place_of(&list, self.selected_workspace_id) {
            Some(at) => at,
            None => 0,
        };
        let next_index = ring_step(current_index, delta, list.len());
        self.select_to(list[next_index])
    }

    /// Makes a pane the selected one of its workspace, and that workspace the current one.
    pub fn focus_pane(&mut self, pane_id: PaneId) -> (result: Result<WorkspaceId, String>)
        ensures
            final(self)@ == old(self)@.focus_pane(pane_id).0,
            text::text_result(result) == old(self)@.focus_pane(pane_id).1,
    {
        let previous_workspace_id = self.selected_workspace_id;
        let previous_window_id = self.window_id;
        let previous_pane_id = self.current_pane_id();
        let at = match self.owner_index(pane_id) {
            None => {
                return Err(not_found("pane", pane_id));
            },
            Some(at) => at,
        };
        let workspace = self.workspace_slot(at);
        let workspace_id = workspace.id;
        let window_id = workspace.window_id;
        let _ = workspace.focus_pane(pane_id);
        self.show_in_window(window_id, workspace_id);
        self.sync_global_selection_from_window(window_id);
        if previous_window_id != window_id || previous_workspace_id != workspace_id || !same_id(
            previous_pane_id,
            Some(pane_id),
        ) {
            self.touch();
        }
        Ok(workspace_id)
    }

    /// Selects the pane of the current workspace that was selected before.
    pub fn focus_last_pane(&mut self) -> (result: Result<(WorkspaceId, PaneId), String>)
        ensures
            final(self)@ == old(self)@.focus_last_pane().0,
            text::text_result(result) == old(self)@.focus_last_pane().1,
    {
        let workspace_id = self.selected_workspace_id;
        let (previous_pane_id, outcome) = match self.workspace_mut(workspace_id) {
            None => {
                return Err(not_found("workspace", workspace_id));
            },
            Some(workspace) => (workspace.selected_pane_id, workspace.focus_last_pane()),
        };
        match outcome {
            Err(message) => Err(message),
            Ok(pane_id) => {
                if previous_pane_id != pane_id {
                    self.touch();
                }
                Ok((workspace_id, pane_id))
            },
        }
    }

    /// Selects the nearest pane of the current workspace in a direction.
    pub fn focus_adjacent_pane(&mut self, direction: FocusDirection) -> (result: Result<
        (WorkspaceId, PaneId),
        String,
    >)
        ensures
            final(self)@ == old(self)@.focus_adjacent_pane(direction).0,
            text::text_result(result) == old(self)@.focus_adjacent_pane(direction).1,
    {
        let workspace_id = self.selected_workspace_id;
        let (previous_pane_id, outcome) = match self.workspace_mut(workspace_id) {
            None => {
                return Err(not_found("workspace", workspace_id));
            },
            Some(workspace) => (
                workspace.selected_pane_id,
                workspace.focus_adjacent_pane(direction),
            ),
        };
        match outcome {
            Err(message) => Err(message),
            Ok(pane_id) => {
                if previous_pane_id != pane_id {
                    self.touch();
                }
                Ok((workspace_id, pane_id))
            },
        }
    }

    /// Makes a surface the selected one of its pane, that pane the selected one of its workspace,
    /// and that workspace, which takes over the surface's directory, the current one.
    pub fn focus_surface(&mut self, surface_id: SurfaceId) -> (result: Result<
        (WorkspaceId, PaneId),
        String,
    >)
        ensures
            final(self)@ == old(self)@.focus_surface(surface_id).0,
            text::text_result(result) == old(self)@.focus_surface(surface_id).1,
    {
        let previous_workspace_id = self.selected_workspace_id;
        let previous_window_id = self.window_id;
        let previous_surface_id = self.current_surface_id();
        let at = match self.located_index(surface_id) {
            None => {
                return Err(not_found("surface", surface_id));
            },
            Some(at) => at,
        };
        let workspace = self.workspace_slot(at);
        let workspace_id = workspace.id;
        let window_id = workspace.window_id;
        let pane_id = match workspace.focus_surface(surface_id) {
            Ok(pane_id) => pane_id,
            Err(message) => {
                return Err(message);
            },
        };
        let directory: Option<String> = match workspace.surface(surface_id) {
            Some(surface) => copy_opt(&surface.current_directory),
            None => None,
        };
        if directory.is_some() {
            workspace.current_directory = copy_opt(&directory);
        }
        self.show_in_window(window_id, workspace_id);
        self.sync_global_selection_from_window(window_id);
        if directory.is_some() {
            if let Some(workspace) = self.workspace_mut(workspace_id) {
                workspace.current_directory = directory;
            }
        }
        let changed = self.attend(workspace_id, Some(surface_id));
        if previous_window_id != window_id || previous_workspace_id != workspace_id || !same_id(
            previous_surface_id,
            Some(surface_id),
        ) || changed {
            self.touch();
        }
        Ok((workspace_id, pane_id))
    }

    /// Makes the surface `delta` tabs after the selected one the selected one.
    pub fn focus_relative_surface(&mut self, delta: isize) -> (result: Result<
        (WorkspaceId, PaneId, SurfaceId),
        String,
    >)
        ensures
            final(self)@ == old(self)@.focus_relative_surface(delta as int).0,
            text::text_result(result) == old(self)@.focus_relative_surface(delta as int).1,
    {
        let current_surface_id = match self.current_surface_id() {
            Some(id) => id,
            None => {
                return Err("no focused surface".to_owned());
            },
        };
        let neighbor = match self.selected_workspace() {
            Some(workspace) => workspace.selected_surface_neighbor(delta),
            None => {
                return Err("no selected workspace".to_owned());
            },
        };
        let next_surface_id = match neighbor {
            Ok(id) => id,
            Err(message) => {
                return Err(message);
            },
        };
        if next_surface_id == current_surface_id {
            return match self.locate_surface(next_surface_id) {
                Some((workspace_id, pane_id)) => Ok((workspace_id, pane_id, next_surface_id)),
                None => Err(not_found("surface", next_surface_id)),
            };
        }
        match self.focus_surface(next_surface_id) {
            Ok((workspace_id, pane_id)) => Ok((workspace_id, pane_id, next_surface_id)),
            Err(message) => Err(message),
        }
    }
}

} // verus!
