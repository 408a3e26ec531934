//! The state of the application: windows, their workspaces and the notifications.

use crate::ids::{Drawn, NotificationId, PaneId, SurfaceId, WindowId, WorkspaceId};
use crate::surface::{Pane, PaneView, Surface, SurfaceView};
use crate::text;
use crate::text::{decimal_text, joined};
use crate::workspace::{Workspace, WorkspaceView};
use vstd::prelude::*;

verus! {

/// A window and the workspace it shows.
#[derive(Debug, Clone, Copy, PartialEq, Eq, Structural)]
pub struct WindowState {
    /// Its identifier.
    pub id: WindowId,
    /// The workspace that it shows, or nil.
    pub selected_workspace_id: WorkspaceId,
    /// The workspace that it showed before.
    pub last_selected_workspace_id: Option<WorkspaceId>,
}

/// A notification about a workspace, or about a surface in it.
#[derive(Debug)]
pub struct Notification {
    /// Its identifier.
    pub id: NotificationId,
    /// The workspace it is about.
    pub workspace_id: WorkspaceId,
    /// The surface it is about.
    pub surface_id: Option<SurfaceId>,
    /// Whether it was seen.
    pub is_read: bool,
    /// Its title.
    pub title: String,
    /// Its subtitle.
    pub subtitle: String,
    /// Its text.
    pub body: String,
    /// Whether the desktop showed it.
    pub delivered: bool,
}

/// The contents of a [`Notification`].
#[verifier::ext_equal]
pub struct NotificationView {
    /// See [`Notification::id`].
    pub id: NotificationId,
    /// See [`Notification::workspace_id`].
    pub workspace_id: WorkspaceId,
    /// See [`Notification::surface_id`].
    pub surface_id: Option<SurfaceId>,
    /// See [`Notification::is_read`].
    pub is_read: bool,
    /// See [`Notification::title`].
    pub title: Seq<char>,
    /// See [`Notification::subtitle`].
    pub subtitle: Seq<char>,
    /// See [`Notification::body`].
    pub body: Seq<char>,
    /// See [`Notification::delivered`].
    pub delivered: bool,
}

impl View for Notification {
    type V = NotificationView;

    open spec fn view(&self) -> NotificationView {
        NotificationView {
            id: self.id,
            workspace_id: self.workspace_id,
            surface_id: self.surface_id,
            is_read: self.is_read,
            title: self.title@,
            subtitle: self.subtitle@,
            body: self.body@,
            delivered: self.delivered,
        }
    }
}

impl Clone for Notification {
    fn clone(&self) -> (copy: Self)
        ensures
            copy@ == self@,
    {
        Notification {
            id: self.id,
            workspace_id: self.workspace_id,
            surface_id: self.surface_id,
            is_read: self.is_read,
            title: self.title.clone(),
            subtitle: self.subtitle.clone(),
            body: self.body.clone(),
            delivered: self.delivered,
        }
    }
}

/// The state of the application.
#[derive(Debug)]
pub struct AppState {
    /// The windows, in the order in which they were made.
    pub windows: Vec<WindowState>,
    /// The current window, or nil.
    pub window_id: WindowId,
    /// The workspaces of all windows; those of one window in its order.
    pub workspaces: Vec<Workspace>,
    /// The current workspace, or nil.
    pub selected_workspace_id: WorkspaceId,
    /// The workspace that was current before.
    pub last_selected_workspace_id: Option<WorkspaceId>,
    /// The notifications, oldest first.
    pub notifications: Vec<Notification>,
    /// Grows with every change that is worth saving or showing.
    pub revision: u64,
    /// The number in the title of the next workspace.
    pub next_workspace_title_number: usize,
    /// The number in the title of the next terminal.
    pub next_surface_title_number: usize,
}

/// The contents of an [`AppState`].
#[verifier::ext_equal]
pub struct StateView {
    /// See [`AppState::windows`].
    pub windows: Seq<WindowState>,
    /// See [`AppState::window_id`].
    pub window_id: WindowId,
    /// See [`AppState::workspaces`].
    pub workspaces: Seq<WorkspaceView>,
    /// See [`AppState::selected_workspace_id`].
    pub selected_workspace_id: WorkspaceId,
    /// See [`AppState::last_selected_workspace_id`].
    pub last_selected_workspace_id: Option<WorkspaceId>,
    /// See [`AppState::notifications`].
    pub notifications: Seq<NotificationView>,
    /// See [`AppState::revision`].
    pub revision: u64,
    /// See [`AppState::next_workspace_title_number`].
    pub next_workspace_title_number: usize,
    /// See [`AppState::next_surface_title_number`].
    pub next_surface_title_number: usize,
}

/// The contents of each workspace.
pub open spec fn workspace_views(workspaces: Seq<Workspace>) -> Seq<WorkspaceView> {
    workspaces.map_values(|workspace: Workspace| workspace@)
}

/// The contents of the workspaces referred to.
pub open spec fn workspace_ref_views(workspaces: Seq<&Workspace>) -> Seq<WorkspaceView> {
    workspaces.map_values(|workspace: &Workspace| workspace@)
}

/// The contents of each notification.
pub open spec fn notification_views(list: Seq<Notification>) -> Seq<NotificationView> {
    list.map_values(|notification: Notification| notification@)
}

impl View for AppState {
    type V = StateView;

    open spec fn view(&self) -> StateView {
        StateView {
            windows: self.windows@,
            window_id: self.window_id,
            workspaces: workspace_views(self.workspaces@),
            selected_workspace_id: self.selected_workspace_id,
            last_selected_workspace_id: self.last_selected_workspace_id,
            notifications: notification_views(self.notifications@),
            revision: self.revision,
            next_workspace_title_number: self.next_workspace_title_number,
            next_surface_title_number: self.next_surface_title_number,
        }
    }
}

// ---------------------------------------------------------------------------
// Looking things up
// ---------------------------------------------------------------------------

/// The place of the first window with this identifier, looking from `at` on.
pub open spec fn window_from(windows: Seq<WindowState>, id: WindowId, at: int) -> Option<int>
    decreases windows.len() - at,
{
    if at >= windows.len() {
        None
    } else if windows[at].id == id {
        Some(at)
    } else {
        window_from(windows, id, at + 1)
    }
}

/// The place of the first workspace with this identifier, looking from `at` on.
pub open spec fn workspace_from(list: Seq<WorkspaceView>, id: WorkspaceId, at: int) -> Option<int>
    decreases list.len() - at,
{
    if at >= list.len() {
        None
    } else if list[at].id == id {
        Some(at)
    } else {
        workspace_from(list, id, at + 1)
    }
}

/// The place of the first workspace that holds this surface, looking from `at` on.
pub open spec fn located_from(list: Seq<WorkspaceView>, id: SurfaceId, at: int) -> Option<int>
    decreases list.len() - at,
{
    if at >= list.len() {
        None
    } else if list[at].holder(id) is Some {
        Some(at)
    } else {
        located_from(list, id, at + 1)
    }
}

/// The place of the first workspace that holds this pane, looking from `at` on.
pub open spec fn owner_from(list: Seq<WorkspaceView>, id: PaneId, at: int) -> Option<int>
    decreases list.len() - at,
{
    if at >= list.len() {
        None
    } else if list[at].pane_at(id) is Some {
        Some(at)
    } else {
        owner_from(list, id, at + 1)
    }
}

/// The identifiers of those of the first `count` workspaces that this window holds.
pub open spec fn ids_in(list: Seq<WorkspaceView>, window_id: WindowId, count: int) -> Seq<WorkspaceId>
    decreases count,
{
    if count <= 0 {
        Seq::empty()
    } else {
        let shorter = ids_in(list, window_id, count - 1);
        if list[count - 1].window_id == window_id {
            shorter.push(list[count - 1].id)
        } else {
            shorter
        }
    }
}

/// Those of the first `count` workspaces that this window holds.
pub open spec fn held_by(
    list: Seq<WorkspaceView>,
    window_id: WindowId,
    count: int,
) -> Seq<WorkspaceView>
    decreases count,
{
    if count <= 0 {
        Seq::empty()
    } else {
        let shorter = held_by(list, window_id, count - 1);
        if list[count - 1].window_id == window_id {
            shorter.push(list[count - 1])
        } else {
            shorter
        }
    }
}

/// The window that was found is one of the windows, and has the identifier.
pub proof fn lemma_window_from(windows: Seq<WindowState>, id: WindowId, from: int)
    requires
        0 <= from,
    ensures
        match window_from(windows, id, from) {
            Some(at) => from <= at < windows.len() && windows[at].id == id,
            None => true,
        },
    decreases windows.len() - from,
{
    if from < windows.len() && windows[from].id != id {
        lemma_window_from(windows, id, from + 1);
    }
}

/// A workspace is found under its own identifier.
pub proof fn lemma_workspace_found(list: Seq<WorkspaceView>, at: int, from: int)
    requires
        0 <= from <= at < list.len(),
    ensures
        workspace_from(list, list[at].id, from) is Some,
    decreases at - from,
{
    if list[from].id != list[at].id {
        lemma_workspace_found(list, at, from + 1);
    }
}

/// The workspace that was found is one of the list, and has the identifier.
pub proof fn lemma_workspace_from(list: Seq<WorkspaceView>, id: WorkspaceId, from: int)
    requires
        0 <= from,
    ensures
        match workspace_from(list, id, from) {
            Some(at) => from <= at < list.len() && list[at].id == id,
            None => true,
        },
    decreases list.len() - from,
{
    if from < list.len() && list[from].id != id {
        lemma_workspace_from(list, id, from + 1);
    }
}

/// The contents of an optional workspace.
pub open spec fn opt_workspace(workspace: Option<&Workspace>) -> Option<WorkspaceView> {
    match workspace {
        Some(inner) => Some(inner@),
        None => None,
    }
}

impl StateView {
    /// The place of the window with this identifier.
    pub open spec fn window_at(self, id: WindowId) -> Option<int> {
        window_from(self.windows, id, 0)
    }

    /// The window with this identifier.
    pub open spec fn window(self, id: WindowId) -> Option<WindowState> {
        match self.window_at(id) {
            Some(at) => Some(self.windows[at]),
            None => None,
        }
    }

    /// The place of the workspace with this identifier.
    pub open spec fn workspace_at(self, id: WorkspaceId) -> Option<int> {
        workspace_from(self.workspaces, id, 0)
    }

    /// The workspace with this identifier.
    pub open spec fn workspace(self, id: WorkspaceId) -> Option<WorkspaceView> {
        match self.workspace_at(id) {
            Some(at) => Some(self.workspaces[at]),
            None => None,
        }
    }

    /// The current workspace.
    pub open spec fn selected_workspace(self) -> Option<WorkspaceView> {
        self.workspace(self.selected_workspace_id)
    }

    /// The window that holds this workspace.
    pub open spec fn workspace_window_id(self, id: WorkspaceId) -> Option<WindowId> {
        match self.workspace(id) {
            Some(workspace) => Some(workspace.window_id),
            None => None,
        }
    }

    /// The workspaces of a window.
    pub open spec fn workspaces_in_window(self, id: WindowId) -> Seq<WorkspaceView> {
        held_by(self.workspaces, id, self.workspaces.len() as int)
    }

    /// The identifiers of the workspaces of a window.
    pub open spec fn workspace_ids_in(self, id: WindowId) -> Seq<WorkspaceId> {
        ids_in(self.workspaces, id, self.workspaces.len() as int)
    }

    /// The place of the workspace that holds this surface.
    pub open spec fn located(self, id: SurfaceId) -> Option<int> {
        located_from(self.workspaces, id, 0)
    }

    /// The workspace and the pane that hold this surface.
    pub open spec fn locate_surface(self, id: SurfaceId) -> Option<(WorkspaceId, PaneId)> {
        match self.located(id) {
            Some(at) => Some(
                (self.workspaces[at].id, self.workspaces[at].pane_id_for_surface(id)->0),
            ),
            None => None,
        }
    }

    /// The place of the workspace that holds this pane.
    pub open spec fn owner(self, id: PaneId) -> Option<int> {
        owner_from(self.workspaces, id, 0)
    }

    /// The selected surface of the current workspace.
    pub open spec fn current_surface_id(self) -> Option<SurfaceId> {
        match self.selected_workspace() {
            Some(workspace) => workspace.selected_surface_id(),
            None => None,
        }
    }

    /// The selected pane of the current workspace.
    pub open spec fn current_pane_id(self) -> Option<PaneId> {
        match self.selected_workspace() {
            Some(workspace) => Some(workspace.selected_pane_id),
            None => None,
        }
    }

    /// The state with another workspace at `at`.
    pub open spec fn with_workspace(self, at: int, workspace: WorkspaceView) -> StateView {
        StateView { workspaces: self.workspaces.update(at, workspace), ..self }
    }

    /// The state with another window at `at`.
    pub open spec fn with_window(self, at: int, window: WindowState) -> StateView {
        StateView { windows: self.windows.update(at, window), ..self }
    }

    /// The state after a change.
    pub open spec fn touched(self) -> StateView {
        StateView {
            revision: if self.revision < u64::MAX {
                (self.revision + 1) as u64
            } else {
                u64::MAX
            },
            ..self
        }
    }

    /// The state after a change, if there was one.
    pub open spec fn touched_if(self, changed: bool) -> StateView {
        if changed {
            self.touched()
        } else {
            self
        }
    }

    /// Whether another workspace and another terminal can be numbered.
    pub open spec fn has_room(self) -> bool {
        self.next_workspace_title_number < usize::MAX && self.next_surface_title_number
            < usize::MAX
    }

    /// The title of the next workspace.
    pub open spec fn workspace_title(self) -> Seq<char> {
        "Workspace "@ + text::decimal(self.next_workspace_title_number as nat)
    }

    /// The title of the next terminal.
    pub open spec fn terminal_title(self) -> Seq<char> {
        "Terminal "@ + text::decimal(self.next_surface_title_number as nat)
    }

    /// The state after a workspace was numbered.
    pub open spec fn numbered_workspace(self) -> StateView {
        StateView {
            next_workspace_title_number: (self.next_workspace_title_number + 1) as usize,
            ..self
        }
    }

    /// The state after a terminal was numbered.
    pub open spec fn numbered_terminal(self) -> StateView {
        StateView {
            next_surface_title_number: (self.next_surface_title_number + 1) as usize,
            ..self
        }
    }

    /// The next terminal.
    pub open spec fn fresh_surface(self, drawn: Drawn) -> SurfaceView {
        SurfaceView::terminal(drawn.surface, self.terminal_title())
    }

    /// A pane with the next terminal in it.
    pub open spec fn fresh_pane(self, drawn: Drawn) -> PaneView {
        PaneView::single(drawn.pane, self.fresh_surface(drawn))
    }
}

impl AppState {
    /// Grows with every change that is worth saving or showing.
    pub fn revision(&self) -> (revision: u64)
        ensures
            revision == self@.revision,
    {
        self.revision
    }

    /// Counts a change.
    pub fn touch(&mut self)
        ensures
            final(self)@ == old(self)@.touched(),
    {
        self.revision = self.revision.saturating_add(1);
    }

    /// Whether another workspace and another terminal can be numbered.
    pub fn has_room(&self) -> (room: bool)
        ensures
            room == self@.has_room(),
    {
        self.next_workspace_title_number < usize::MAX && self.next_surface_title_number
            < usize::MAX
    }

    /// Numbers a workspace and gives its title.
    pub fn next_workspace_title(&mut self) -> (title: String)
        requires
            old(self)@.next_workspace_title_number < usize::MAX,
        ensures
            title@ == old(self)@.workspace_title(),
            final(self)@ == old(self)@.numbered_workspace(),
    {
        let number = decimal_text(self.next_workspace_title_number as u64);
        self.next_workspace_title_number = self.next_workspace_title_number + 1;
        joined("Workspace ", number.as_str())
    }

    /// Numbers a terminal and gives its title.
    pub fn next_terminal_title(&mut self) -> (title: String)
        requires
            old(self)@.next_surface_title_number < usize::MAX,
        ensures
            title@ == old(self)@.terminal_title(),
            final(self)@ == old(self)@.numbered_terminal(),
    {
        let number = decimal_text(self.next_surface_title_number as u64);
        self.next_surface_title_number = self.next_surface_title_number + 1;
        joined("Terminal ", number.as_str())
    }

    /// Makes the next terminal.
    pub fn new_terminal_surface(&mut self, drawn: Drawn) -> (surface: Surface)
        requires
            old(self)@.next_surface_title_number < usize::MAX,
        ensures
            surface@ == old(self)@.fresh_surface(drawn),
            final(self)@ == old(self)@.numbered_terminal(),
    {
        let title = self.next_terminal_title();
        Surface::new_terminal(drawn.surface, title)
    }

    /// Makes a pane with the next terminal in it.
    pub fn new_terminal_pane(&mut self, drawn: Drawn) -> (pane: Pane)
        requires
            old(self)@.next_surface_title_number < usize::MAX,
        ensures
            pane@ == old(self)@.fresh_pane(drawn),
            final(self)@ == old(self)@.numbered_terminal(),
    {
        let surface = self.new_terminal_surface(drawn);
        Pane::single(drawn.pane, surface)
    }

    /// The current workspace.
    pub fn selected_workspace(&self) -> (workspace: Option<&Workspace>)
        ensures
            opt_workspace(workspace) == self@.selected_workspace(),
    {
        self.workspace(self.selected_workspace_id)
    }

    /// The place of the window with this identifier.
    pub fn window_index(&self, window_id: WindowId) -> (place: Option<usize>)
        ensures
            match place {
                Some(at) => at < self@.windows.len() && self@.window_at(window_id) == Some(
                    at as int,
                ) && self@.windows[at as int].id == window_id,
                None => self@.window_at(window_id) is None,
            },
    {
        let mut at: usize = 0;
        while at < self.windows.len()
            invariant
                at <= self.windows@.len(),
                self@.window_at(window_id) == window_from(self@.windows, window_id, at as int),
            decreases self.windows@.len() - at,
        {
            if self.windows[at].id == window_id {
                return Some(at);
            }
            at = at + 1;
        }
        None
    }

    /// The window with this identifier.
    pub fn window(&self, window_id: WindowId) -> (window: Option<&WindowState>)
        ensures
            match window {
                Some(inner) => self@.window(window_id) == Some(*inner),
                None => self@.window(window_id) is None,
            },
    {
        match self.window_index(window_id) {
            Some(at) => Some(&self.windows[at]),
            None => None,
        }
    }

    /// Gives access to the window at a place.
    pub fn window_slot(&mut self, at: usize) -> (window: &mut WindowState)
        requires
            at < old(self)@.windows.len(),
        ensures
            *window == old(self)@.windows[at as int],
            final(self)@ == old(self)@.with_window(at as int, *final(window)),
    {
        &mut self.windows[at]
    }

    /// Gives access to the window with this identifier.
    pub fn window_mut(&mut self, window_id: WindowId) -> (window: Option<&mut WindowState>)
        ensures
            match window {
                Some(inner) => match old(self)@.window_at(window_id) {
                    Some(at) => *inner == old(self)@.windows[at] && final(self)@ == old(
                        self,
                    )@.with_window(at, *final(inner)),
                    None => false,
                },
                None => old(self)@.window_at(window_id) is None && final(self)@ == old(self)@,
            },
    {
        match self.window_index(window_id) {
            Some(at) => Some(self.window_slot(at)),
            None => None,
        }
    }

    /// The place of the workspace with this identifier.
    pub fn workspace_index(&self, workspace_id: WorkspaceId) -> (place: Option<usize>)
        ensures
            match place {
                Some(at) => at < self@.workspaces.len() && self@.workspace_at(workspace_id) == Some(
                    at as int,
                ) && self@.workspaces[at as int].id == workspace_id,
                None => self@.workspace_at(workspace_id) is None,
            },
    {
        let mut at: usize = 0;
        while at < self.workspaces.len()
            invariant
                at <= self.workspaces@.len(),
                self@.workspace_at(workspace_id) == workspace_from(
                    self@.workspaces,
                    workspace_id,
                    at as int,
                ),
            decreases self.workspaces@.len() - at,
        {
            if self.workspaces[at].id == workspace_id {
                return Some(at);
            }
            at = at + 1;
        }
        None
    }

    /// The workspace with this identifier.
    pub fn workspace(&self, workspace_id: WorkspaceId) -> (workspace: Option<&Workspace>)
        ensures
            opt_workspace(workspace) == self@.workspace(workspace_id),
    {
        match self.workspace_index(workspace_id) {
            Some(at) => Some(&self.workspaces[at]),
            None => None,
        }
    }

    /// Gives access to the workspace at a place.
    pub fn workspace_slot(&mut self, at: usize) -> (workspace: &mut Workspace)
        requires
            at < old(self)@.workspaces.len(),
        ensures
            workspace@ == old(self)@.workspaces[at as int],
            final(self)@ == old(self)@.with_workspace(at as int, final(workspace)@),
    {
        &mut self.workspaces[at]
    }

    /// Gives access to the workspace with this identifier.
    pub fn workspace_mut(&mut self, workspace_id: WorkspaceId) -> (workspace: Option<
        &mut Workspace,
    >)
        ensures
            match workspace {
                Some(inner) => match old(self)@.workspace_at(workspace_id) {
                    Some(at) => inner@ == old(self)@.workspaces[at] && final(self)@ == old(
                        self,
                    )@.with_workspace(at, final(inner)@),
                    None => false,
                },
                None => old(self)@.workspace_at(workspace_id) is None && final(self)@ == old(
                    self,
                )@,
            },
    {
        match self.workspace_index(workspace_id) {
            Some(at) => Some(self.workspace_slot(at)),
            None => None,
        }
    }

    /// The workspaces of a window.
    pub fn workspaces_in_window(&self, window_id: WindowId) -> (list: Vec<&Workspace>)
        ensures
            workspace_ref_views(list@) == self@.workspaces_in_window(window_id),
    {
        let mut list: Vec<&Workspace> = Vec::new();
        let mut at: usize = 0;
        proof {
            assert(workspace_ref_views(list@) =~= Seq::empty());
        }
        while at < self.workspaces.len()
            invariant
                at <= self.workspaces@.len(),
                workspace_ref_views(list@) == held_by(self@.workspaces, window_id, at as int),
            decreases self.workspaces@.len() - at,
        {
            let ghost before = workspace_ref_views(list@);
            if self.workspaces[at].window_id == window_id {
                list.push(&self.workspaces[at]);
                proof {
                    assert(workspace_ref_views(list@) =~= before.push(self@.workspaces[at as int]));
                }
            }
            at = at + 1;
        }
        list
    }

    /// The identifiers of the workspaces of a window.
    pub fn workspace_ids_in(&self, window_id: WindowId) -> (list: Vec<WorkspaceId>)
        ensures
            list@ == self@.workspace_ids_in(window_id),
    {
        let mut list: Vec<WorkspaceId> = Vec::new();
        let mut at: usize = 0;
        while at < self.workspaces.len()
            invariant
                at <= self.workspaces@.len(),
                list@ == ids_in(self@.workspaces, window_id, at as int),
            decreases self.workspaces@.len() - at,
        {
            if self.workspaces[at].window_id == window_id {
                list.push(self.workspaces[at].id);
            }
            at = at + 1;
        }
        list
    }

    /// The window that holds this workspace.
    pub fn workspace_window_id(&self, workspace_id: WorkspaceId) -> (window_id: Option<WindowId>)
        ensures
            window_id == self@.workspace_window_id(workspace_id),
    {
        match self.workspace(workspace_id) {
            Some(workspace) => Some(workspace.window_id),
            None => None,
        }
    }

    /// The place of the workspace that holds this surface.
    pub fn located_index(&self, surface_id: SurfaceId) -> (place: Option<usize>)
        ensures
            match place {
                Some(at) => at < self@.workspaces.len() && self@.located(surface_id) == Some(
                    at as int,
                ) && self@.workspaces[at as int].holder(surface_id) is Some,
                None => self@.located(surface_id) is None,
            },
    {
        let mut at: usize = 0;
        while at < self.workspaces.len()
            invariant
                at <= self.workspaces@.len(),
                self@.located(surface_id) == located_from(
                    self@.workspaces,
                    surface_id,
                    at as int,
                ),
            decreases self.workspaces@.len() - at,
        {
            if self.workspaces[at].holder_index(surface_id).is_some() {
                return Some(at);
            }
            at = at + 1;
        }
        None
    }

    /// The workspace and the pane that hold this surface.
    pub fn locate_surface(&self, surface_id: SurfaceId) -> (place: Option<(WorkspaceId, PaneId)>)
        ensures
            place == self@.locate_surface(surface_id),
    {
        match self.located_index(surface_id) {
            Some(at) => match self.workspaces[at].pane_id_for_surface(surface_id) {
                Some(pane_id) => Some((self.workspaces[at].id, pane_id)),
                None => None,
            },
            None => None,
        }
    }

    /// The place of the workspace that holds this pane.
    pub fn owner_index(&self, pane_id: PaneId) -> (place: Option<usize>)
        ensures
            match place {
                Some(at) => at < self@.workspaces.len() && self@.owner(pane_id) == Some(at as int)
                    && self@.workspaces[at as int].pane_at(pane_id) is Some,
                None => self@.owner(pane_id) is None,
            },
    {
        let mut at: usize = 0;
        while at < self.workspaces.len()
            invariant
                at <= self.workspaces@.len(),
                self@.owner(pane_id) == owner_from(self@.workspaces, pane_id, at as int),
            decreases self.workspaces@.len() - at,
        {
            if self.workspaces[at].pane_index(pane_id).is_some() {
                return Some(at);
            }
            at = at + 1;
        }
        None
    }

    /// The selected surface of the current workspace.
    pub fn current_surface_id(&self) -> (id: Option<SurfaceId>)
        ensures
            id == self@.current_surface_id(),
    {
        match self.selected_workspace() {
            Some(workspace) => workspace.selected_surface_id(),
            None => None,
        }
    }

    /// The selected pane of the current workspace.
    pub fn current_pane_id(&self) -> (id: Option<PaneId>)
        ensures
            id == self@.current_pane_id(),
    {
        match self.selected_workspace() {
            Some(workspace) => Some(workspace.selected_pane_id),
            None => None,
        }
    }
}

} // verus!
