//! The text of terminals, their health, and the notifications about them.

use crate::ids;
use crate::ids::{not_found, Drawn, NotificationId, PaneId, SurfaceId, WorkspaceId};
use crate::state;
use crate::state::{AppState, Notification, NotificationView, StateView};
use crate::surface::{HealthView, Pane, PaneView, SurfaceView, TerminalHealth};
use crate::text;
use crate::text::{copy_opt, glue_from, line_texts, same_opt};
use crate::workspace::{Workspace, WorkspaceView};
use vstd::prelude::*;

verus! {

/// The contents of what [`AppState::read_terminal_text`] gives.
pub open spec fn read_result(
    result: Result<(WorkspaceId, String), String>,
) -> Result<(WorkspaceId, Seq<char>), Seq<char>> {
    match result {
        Ok((workspace_id, content)) => Ok((workspace_id, content@)),
        Err(message) => Err(message@),
    }
}

/// The last `limit` lines of a text, with line feeds between them.
pub open spec fn last_lines(content: Seq<char>, limit: int) -> Seq<char> {
    let list = text::lines(content);
    let from = if list.len() > limit {
        list.len() - limit
    } else {
        0
    };
    text::glued_from(list, "\n"@, from)
}

impl SurfaceView {
    /// The surface without a reason to ask for attention because of a notification.
    pub open spec fn quieted(self) -> SurfaceView {
        self.attention(self.unread_activity, false)
    }

    /// The surface, never flashed.
    pub open spec fn unflashed(self) -> SurfaceView {
        SurfaceView { flash_count: 0, ..self }
    }
}

impl PaneView {
    /// The pane with each of its surfaces quieted.
    pub open spec fn quieted(self) -> PaneView {
        PaneView {
            surfaces: Seq::new(self.surfaces.len(), |at: int| self.surfaces[at].quieted()),
            ..self
        }
    }

    /// The pane with each of its surfaces never flashed.
    pub open spec fn unflashed(self) -> PaneView {
        PaneView {
            surfaces: Seq::new(self.surfaces.len(), |at: int| self.surfaces[at].unflashed()),
            ..self
        }
    }

    /// Whether one of the surfaces was flashed.
    pub open spec fn has_flashes(self) -> bool {
        exists|at: int| 0 <= at < self.surfaces.len() && self.surfaces[at].flash_count != 0
    }
}

impl WorkspaceView {
    /// The workspace with each of its surfaces quieted.
    pub open spec fn quieted(self) -> WorkspaceView {
        WorkspaceView {
            panes: Seq::new(self.panes.len(), |at: int| self.panes[at].quieted()),
            ..self
        }
    }

    /// The workspace with each of its surfaces never flashed.
    pub open spec fn unflashed(self) -> WorkspaceView {
        WorkspaceView {
            panes: Seq::new(self.panes.len(), |at: int| self.panes[at].unflashed()),
            ..self
        }
    }

    /// Whether one of the surfaces was flashed.
    pub open spec fn has_flashes(self) -> bool {
        exists|at: int| 0 <= at < self.panes.len() && (#[trigger] self.panes[at]).has_flashes()
    }

    /// Whether this surface is the selected one.
    pub open spec fn shows(self, pane_id: PaneId, surface_id: SurfaceId) -> bool {
        self.selected_pane_id == pane_id && match self.pane(pane_id) {
            Some(pane) => pane.selected_surface_id == surface_id,
            None => false,
        }
    }
}

impl StateView {
    /// Whether a change of this surface's text goes unseen: it is not the selected surface of the
    /// current workspace.
    pub open spec fn unseen(self, surface_id: SurfaceId) -> bool {
        let (workspace_id, pane_id) = self.locate_surface(surface_id)->0;
        let workspace = self.workspace(workspace_id)->0;
        self.selected_workspace_id != workspace_id || !workspace.shows(pane_id, surface_id)
    }

    /// A surface gets another text.
    pub open spec fn retold(self, surface_id: SurfaceId, content: Seq<char>) -> (
        StateView,
        Result<(WorkspaceId, PaneId), Seq<char>>,
    ) {
        match self.target(surface_id) {
            None => (self, Err(ids::not_found_text("surface"@, surface_id))),
            Some((at, surface)) => {
                let next = SurfaceView { transcript: content, ..surface }.attention(
                    self.unseen(surface_id),
                    surface.unread_notification,
                );
                (
                    self.with_surface(at, surface_id, next).touched_if(
                        next.unread != surface.unread,
                    ),
                    Ok(self.locate_surface(surface_id)->0),
                )
            },
        }
    }

    /// A surface's text grows.
    pub open spec fn append_terminal_text(self, surface_id: SurfaceId, content: Seq<char>) -> (
        StateView,
        Result<(WorkspaceId, PaneId), Seq<char>>,
    ) {
        match self.target(surface_id) {
            None => (self, Err(ids::not_found_text("surface"@, surface_id))),
            Some((_, surface)) => self.retold(surface_id, surface.transcript + content),
        }
    }

    /// Deletes a surface's text.
    pub open spec fn clear_surface_history(self, surface_id: SurfaceId) -> (
        StateView,
        Result<(), Seq<char>>,
    ) {
        match self.target(surface_id) {
            None => (self, Err(ids::not_found_text("surface"@, surface_id))),
            Some((at, surface)) => if surface.transcript.len() == 0 {
                (self, Ok(()))
            } else {
                (
                    self.with_surface(
                        at,
                        surface_id,
                        SurfaceView { transcript: Seq::empty(), ..surface }.attention(
                            false,
                            surface.unread_notification,
                        ),
                    ).touched(),
                    Ok(()),
                )
            },
        }
    }

    /// A surface's shell is in another directory; where it is the selected one of its workspace,
    /// the workspace follows.
    pub open spec fn update_directory(
        self,
        surface_id: SurfaceId,
        directory: Option<Seq<char>>,
    ) -> (StateView, Result<WorkspaceId, Seq<char>>) {
        match self.target(surface_id) {
            None => (self, Err(ids::not_found_text("surface"@, surface_id))),
            Some((at, surface)) => {
                let (workspace_id, pane_id) = self.locate_surface(surface_id)->0;
                let workspace = self.workspaces[at];
                if surface.current_directory == directory {
                    (self, Ok(workspace_id))
                } else {
                    let moved = workspace.with_surface(
                        surface_id,
                        SurfaceView { current_directory: directory, ..surface },
                    );
                    (
                        self.with_workspace(
                            at,
                            if workspace.shows(pane_id, surface_id) {
                                WorkspaceView { current_directory: directory, ..moved }
                            } else {
                                moved
                            },
                        ).touched(),
                        Ok(workspace_id),
                    )
                }
            },
        }
    }

    /// Something new is known of a surface's process.
    pub open spec fn update_health(self, surface_id: SurfaceId, health: HealthView) -> (
        StateView,
        Result<WorkspaceId, Seq<char>>,
    ) {
        match self.target(surface_id) {
            None => (self, Err(ids::not_found_text("surface"@, surface_id))),
            Some((at, surface)) => {
                let (workspace_id, _) = self.locate_surface(surface_id)->0;
                (
                    if surface.terminal_health == health {
                        self
                    } else {
                        self.with_surface(
                            at,
                            surface_id,
                            SurfaceView { terminal_health: health, ..surface },
                        ).touched()
                    },
                    Ok(workspace_id),
                )
            },
        }
    }

    /// A surface's text, or its last lines.
    pub open spec fn read_terminal_text(self, surface_id: SurfaceId, limit: Option<usize>) -> Result<
        (WorkspaceId, Seq<char>),
        Seq<char>,
    > {
        match self.target(surface_id) {
            None => Err(ids::not_found_text("surface"@, surface_id)),
            Some((_, surface)) => {
                let (workspace_id, _) = self.locate_surface(surface_id)->0;
                Ok(
                    (
                        workspace_id,
                        match limit {
                            Some(count) => last_lines(surface.transcript, count as int),
                            None => surface.transcript,
                        },
                    ),
                )
            },
        }
    }

    /// Flashes a surface, which then asks for attention.
    pub open spec fn trigger_flash(self, surface_id: SurfaceId) -> (
        StateView,
        Result<(WorkspaceId, PaneId, u64), Seq<char>>,
    ) {
        match self.target(surface_id) {
            None => (self, Err(ids::not_found_text("surface"@, surface_id))),
            Some((at, surface)) => {
                let (workspace_id, pane_id) = self.locate_surface(surface_id)->0;
                let count = crate::state_focus::raised(surface.flash_count, 1);
                (
                    self.with_surface(
                        at,
                        surface_id,
                        SurfaceView { flash_count: count, ..surface }.attention(
                            surface.unread_activity,
                            true,
                        ),
                    ).touched(),
                    Ok((workspace_id, pane_id, count)),
                )
            },
        }
    }

    /// Adds a notification; the surface it is about asks for attention.
    pub open spec fn create_notification(
        self,
        drawn: Drawn,
        workspace_id: WorkspaceId,
        surface_id: Option<SurfaceId>,
        title: Seq<char>,
        subtitle: Seq<char>,
        body: Seq<char>,
        delivered: bool,
    ) -> (StateView, Result<NotificationId, Seq<char>>) {
        let notification = NotificationView {
            id: drawn.notification,
            workspace_id,
            surface_id,
            is_read: false,
            title,
            subtitle,
            body,
            delivered,
        };
        match self.workspace_at(workspace_id) {
            None => (self, Err(ids::not_found_text("workspace"@, workspace_id))),
            Some(at) => match surface_id {
                None => (
                    StateView {
                        notifications: self.notifications.push(notification),
                        ..self
                    }.touched(),
                    Ok(drawn.notification),
                ),
                Some(id) => match self.workspaces[at].surface(id) {
                    None => (self, Err(ids::not_found_text("surface"@, id))),
                    Some(surface) => (
                        StateView {
                            notifications: self.notifications.push(notification),
                            ..self.with_surface(
                                at,
                                id,
                                surface.attention(surface.unread_activity, true),
                            )
                        }.touched(),
                        Ok(drawn.notification),
                    ),
                },
            },
        }
    }

    /// Deletes the notifications; no surface asks for attention because of one.
    pub open spec fn clear_notifications(self) -> StateView {
        StateView {
            workspaces: Seq::new(
                self.workspaces.len(),
                |at: int| self.workspaces[at].quieted(),
            ),
            notifications: Seq::empty(),
            ..self
        }.touched()
    }

    /// Whether one of the surfaces was flashed.
    pub open spec fn has_flashes(self) -> bool {
        exists|at: int|
            0 <= at < self.workspaces.len() && (#[trigger] self.workspaces[at]).has_flashes()
    }

    /// Forgets all flashes.
    pub open spec fn reset_flash_counts(self) -> StateView {
        StateView {
            workspaces: Seq::new(
                self.workspaces.len(),
                |at: int| self.workspaces[at].unflashed(),
            ),
            ..self
        }.touched_if(self.has_flashes())
    }

    /// How often a surface was flashed.
    pub open spec fn flash_count(self, surface_id: SurfaceId) -> Result<u64, Seq<char>> {
        match self.target(surface_id) {
            None => Err(ids::not_found_text("surface"@, surface_id)),
            Some((_, surface)) => Ok(surface.flash_count),
        }
    }
}

impl Pane {
    fn quiet(&mut self)
        ensures
            final(self)@ == old(self)@.quieted(),
    {
        let ghost before = self@;
        let mut at: usize = 0;
        while at < self.surfaces.len()
            invariant
                at <= before.surfaces.len(),
                self@ == (PaneView { surfaces: self@.surfaces, ..before }),
                self@.surfaces.len() == before.surfaces.len(),
                forall|k: int|
                    0 <= k < at ==> self@.surfaces[k] == before.surfaces[k].quieted(),
                forall|k: int|
                    at <= k < before.surfaces.len() ==> self@.surfaces[k] == before.surfaces[k],
            decreases before.surfaces.len() - at,
        {
            proof {
                assert(self@.surfaces[at as int] == before.surfaces[at as int]);
            }
            let surface = self.surface_slot(at);
            surface.unread_notification = false;
            surface.sync_unread();
            at = at + 1;
        }
        proof {
            assert(self@.surfaces =~= before.quieted().surfaces);
        }
    }

    fn forget_flashes(&mut self) -> (changed: bool)
        ensures
            final(self)@ == old(self)@.unflashed(),
            changed == old(self)@.has_flashes(),
    {
        let ghost before = self@;
        let mut changed: bool = false;
        let mut at: usize = 0;
        while at < self.surfaces.len()
            invariant
                at <= before.surfaces.len(),
                self@ == (PaneView { surfaces: self@.surfaces, ..before }),
                self@.surfaces.len() == before.surfaces.len(),
                forall|k: int|
                    0 <= k < at ==> self@.surfaces[k] == before.surfaces[k].unflashed(),
                forall|k: int|
                    at <= k < before.surfaces.len() ==> self@.surfaces[k] == before.surfaces[k],
                changed == exists|k: int| 0 <= k < at && before.surfaces[k].flash_count != 0,
            decreases before.surfaces.len() - at,
        {
            proof {
                assert(self@.surfaces[at as int] == before.surfaces[at as int]);
            }
            if self.surfaces[at].flash_count != 0 {
                changed = true;
            }
            self.surface_slot(at).flash_count = 0;
            at = at + 1;
        }
        proof {
            assert(self@.surfaces =~= before.unflashed().surfaces);
        }
        changed
    }
}

impl Workspace {
    fn quiet(&mut self)
        ensures
            final(self)@ == old(self)@.quieted(),
    {
        let ghost before = self@;
        let mut at: usize = 0;
        while at < self.panes.len()
            invariant
                at <= before.panes.len(),
                self@ == (WorkspaceView { panes: self@.panes, ..before }),
                self@.panes.len() == before.panes.len(),
                forall|k: int| 0 <= k < at ==> self@.panes[k] == before.panes[k].quieted(),
                forall|k: int|
                    at <= k < before.panes.len() ==> self@.panes[k] == before.panes[k],
            decreases before.panes.len() - at,
        {
            proof {
                assert(self@.panes[at as int] == before.panes[at as int]);
            }
            self.pane_slot(at).quiet();
            at = at + 1;
        }
        proof {
            assert(self@.panes =~= before.quieted().panes);
        }
    }

    fn forget_flashes(&mut self) -> (changed: bool)
        ensures
            final(self)@ == old(self)@.unflashed(),
            changed == old(self)@.has_flashes(),
    {
        let ghost before = self@;
        let mut changed: bool = false;
        let mut at: usize = 0;
        while at < self.panes.len()
            invariant
                at <= before.panes.len(),
                self@ == (WorkspaceView { panes: self@.panes, ..before }),
                self@.panes.len() == before.panes.len(),
                forall|k: int| 0 <= k < at ==> self@.panes[k] == before.panes[k].unflashed(),
                forall|k: int|
                    at <= k < before.panes.len() ==> self@.panes[k] == before.panes[k],
                changed == exists|k: int| 0 <= k < at && (#[trigger] before.panes[k]).has_flashes(),
            decreases before.panes.len() - at,
        {
            proof {
                assert(self@.panes[at as int] == before.panes[at as int]);
            }
            if self.pane_slot(at).forget_flashes() {
                changed = true;
            }
            at = at + 1;
        }
        proof {
            assert(self@.panes =~= before.unflashed().panes);
        }
        changed
    }

    /// Whether this surface is the selected one.
    pub fn shows(&self, pane_id: PaneId, surface_id: SurfaceId) -> (shown: bool)
        ensures
            shown == self@.shows(pane_id, surface_id),
    {
        self.selected_pane_id == pane_id && match self.pane(pane_id) {
            Some(pane) => pane.selected_surface_id == surface_id,
            None => false,
        }
    }
}

impl AppState {
    /// Tells where a surface is, and whether a change of its text goes unseen.
    pub fn transcript_context(&self, surface_id: SurfaceId) -> (result: Result<
        (WorkspaceId, PaneId, bool),
        String,
    >)
        ensures
            text::text_result(result) == match self@.locate_surface(surface_id) {
                None => Err::<(WorkspaceId, PaneId, bool), Seq<char>>(
                    ids::not_found_text("surface"@, surface_id),
                ),
                Some((workspace_id, pane_id)) => Ok(
                    (workspace_id, pane_id, self@.unseen(surface_id)),
                ),
            },
    {
        let found = match self.located_index(surface_id) {
            Some(at) => at,
            None => {
                return Err(not_found("surface", surface_id));
            },
        };
        proof {
            state::lemma_workspace_found(self@.workspaces, found as int, 0);
        }
        let (workspace_id, pane_id) = match self.locate_surface(surface_id) {
            Some(place) => place,
            None => {
                return Err(not_found("surface", surface_id));
            },
        };
        let unread = match self.workspace(workspace_id) {
            Some(workspace) => self.selected_workspace_id != workspace_id || !workspace.shows(
                pane_id,
                surface_id,
            ),
            None => {
                return Err(not_found("workspace", workspace_id));
            },
        };
        Ok((workspace_id, pane_id, unread))
    }

    /// Replaces a surface's text.
    pub fn replace_terminal_text(&mut self, surface_id: SurfaceId, content: String) -> (result: Result<
        (WorkspaceId, PaneId),
        String,
    >)
        ensures
            final(self)@ == old(self)@.retold(surface_id, content@).0,
            text::text_result(result) == old(self)@.retold(surface_id, content@).1,
    {
        let (workspace_id, pane_id, unread) = match self.transcript_context(surface_id) {
            Ok(context) => context,
            Err(message) => {
                return Err(message);
            },
        };
        let at = match self.target_index(surface_id) {
            Some(at) => at,
            None => {
                return Err(not_found("surface", surface_id));
            },
        };
        let workspace = self.workspace_slot(at);
        let changed = match workspace.surface_mut(surface_id) {
            None => {
                return Err(not_found("surface", surface_id));
            },
            Some(surface) => {
                let previous_unread = surface.unread;
                surface.transcript = content;
                surface.unread_activity = unread;
                surface.sync_unread();
                surface.unread != previous_unread
            },
        };
        if changed {
            self.touch();
        }
        Ok((workspace_id, pane_id))
    }

    /// Adds to a surface's text.
    pub fn append_terminal_text(&mut self, surface_id: SurfaceId, content: &str) -> (result: Result<
        (WorkspaceId, PaneId),
        String,
    >)
        ensures
            final(self)@ == old(self)@.append_terminal_text(surface_id, content@).0,
            text::text_result(result) == old(self)@.append_terminal_text(surface_id, content@).1,
    {
        let at = match self.target_index(surface_id) {
            Some(at) => at,
            None => {
                return Err(not_found("surface", surface_id));
            },
        };
        let mut whole = match self.workspaces[at].surface(surface_id) {
            Some(surface) => surface.transcript.clone(),
            None => {
                return Err(not_found("surface", surface_id));
            },
        };
        whole.append(content);
        self.replace_terminal_text(surface_id, whole)
    }

    /// Deletes a surface's text.
    pub fn clear_surface_history(&mut self, surface_id: SurfaceId) -> (result: Result<(), String>)
        ensures
            final(self)@ == old(self)@.clear_surface_history(surface_id).0,
            text::text_result(result) == old(self)@.clear_surface_history(surface_id).1,
    {
        let at = match self.target_index(surface_id) {
            Some(at) => at,
            None => {
                return Err(not_found("surface", surface_id));
            },
        };
        match self.workspaces[at].surface(surface_id) {
            Some(surface) => if surface.transcript.as_str().is_empty() {
                return Ok(());
            },
            None => {},
        }
        let workspace = self.workspace_slot(at);
        if let Some(surface) = workspace.surface_mut(surface_id) {
            surface.transcript = String::new();
            surface.unread_activity = false;
            surface.sync_unread();
        }
        self.touch();
        Ok(())
    }

    /// A surface's shell is in another directory; where it is the selected one of its workspace,
    /// the workspace follows.
    pub fn update_surface_current_directory(
        &mut self,
        surface_id: SurfaceId,
        current_directory: Option<String>,
    ) -> (result: Result<WorkspaceId, String>)
        ensures
            final(self)@ == old(self)@.update_directory(
                surface_id,
                text::opt_text(current_directory),
            ).0,
            text::text_result(result) == old(self)@.update_directory(
                surface_id,
                text::opt_text(current_directory),
            ).1,
    {
        let at = match self.target_index(surface_id) {
            Some(at) => at,
            None => {
                return Err(not_found("surface", surface_id));
            },
        };
        let (workspace_id, pane_id) = match self.locate_surface(surface_id) {
            Some(place) => place,
            None => {
                return Err(not_found("surface", surface_id));
            },
        };
        match self.workspaces[at].surface(surface_id) {
            Some(surface) => if same_opt(&surface.current_directory, &current_directory) {
                return Ok(workspace_id);
            },
            None => {},
        }
        let is_selected_surface = self.workspaces[at].shows(pane_id, surface_id);
        let workspace = self.workspace_slot(at);
        if let Some(surface) = workspace.surface_mut(surface_id) {
            surface.current_directory = copy_opt(&current_directory);
        }
        if is_selected_surface {
            workspace.current_directory = current_directory;
        }
        self.touch();
        Ok(workspace_id)
    }

    /// Something new is known of a surface's process.
    pub fn update_surface_terminal_health(
        &mut self,
        surface_id: SurfaceId,
        terminal_health: TerminalHealth,
    ) -> (result: Result<WorkspaceId, String>)
        ensures
            final(self)@ == old(self)@.update_health(surface_id, terminal_health@).0,
            text::text_result(result) == old(self)@.update_health(surface_id, terminal_health@).1,
    {
        let at = match self.target_index(surface_id) {
            Some(at) => at,
            None => {
                return Err(not_found("surface", surface_id));
            },
        };
        let workspace_id = match self.locate_surface(surface_id) {
            Some((workspace_id, _)) => workspace_id,
            None => {
                return Err(not_found("surface", surface_id));
            },
        };
        match self.workspaces[at].surface(surface_id) {
            Some(surface) => if surface.terminal_health.same(&terminal_health) {
                return Ok(workspace_id);
            },
            None => {},
        }
        let workspace = self.workspace_slot(at);
        if let Some(surface) = workspace.surface_mut(surface_id) {
            surface.terminal_health = terminal_health;
        }
        self.touch();
        Ok(workspace_id)
    }

    /// A surface's text, or its last lines.
    pub fn read_terminal_text(&self, surface_id: SurfaceId, line_limit: Option<usize>) -> (result:
        Result<(WorkspaceId, String), String>)
        ensures
            read_result(result) == self@.read_terminal_text(surface_id, line_limit),
    {
        let at = match self.target_index(surface_id) {
            Some(at) => at,
            None => {
                return Err(not_found("surface", surface_id));
            },
        };
        let workspace_id = match self.locate_surface(surface_id) {
            Some((workspace_id, _)) => workspace_id,
            None => {
                return Err(not_found("surface", surface_id));
            },
        };
        match self.workspaces[at].surface(surface_id) {
            None => Err(not_found("surface", surface_id)),
            Some(surface) => {
                let content = match line_limit {
                    Some(limit) => {
                        let lines = line_texts(surface.transcript.as_str());
                        proof {
                            assert(text::texts(lines@).len() == lines@.len());
                        }
                        let from: usize = if lines.len() > limit {
                            lines.len() - limit
                        } else {
                            0
                        };
                        glue_from(&lines, "\n", from)
                    },
                    None => surface.transcript.clone(),
                };
                Ok((workspace_id, content))
            },
        }
    }

    /// Flashes a surface, which then asks for attention; tells how often it was flashed.
    pub fn trigger_flash(&mut self, surface_id: SurfaceId) -> (result: Result<
        (WorkspaceId, PaneId, u64),
        String,
    >)
        ensures
            final(self)@ == old(self)@.trigger_flash(surface_id).0,
            text::text_result(result) == old(self)@.trigger_flash(surface_id).1,
    {
        let at = match self.target_index(surface_id) {
            Some(at) => at,
            None => {
                return Err(not_found("surface", surface_id));
            },
        };
        let (workspace_id, pane_id) = match self.locate_surface(surface_id) {
            Some(place) => place,
            None => {
                return Err(not_found("surface", surface_id));
            },
        };
        let workspace = self.workspace_slot(at);
        match workspace.surface_mut(surface_id) {
            None => Err(not_found("surface", surface_id)),
            Some(surface) => {
                let count: u64 = surface.flash_count.saturating_add(1);
                surface.flash_count = count;
                surface.unread_notification = true;
                surface.sync_unread();
                self.touch();
                Ok((workspace_id, pane_id, count))
            },
        }
    }

    /// Adds a notification, with this identifier; the surface it is about asks for attention.
    pub fn create_notification_with_ids(
        &mut self,
        drawn: Drawn,
        workspace_id: WorkspaceId,
        surface_id: Option<SurfaceId>,
        title: String,
        subtitle: String,
        body: String,
        delivered: bool,
    ) -> (result: Result<NotificationId, String>)
        ensures
            final(self)@ == old(self)@.create_notification(
                drawn,
                workspace_id,
                surface_id,
                title@,
                subtitle@,
                body@,
                delivered,
            ).0,
            text::text_result(result) == old(self)@.create_notification(
                drawn,
                workspace_id,
                surface_id,
                title@,
                subtitle@,
                body@,
                delivered,
            ).1,
    {
        let at = match self.workspace_index(workspace_id) {
            Some(at) => at,
            None => {
                return Err(not_found("workspace", workspace_id));
            },
        };
        if let Some(id) = surface_id {
            if self.workspaces[at].surface(id).is_none() {
                return Err(not_found("surface", id));
            }
            let workspace = self.workspace_slot(at);
            if let Some(surface) = workspace.surface_mut(id) {
                surface.unread_notification = true;
                surface.sync_unread();
            }
        }
        let ghost marked = self@;
        let notification = Notification {
            id: drawn.notification,
            workspace_id,
            surface_id,
            is_read: false,
            title,
            subtitle,
            body,
            delivered,
        };
        let ghost added = notification@;
        self.notifications.push(notification);
        proof {
            assert(self@ =~= StateView {
                notifications: marked.notifications.push(added),
                ..marked
            });
        }
        self.touch();
        Ok(drawn.notification)
    }

    /// Adds a notification; the surface it is about asks for attention.
    pub fn create_notification(
        &mut self,
        workspace_id: WorkspaceId,
        surface_id: Option<SurfaceId>,
        title: String,
        subtitle: String,
        body: String,
        delivered: bool,
    ) -> (result: Result<NotificationId, String>)
        ensures
            exists|drawn: Drawn|
                drawn.usable() && final(self)@ == (#[trigger] old(self)@.create_notification(
                    drawn,
                    workspace_id,
                    surface_id,
                    title@,
                    subtitle@,
                    body@,
                    delivered,
                )).0 && text::text_result(result) == old(self)@.create_notification(
                    drawn,
                    workspace_id,
                    surface_id,
                    title@,
                    subtitle@,
                    body@,
                    delivered,
                ).1,
    {
        self.create_notification_with_ids(
            Drawn::draw(),
            workspace_id,
            surface_id,
            title,
            subtitle,
            body,
            delivered,
        )
    }

    /// Deletes the notifications; no surface asks for attention because of one.
    pub fn clear_notifications(&mut self)
        ensures
            final(self)@ == old(self)@.clear_notifications(),
    {
        let ghost before = self@;
        let mut at: usize = 0;
        while at < self.workspaces.len()
            invariant
                at <= before.workspaces.len(),
                self@ == (StateView { workspaces: self@.workspaces, ..before }),
                self@.workspaces.len() == before.workspaces.len(),
                forall|k: int|
                    0 <= k < at ==> self@.workspaces[k] == before.workspaces[k].quieted(),
                forall|k: int|
                    at <= k < before.workspaces.len() ==> self@.workspaces[k]
                        == before.workspaces[k],
            decreases before.workspaces.len() - at,
        {
            proof {
                assert(self@.workspaces[at as int] == before.workspaces[at as int]);
            }
            self.workspace_slot(at).quiet();
            at = at + 1;
        }
        self.notifications = Vec::new();
        proof {
            assert(self@ =~= StateView {
                workspaces: Seq::new(
                    before.workspaces.len(),
                    |k: int| before.workspaces[k].quieted(),
                ),
                notifications: Seq::empty(),
                ..before
            });
        }
        self.touch();
    }

    /// How often a surface was flashed.
    pub fn flash_count(&self, surface_id: SurfaceId) -> (result: Result<u64, String>)
        ensures
            text::text_result(result) == self@.flash_count(surface_id),
    {
        match self.target_index(surface_id) {
            None => Err(not_found("surface", surface_id)),
            Some(at) => match self.workspaces[at].surface(surface_id) {
                None => Err(not_found("surface", surface_id)),
                Some(surface) => Ok(surface.flash_count),
            },
        }
    }

    /// Forgets all flashes.
    pub fn reset_flash_counts(&mut self)
        ensures
            final(self)@ == old(self)@.reset_flash_counts(),
    {
        let ghost before = self@;
        let mut changed: bool = false;
        let mut at: usize = 0;
        while at < self.workspaces.len()
            invariant
                at <= before.workspaces.len(),
                self@ == (StateView { workspaces: self@.workspaces, ..before }),
                self@.workspaces.len() == before.workspaces.len(),
                forall|k: int|
                    0 <= k < at ==> self@.workspaces[k] == before.workspaces[k].unflashed(),
                forall|k: int|
                    at <= k < before.workspaces.len() ==> self@.workspaces[k]
                        == before.workspaces[k],
                changed == exists|k: int|
                    0 <= k < at && (#[trigger] before.workspaces[k]).has_flashes(),
            decreases before.workspaces.len() - at,
        {
            proof {
                assert(self@.workspaces[at as int] == before.workspaces[at as int]);
            }
            if self.workspace_slot(at).forget_flashes() {
                changed = true;
            }
            at = at + 1;
        }
        proof {
            assert(self@.workspaces =~= Seq::new(
                before.workspaces.len(),
                |k: int| before.workspaces[k].unflashed(),
            ));
        }
        if changed {
            self.touch();
        }
    }
}

} // verus!
