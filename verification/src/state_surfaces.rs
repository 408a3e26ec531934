//! Making, closing, moving and splitting panes and surfaces.

use crate::ids;
use crate::ids::{not_found, unless_nil, Drawn, PaneId, SurfaceId, WindowId, WorkspaceId};
use crate::layout::{SplitOrientation, WorkspaceLayout};
use crate::state;
use crate::state::{AppState, StateView};
use crate::surface;
use crate::surface::{copy_surfaces, Pane, PaneView, Surface, SurfaceView};
use crate::text;
use crate::text::{copy_opt, same_text, trim};
use crate::workspace;
use crate::workspace::{Workspace, WorkspaceView};
use vstd::prelude::*;

verus! {

/// The contents of what [`AppState::clear_surface_title`] gives.
pub open spec fn titled_result(
    result: Result<(WorkspaceId, PaneId, String), String>,
) -> Result<(WorkspaceId, PaneId, Seq<char>), Seq<char>> {
    match result {
        Ok((workspace_id, pane_id, title)) => Ok((workspace_id, pane_id, title@)),
        Err(message) => Err(message@),
    }
}

impl WorkspaceView {
    /// The workspace in which the panes at two places have exchanged their surfaces.
    pub open spec fn swapped(self, a: int, b: int) -> WorkspaceView {
        let first = self.panes[a];
        let second = self.panes[b];
        WorkspaceView {
            panes: self.panes.update(
                a,
                PaneView {
                    surfaces: second.surfaces,
                    selected_surface_id: second.selected_surface_id,
                    ..first
                },
            ).update(
                b,
                PaneView {
                    surfaces: first.surfaces,
                    selected_surface_id: first.selected_surface_id,
                    ..second
                },
            ),
            ..self
        }
    }
}

impl StateView {
    /// The places of the workspace, the pane and the surface that an operation on this tab
    /// reaches.
    pub open spec fn tab(self, surface_id: SurfaceId) -> Result<(int, int, int), Seq<char>> {
        match self.locate_surface(surface_id) {
            None => Err(ids::not_found_text("surface"@, surface_id)),
            Some((workspace_id, pane_id)) => {
                let at = self.workspace_at(workspace_id)->0;
                let workspace = self.workspaces[at];
                match workspace.pane_at(pane_id) {
                    None => Err(ids::not_found_text("pane"@, pane_id)),
                    Some(place) => match workspace.panes[place].surface_at(surface_id) {
                        None => Err(ids::not_found_text("surface"@, surface_id)),
                        Some(tab) => Ok((at, place, tab)),
                    },
                }
            },
        }
    }

    /// The surface at these places.
    pub open spec fn surface_in_tab(self, at: (int, int, int)) -> SurfaceView {
        self.workspaces[at.0].panes[at.1].surfaces[at.2]
    }

    /// The state with another surface at these places.
    pub open spec fn with_tab(self, at: (int, int, int), surface: SurfaceView) -> StateView {
        let workspace = self.workspaces[at.0];
        let pane = workspace.panes[at.1];
        self.with_workspace(at.0, workspace.with_pane(at.1, pane.with_surface(at.2, surface)))
    }

    /// Renames a surface, without the white space around the title.
    pub open spec fn rename_surface(self, surface_id: SurfaceId, title: Seq<char>) -> (
        StateView,
        Result<(WorkspaceId, PaneId), Seq<char>>,
    ) {
        let name = text::trimmed(title);
        if name.len() == 0 {
            (self, Err("surface title cannot be empty"@))
        } else {
            match self.tab(surface_id) {
                Err(message) => (self, Err(message)),
                Ok(at) => {
                    let surface = self.surface_in_tab(at);
                    (
                        if surface.title == name {
                            self
                        } else {
                            self.with_tab(at, SurfaceView { title: name, ..surface }).touched()
                        },
                        Ok(self.locate_surface(surface_id)->0),
                    )
                },
            }
        }
    }

    /// Gives a surface the title of the next terminal.
    pub open spec fn clear_surface_title(self, surface_id: SurfaceId) -> (
        StateView,
        Result<(WorkspaceId, PaneId, Seq<char>), Seq<char>>,
    ) {
        match self.numbered_terminal().rename_surface(surface_id, self.terminal_title()) {
            (next, Err(message)) => (next, Err(message)),
            (next, Ok((workspace_id, pane_id))) => (
                next,
                Ok((workspace_id, pane_id, self.terminal_title())),
            ),
        }
    }

    /// A surface asks for attention because its text changed.
    pub open spec fn mark_surface_unread(self, surface_id: SurfaceId) -> (
        StateView,
        Result<(WorkspaceId, PaneId), Seq<char>>,
    ) {
        match self.tab(surface_id) {
            Err(message) => (self, Err(message)),
            Ok(at) => {
                let surface = self.surface_in_tab(at);
                (
                    self.with_tab(
                        at,
                        surface.attention(true, surface.unread_notification),
                    ).touched(),
                    Ok(self.locate_surface(surface_id)->0),
                )
            },
        }
    }

    /// A surface asks for no attention.
    pub open spec fn mark_surface_read(self, surface_id: SurfaceId) -> (
        StateView,
        Result<(WorkspaceId, PaneId), Seq<char>>,
    ) {
        match self.tab(surface_id) {
            Err(message) => (self, Err(message)),
            Ok(at) => (
                self.with_tab(at, self.surface_in_tab(at).attention(false, false)).touched(),
                Ok(self.locate_surface(surface_id)->0),
            ),
        }
    }

    /// Puts the focus on a surface that was moved, or counts the change; tells where it is now.
    pub open spec fn settled(
        self,
        workspace_id: WorkspaceId,
        pane_id: PaneId,
        surface_id: SurfaceId,
        focus: bool,
    ) -> (StateView, Result<(WorkspaceId, PaneId, SurfaceId), Seq<char>>) {
        if focus {
            match self.focus_surface(surface_id) {
                (next, Err(message)) => (next, Err(message)),
                (next, Ok(_)) => (next, Ok((workspace_id, pane_id, surface_id))),
            }
        } else {
            (self.touched(), Ok((workspace_id, pane_id, surface_id)))
        }
    }

    /// Whether the only thing in a workspace is one surface.
    pub open spec fn lone(self, at: int) -> bool {
        self.workspaces[at].panes.len() == 1 && self.workspaces[at].panes[0].surfaces.len() == 1
    }

    /// Takes a surface out of the workspace at `at`. A workspace that holds nothing else goes with
    /// it; its window shows another one, or a new one.
    pub open spec fn extracted(self, drawn: Drawn, at: int, surface_id: SurfaceId) -> (
        StateView,
        Result<SurfaceView, Seq<char>>,
    ) {
        let workspace = self.workspaces[at];
        if self.lone(at) {
            let rest = self.without_workspace(at);
            let filled = rest.bereft(
                drawn,
                workspace.window_id,
                workspace.id,
                rest.workspace_ids_in(workspace.window_id),
                false,
            );
            (
                if filled.window_id == workspace.window_id {
                    filled.synced_from(workspace.window_id)
                } else {
                    filled
                },
                Ok(workspace.panes[0].surfaces[0]),
            )
        } else {
            let (next, result) = workspace.remove_surface_for_move(surface_id);
            (self.with_workspace(at, next), result)
        }
    }

    /// Moves a surface to a place in a pane.
    pub open spec fn move_surface(
        self,
        drawn: Drawn,
        surface_id: SurfaceId,
        workspace_id: WorkspaceId,
        pane_id: PaneId,
        index: int,
        focus: bool,
    ) -> (StateView, Result<(WorkspaceId, PaneId, SurfaceId), Seq<char>>) {
        match self.locate_surface(surface_id) {
            None => (self, Err(ids::not_found_text("surface"@, surface_id))),
            Some((source_id, source_pane_id)) => {
                let at = self.workspace_at(source_id)->0;
                if source_id == workspace_id && source_pane_id == pane_id {
                    let (workspace, result) = self.workspaces[at].reorder_surface(
                        surface_id,
                        index,
                    );
                    let next = self.with_workspace(at, workspace);
                    match result {
                        Err(message) => (next, Err(message)),
                        Ok(_) => next.settled(workspace_id, pane_id, surface_id, focus),
                    }
                } else {
                    match self.extracted(drawn, at, surface_id) {
                        (taken, Err(message)) => (taken, Err(message)),
                        (taken, Ok(surface)) => match taken.workspace_at(workspace_id) {
                            None => (
                                taken,
                                Err(ids::not_found_text("workspace"@, workspace_id)),
                            ),
                            Some(place) => {
                                let (workspace, result) = taken.workspaces[place].insert_surface(
                                    pane_id,
                                    surface,
                                    index,
                                    focus,
                                );
                                let next = taken.with_workspace(place, workspace);
                                match result {
                                    Err(message) => (next, Err(message)),
                                    Ok(_) => next.settled(
                                        workspace_id,
                                        pane_id,
                                        surface_id,
                                        focus,
                                    ),
                                }
                            },
                        },
                    }
                }
            },
        }
    }

    /// Two panes of a workspace exchange their surfaces.
    pub open spec fn swap_panes(self, pane_id: PaneId, target: PaneId, focus: bool) -> (
        StateView,
        Result<WorkspaceId, Seq<char>>,
    ) {
        match self.owner(pane_id) {
            None => (self, Err(ids::not_found_text("pane"@, pane_id))),
            Some(owner) => match self.owner(target) {
                None => (self, Err(ids::not_found_text("pane"@, target))),
                Some(other) => {
                    let workspace_id = self.workspaces[owner].id;
                    if workspace_id != self.workspaces[other].id {
                        (self, Err("pane.swap requires panes in the same workspace"@))
                    } else {
                        let at = self.workspace_at(workspace_id)->0;
                        let workspace = self.workspaces[at];
                        match workspace.pane_at(pane_id) {
                            None => (self, Err(ids::not_found_text("pane"@, pane_id))),
                            Some(a) => match workspace.pane_at(target) {
                                None => (self, Err(ids::not_found_text("pane"@, target))),
                                Some(b) => {
                                    let swapped = workspace.swapped(a, b);
                                    (
                                        if focus {
                                            self.with_workspace(
                                                at,
                                                swapped.focus_pane(target).0,
                                            ).select_workspace(workspace_id).0
                                        } else {
                                            self.with_workspace(at, swapped).touched()
                                        },
                                        Ok(workspace_id),
                                    )
                                },
                            },
                        }
                    }
                },
            },
        }
    }

    /// Moves a surface into a new workspace of the same window.
    pub open spec fn break_surface(self, drawn: Drawn, surface_id: SurfaceId, focus: bool) -> (
        StateView,
        Result<WorkspaceId, Seq<char>>,
    ) {
        match self.locate_surface(surface_id) {
            None => (self, Err(ids::not_found_text("surface"@, surface_id))),
            Some((source_id, _)) => {
                let at = self.workspace_at(source_id)->0;
                let source = self.workspaces[at];
                let own = match source.surface(surface_id) {
                    Some(surface) => surface.current_directory,
                    None => None,
                };
                let (rest, result) = source.remove_surface_for_move(surface_id);
                let taken = self.with_workspace(at, rest);
                match result {
                    Err(message) => (taken, Err(message)),
                    Ok(surface) => {
                        let pane = PaneView {
                            id: drawn.pane,
                            surfaces: seq![surface],
                            selected_surface_id: surface_id,
                        };
                        let workspace = WorkspaceView {
                            id: drawn.workspace,
                            window_id: source.window_id,
                            title: self.workspace_title(),
                            current_directory: if own is Some {
                                own
                            } else {
                                source.current_directory
                            },
                            layout: WorkspaceLayout::Pane(drawn.pane),
                            panes: seq![pane],
                            selected_pane_id: drawn.pane,
                            last_selected_pane_id: None,
                        };
                        let added = StateView {
                            workspaces: taken.workspaces.push(workspace),
                            ..taken.numbered_workspace()
                        };
                        let shown = match added.window(source.window_id) {
                            Some(window) => added.pointing(
                                source.window_id,
                                if focus {
                                    drawn.workspace
                                } else {
                                    window.selected_workspace_id
                                },
                                ids::non_nil(window.selected_workspace_id),
                            ),
                            None => added,
                        };
                        if focus {
                            match shown.synced_from(source.window_id).focus_surface(surface_id) {
                                (next, Err(message)) => (next, Err(message)),
                                (next, Ok(_)) => (next, Ok(drawn.workspace)),
                            }
                        } else {
                            (shown.touched(), Ok(drawn.workspace))
                        }
                    },
                }
            },
        }
    }

    /// After something was made in a workspace: if it is to have the focus, its window shows the
    /// workspace and becomes the current one.
    pub open spec fn followed(
        self,
        window_id: WindowId,
        workspace_id: WorkspaceId,
        focus: bool,
    ) -> StateView {
        if focus {
            let shown = self.showing(window_id, workspace_id);
            if self.window_id != window_id || self.selected_workspace_id != workspace_id {
                shown.synced_from(window_id).touched()
            } else {
                shown.touched()
            }
        } else {
            self.touched()
        }
    }

    /// Splits a pane of a workspace, the selected one where none is given; the new pane holds the
    /// next terminal.
    pub open spec fn split_workspace_pane(
        self,
        drawn: Drawn,
        workspace_id: WorkspaceId,
        pane_id: Option<PaneId>,
        orientation: SplitOrientation,
        insert_first: bool,
        focus: bool,
    ) -> (StateView, Result<(WorkspaceId, PaneId, SurfaceId), Seq<char>>) {
        let numbered = self.numbered_terminal();
        match self.workspace_at(workspace_id) {
            None => (numbered, Err(ids::not_found_text("workspace"@, workspace_id))),
            Some(at) => {
                let workspace = self.workspaces[at];
                let target = match pane_id {
                    Some(id) => id,
                    None => workspace.selected_pane_id,
                };
                let (split, result) = workspace.split_pane(
                    target,
                    orientation,
                    insert_first,
                    focus,
                    self.fresh_pane(drawn),
                );
                let next = numbered.with_workspace(at, split);
                match result {
                    Err(message) => (next, Err(message)),
                    Ok(_) => (
                        next.followed(workspace.window_id, workspace_id, focus),
                        Ok((workspace_id, drawn.pane, drawn.surface)),
                    ),
                }
            },
        }
    }

    /// Splits the pane that holds a surface.
    pub open spec fn split_surface(
        self,
        drawn: Drawn,
        surface_id: SurfaceId,
        orientation: SplitOrientation,
        insert_first: bool,
        focus: bool,
    ) -> (StateView, Result<(WorkspaceId, PaneId, SurfaceId), Seq<char>>) {
        match self.locate_surface(surface_id) {
            None => (self, Err(ids::not_found_text("surface"@, surface_id))),
            Some((workspace_id, pane_id)) => self.split_workspace_pane(
                drawn,
                workspace_id,
                Some(pane_id),
                orientation,
                insert_first,
                focus,
            ),
        }
    }

    /// Adds the next terminal to a pane, after the other tabs.
    pub open spec fn create_surface(
        self,
        drawn: Drawn,
        workspace_id: WorkspaceId,
        pane_id: PaneId,
        focus: bool,
    ) -> (StateView, Result<(WorkspaceId, PaneId, SurfaceId), Seq<char>>) {
        let numbered = self.numbered_terminal();
        match self.workspace_at(workspace_id) {
            None => (numbered, Err(ids::not_found_text("workspace"@, workspace_id))),
            Some(at) => {
                let workspace = self.workspaces[at];
                let (grown, result) = workspace.create_surface(
                    pane_id,
                    self.fresh_surface(drawn),
                    focus,
                );
                let next = numbered.with_workspace(at, grown);
                match result {
                    Err(message) => (next, Err(message)),
                    Ok(_) => (
                        next.followed(workspace.window_id, workspace_id, focus),
                        Ok((workspace_id, pane_id, drawn.surface)),
                    ),
                }
            },
        }
    }

    /// Adds the next terminal to the selected pane of the current workspace.
    pub open spec fn create_selected_surface(self, drawn: Drawn) -> (
        StateView,
        Result<(WorkspaceId, PaneId, SurfaceId), Seq<char>>,
    ) {
        match self.current_pane_id() {
            None => (self, Err("no selected workspace"@)),
            Some(pane_id) => self.create_surface(
                drawn,
                self.selected_workspace_id,
                pane_id,
                true,
            ),
        }
    }

    /// Closes a surface of a workspace; tells the pane it was in and whether the pane went with
    /// it.
    pub open spec fn close_surface(self, workspace_id: WorkspaceId, surface_id: SurfaceId) -> (
        StateView,
        Result<(WorkspaceId, PaneId, bool), Seq<char>>,
    ) {
        match self.workspace_at(workspace_id) {
            None => (self, Err(ids::not_found_text("workspace"@, workspace_id))),
            Some(at) => {
                let (workspace, result) = self.workspaces[at].close_surface(surface_id);
                let next = self.with_workspace(at, workspace);
                match result {
                    Err(message) => (next, Err(message)),
                    Ok((pane_id, removed_pane)) => (
                        next.touched(),
                        Ok((workspace_id, pane_id, removed_pane)),
                    ),
                }
            },
        }
    }

    /// Closes the selected surface of the current workspace.
    pub open spec fn close_selected_surface(self) -> (
        StateView,
        Result<(WorkspaceId, PaneId, bool), Seq<char>>,
    ) {
        match self.current_surface_id() {
            None => (self, Err("no focused surface"@)),
            Some(surface_id) => self.close_surface(self.selected_workspace_id, surface_id),
        }
    }
}

impl AppState {
    /// The places of the workspace, the pane and the surface that an operation on this tab
    /// reaches.
    pub fn tab_index(&self, surface_id: SurfaceId) -> (result: Result<
        (usize, usize, usize),
        String,
    >)
        ensures
            match result {
                Ok((at, place, tab)) => self@.tab(surface_id) == Ok::<(int, int, int), Seq<char>>(
                    (at as int, place as int, tab as int),
                ) && at < self@.workspaces.len() && place < self@.workspaces[at as int].panes.len()
                    && tab < self@.workspaces[at as int].panes[place as int].surfaces.len()
                    && self@.locate_surface(surface_id) is Some,
                Err(message) => self@.tab(surface_id) == Err::<(int, int, int), Seq<char>>(
                    message@,
                ),
            },
    {
        let found = match self.located_index(surface_id) {
            Some(at) => at,
            None => {
                return Err(not_found("surface", surface_id));
            },
        };
        let holder = match self.workspaces[found].holder_index(surface_id) {
            Some(at) => at,
            None => {
                return Err(not_found("surface", surface_id));
            },
        };
        let workspace_id = self.workspaces[found].id;
        let pane_id = self.workspaces[found].panes[holder].id;
        proof {
            state::lemma_workspace_found(self@.workspaces, found as int, 0);
        }
        let at = match self.workspace_index(workspace_id) {
            Some(at) => at,
            None => {
                return Err(not_found("workspace", workspace_id));
            },
        };
        match self.workspaces[at].pane_index(pane_id) {
            None => Err(not_found("pane", pane_id)),
            Some(place) => match self.workspaces[at].panes[place].surface_index(surface_id) {
                None => Err(not_found("surface", surface_id)),
                Some(tab) => Ok((at, place, tab)),
            },
        }
    }

    /// Gives access to the surface at these places.
    pub fn tab_slot(&mut self, at: usize, place: usize, tab: usize) -> (surface: &mut Surface)
        requires
            at < old(self)@.workspaces.len(),
            place < old(self)@.workspaces[at as int].panes.len(),
            tab < old(self)@.workspaces[at as int].panes[place as int].surfaces.len(),
        ensures
            surface@ == old(self)@.surface_in_tab((at as int, place as int, tab as int)),
            final(self)@ == old(self)@.with_tab(
                (at as int, place as int, tab as int),
                final(surface)@,
            ),
    {
        self.workspace_slot(at).pane_slot(place).surface_slot(tab)
    }

    fn place_of_surface(&self, surface_id: SurfaceId) -> (result: Result<
        (WorkspaceId, PaneId),
        String,
    >)
        requires
            self@.locate_surface(surface_id) is Some,
        ensures
            text::text_result(result) == Ok::<(WorkspaceId, PaneId), Seq<char>>(
                self@.locate_surface(surface_id)->0,
            ),
    {
        match self.locate_surface(surface_id) {
            Some(place) => Ok(place),
            None => Err(not_found("surface", surface_id)),
        }
    }

    /// Renames a surface, without the white space around the title.
    pub fn rename_surface(&mut self, surface_id: SurfaceId, title: String) -> (result: Result<
        (WorkspaceId, PaneId),
        String,
    >)
        ensures
            final(self)@ == old(self)@.rename_surface(surface_id, title@).0,
            text::text_result(result) == old(self)@.rename_surface(surface_id, title@).1,
    {
        let trimmed = trim(title.as_str());
        if trimmed.as_str().is_empty() {
            return Err("surface title cannot be empty".to_owned());
        }
        let (at, place, tab) = match self.tab_index(surface_id) {
            Ok(found) => found,
            Err(message) => {
                return Err(message);
            },
        };
        let result = self.place_of_surface(surface_id);
        if same_text(
            self.workspaces[at].panes[place].surfaces[tab].title.as_str(),
            trimmed.as_str(),
        ) {
            return result;
        }
        self.tab_slot(at, place, tab).title = trimmed;
        self.touch();
        result
    }

    /// Gives a surface the title of the next terminal; tells the title.
    pub fn clear_surface_title(&mut self, surface_id: SurfaceId) -> (result: Result<
        (WorkspaceId, PaneId, String),
        String,
    >)
        requires
            old(self)@.next_surface_title_number < usize::MAX,
        ensures
            final(self)@ == old(self)@.clear_surface_title(surface_id).0,
            titled_result(result) == old(self)@.clear_surface_title(surface_id).1,
    {
        let default_title = self.next_terminal_title();
        match self.rename_surface(surface_id, default_title.clone()) {
            Ok((workspace_id, pane_id)) => Ok((workspace_id, pane_id, default_title)),
            Err(message) => Err(message),
        }
    }

    /// A surface asks for attention because its text changed.
    pub fn mark_surface_unread(&mut self, surface_id: SurfaceId) -> (result: Result<
        (WorkspaceId, PaneId),
        String,
    >)
        ensures
            final(self)@ == old(self)@.mark_surface_unread(surface_id).0,
            text::text_result(result) == old(self)@.mark_surface_unread(surface_id).1,
    {
        let (at, place, tab) = match self.tab_index(surface_id) {
            Ok(found) => found,
            Err(message) => {
                return Err(message);
            },
        };
        let result = self.place_of_surface(surface_id);
        let surface = self.tab_slot(at, place, tab);
        surface.unread_activity = true;
        surface.sync_unread();
        self.touch();
        result
    }

    /// A surface asks for no attention.
    pub fn mark_surface_read(&mut self, surface_id: SurfaceId) -> (result: Result<
        (WorkspaceId, PaneId),
        String,
    >)
        ensures
            final(self)@ == old(self)@.mark_surface_read(surface_id).0,
            text::text_result(result) == old(self)@.mark_surface_read(surface_id).1,
    {
        let (at, place, tab) = match self.tab_index(surface_id) {
            Ok(found) => found,
            Err(message) => {
                return Err(message);
            },
        };
        let result = self.place_of_surface(surface_id);
        self.tab_slot(at, place, tab).set_attention(false, false);
        self.touch();
        result
    }

    fn settle(
        &mut self,
        workspace_id: WorkspaceId,
        pane_id: PaneId,
        surface_id: SurfaceId,
        focus: bool,
    ) -> (result: Result<(WorkspaceId, PaneId, SurfaceId), String>)
        ensures
            final(self)@ == old(self)@.settled(workspace_id, pane_id, surface_id, focus).0,
            text::text_result(result) == old(self)@.settled(
                workspace_id,
                pane_id,
                surface_id,
                focus,
            ).1,
    {
        if focus {
            match self.focus_surface(surface_id) {
                Ok(_) => Ok((workspace_id, pane_id, surface_id)),
                Err(message) => Err(message),
            }
        } else {
            self.touch();
            Ok((workspace_id, pane_id, surface_id))
        }
    }

    fn extract(&mut self, drawn: Drawn, at: usize, surface_id: SurfaceId) -> (result: Result<
        Surface,
        String,
    >)
        requires
            at < old(self)@.workspaces.len(),
            old(self)@.has_room(),
        ensures
            final(self)@ == old(self)@.extracted(drawn, at as int, surface_id).0,
            crate::workspace_ops::surface_result(result) == old(self)@.extracted(
                drawn,
                at as int,
                surface_id,
            ).1,
    {
        let lone = self.workspaces[at].panes.len() == 1
            && self.workspaces[at].panes[0].surfaces.len() == 1;
        if lone {
            let mut workspace = self.workspaces.remove(at);
            proof {
                assert(self@ =~= old(self)@.without_workspace(at as int));
                assert(workspace@ == old(self)@.workspaces[at as int]);
                assert(workspace@.panes.len() == 1);
                assert(workspace@.panes[0].surfaces.len() == 1);
            }
            let window_id = workspace.window_id;
            let workspace_id = workspace.id;
            let mut pane = workspace.panes.remove(0);
            let moved_surface = pane.surfaces.remove(0);
            let remaining = self.workspace_ids_in(window_id);
            self.bereave_window(drawn, window_id, workspace_id, &remaining, false);
            if self.window_id == window_id {
                self.sync_global_selection_from_window(window_id);
            }
            Ok(moved_surface)
        } else {
            self.workspace_slot(at).remove_surface_for_move(surface_id)
        }
    }

    /// Moves a surface to a place in a pane, with these identifiers for what takes the place of
    /// its workspace.
    pub fn move_surface_with_ids(
        &mut self,
        drawn: Drawn,
        surface_id: SurfaceId,
        destination_workspace_id: WorkspaceId,
        destination_pane_id: PaneId,
        target_index: usize,
        focus: bool,
    ) -> (result: Result<(WorkspaceId, PaneId, SurfaceId), String>)
        requires
            old(self)@.has_room(),
        ensures
            final(self)@ == old(self)@.move_surface(
                drawn,
                surface_id,
                destination_workspace_id,
                destination_pane_id,
                target_index as int,
                focus,
            ).0,
            text::text_result(result) == old(self)@.move_surface(
                drawn,
                surface_id,
                destination_workspace_id,
                destination_pane_id,
                target_index as int,
                focus,
            ).1,
    {
        let found = match self.located_index(surface_id) {
            Some(at) => at,
            None => {
                return Err(not_found("surface", surface_id));
            },
        };
        let (source_workspace_id, source_pane_id) = match self.locate_surface(surface_id) {
            Some(place) => place,
            None => {
                return Err(not_found("surface", surface_id));
            },
        };
        proof {
            state::lemma_workspace_found(self@.workspaces, found as int, 0);
        }
        let at = match self.workspace_index(source_workspace_id) {
            Some(at) => at,
            None => {
                return Err(not_found("workspace", source_workspace_id));
            },
        };
        if source_workspace_id == destination_workspace_id && source_pane_id
            == destination_pane_id {
            return match self.workspace_slot(at).reorder_surface(surface_id, target_index) {
                Err(message) => Err(message),
                Ok(_) => self.settle(
                    destination_workspace_id,
                    destination_pane_id,
                    surface_id,
                    focus,
                ),
            };
        }
        let moved_surface = match self.extract(drawn, at, surface_id) {
            Ok(surface) => surface,
            Err(message) => {
                return Err(message);
            },
        };
        let outcome = match self.workspace_mut(destination_workspace_id) {
            None => {
                return Err(not_found("workspace", destination_workspace_id));
            },
            Some(workspace) => workspace.insert_surface_in_pane(
                destination_pane_id,
                moved_surface,
                target_index,
                focus,
            ),
        };
        match outcome {
            Err(message) => Err(message),
            Ok(_) => self.settle(destination_workspace_id, destination_pane_id, surface_id, focus),
        }
    }

    /// Moves a surface to a place in a pane. A workspace that holds nothing else goes with it; its
    /// window shows another one, or a new one.
    pub fn move_surface_to_pane(
        &mut self,
        surface_id: SurfaceId,
        destination_workspace_id: WorkspaceId,
        destination_pane_id: PaneId,
        target_index: usize,
        focus: bool,
    ) -> (result: Result<(WorkspaceId, PaneId, SurfaceId), String>)
        requires
            old(self)@.has_room(),
        ensures
            exists|drawn: Drawn|
                drawn.usable() && final(self)@ == (#[trigger] old(self)@.move_surface(
                    drawn,
                    surface_id,
                    destination_workspace_id,
                    destination_pane_id,
                    target_index as int,
                    focus,
                )).0 && text::text_result(result) == old(self)@.move_surface(
                    drawn,
                    surface_id,
                    destination_workspace_id,
                    destination_pane_id,
                    target_index as int,
                    focus,
                ).1,
    {
        self.move_surface_with_ids(
            Drawn::draw(),
            surface_id,
            destination_workspace_id,
            destination_pane_id,
            target_index,
            focus,
        )
    }

    /// Two panes of a workspace exchange their surfaces.
    pub fn swap_panes(&mut self, pane_id: PaneId, target_pane_id: PaneId, focus: bool) -> (result:
        Result<WorkspaceId, String>)
        ensures
            final(self)@ == old(self)@.swap_panes(pane_id, target_pane_id, focus).0,
            text::text_result(result) == old(self)@.swap_panes(pane_id, target_pane_id, focus).1,
    {
        let source = match self.owner_index(pane_id) {
            Some(at) => at,
            None => {
                return Err(not_found("pane", pane_id));
            },
        };
        let other = match self.owner_index(target_pane_id) {
            Some(at) => at,
            None => {
                return Err(not_found("pane", target_pane_id));
            },
        };
        let workspace_id = self.workspaces[source].id;
        if workspace_id != self.workspaces[other].id {
            return Err("pane.swap requires panes in the same workspace".to_owned());
        }
        proof {
            state::lemma_workspace_found(self@.workspaces, source as int, 0);
        }
        let at = match self.workspace_index(workspace_id) {
            Some(at) => at,
            None => {
                return Err(not_found("workspace", workspace_id));
            },
        };
        let source_index = match self.workspaces[at].pane_index(pane_id) {
            Some(index) => index,
            None => {
                return Err(not_found("pane", pane_id));
            },
        };
        let target_index = match self.workspaces[at].pane_index(target_pane_id) {
            Some(index) => index,
            None => {
                return Err(not_found("pane", target_pane_id));
            },
        };
        let workspace = self.workspace_slot(at);
        workspace.swap_surfaces(source_index, target_index);
        if focus {
            let _ = workspace.focus_pane(target_pane_id);
            let _ = self.select_workspace(workspace_id);
        } else {
            self.touch();
        }
        Ok(workspace_id)
    }

    /// Moves a surface into a new workspace of the same window, with these identifiers.
    pub fn break_surface_with_ids(&mut self, drawn: Drawn, surface_id: SurfaceId, focus: bool) -> (
    result: Result<WorkspaceId, String>)
        requires
            old(self)@.has_room(),
        ensures
            final(self)@ == old(self)@.break_surface(drawn, surface_id, focus).0,
            text::text_result(result) == old(self)@.break_surface(drawn, surface_id, focus).1,
    {
        let found = match self.located_index(surface_id) {
            Some(at) => at,
            None => {
                return Err(not_found("surface", surface_id));
            },
        };
        let source_workspace_id = self.workspaces[found].id;
        proof {
            state::lemma_workspace_found(self@.workspaces, found as int, 0);
        }
        let at = match self.workspace_index(source_workspace_id) {
            Some(at) => at,
            None => {
                return Err(not_found("workspace", source_workspace_id));
            },
        };
        let ghost before = self@;
        let window_id = self.workspaces[at].window_id;
        let own: Option<String> = match self.workspaces[at].surface(surface_id) {
            Some(surface) => copy_opt(&surface.current_directory),
            None => None,
        };
        let current_directory: Option<String> = if own.is_some() {
            own
        } else {
            copy_opt(&self.workspaces[at].current_directory)
        };
        let moved_surface = match self.workspace_slot(at).remove_surface_for_move(surface_id) {
            Ok(surface) => surface,
            Err(message) => {
                return Err(message);
            },
        };
        let ghost taken = self@;
        let ghost moved = moved_surface@;
        let title = self.next_workspace_title();
        let mut surfaces: Vec<Surface> = Vec::new();
        surfaces.push(moved_surface);
        let pane = Pane { id: drawn.pane, surfaces, selected_surface_id: surface_id };
        proof {
            assert(pane@.surfaces =~= seq![moved]);
        }
        let ghost pane_view = pane@;
        let mut panes: Vec<Pane> = Vec::new();
        panes.push(pane);
        proof {
            assert(workspace::pane_views(panes@) =~= seq![pane_view]);
        }
        let workspace = Workspace {
            id: drawn.workspace,
            window_id,
            title,
            current_directory,
            layout: WorkspaceLayout::Pane(drawn.pane),
            panes,
            selected_pane_id: drawn.pane,
            last_selected_pane_id: None,
        };
        let ghost workspace_view = workspace@;
        self.workspaces.push(workspace);
        proof {
            assert(self@ =~= StateView {
                workspaces: taken.workspaces.push(workspace_view),
                ..taken.numbered_workspace()
            });
        }
        if let Some(index) = self.window_index(window_id) {
            let selected = self.windows[index].selected_workspace_id;
            let shown = if focus {
                drawn.workspace
            } else {
                selected
            };
            self.point_window(window_id, shown, unless_nil(selected));
        }
        if focus {
            self.sync_global_selection_from_window(window_id);
            match self.focus_surface(surface_id) {
                Ok(_) => Ok(drawn.workspace),
                Err(message) => Err(message),
            }
        } else {
            self.touch();
            Ok(drawn.workspace)
        }
    }

    /// Moves a surface into a new workspace of the same window.
    pub fn break_surface_to_workspace(&mut self, surface_id: SurfaceId, focus: bool) -> (result:
        Result<WorkspaceId, String>)
        requires
            old(self)@.has_room(),
        ensures
            exists|drawn: Drawn|
                drawn.usable() && final(self)@ == (#[trigger] old(self)@.break_surface(
                    drawn,
                    surface_id,
                    focus,
                )).0 && text::text_result(result) == old(self)@.break_surface(
                    drawn,
                    surface_id,
                    focus,
                ).1,
    {
        self.break_surface_with_ids(Drawn::draw(), surface_id, focus)
    }

    fn follow(&mut self, window_id: WindowId, workspace_id: WorkspaceId, focus: bool)
        ensures
            final(self)@ == old(self)@.followed(window_id, workspace_id, focus),
    {
        if focus {
            self.show_in_window(window_id, workspace_id);
            if self.window_id != window_id || self.selected_workspace_id != workspace_id {
                self.sync_global_selection_from_window(window_id);
            }
        }
        self.touch();
    }

    /// Splits a pane of a workspace, with these identifiers for the new pane and its surface.
    pub fn split_workspace_pane(
        &mut self,
        drawn: Drawn,
        workspace_id: WorkspaceId,
        pane_id: Option<PaneId>,
        orientation: SplitOrientation,
        insert_first: bool,
        focus_new: bool,
    ) -> (result: Result<(WorkspaceId, PaneId, SurfaceId), String>)
        requires
            old(self)@.next_surface_title_number < usize::MAX,
        ensures
            final(self)@ == old(self)@.split_workspace_pane(
                drawn,
                workspace_id,
                pane_id,
                orientation,
                insert_first,
                focus_new,
            ).0,
            text::text_result(result) == old(self)@.split_workspace_pane(
                drawn,
                workspace_id,
                pane_id,
                orientation,
                insert_first,
                focus_new,
            ).1,
    {
        let new_pane = self.new_terminal_pane(drawn);
        let index = match self.workspace_index(workspace_id) {
            Some(at) => at,
            None => {
                return Err(not_found("workspace", workspace_id));
            },
        };
        let target_pane_id = match pane_id {
            Some(id) => id,
            None => self.workspaces[index].selected_pane_id,
        };
        let window_id = self.workspaces[index].window_id;
        let outcome = self.workspace_slot(index).split_pane(
            target_pane_id,
            orientation,
            insert_first,
            focus_new,
            new_pane,
        );
        match outcome {
            Err(message) => Err(message),
            Ok(_) => {
                self.follow(window_id, workspace_id, focus_new);
                Ok((workspace_id, drawn.pane, drawn.surface))
            },
        }
    }

    /// Splits the selected pane of the current workspace; the new pane gets the focus.
    pub fn split_selected_pane(&mut self, orientation: SplitOrientation, insert_first: bool) -> (
    result: Result<(WorkspaceId, PaneId, SurfaceId), String>)
        requires
            old(self)@.next_surface_title_number < usize::MAX,
        ensures
            exists|drawn: Drawn|
                drawn.usable() && final(self)@ == (#[trigger] old(self)@.split_workspace_pane(
                    drawn,
                    old(self)@.selected_workspace_id,
                    None,
                    orientation,
                    insert_first,
                    true,
                )).0 && text::text_result(result) == old(self)@.split_workspace_pane(
                    drawn,
                    old(self)@.selected_workspace_id,
                    None,
                    orientation,
                    insert_first,
                    true,
                ).1,
    {
        self.split_selected_pane_with_focus(orientation, insert_first, true)
    }

    /// Splits the selected pane of the current workspace.
    pub fn split_selected_pane_with_focus(
        &mut self,
        orientation: SplitOrientation,
        insert_first: bool,
        focus_new: bool,
    ) -> (result: Result<(WorkspaceId, PaneId, SurfaceId), String>)
        requires
            old(self)@.next_surface_title_number < usize::MAX,
        ensures
            exists|drawn: Drawn|
                drawn.usable() && final(self)@ == (#[trigger] old(self)@.split_workspace_pane(
                    drawn,
                    old(self)@.selected_workspace_id,
                    None,
                    orientation,
                    insert_first,
                    focus_new,
                )).0 && text::text_result(result) == old(self)@.split_workspace_pane(
                    drawn,
                    old(self)@.selected_workspace_id,
                    None,
                    orientation,
                    insert_first,
                    focus_new,
                ).1,
    {
        let workspace_id = self.selected_workspace_id;
        self.split_workspace_pane(
            Drawn::draw(),
            workspace_id,
            None,
            orientation,
            insert_first,
            focus_new,
        )
    }

    /// Splits the pane that holds a surface, with these identifiers.
    pub fn split_surface_with_ids(
        &mut self,
        drawn: Drawn,
        surface_id: SurfaceId,
        orientation: SplitOrientation,
        insert_first: bool,
        focus_new: bool,
    ) -> (result: Result<(WorkspaceId, PaneId, SurfaceId), String>)
        requires
            old(self)@.next_surface_title_number < usize::MAX,
        ensures
            final(self)@ == old(self)@.split_surface(
                drawn,
                surface_id,
                orientation,
                insert_first,
                focus_new,
            ).0,
            text::text_result(result) == old(self)@.split_surface(
                drawn,
                surface_id,
                orientation,
                insert_first,
                focus_new,
            ).1,
    {
        match self.locate_surface(surface_id) {
            None => Err(not_found("surface", surface_id)),
            Some((workspace_id, pane_id)) => self.split_workspace_pane(
                drawn,
                workspace_id,
                Some(pane_id),
                orientation,
                insert_first,
                focus_new,
            ),
        }
    }

    /// Splits the pane that holds a surface.
    pub fn split_surface_with_focus(
        &mut self,
        surface_id: SurfaceId,
        orientation: SplitOrientation,
        insert_first: bool,
        focus_new: bool,
    ) -> (result: Result<(WorkspaceId, PaneId, SurfaceId), String>)
        requires
            old(self)@.next_surface_title_number < usize::MAX,
        ensures
            exists|drawn: Drawn|
                drawn.usable() && final(self)@ == (#[trigger] old(self)@.split_surface(
                    drawn,
                    surface_id,
                    orientation,
                    insert_first,
                    focus_new,
                )).0 && text::text_result(result) == old(self)@.split_surface(
                    drawn,
                    surface_id,
                    orientation,
                    insert_first,
                    focus_new,
                ).1,
    {
        self.split_surface_with_ids(
            Drawn::draw(),
            surface_id,
            orientation,
            insert_first,
            focus_new,
        )
    }

    /// Adds the next terminal to the selected pane of the current workspace, with these
    /// identifiers.
    pub fn create_selected_surface_with_ids(&mut self, drawn: Drawn) -> (result: Result<
        (WorkspaceId, PaneId, SurfaceId),
        String,
    >)
        requires
            old(self)@.next_surface_title_number < usize::MAX,
        ensures
            final(self)@ == old(self)@.create_selected_surface(drawn).0,
            text::text_result(result) == old(self)@.create_selected_surface(drawn).1,
    {
        let workspace_id = self.selected_workspace_id;
        match self.current_pane_id() {
            None => Err("no selected workspace".to_owned()),
            Some(pane_id) => self.create_surface_with_ids(drawn, workspace_id, pane_id, true),
        }
    }

    /// Adds the next terminal to the selected pane of the current workspace.
    pub fn create_surface_in_selected_pane(&mut self) -> (result: Result<
        (WorkspaceId, PaneId, SurfaceId),
        String,
    >)
        requires
            old(self)@.next_surface_title_number < usize::MAX,
        ensures
            exists|drawn: Drawn|
                drawn.usable() && final(self)@ == (#[trigger] old(self)@.create_selected_surface(
                    drawn,
                )).0 && text::text_result(result) == old(self)@.create_selected_surface(drawn).1,
    {
        self.create_selected_surface_with_ids(Drawn::draw())
    }

    /// Adds the next terminal to a pane, after the other tabs, with these identifiers.
    pub fn create_surface_with_ids(
        &mut self,
        drawn: Drawn,
        workspace_id: WorkspaceId,
        pane_id: PaneId,
        focus_new: bool,
    ) -> (result: Result<(WorkspaceId, PaneId, SurfaceId), String>)
        requires
            old(self)@.next_surface_title_number < usize::MAX,
        ensures
            final(self)@ == old(self)@.create_surface(drawn, workspace_id, pane_id, focus_new).0,
            text::text_result(result) == old(self)@.create_surface(
                drawn,
                workspace_id,
                pane_id,
                focus_new,
            ).1,
    {
        let surface = self.new_terminal_surface(drawn);
        let index = match self.workspace_index(workspace_id) {
            Some(at) => at,
            None => {
                return Err(not_found("workspace", workspace_id));
            },
        };
        let window_id = self.workspaces[index].window_id;
        let outcome = self.workspace_slot(index).create_surface_in_pane(
            pane_id,
            surface,
            focus_new,
        );
        match outcome {
            Err(message) => Err(message),
            Ok(_) => {
                self.follow(window_id, workspace_id, focus_new);
                Ok((workspace_id, pane_id, drawn.surface))
            },
        }
    }

    /// Adds the next terminal to a pane, after the other tabs.
    pub fn create_surface_in_pane_with_focus(
        &mut self,
        workspace_id: WorkspaceId,
        pane_id: PaneId,
        focus_new: bool,
    ) -> (result: Result<(WorkspaceId, PaneId, SurfaceId), String>)
        requires
            old(self)@.next_surface_title_number < usize::MAX,
        ensures
            exists|drawn: Drawn|
                drawn.usable() && final(self)@ == (#[trigger] old(self)@.create_surface(
                    drawn,
                    workspace_id,
                    pane_id,
                    focus_new,
                )).0 && text::text_result(result) == old(self)@.create_surface(
                    drawn,
                    workspace_id,
                    pane_id,
                    focus_new,
                ).1,
    {
        self.create_surface_with_ids(Drawn::draw(), workspace_id, pane_id, focus_new)
    }

    /// Closes the selected surface of the current workspace.
    pub fn close_selected_surface(&mut self) -> (result: Result<(WorkspaceId, PaneId, bool), String>)
        ensures
            final(self)@ == old(self)@.close_selected_surface().0,
            text::text_result(result) == old(self)@.close_selected_surface().1,
    {
        let workspace_id = self.selected_workspace_id;
        match self.current_surface_id() {
            None => Err("no focused surface".to_owned()),
            Some(surface_id) => self.close_surface(workspace_id, surface_id),
        }
    }

    /// Closes a surface of a workspace; tells the pane it was in and whether the pane went with
    /// it.
    pub fn close_surface(&mut self, workspace_id: WorkspaceId, surface_id: SurfaceId) -> (result:
        Result<(WorkspaceId, PaneId, bool), String>)
        ensures
            final(self)@ == old(self)@.close_surface(workspace_id, surface_id).0,
            text::text_result(result) == old(self)@.close_surface(workspace_id, surface_id).1,
    {
        let outcome = match self.workspace_mut(workspace_id) {
            None => {
                return Err(not_found("workspace", workspace_id));
            },
            Some(workspace) => workspace.close_surface(surface_id),
        };
        match outcome {
            Err(message) => Err(message),
            Ok((pane_id, removed_pane)) => {
                self.touch();
                Ok((workspace_id, pane_id, removed_pane))
            },
        }
    }
}

impl Workspace {
    /// Lets the panes at two places exchange their surfaces.
    pub fn swap_surfaces(&mut self, a: usize, b: usize)
        requires
            a < old(self)@.panes.len(),
            b < old(self)@.panes.len(),
        ensures
            final(self)@ == old(self)@.swapped(a as int, b as int),
    {
        let first = copy_surfaces(&self.panes[a].surfaces);
        let first_selected = self.panes[a].selected_surface_id;
        let second = copy_surfaces(&self.panes[b].surfaces);
        let second_selected = self.panes[b].selected_surface_id;
        let pane = self.pane_slot(a);
        pane.surfaces = second;
        pane.selected_surface_id = second_selected;
        let pane = self.pane_slot(b);
        pane.surfaces = first;
        pane.selected_surface_id = first_selected;
    }
}

} // verus!
