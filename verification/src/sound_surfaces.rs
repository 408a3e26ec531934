//! Making, closing and moving panes and surfaces keeps the state sound.

use crate::ids::{Drawn, PaneId, SurfaceId, WorkspaceId, NIL};
use crate::layout::{SplitOrientation, WorkspaceLayout};
use crate::sound_changes;
use crate::sound_operations;
use crate::sound_states;
use crate::sound_workspaces;
use crate::state;
use crate::state::StateView;
use crate::state_windows;
use crate::surface::PaneView;
use crate::workspace;
use crate::workspace::WorkspaceView;
use vstd::prelude::*;

verus! {

/// What follows the making of something in a workspace keeps the state sound.
proof fn lemma_followed(state: StateView, at: int, focus: bool)
    requires
        state.sound(),
        0 <= at < state.workspaces.len(),
    ensures
        state.followed(state.workspaces[at].window_id, state.workspaces[at].id, focus).sound(),
{
    let workspace = state.workspaces[at];
    if focus {
        assert(sound_states::houses(state.workspaces, workspace.window_id, workspace.id));
        assert(state.window_at(workspace.window_id) is Some);
        sound_states::lemma_showing(state, workspace.window_id, workspace.id);
    }
}

/// Splitting a pane keeps the state sound, and succeeds for each pane of each workspace.
pub proof fn law_split_workspace_pane_keeps_sound(
    state: StateView,
    drawn: Drawn,
    workspace_id: WorkspaceId,
    pane_id: Option<PaneId>,
    orientation: SplitOrientation,
    insert_first: bool,
    focus: bool,
)
    requires
        state.sound(),
        state.new_inside(drawn),
    ensures
        state.split_workspace_pane(
            drawn,
            workspace_id,
            pane_id,
            orientation,
            insert_first,
            focus,
        ).0.sound(),
        state.split_workspace_pane(
            drawn,
            workspace_id,
            pane_id,
            orientation,
            insert_first,
            focus,
        ).1 is Ok == (match state.workspace(workspace_id) {
            Some(workspace) => pane_id is Some ==> workspace.pane_at(pane_id->0) is Some,
            None => false,
        }),
{
    let numbered = state.numbered_terminal();
    assert(numbered.sound());
    state::lemma_workspace_from(state.workspaces, workspace_id, 0);
    if let Some(at) = state.workspace_at(workspace_id) {
        let workspace = state.workspaces[at];
        let target = match pane_id {
            Some(id) => id,
            None => workspace.selected_pane_id,
        };
        assert(workspace.sound());
        let pane = state.fresh_pane(drawn);
        sound_workspaces::lemma_single(drawn.pane, state.fresh_surface(drawn));
        sound_workspaces::law_split_pane_keeps_sound(
            workspace,
            target,
            orientation,
            insert_first,
            focus,
            pane,
        );
        let split = workspace.split_pane(target, orientation, insert_first, focus, pane).0;
        sound_states::lemma_with_workspace(numbered, at, split, NIL, NIL);
        lemma_followed(numbered.with_workspace(at, split), at, focus);
    }
}

/// Splitting the pane of a surface keeps the state sound.
pub proof fn law_split_surface_keeps_sound(
    state: StateView,
    drawn: Drawn,
    surface_id: SurfaceId,
    orientation: SplitOrientation,
    insert_first: bool,
    focus: bool,
)
    requires
        state.sound(),
        state.new_inside(drawn),
    ensures
        state.split_surface(drawn, surface_id, orientation, insert_first, focus).0.sound(),
{
    if let Some((workspace_id, pane_id)) = state.locate_surface(surface_id) {
        law_split_workspace_pane_keeps_sound(
            state,
            drawn,
            workspace_id,
            Some(pane_id),
            orientation,
            insert_first,
            focus,
        );
    }
}

/// Making a surface keeps the state sound.
pub proof fn law_create_surface_keeps_sound(
    state: StateView,
    drawn: Drawn,
    workspace_id: WorkspaceId,
    pane_id: PaneId,
    focus: bool,
)
    requires
        state.sound(),
    ensures
        state.create_surface(drawn, workspace_id, pane_id, focus).0.sound(),
        state.create_selected_surface(drawn).0.sound(),
{
    lemma_surface_made(state, drawn, workspace_id, pane_id, focus);
    if let Some(current) = state.current_pane_id() {
        lemma_surface_made(state, drawn, state.selected_workspace_id, current, true);
    }
}

proof fn lemma_surface_made(
    state: StateView,
    drawn: Drawn,
    workspace_id: WorkspaceId,
    pane_id: PaneId,
    focus: bool,
)
    requires
        state.sound(),
    ensures
        state.create_surface(drawn, workspace_id, pane_id, focus).0.sound(),
{
    let numbered = state.numbered_terminal();
    assert(numbered.sound());
    state::lemma_workspace_from(state.workspaces, workspace_id, 0);
    if let Some(at) = state.workspace_at(workspace_id) {
        let workspace = state.workspaces[at];
        assert(workspace.sound());
        let surface = state.fresh_surface(drawn);
        sound_workspaces::law_create_surface_keeps_sound(workspace, pane_id, surface, focus);
        let grown = workspace.create_surface(pane_id, surface, focus).0;
        sound_states::lemma_with_workspace(numbered, at, grown, NIL, NIL);
        lemma_followed(numbered.with_workspace(at, grown), at, focus);
    }
}

/// Closing a surface keeps the state sound. Each surface of a workspace can be closed, but the
/// last.
pub proof fn law_close_surface_keeps_sound(
    state: StateView,
    workspace_id: WorkspaceId,
    surface_id: SurfaceId,
)
    requires
        state.sound(),
    ensures
        state.close_surface(workspace_id, surface_id).0.sound(),
        state.close_surface(workspace_id, surface_id).1 is Ok == (match state.workspace_at(
            workspace_id,
        ) {
            Some(at) => state.workspaces[at].surface(surface_id) is Some && !state.lone(at),
            None => false,
        }),
        state.close_selected_surface().0.sound(),
{
    lemma_surface_closed(state, workspace_id, surface_id);
    if let Some(current) = state.current_surface_id() {
        lemma_surface_closed(state, state.selected_workspace_id, current);
    }
}

proof fn lemma_surface_closed(
    state: StateView,
    workspace_id: WorkspaceId,
    surface_id: SurfaceId,
)
    requires
        state.sound(),
    ensures
        state.close_surface(workspace_id, surface_id).0.sound(),
        state.close_surface(workspace_id, surface_id).1 is Ok == (match state.workspace_at(
            workspace_id,
        ) {
            Some(at) => state.workspaces[at].surface(surface_id) is Some && !state.lone(at),
            None => false,
        }),
{
    state::lemma_workspace_from(state.workspaces, workspace_id, 0);
    if let Some(at) = state.workspace_at(workspace_id) {
        let workspace = state.workspaces[at];
        assert(workspace.sound());
        sound_workspaces::law_detach_keeps_sound(
            workspace,
            surface_id,
            "cannot close the last surface"@,
            "no pane remaining after close"@,
        );
        lemma_detached_ids(workspace, surface_id);
        sound_states::lemma_with_workspace(
            state,
            at,
            workspace.close_surface(surface_id).0,
            NIL,
            NIL,
        );
    }
}

/// Taking a surface out of a workspace changes neither its identifier nor its window.
pub proof fn lemma_detached_ids(workspace: WorkspaceView, surface_id: SurfaceId)
    ensures
        workspace.close_surface(surface_id).0.id == workspace.id,
        workspace.close_surface(surface_id).0.window_id == workspace.window_id,
        workspace.remove_surface_for_move(surface_id).0.id == workspace.id,
        workspace.remove_surface_for_move(surface_id).0.window_id == workspace.window_id,
{
}

/// Exchanging two panes keeps the state sound.
pub proof fn law_swap_panes_keeps_sound(
    state: StateView,
    pane_id: PaneId,
    target: PaneId,
    focus: bool,
)
    requires
        state.sound(),
    ensures
        state.swap_panes(pane_id, target, focus).0.sound(),
{
    sound_states::lemma_owner(state.workspaces, pane_id, 0);
    sound_states::lemma_owner(state.workspaces, target, 0);
    if state.owner(pane_id) is Some && state.owner(target) is Some {
        let at = state.owner(pane_id)->0;
        sound_states::lemma_workspace_place(state.workspaces, at, 0);
        let workspace = state.workspaces[at];
        assert(workspace.sound());
        if workspace.id == state.workspaces[state.owner(target)->0].id {
            workspace::lemma_pane_from(workspace.panes, pane_id, 0);
            workspace::lemma_pane_from(workspace.panes, target, 0);
            if let Some(a) = workspace.pane_at(pane_id) {
                if let Some(b) = workspace.pane_at(target) {
                    sound_workspaces::law_swapped_keeps_sound(workspace, a, b);
                    let swapped = workspace.swapped(a, b);
                    sound_states::lemma_with_workspace(state, at, swapped, NIL, NIL);
                    sound_workspaces::law_focus_pane_keeps_sound(swapped, target);
                    let focused = swapped.focus_pane(target).0;
                    sound_states::lemma_with_workspace(state, at, focused, NIL, NIL);
                    sound_operations::law_select_workspace_keeps_sound(
                        state.with_workspace(at, focused),
                        workspace.id,
                    );
                }
            }
        }
    }
}

/// Settling a surface that was moved keeps the state sound.
proof fn lemma_settled(
    state: StateView,
    workspace_id: WorkspaceId,
    pane_id: PaneId,
    surface_id: SurfaceId,
    focus: bool,
)
    requires
        state.sound(),
    ensures
        state.settled(workspace_id, pane_id, surface_id, focus).0.sound(),
{
    if focus {
        sound_operations::law_focus_surface_keeps_sound(state, surface_id);
    }
}

/// Taking a surface out of its workspace keeps the state sound, and hands a sound surface out.
pub proof fn lemma_extracted(state: StateView, drawn: Drawn, at: int, surface_id: SurfaceId)
    requires
        state.sound(),
        state.new_inside(drawn),
        0 <= at < state.workspaces.len(),
        state.workspaces[at].surface(surface_id) is Some,
    ensures
        state.extracted(drawn, at, surface_id).0.sound(),
        match state.extracted(drawn, at, surface_id).1 {
            Ok(surface) => surface.sound() && surface == state.workspaces[at].surface(
                surface_id,
            )->0,
            Err(_) => false,
        },
{
    let workspace = state.workspaces[at];
    assert(workspace.sound());
    sound_workspaces::lemma_found_surface(workspace, surface_id);
    if state.lone(at) {
        sound_workspaces::lemma_holder(workspace.panes, surface_id, 0);
        sound_workspaces::lemma_surface_from(workspace.panes[0].surfaces, surface_id, 0);
        lemma_bereft(state, drawn, at);
    } else {
        sound_workspaces::law_detach_keeps_sound(
            workspace,
            surface_id,
            "cannot move the last surface"@,
            "no pane remaining after move"@,
        );
        lemma_detached_ids(workspace, surface_id);
        sound_states::lemma_with_workspace(
            state,
            at,
            workspace.remove_surface_for_move(surface_id).0,
            NIL,
            NIL,
        );
    }
}

/// Taking a whole workspace out and mending its window keeps the state sound.
proof fn lemma_bereft(state: StateView, drawn: Drawn, at: int)
    requires
        state.sound(),
        state.new_inside(drawn),
        0 <= at < state.workspaces.len(),
    ensures
        ({
            let workspace = state.workspaces[at];
            let rest = state.without_workspace(at);
            let filled = rest.bereft(
                drawn,
                workspace.window_id,
                workspace.id,
                rest.workspace_ids_in(workspace.window_id),
                false,
            );
            if filled.window_id == workspace.window_id {
                filled.synced_from(workspace.window_id)
            } else {
                filled
            }
        }).sound(),
{
    let workspace = state.workspaces[at];
    let window_id = workspace.window_id;
    let rest = state.without_workspace(at);
    let list = rest.workspace_ids_in(window_id);
    assert(state.window_at(window_id) is Some);
    sound_changes::lemma_taken_out(state, at, NIL, NIL);
    sound_changes::lemma_not_nil_framed(rest, window_id);
    sound_changes::lemma_no_nil(state, window_id);
    sound_changes::lemma_no_nil(state, state.window_id);
    let filled = rest.bereft(drawn, window_id, workspace.id, list, false);
    if list.len() == 0 {
        assert(rest.new_inside(drawn)) by {
            assert forall|k: int| 0 <= k < rest.workspaces.len() implies (
            #[trigger] rest.workspaces[k]).id != drawn.workspace && rest.workspaces[k].pane_at(
                drawn.pane,
            ) is None by {
                let c = if k < at {
                    k
                } else {
                    k + 1
                };
                assert(rest.workspaces[k] == state.workspaces[c]);
            }
        }
        sound_changes::lemma_made(rest, drawn, window_id, false, None, window_id);
        let made = rest.create_workspace(drawn, window_id, false, None);
        sound_states::lemma_pointing(
            made,
            window_id,
            drawn.workspace,
            None,
            window_id,
            window_id,
        );
        sound_changes::lemma_framed(filled, window_id);
        if window_id != state.window_id {
            assert(filled.window(state.window_id) == made.window(state.window_id));
            assert(made.window(state.window_id) == rest.window(state.window_id));
        }
    } else {
        let window = rest.window(window_id)->0;
        let shown = state_windows::kept_or_first(window.last_selected_workspace_id, list);
        assert(list.contains(list[0]));
        assert(list.contains(shown));
        sound_states::lemma_housed(rest, window_id, shown);
        state::lemma_window_from(state.windows, window_id, 0);
        if window.selected_workspace_id == workspace.id {
            sound_states::lemma_pointing(rest, window_id, shown, None, window_id, window_id);
            if window_id != state.window_id {
                assert(filled.window(state.window_id) == rest.window(state.window_id));
            }
        } else {
            assert(sound_states::houses(
                state.workspaces,
                window_id,
                window.selected_workspace_id,
            ));
            assert(sound_states::houses(
                rest.workspaces,
                window_id,
                window.selected_workspace_id,
            ));
        }
        sound_changes::lemma_framed(filled, window_id);
    }
}

/// Moving a surface keeps the state sound.
pub proof fn law_move_surface_keeps_sound(
    state: StateView,
    drawn: Drawn,
    surface_id: SurfaceId,
    workspace_id: WorkspaceId,
    pane_id: PaneId,
    index: int,
    focus: bool,
)
    requires
        state.sound(),
        state.new_inside(drawn),
        index >= 0,
    ensures
        state.move_surface(drawn, surface_id, workspace_id, pane_id, index, focus).0.sound(),
{
    sound_states::lemma_target(state, surface_id);
    if let Some(at) = state.located(surface_id) {
        sound_states::lemma_workspace_place(state.workspaces, at, 0);
        let workspace = state.workspaces[at];
        assert(workspace.sound());
        let (source_id, source_pane_id) = state.locate_surface(surface_id)->0;
        if source_id == workspace_id && source_pane_id == pane_id {
            sound_workspaces::law_reorder_surface_keeps_sound(workspace, surface_id, index);
            let next = workspace.reorder_surface(surface_id, index).0;
            sound_states::lemma_with_workspace(state, at, next, NIL, NIL);
            lemma_settled(
                state.with_workspace(at, next),
                workspace_id,
                pane_id,
                surface_id,
                focus,
            );
        } else {
            lemma_extracted(state, drawn, at, surface_id);
            let (taken, result) = state.extracted(drawn, at, surface_id);
            let surface = result->Ok_0;
            state::lemma_workspace_from(taken.workspaces, workspace_id, 0);
            if let Some(place) = taken.workspace_at(workspace_id) {
                let home = taken.workspaces[place];
                assert(home.sound());
                sound_workspaces::law_insert_surface_keeps_sound(
                    home,
                    pane_id,
                    surface,
                    index,
                    focus,
                );
                let next = home.insert_surface(pane_id, surface, index, focus).0;
                sound_states::lemma_with_workspace(taken, place, next, NIL, NIL);
                lemma_settled(
                    taken.with_workspace(place, next),
                    workspace_id,
                    pane_id,
                    surface_id,
                    focus,
                );
            }
        }
    }
}

/// Moving a surface into a workspace of its own keeps the state sound.
pub proof fn law_break_surface_keeps_sound(
    state: StateView,
    drawn: Drawn,
    surface_id: SurfaceId,
    focus: bool,
)
    requires
        state.sound(),
        state.new_inside(drawn),
    ensures
        state.break_surface(drawn, surface_id, focus).0.sound(),
{
    sound_states::lemma_target(state, surface_id);
    if let Some(at) = state.located(surface_id) {
        sound_states::lemma_workspace_place(state.workspaces, at, 0);
        let source = state.workspaces[at];
        assert(source.sound());
        sound_workspaces::law_detach_keeps_sound(
            source,
            surface_id,
            "cannot move the last surface"@,
            "no pane remaining after move"@,
        );
        lemma_detached_ids(source, surface_id);
        sound_workspaces::lemma_found_surface(source, surface_id);
        let (rest, result) = source.remove_surface_for_move(surface_id);
        sound_states::lemma_with_workspace(state, at, rest, NIL, NIL);
        if let Ok(surface) = result {
            let _ = lemma_broken_off(state, drawn, at, surface_id, focus);
        }
    }
}

/// The workspace that a surface gets of its own, and the state with it before the focus moves.
pub proof fn lemma_broken_off(
    state: StateView,
    drawn: Drawn,
    at: int,
    surface_id: SurfaceId,
    focus: bool,
) -> (made: (StateView, WorkspaceView))
    requires
        state.sound(),
        state.new_inside(drawn),
        state.located(surface_id) == Some(at),
        0 <= at < state.workspaces.len(),
        state.workspace_at(state.workspaces[at].id) == Some(at),
        state.workspaces[at].remove_surface_for_move(surface_id).1 is Ok,
        state.workspaces[at].remove_surface_for_move(surface_id).1->Ok_0.sound(),
        state.workspaces[at].remove_surface_for_move(surface_id).1->Ok_0.id == surface_id,
        state.with_workspace(
            at,
            state.workspaces[at].remove_surface_for_move(surface_id).0,
        ).sound(),
    ensures
        state.break_surface(drawn, surface_id, focus).0.sound(),
        made.0.sound(),
        made.0.workspaces == state.with_workspace(
            at,
            state.workspaces[at].remove_surface_for_move(surface_id).0,
        ).workspaces.push(made.1),
        made.0.workspaces == state.break_surface(drawn, surface_id, false).0.workspaces,
        made.1.panes.len() == 1,
        made.1.panes[0].surfaces.len() == 1,
        made.1.panes[0].surfaces[0].id == surface_id,
        state.break_surface(drawn, surface_id, focus).0 == (if focus {
            made.0.focus_surface(surface_id).0
        } else {
            made.0.touched()
        }),
{
    let source = state.workspaces[at];
    let (rest, result) = source.remove_surface_for_move(surface_id);
    let surface = result->Ok_0;
    let taken = state.with_workspace(at, rest);
    lemma_detached_ids(source, surface_id);
    let own = match source.surface(surface_id) {
        Some(found) => found.current_directory,
        None => None,
    };
    let pane = PaneView {
        id: drawn.pane,
        surfaces: seq![surface],
        selected_surface_id: surface_id,
    };
    sound_workspaces::lemma_surface_found(pane.surfaces, 0, 0);
    assert(pane.sound());
    let workspace = WorkspaceView {
        id: drawn.workspace,
        window_id: source.window_id,
        title: state.workspace_title(),
        current_directory: if own is Some {
            own
        } else {
            source.current_directory
        },
        layout: WorkspaceLayout::Pane(drawn.pane),
        panes: seq![pane],
        selected_pane_id: drawn.pane,
        last_selected_pane_id: None,
    };
    sound_workspaces::lemma_lone_pane(workspace);
    let added = StateView {
        workspaces: taken.workspaces.push(workspace),
        ..taken.numbered_workspace()
    };
    assert forall|k: int| 0 <= k < taken.workspaces.len() implies (
    #[trigger] taken.workspaces[k]).id != workspace.id by {
        assert(state.workspaces[k].id != drawn.workspace);
    }
    assert(state.window_at(source.window_id) is Some);
    sound_changes::lemma_pushed(taken, added, workspace, NIL, NIL);
    state::lemma_window_from(added.windows, source.window_id, 0);
    let window = added.window(source.window_id)->0;
    assert(sound_states::houses(
        taken.workspaces,
        source.window_id,
        window.selected_workspace_id,
    ));
    assert(sound_states::houses(
        added.workspaces,
        source.window_id,
        window.selected_workspace_id,
    ));
    let selected = if focus {
        drawn.workspace
    } else {
        window.selected_workspace_id
    };
    sound_states::lemma_pointing(
        added,
        source.window_id,
        selected,
        crate::ids::non_nil(window.selected_workspace_id),
        NIL,
        NIL,
    );
    let shown = added.pointing(
        source.window_id,
        selected,
        crate::ids::non_nil(window.selected_workspace_id),
    );
    if focus {
        let synced = shown.synced_from(source.window_id);
        assert(synced.sound());
        sound_operations::law_focus_surface_keeps_sound(synced, surface_id);
        (synced, workspace)
    } else {
        if source.window_id != state.window_id {
            assert(shown.window(state.window_id) == added.window(state.window_id));
        }
        assert(shown.sound());
        (shown, workspace)
    }
}

} // verus!
