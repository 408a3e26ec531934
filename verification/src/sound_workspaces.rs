//! What holds of every workspace that the operations reach.

use crate::ids::{PaneId, SurfaceId};
use crate::layout::{SplitOrientation, WorkspaceLayout};
use crate::surface;
use crate::surface::{PaneView, SurfaceView};
use crate::workspace;
use crate::workspace::WorkspaceView;
use vstd::prelude::*;

verus! {

// ---------------------------------------------------------------------------
// Layouts
// ---------------------------------------------------------------------------

/// Splitting a leaf puts the new pane right beside it, on the side that was asked for, and moves
/// no other leaf.
pub proof fn law_split_leaves(
    layout: WorkspaceLayout,
    target: PaneId,
    added: PaneId,
    orientation: SplitOrientation,
    insert_first: bool,
) -> (at: int)
    requires
        layout.leaves().contains(target),
    ensures
        0 <= at < layout.leaves().len(),
        layout.leaves()[at] == target,
        match layout.with_split(target, added, orientation, insert_first) {
            Some(next) => next.leaves() == layout.leaves().insert(
                if insert_first {
                    at
                } else {
                    at + 1
                },
                added,
            ),
            None => false,
        },
    decreases layout,
{
    match layout {
        WorkspaceLayout::Pane(pane_id) => {
            let next = WorkspaceLayout::halves(target, added, orientation, insert_first);
            reveal_with_fuel(WorkspaceLayout::leaves, 3);
            assert(layout.leaves()[0] == pane_id);
            assert(next.leaves() =~= layout.leaves().insert(
                if insert_first {
                    0
                } else {
                    1
                },
                added,
            ));
            0
        },
        WorkspaceLayout::Split { orientation: outer, first, second } => {
            let left = first.leaves();
            let right = second.leaves();
            if left.contains(target) {
                let at = law_split_leaves(*first, target, added, orientation, insert_first);
                let place = if insert_first {
                    at
                } else {
                    at + 1
                };
                assert(left.insert(place, added) + right =~= (left + right).insert(place, added));
                at
            } else {
                lemma_no_split(*first, target, added, orientation, insert_first);
                let whole = layout.leaves();
                let found = choose|k: int| 0 <= k < whole.len() && whole[k] == target;
                assert(found >= left.len()) by {
                    if found < left.len() {
                        assert(left[found] == target);
                    }
                }
                assert(right[found - left.len()] == target);
                let at = law_split_leaves(*second, target, added, orientation, insert_first);
                let place = if insert_first {
                    at
                } else {
                    at + 1
                };
                assert(left + right.insert(place, added) =~= (left + right).insert(
                    left.len() + place,
                    added,
                ));
                left.len() + at
            }
        },
    }
}

/// A layout without the pane cannot be split at it.
pub proof fn lemma_no_split(
    layout: WorkspaceLayout,
    target: PaneId,
    added: PaneId,
    orientation: SplitOrientation,
    insert_first: bool,
)
    requires
        !layout.leaves().contains(target),
    ensures
        layout.with_split(target, added, orientation, insert_first) is None,
    decreases layout,
{
    match layout {
        WorkspaceLayout::Pane(pane_id) => {
            assert(layout.leaves()[0] == pane_id);
        },
        WorkspaceLayout::Split { first, second, .. } => {
            lemma_halves(*first, *second, target);
            lemma_no_split(*first, target, added, orientation, insert_first);
            lemma_no_split(*second, target, added, orientation, insert_first);
        },
    }
}

/// A pane is in a split if it is in one of its halves.
pub proof fn lemma_halves(first: WorkspaceLayout, second: WorkspaceLayout, id: PaneId)
    ensures
        (first.leaves() + second.leaves()).contains(id) == (first.leaves().contains(id)
            || second.leaves().contains(id)),
{
    let left = first.leaves();
    let right = second.leaves();
    let whole = left + right;
    if left.contains(id) {
        let at = choose|k: int| 0 <= k < left.len() && left[k] == id;
        assert(whole[at] == id);
    }
    if right.contains(id) {
        let at = choose|k: int| 0 <= k < right.len() && right[k] == id;
        assert(whole[left.len() + at] == id);
    }
    if whole.contains(id) {
        let at = choose|k: int| 0 <= k < whole.len() && whole[k] == id;
        if at < left.len() {
            assert(left[at] == id);
        } else {
            assert(right[at - left.len()] == id);
        }
    }
}

/// A pane that is not in a layout cannot be taken out of it.
pub proof fn law_absent_pane_stays_out(layout: WorkspaceLayout, target: PaneId)
    requires
        !layout.leaves().contains(target),
    ensures
        layout.without(target) == Some(layout),
    decreases layout,
{
    match layout {
        WorkspaceLayout::Pane(pane_id) => {
            assert(layout.leaves()[0] == pane_id);
        },
        WorkspaceLayout::Split { first, second, .. } => {
            lemma_halves(*first, *second, target);
            law_absent_pane_stays_out(*first, target);
            law_absent_pane_stays_out(*second, target);
        },
    }
}

/// Taking a pane out of a layout leaves the others in place; the last one cannot be taken out.
pub proof fn law_remove_leaves(layout: WorkspaceLayout, at: int)
    requires
        layout.leaves().no_duplicates(),
        0 <= at < layout.leaves().len(),
    ensures
        match layout.without(layout.leaves()[at]) {
            Some(rest) => layout.leaves().len() > 1 && rest.leaves() == layout.leaves().remove(at),
            None => layout.leaves().len() == 1,
        },
    decreases layout,
{
    let target = layout.leaves()[at];
    match layout {
        WorkspaceLayout::Pane(pane_id) => {
            assert(layout.leaves()[0] == pane_id);
        },
        WorkspaceLayout::Split { first, second, .. } => {
            let left = first.leaves();
            let right = second.leaves();
            let whole = layout.leaves();
            lemma_some_leaf(*first);
            lemma_some_leaf(*second);
            assert(left.no_duplicates()) by {
                assert forall|i: int, j: int|
                    0 <= i < left.len() && 0 <= j < left.len() && i != j implies left[i]
                    != left[j] by {
                    assert(whole[i] == left[i] && whole[j] == left[j]);
                }
            }
            assert(right.no_duplicates()) by {
                assert forall|i: int, j: int|
                    0 <= i < right.len() && 0 <= j < right.len() && i != j implies right[i]
                    != right[j] by {
                    assert(whole[left.len() + i] == right[i] && whole[left.len() + j]
                        == right[j]);
                }
            }
            if at < left.len() {
                assert(left[at] == target);
                assert(!right.contains(target)) by {
                    if right.contains(target) {
                        let k = choose|k: int| 0 <= k < right.len() && right[k] == target;
                        assert(whole[left.len() + k] == target && whole[at] == target);
                    }
                }
                law_absent_pane_stays_out(*second, target);
                law_remove_leaves(*first, at);
                assert(left.remove(at) + right =~= whole.remove(at));
                if left.len() == 1 {
                    assert(right =~= whole.remove(at));
                }
            } else {
                let place = at - left.len();
                assert(right[place] == target);
                assert(!left.contains(target)) by {
                    if left.contains(target) {
                        let k = choose|k: int| 0 <= k < left.len() && left[k] == target;
                        assert(whole[k] == target && whole[at] == target);
                    }
                }
                law_absent_pane_stays_out(*first, target);
                law_remove_leaves(*second, place);
                assert(left + right.remove(place) =~= whole.remove(at));
                if right.len() == 1 {
                    assert(left =~= whole.remove(at));
                }
            }
        },
    }
}

proof fn lemma_some_leaf(layout: WorkspaceLayout)
    ensures
        layout.leaves().len() > 0,
    decreases layout,
{
    match layout {
        WorkspaceLayout::Pane(_) => {},
        WorkspaceLayout::Split { first, second, .. } => {
            lemma_some_leaf(*first);
        },
    }
}

/// Taking out the pane that a split brought in restores the layout.
pub proof fn law_split_then_remove(
    layout: WorkspaceLayout,
    target: PaneId,
    added: PaneId,
    orientation: SplitOrientation,
    insert_first: bool,
)
    requires
        !layout.leaves().contains(added),
    ensures
        match layout.with_split(target, added, orientation, insert_first) {
            Some(next) => next.without(added) == Some(layout),
            None => true,
        },
    decreases layout,
{
    match layout {
        WorkspaceLayout::Pane(pane_id) => {
            assert(layout.leaves()[0] == pane_id);
            reveal_with_fuel(WorkspaceLayout::without, 2);
        },
        WorkspaceLayout::Split { first, second, .. } => {
            lemma_halves(*first, *second, added);
            law_split_then_remove(*first, target, added, orientation, insert_first);
            law_split_then_remove(*second, target, added, orientation, insert_first);
            law_absent_pane_stays_out(*first, added);
            law_absent_pane_stays_out(*second, added);
        },
    }
}

// ---------------------------------------------------------------------------
// What is sound
// ---------------------------------------------------------------------------

impl SurfaceView {
    /// Whether the surface asks for attention just where it has a reason to.
    pub open spec fn sound(self) -> bool {
        self.unread == (self.unread_activity || self.unread_notification)
    }
}

impl PaneView {
    /// Whether one of the surfaces is selected, and each of them is sound.
    pub open spec fn sound(self) -> bool {
        &&& self.surface_at(self.selected_surface_id) is Some
        &&& forall|at: int|
            0 <= at < self.surfaces.len() ==> (#[trigger] self.surfaces[at]).sound()
    }
}

/// Whether no two panes have the same identifier.
pub open spec fn distinct_panes(panes: Seq<PaneView>) -> bool {
    forall|a: int, b: int|
        0 <= a < b < panes.len() ==> (#[trigger] panes[a]).id != (#[trigger] panes[b]).id
}

impl WorkspaceView {
    /// Whether one of the panes is selected, the layout names each pane once and no other, and
    /// each pane is sound.
    pub open spec fn sound(self) -> bool {
        &&& self.pane_at(self.selected_pane_id) is Some
        &&& distinct_panes(self.panes)
        &&& self.layout.leaves().no_duplicates()
        &&& forall|id: PaneId| #[trigger]
            self.layout.leaves().contains(id) == (self.pane_at(id) is Some)
        &&& forall|at: int| 0 <= at < self.panes.len() ==> (#[trigger] self.panes[at]).sound()
    }
}

/// The surface that was found is one of the surfaces, and has the identifier.
pub proof fn lemma_surface_from(surfaces: Seq<SurfaceView>, id: SurfaceId, from: int)
    requires
        0 <= from,
    ensures
        match surface::surface_from(surfaces, id, from) {
            Some(at) => from <= at < surfaces.len() && surfaces[at].id == id,
            None => true,
        },
    decreases surfaces.len() - from,
{
    if from < surfaces.len() && surfaces[from].id != id {
        lemma_surface_from(surfaces, id, from + 1);
    }
}

/// A surface is found under its own identifier.
pub proof fn lemma_surface_found(surfaces: Seq<SurfaceView>, at: int, from: int)
    requires
        0 <= from <= at < surfaces.len(),
    ensures
        surface::surface_from(surfaces, surfaces[at].id, from) is Some,
    decreases at - from,
{
    if surfaces[from].id != surfaces[at].id {
        lemma_surface_found(surfaces, at, from + 1);
    }
}

/// Where no two panes have the same identifier, a pane is found at its own place.
pub proof fn lemma_pane_place(panes: Seq<PaneView>, at: int)
    requires
        0 <= at < panes.len(),
        distinct_panes(panes),
    ensures
        workspace::pane_from(panes, panes[at].id, 0) == Some(at),
{
    workspace::lemma_pane_found(panes, at, 0);
    workspace::lemma_pane_from(panes, panes[at].id, 0);
    let found = workspace::pane_from(panes, panes[at].id, 0)->0;
    assert(panes[found].id == panes[at].id);
}

/// The pane that holds a surface is one of the panes, and holds it.
pub proof fn lemma_holder(panes: Seq<PaneView>, id: SurfaceId, from: int)
    requires
        0 <= from,
    ensures
        match workspace::holder_from(panes, id, from) {
            Some(at) => from <= at < panes.len() && panes[at].surface_at(id) is Some,
            None => true,
        },
    decreases panes.len() - from,
{
    if from < panes.len() && panes[from].surface_at(id) is None {
        lemma_holder(panes, id, from + 1);
    }
}

/// Which panes are found depends only on their identifiers.
pub proof fn lemma_same_panes(before: Seq<PaneView>, after: Seq<PaneView>, id: PaneId, from: int)
    requires
        before.len() == after.len(),
        0 <= from,
        forall|at: int| 0 <= at < before.len() ==> before[at].id == (#[trigger] after[at]).id,
    ensures
        workspace::pane_from(before, id, from) == workspace::pane_from(after, id, from),
    decreases before.len() - from,
{
    if from < before.len() {
        assert(before[from].id == after[from].id);
        lemma_same_panes(before, after, id, from + 1);
    }
}

/// A workspace stays sound when its panes change for sound ones with the same identifiers.
pub proof fn lemma_repaned(before: WorkspaceView, after: WorkspaceView)
    requires
        before.sound(),
        after.layout == before.layout,
        after.panes.len() == before.panes.len(),
        forall|at: int|
            0 <= at < before.panes.len() ==> before.panes[at].id == (
            #[trigger] after.panes[at]).id && after.panes[at].sound(),
        before.pane_at(after.selected_pane_id) is Some,
    ensures
        after.sound(),
{
    assert forall|id: PaneId| before.pane_at(id) == after.pane_at(id) by {
        lemma_same_panes(before.panes, after.panes, id, 0);
    }
    assert(before.pane_at(after.selected_pane_id) == after.pane_at(after.selected_pane_id));
    assert forall|a: int, b: int|
        0 <= a < b < after.panes.len() implies (#[trigger] after.panes[a]).id != (
    #[trigger] after.panes[b]).id by {
        assert(before.panes[a].id != before.panes[b].id);
    }
    assert forall|id: PaneId| #[trigger]
        after.layout.leaves().contains(id) == (after.pane_at(id) is Some) by {
        assert(before.layout.leaves().contains(id) == (before.pane_at(id) is Some));
        assert(before.pane_at(id) == after.pane_at(id));
    }
}

/// A workspace stays sound when one pane changes for a sound one with the same identifier.
pub proof fn lemma_with_pane(before: WorkspaceView, at: int, pane: PaneView)
    requires
        before.sound(),
        0 <= at < before.panes.len(),
        pane.sound(),
        pane.id == before.panes[at].id,
    ensures
        before.with_pane(at, pane).sound(),
{
    lemma_repaned(before, before.with_pane(at, pane));
}

/// A sound pane holds a surface.
pub proof fn lemma_pane_holds(pane: PaneView)
    requires
        pane.sound(),
    ensures
        pane.surfaces.len() > 0,
{
    lemma_surface_from(pane.surfaces, pane.selected_surface_id, 0);
}

/// A sound workspace holds a pane.
pub proof fn lemma_workspace_holds(workspace: WorkspaceView)
    requires
        workspace.sound(),
    ensures
        workspace.panes.len() > 0,
{
    workspace::lemma_pane_from(workspace.panes, workspace.selected_pane_id, 0);
}

// ---------------------------------------------------------------------------
// What keeps a workspace sound
// ---------------------------------------------------------------------------

/// A new pane with a sound surface is sound.
pub proof fn lemma_single(id: PaneId, surface: SurfaceView)
    requires
        surface.sound(),
    ensures
        PaneView::single(id, surface).sound(),
{
    let pane = PaneView::single(id, surface);
    lemma_surface_found(pane.surfaces, 0, 0);
}

/// A workspace with a single, sound pane is sound.
pub proof fn lemma_lone_pane(workspace: WorkspaceView)
    requires
        workspace.panes.len() == 1,
        workspace.panes[0].sound(),
        workspace.selected_pane_id == workspace.panes[0].id,
        workspace.layout == WorkspaceLayout::Pane(workspace.panes[0].id),
    ensures
        workspace.sound(),
{
    let only = workspace.panes[0].id;
    workspace::lemma_pane_found(workspace.panes, 0, 0);
    assert forall|id: PaneId| #[trigger]
        workspace.layout.leaves().contains(id) == (workspace.pane_at(id) is Some) by {
        assert(workspace.layout.leaves()[0] == only);
        workspace::lemma_pane_from(workspace.panes, id, 0);
    }
}

/// A pane stays sound when a surface changes for a sound one with the same identifier.
pub proof fn lemma_pane_with_surface(pane: PaneView, at: int, surface: SurfaceView)
    requires
        pane.sound(),
        0 <= at < pane.surfaces.len(),
        surface.sound(),
        surface.id == pane.surfaces[at].id,
    ensures
        pane.with_surface(at, surface).sound(),
{
    let next = pane.with_surface(at, surface);
    lemma_surface_from(pane.surfaces, pane.selected_surface_id, 0);
    let place = pane.surface_at(pane.selected_surface_id)->0;
    assert(next.surfaces[place].id == pane.selected_surface_id);
    lemma_surface_found(next.surfaces, place, 0);
}

/// A pane stays sound when a sound surface comes in.
pub proof fn lemma_inserted(pane: PaneView, index: int, surface: SurfaceView)
    requires
        forall|at: int|
            0 <= at < pane.surfaces.len() ==> (#[trigger] pane.surfaces[at]).sound(),
        surface.sound(),
        index >= 0,
        pane.surface_at(pane.selected_surface_id) is Some || pane.selected_surface_id
            == surface.id,
    ensures
        pane.inserted(index, surface).sound(),
        pane.inserted(index, surface).surface_at(surface.id) is Some,
{
    let next = pane.inserted(index, surface);
    let place = if index < pane.surfaces.len() {
        index
    } else {
        pane.surfaces.len() as int
    };
    assert(next.surfaces[place] == surface);
    lemma_surface_found(next.surfaces, place, 0);
    lemma_surface_from(pane.surfaces, pane.selected_surface_id, 0);
    if pane.surface_at(pane.selected_surface_id) is Some {
        let old_place = pane.surface_at(pane.selected_surface_id)->0;
        let new_place = if old_place < place {
            old_place
        } else {
            old_place + 1
        };
        assert(next.surfaces[new_place] == pane.surfaces[old_place]);
        lemma_surface_found(next.surfaces, new_place, 0);
    }
    assert forall|at: int| 0 <= at < next.surfaces.len() implies (
    #[trigger] next.surfaces[at]).sound() by {
        if at < place {
            assert(next.surfaces[at] == pane.surfaces[at]);
        } else if at > place {
            assert(next.surfaces[at] == pane.surfaces[at - 1]);
        }
    }
}

/// A pane with another surface left stays sound when a surface goes.
pub proof fn lemma_without_surface(pane: PaneView, at: int)
    requires
        pane.sound(),
        0 <= at < pane.surfaces.len(),
        pane.surfaces.len() > 1,
    ensures
        pane.without_surface(at).sound(),
{
    let next = pane.without_surface(at);
    let rest = pane.surfaces.remove(at);
    let before = if at > 0 {
        at - 1
    } else {
        0
    };
    if pane.surfaces[at].id == pane.selected_surface_id {
        lemma_surface_found(rest, before, 0);
    } else {
        lemma_surface_from(pane.surfaces, pane.selected_surface_id, 0);
        let old_place = pane.surface_at(pane.selected_surface_id)->0;
        let new_place = if old_place < at {
            old_place
        } else {
            old_place - 1
        };
        assert(rest[new_place] == pane.surfaces[old_place]);
        lemma_surface_found(rest, new_place, 0);
    }
    assert forall|k: int| 0 <= k < next.surfaces.len() implies (
    #[trigger] next.surfaces[k]).sound() by {
        if k < at {
            assert(rest[k] == pane.surfaces[k]);
        } else {
            assert(rest[k] == pane.surfaces[k + 1]);
        }
    }
}

/// Selecting a pane of a sound workspace keeps it sound.
pub proof fn law_selecting_keeps_sound(workspace: WorkspaceView, pane_id: PaneId)
    requires
        workspace.sound(),
        workspace.pane_at(pane_id) is Some,
    ensures
        workspace.selecting(pane_id).sound(),
{
    lemma_repaned(workspace, workspace.selecting(pane_id));
}

/// Focusing a pane keeps a workspace sound.
pub proof fn law_focus_pane_keeps_sound(workspace: WorkspaceView, pane_id: PaneId)
    requires
        workspace.sound(),
    ensures
        workspace.focus_pane(pane_id).0.sound(),
        workspace.focus_to(pane_id).0.sound(),
{
    if workspace.pane_at(pane_id) is Some {
        law_selecting_keeps_sound(workspace, pane_id);
    }
}

/// Focusing a surface keeps a workspace sound.
pub proof fn law_focus_surface_keeps_sound(workspace: WorkspaceView, surface_id: SurfaceId)
    requires
        workspace.sound(),
    ensures
        workspace.focus_surface(surface_id).0.sound(),
{
    lemma_holder(workspace.panes, surface_id, 0);
    if let Some(at) = workspace.holder(surface_id) {
        lemma_pane_place(workspace.panes, at);
        let pane = PaneView { selected_surface_id: surface_id, ..workspace.panes[at] };
        assert(pane.sound()) by {
            assert(pane.surfaces == workspace.panes[at].surfaces);
            assert(workspace.panes[at].sound());
        }
        lemma_with_pane(workspace, at, pane);
        let next = workspace.with_pane(at, pane);
        lemma_pane_place(next.panes, at);
        law_selecting_keeps_sound(next, pane.id);
    }
}

/// Changing a surface for a sound one with the same identifier keeps a workspace sound.
pub proof fn lemma_workspace_with_surface(
    workspace: WorkspaceView,
    surface_id: SurfaceId,
    surface: SurfaceView,
)
    requires
        workspace.sound(),
        workspace.surface(surface_id) is Some,
        surface.sound(),
        surface.id == surface_id,
    ensures
        workspace.with_surface(surface_id, surface).sound(),
{
    lemma_holder(workspace.panes, surface_id, 0);
    let at = workspace.holder(surface_id)->0;
    let pane = workspace.panes[at];
    lemma_surface_from(pane.surfaces, surface_id, 0);
    lemma_pane_with_surface(pane, pane.surface_at(surface_id)->0, surface);
    lemma_with_pane(
        workspace,
        at,
        pane.with_surface(pane.surface_at(surface_id)->0, surface),
    );
}

/// A surface that is found has the identifier, and is sound in a sound workspace.
pub proof fn lemma_found_surface(workspace: WorkspaceView, surface_id: SurfaceId)
    requires
        workspace.sound(),
        workspace.surface(surface_id) is Some,
    ensures
        workspace.surface(surface_id)->0.id == surface_id,
        workspace.surface(surface_id)->0.sound(),
{
    lemma_holder(workspace.panes, surface_id, 0);
    let at = workspace.holder(surface_id)->0;
    let pane = workspace.panes[at];
    assert(pane.sound());
    lemma_surface_from(pane.surfaces, surface_id, 0);
}

/// Splitting a pane for a new one keeps a workspace sound, and never fails.
pub proof fn law_split_pane_keeps_sound(
    workspace: WorkspaceView,
    target: PaneId,
    orientation: SplitOrientation,
    insert_first: bool,
    select_new: bool,
    new_pane: PaneView,
)
    requires
        workspace.sound(),
        new_pane.sound(),
        workspace.pane_at(new_pane.id) is None,
    ensures
        workspace.split_pane(target, orientation, insert_first, select_new, new_pane).0.sound(),
        workspace.split_pane(target, orientation, insert_first, select_new, new_pane).1 is Ok
            == (workspace.pane_at(target) is Some),
{
    if workspace.pane_at(target) is Some {
        let before = workspace.layout.leaves();
        assert(before.contains(target));
        assert(!before.contains(new_pane.id));
        let at = law_split_leaves(
            workspace.layout,
            target,
            new_pane.id,
            orientation,
            insert_first,
        );
        let next = workspace.split_pane(
            target,
            orientation,
            insert_first,
            select_new,
            new_pane,
        ).0;
        let after = next.layout.leaves();
        let place = if insert_first {
            at
        } else {
            at + 1
        };
        assert(after == before.insert(place, new_pane.id));
        assert forall|id: PaneId| #[trigger]
            next.pane_at(id) == (if id == new_pane.id {
            Some(workspace.panes.len() as int)
        } else {
            workspace.pane_at(id)
        }) by {
            lemma_pane_pushed(workspace.panes, new_pane, id, 0);
        }
        assert(next.pane_at(next.selected_pane_id) is Some);
        assert forall|id: PaneId| #[trigger]
            after.contains(id) == (next.pane_at(id) is Some) by {
            lemma_contains_inserted(before, place, new_pane.id, id);
            assert(before.contains(id) == (workspace.pane_at(id) is Some));
            assert(next.pane_at(id) == (if id == new_pane.id {
                Some(workspace.panes.len() as int)
            } else {
                workspace.pane_at(id)
            }));
        }
        assert forall|i: int, j: int|
            0 <= i < after.len() && 0 <= j < after.len() && i != j implies after[i]
            != after[j] by {
            lemma_inserted_twice(before, place, new_pane.id, i, j);
        }
        assert forall|a: int, b: int|
            0 <= a < b < next.panes.len() implies (#[trigger] next.panes[a]).id != (
        #[trigger] next.panes[b]).id by {
            assert(next.panes[a] == workspace.panes[a]);
            if b < workspace.panes.len() {
                assert(next.panes[b] == workspace.panes[b]);
            } else {
                lemma_pane_place(workspace.panes, a);
            }
        }
    }
}

proof fn lemma_pane_pushed(panes: Seq<PaneView>, added: PaneView, id: PaneId, from: int)
    requires
        0 <= from <= panes.len(),
        id == added.id ==> workspace::pane_from(panes, id, from) is None,
    ensures
        workspace::pane_from(panes.push(added), id, from) == (if id == added.id {
            Some(panes.len() as int)
        } else {
            workspace::pane_from(panes, id, from)
        }),
    decreases panes.len() - from,
{
    if from < panes.len() {
        assert(panes.push(added)[from] == panes[from]);
        if panes[from].id != id {
            lemma_pane_pushed(panes, added, id, from + 1);
        }
    } else {
        assert(panes.push(added)[from] == added);
        assert(workspace::pane_from(panes.push(added), id, from + 1) is None);
    }
}

proof fn lemma_contains_inserted(list: Seq<u128>, at: int, added: u128, id: u128)
    requires
        0 <= at <= list.len(),
    ensures
        list.insert(at, added).contains(id) == (list.contains(id) || id == added),
{
    let longer = list.insert(at, added);
    assert(longer[at] == added);
    if list.contains(id) {
        let k = choose|k: int| 0 <= k < list.len() && list[k] == id;
        if k < at {
            assert(longer[k] == id);
        } else {
            assert(longer[k + 1] == id);
        }
    }
    if longer.contains(id) {
        let k = choose|k: int| 0 <= k < longer.len() && longer[k] == id;
        if k < at {
            assert(list[k] == id);
        } else if k > at {
            assert(list[k - 1] == id);
        }
    }
}

proof fn lemma_inserted_twice(list: Seq<u128>, at: int, added: u128, i: int, j: int)
    requires
        0 <= at <= list.len(),
        list.no_duplicates(),
        !list.contains(added),
        0 <= i <= list.len(),
        0 <= j <= list.len(),
        i != j,
    ensures
        list.insert(at, added)[i] != list.insert(at, added)[j],
{
    let a = if i < at {
        i
    } else {
        i - 1
    };
    let b = if j < at {
        j
    } else {
        j - 1
    };
    if i != at {
        assert(list.contains(list[a]));
    }
    if j != at {
        assert(list.contains(list[b]));
    }
}

/// Putting a sound surface into a pane keeps a workspace sound.
pub proof fn law_insert_surface_keeps_sound(
    workspace: WorkspaceView,
    pane_id: PaneId,
    surface: SurfaceView,
    index: int,
    select_new: bool,
)
    requires
        workspace.sound(),
        surface.sound(),
        index >= 0,
    ensures
        workspace.insert_surface(pane_id, surface, index, select_new).0.sound(),
{
    workspace::lemma_pane_from(workspace.panes, pane_id, 0);
    if let Some(at) = workspace.pane_at(pane_id) {
        assert(workspace.panes[at].sound());
        lemma_inserted(workspace.panes[at], index, surface);
        let pane = workspace.panes[at].inserted(index, surface);
        let chosen = PaneView { selected_surface_id: surface.id, ..pane };
        assert(chosen.sound()) by {
            assert(chosen.surfaces == pane.surfaces);
        }
        if select_new {
            let next = WorkspaceView {
                selected_pane_id: pane_id,
                ..workspace.with_pane(at, chosen)
            };
            lemma_repaned(workspace, next);
        } else {
            lemma_with_pane(workspace, at, pane);
        }
    }
}

/// Adding a sound surface to a pane keeps a workspace sound.
pub proof fn law_create_surface_keeps_sound(
    workspace: WorkspaceView,
    pane_id: PaneId,
    surface: SurfaceView,
    select_new: bool,
)
    requires
        workspace.sound(),
        surface.sound(),
    ensures
        workspace.create_surface(pane_id, surface, select_new).0.sound(),
{
    if let Some(at) = workspace.pane_at(pane_id) {
        law_insert_surface_keeps_sound(
            workspace,
            pane_id,
            surface,
            workspace.panes[at].surfaces.len() as int,
            select_new,
        );
    }
}

/// Moving a surface to another place in its pane keeps a workspace sound.
pub proof fn law_reorder_surface_keeps_sound(
    workspace: WorkspaceView,
    surface_id: SurfaceId,
    index: int,
)
    requires
        workspace.sound(),
        index >= 0,
    ensures
        workspace.reorder_surface(surface_id, index).0.sound(),
{
    lemma_holder(workspace.panes, surface_id, 0);
    if let Some(at) = workspace.holder(surface_id) {
        lemma_pane_place(workspace.panes, at);
        let pane = workspace.panes[at];
        assert(pane.sound());
        lemma_surface_from(pane.surfaces, surface_id, 0);
        let place = pane.surface_at(surface_id)->0;
        let rest = PaneView { surfaces: pane.surfaces.remove(place), ..pane };
        let moved = pane.surfaces[place];
        assert forall|k: int| 0 <= k < rest.surfaces.len() implies (
        #[trigger] rest.surfaces[k]).sound() by {
            if k < place {
                assert(rest.surfaces[k] == pane.surfaces[k]);
            } else {
                assert(rest.surfaces[k] == pane.surfaces[k + 1]);
            }
        }
        if pane.selected_surface_id != moved.id {
            lemma_surface_from(pane.surfaces, pane.selected_surface_id, 0);
            let old_place = pane.surface_at(pane.selected_surface_id)->0;
            let new_place = if old_place < place {
                old_place
            } else {
                old_place - 1
            };
            assert(rest.surfaces[new_place] == pane.surfaces[old_place]);
            lemma_surface_found(rest.surfaces, new_place, 0);
        }
        lemma_inserted(rest, index, moved);
        lemma_with_pane(workspace, at, rest.inserted(index, moved));
    }
}

/// Exchanging the surfaces of two panes keeps a workspace sound.
pub proof fn law_swapped_keeps_sound(workspace: WorkspaceView, a: int, b: int)
    requires
        workspace.sound(),
        0 <= a < workspace.panes.len(),
        0 <= b < workspace.panes.len(),
    ensures
        workspace.swapped(a, b).sound(),
{
    let next = workspace.swapped(a, b);
    assert forall|at: int| 0 <= at < next.panes.len() implies workspace.panes[at].id == (
    #[trigger] next.panes[at]).id && next.panes[at].sound() by {
        assert(workspace.panes[a].sound());
        assert(workspace.panes[b].sound());
        assert(workspace.panes[at].sound());
        if at == b {
            assert(next.panes[at].surfaces == workspace.panes[a].surfaces);
        } else if at == a {
            assert(next.panes[at].surfaces == workspace.panes[b].surfaces);
        }
    }
    lemma_repaned(workspace, next);
}

proof fn lemma_pane_removed(panes: Seq<PaneView>, gone: int, id: PaneId)
    requires
        0 <= gone < panes.len(),
        distinct_panes(panes),
    ensures
        workspace::pane_from(panes.remove(gone), id, 0) is Some == (workspace::pane_from(
            panes,
            id,
            0,
        ) is Some && id != panes[gone].id),
        distinct_panes(panes.remove(gone)),
{
    let rest = panes.remove(gone);
    assert forall|a: int, b: int| 0 <= a < b < rest.len() implies (#[trigger] rest[a]).id != (
    #[trigger] rest[b]).id by {
        let c = if a < gone {
            a
        } else {
            a + 1
        };
        let d = if b < gone {
            b
        } else {
            b + 1
        };
        assert(rest[a] == panes[c] && rest[b] == panes[d]);
    }
    workspace::lemma_pane_from(panes, id, 0);
    workspace::lemma_pane_from(rest, id, 0);
    if let Some(at) = workspace::pane_from(panes, id, 0) {
        if at != gone {
            let place = if at < gone {
                at
            } else {
                at - 1
            };
            assert(rest[place] == panes[at]);
            workspace::lemma_pane_found(rest, place, 0);
            assert(panes[at].id != panes[gone].id);
        }
    }
    if let Some(at) = workspace::pane_from(rest, id, 0) {
        let place = if at < gone {
            at
        } else {
            at + 1
        };
        assert(rest[at] == panes[place]);
        workspace::lemma_pane_found(panes, place, 0);
        assert(panes[place].id != panes[gone].id);
    }
}

proof fn lemma_contains_removed(list: Seq<u128>, at: int, id: u128)
    requires
        list.no_duplicates(),
        0 <= at < list.len(),
    ensures
        list.remove(at).contains(id) == (list.contains(id) && id != list[at]),
        list.remove(at).no_duplicates(),
{
    let rest = list.remove(at);
    if list.contains(id) && id != list[at] {
        let k = choose|k: int| 0 <= k < list.len() && list[k] == id;
        if k < at {
            assert(rest[k] == id);
        } else {
            assert(rest[k - 1] == id);
        }
    }
    if rest.contains(id) {
        let k = choose|k: int| 0 <= k < rest.len() && rest[k] == id;
        if k < at {
            assert(list[k] == id);
        } else {
            assert(list[k + 1] == id);
        }
    }
}

proof fn lemma_present(panes: Seq<PaneView>, list: Seq<PaneId>, from: int)
    requires
        0 <= from,
    ensures
        match workspace::present_from(panes, list, from) {
            Some(id) => workspace::pane_from(panes, id, 0) is Some,
            None => forall|k: int|
                from <= k < list.len() ==> workspace::pane_from(
                    panes,
                    #[trigger] list[k],
                    0,
                ) is None,
        },
    decreases list.len() - from,
{
    if from < list.len() && workspace::pane_from(panes, list[from], 0) is None {
        lemma_present(panes, list, from + 1);
    }
}

proof fn lemma_completed_keeps(list: Seq<PaneId>, panes: Seq<PaneView>, count: int)
    requires
        0 <= count <= panes.len(),
    ensures
        workspace::completed(list, panes, count).len() >= list.len(),
        forall|k: int|
            0 <= k < list.len() ==> workspace::completed(list, panes, count)[k]
                == #[trigger] list[k],
    decreases count,
{
    if count > 0 {
        lemma_completed_keeps(list, panes, count - 1);
    }
}

/// Taking a surface out of a sound workspace keeps it sound. It succeeds for each surface of the
/// workspace but the last, and hands that surface out.
pub proof fn law_detach_keeps_sound(
    workspace: WorkspaceView,
    surface_id: SurfaceId,
    last: Seq<char>,
    none_left: Seq<char>,
)
    requires
        workspace.sound(),
    ensures
        workspace.detached(surface_id, last, none_left).0.sound(),
        workspace.detached(surface_id, last, none_left).1 is Ok == (workspace.surface(
            surface_id,
        ) is Some && !(workspace.panes.len() == 1 && workspace.panes[0].surfaces.len() == 1)),
        match workspace.detached(surface_id, last, none_left).1 {
            Ok(done) => done.surface == workspace.surface(surface_id),
            Err(_) => true,
        },
{
    lemma_holder(workspace.panes, surface_id, 0);
    if let Some(at) = workspace.holder(surface_id) {
        lemma_pane_place(workspace.panes, at);
        let pane = workspace.panes[at];
        assert(pane.sound());
        lemma_pane_holds(pane);
        lemma_surface_from(pane.surfaces, surface_id, 0);
        let place = pane.surface_at(surface_id)->0;
        if pane.surfaces.len() > 1 {
            lemma_without_surface(pane, place);
            lemma_with_pane(workspace, at, pane.without_surface(place));
        } else if workspace.panes.len() > 1 {
            lemma_drop_pane(workspace, at);
        } else {
            assert(workspace.panes[0] == pane);
        }
    }
}

/// Taking out a whole pane of a sound workspace that has another one keeps it sound. The other
/// leaves stay in their order; where the pane was selected, the first leaf is selected.
pub proof fn lemma_drop_pane(workspace: WorkspaceView, at: int)
    requires
        workspace.sound(),
        0 <= at < workspace.panes.len(),
        workspace.panes.len() > 1,
    ensures
        match workspace.layout.without(workspace.panes[at].id) {
            None => false,
            Some(rest) => {
                let next = workspace.dropping_pane(at, rest);
                &&& exists|leaf: int|
                    0 <= leaf < workspace.layout.leaves().len()
                        && #[trigger] workspace.layout.leaves()[leaf] == workspace.panes[at].id
                        && rest.leaves() == workspace.layout.leaves().remove(leaf)
                &&& if workspace.selected_pane_id == workspace.panes[at].id {
                    match workspace::present_from(next.panes, next.ordered_pane_ids(), 0) {
                        None => false,
                        Some(selected) => selected == rest.leaves()[0] && WorkspaceView {
                            selected_pane_id: selected,
                            ..next
                        }.sound(),
                    }
                } else {
                    next.sound()
                }
            },
        },
{
    let gone = workspace.panes[at].id;
    lemma_pane_place(workspace.panes, at);
    let leaves = workspace.layout.leaves();
    assert(leaves.contains(gone));
    let leaf = choose|k: int| 0 <= k < leaves.len() && leaves[k] == gone;
    law_remove_leaves(workspace.layout, leaf);
    let other: int = if at == 0 {
        1
    } else {
        0
    };
    lemma_pane_place(workspace.panes, other);
    assert(workspace.panes[other].id != gone);
    assert(leaves.contains(workspace.panes[other].id));
    let rest = workspace.layout.without(gone)->0;
    let next = workspace.dropping_pane(at, rest);
    assert forall|id: PaneId| #[trigger]
        next.pane_at(id) is Some == (workspace.pane_at(id) is Some && id != gone) by {
        lemma_pane_removed(workspace.panes, at, id);
    }
    lemma_pane_removed(workspace.panes, at, gone);
    lemma_contains_removed(leaves, leaf, gone);
    assert forall|id: PaneId| #[trigger]
        rest.leaves().contains(id) == (next.pane_at(id) is Some) by {
        lemma_contains_removed(leaves, leaf, id);
        assert(leaves.contains(id) == (workspace.pane_at(id) is Some));
        assert(next.pane_at(id) is Some == (workspace.pane_at(id) is Some && id != gone));
    }
    assert forall|k: int| 0 <= k < next.panes.len() implies (
    #[trigger] next.panes[k]).sound() by {
        if k < at {
            assert(next.panes[k] == workspace.panes[k]);
        } else {
            assert(next.panes[k] == workspace.panes[k + 1]);
        }
    }
    if workspace.selected_pane_id == gone {
        let list = next.ordered_pane_ids();
        lemma_completed_keeps(rest.leaves(), next.panes, next.panes.len() as int);
        lemma_present(next.panes, list, 0);
        lemma_some_leaf(rest);
        assert(rest.leaves().contains(rest.leaves()[0]));
        assert(list[0] == rest.leaves()[0]);
        assert(next.pane_at(list[0]) is Some);
        let selected = workspace::present_from(next.panes, list, 0)->0;
        let chosen = WorkspaceView { selected_pane_id: selected, ..next };
        assert forall|id: PaneId| #[trigger] chosen.pane_at(id) == next.pane_at(id) by {}
        assert(next.pane_at(selected) is Some);
        assert(chosen.pane_at(selected) == next.pane_at(selected));
        assert forall|id: PaneId| #[trigger]
            chosen.layout.leaves().contains(id) == (chosen.pane_at(id) is Some) by {
            assert(rest.leaves().contains(id) == (next.pane_at(id) is Some));
            assert(chosen.pane_at(id) == next.pane_at(id));
        }
        assert(chosen.sound());
    } else {
        assert(next.pane_at(next.selected_pane_id) is Some);
    }
}

} // verus!
