//! Workspaces: panes laid out side by side.

use crate::ids;
use crate::ids::{PaneId, SurfaceId, WindowId, WorkspaceId};
use crate::layout;
use crate::layout::WorkspaceLayout;
use crate::surface;
use crate::surface::{Pane, PaneView, Surface, SurfaceView};
use crate::text;
use crate::text::copy_opt;
use vstd::prelude::*;

verus! {

/// A workspace: panes laid out side by side, one of them selected.
#[derive(Debug)]
pub struct Workspace {
    /// Its identifier.
    pub id: WorkspaceId,
    /// The window that holds it.
    pub window_id: WindowId,
    /// Its title.
    pub title: String,
    /// The directory that its selected shell is in.
    pub current_directory: Option<String>,
    /// How its panes are laid out.
    pub layout: WorkspaceLayout,
    /// Its panes, in the order in which they were made.
    pub panes: Vec<Pane>,
    /// The selected pane.
    pub selected_pane_id: PaneId,
    /// The pane that was selected before.
    pub last_selected_pane_id: Option<PaneId>,
}

/// The contents of a [`Workspace`].
#[verifier::ext_equal]
pub struct WorkspaceView {
    /// See [`Workspace::id`].
    pub id: WorkspaceId,
    /// See [`Workspace::window_id`].
    pub window_id: WindowId,
    /// See [`Workspace::title`].
    pub title: Seq<char>,
    /// See [`Workspace::current_directory`].
    pub current_directory: Option<Seq<char>>,
    /// See [`Workspace::layout`].
    pub layout: WorkspaceLayout,
    /// See [`Workspace::panes`].
    pub panes: Seq<PaneView>,
    /// See [`Workspace::selected_pane_id`].
    pub selected_pane_id: PaneId,
    /// See [`Workspace::last_selected_pane_id`].
    pub last_selected_pane_id: Option<PaneId>,
}

/// The contents of each pane.
pub open spec fn pane_views(panes: Seq<Pane>) -> Seq<PaneView> {
    panes.map_values(|pane: Pane| pane@)
}

impl View for Workspace {
    type V = WorkspaceView;

    open spec fn view(&self) -> WorkspaceView {
        WorkspaceView {
            id: self.id,
            window_id: self.window_id,
            title: self.title@,
            current_directory: text::opt_text(self.current_directory),
            layout: self.layout,
            panes: pane_views(self.panes@),
            selected_pane_id: self.selected_pane_id,
            last_selected_pane_id: self.last_selected_pane_id,
        }
    }
}

impl Clone for Workspace {
    fn clone(&self) -> (copy: Self)
        ensures
            copy@ == self@,
    {
        let panes = self.panes.clone();
        proof {
            assert(pane_views(panes@) =~= pane_views(self.panes@));
        }
        Workspace {
            id: self.id,
            window_id: self.window_id,
            title: self.title.clone(),
            current_directory: copy_opt(&self.current_directory),
            layout: self.layout.copy(),
            panes,
            selected_pane_id: self.selected_pane_id,
            last_selected_pane_id: self.last_selected_pane_id,
        }
    }
}

// ---------------------------------------------------------------------------
// Looking things up
// ---------------------------------------------------------------------------

/// The place of the first pane with this identifier, looking from `at` on.
pub open spec fn pane_from(panes: Seq<PaneView>, id: PaneId, at: int) -> Option<int>
    decreases panes.len() - at,
{
    if at >= panes.len() {
        None
    } else if panes[at].id == id {
        Some(at)
    } else {
        pane_from(panes, id, at + 1)
    }
}

/// The place of the first pane that holds this surface, looking from `at` on.
pub open spec fn holder_from(panes: Seq<PaneView>, id: SurfaceId, at: int) -> Option<int>
    decreases panes.len() - at,
{
    if at >= panes.len() {
        None
    } else if panes[at].surface_at(id) is Some {
        Some(at)
    } else {
        holder_from(panes, id, at + 1)
    }
}

/// How many surfaces the first `count` panes hold.
pub open spec fn surfaces_in(panes: Seq<PaneView>, count: int) -> nat
    decreases count,
{
    if count <= 0 {
        0
    } else {
        surfaces_in(panes, count - 1) + panes[count - 1].surfaces.len()
    }
}

/// `ids`, followed by those of the first `count` panes that are not among them.
pub open spec fn completed(ids: Seq<PaneId>, panes: Seq<PaneView>, count: int) -> Seq<PaneId>
    decreases count,
{
    if count <= 0 {
        ids
    } else {
        let shorter = completed(ids, panes, count - 1);
        if shorter.contains(panes[count - 1].id) {
            shorter
        } else {
            shorter.push(panes[count - 1].id)
        }
    }
}

/// The panes that the first `count` identifiers stand for.
pub open spec fn panes_for(panes: Seq<PaneView>, list: Seq<PaneId>, count: int) -> Seq<PaneView>
    decreases count,
{
    if count <= 0 {
        Seq::empty()
    } else {
        let shorter = panes_for(panes, list, count - 1);
        match pane_from(panes, list[count - 1], 0) {
            Some(at) => shorter.push(panes[at]),
            None => shorter,
        }
    }
}

/// The first identifier, from `at` on, that one of the panes has.
pub open spec fn present_from(panes: Seq<PaneView>, list: Seq<PaneId>, at: int) -> Option<PaneId>
    decreases list.len() - at,
{
    if at >= list.len() {
        None
    } else if pane_from(panes, list[at], 0) is Some {
        Some(list[at])
    } else {
        present_from(panes, list, at + 1)
    }
}

/// A pane is found under its own identifier.
pub proof fn lemma_pane_found(panes: Seq<PaneView>, at: int, from: int)
    requires
        0 <= from <= at < panes.len(),
    ensures
        pane_from(panes, panes[at].id, from) is Some,
    decreases at - from,
{
    if panes[from].id != panes[at].id {
        lemma_pane_found(panes, at, from + 1);
    }
}

/// The pane that was found is one of the panes, and has the identifier.
pub proof fn lemma_pane_from(panes: Seq<PaneView>, id: PaneId, from: int)
    requires
        0 <= from,
    ensures
        match pane_from(panes, id, from) {
            Some(at) => from <= at < panes.len() && panes[at].id == id,
            None => true,
        },
    decreases panes.len() - from,
{
    if from < panes.len() && panes[from].id != id {
        lemma_pane_from(panes, id, from + 1);
    }
}

/// The contents of an optional pane.
pub open spec fn opt_pane(pane: Option<&Pane>) -> Option<PaneView> {
    match pane {
        Some(inner) => Some(inner@),
        None => None,
    }
}

/// The contents of the panes referred to.
pub open spec fn pane_ref_views(panes: Seq<&Pane>) -> Seq<PaneView> {
    panes.map_values(|pane: &Pane| pane@)
}

impl WorkspaceView {
    /// The place of the pane with this identifier.
    pub open spec fn pane_at(self, id: PaneId) -> Option<int> {
        pane_from(self.panes, id, 0)
    }

    /// The pane with this identifier.
    pub open spec fn pane(self, id: PaneId) -> Option<PaneView> {
        match self.pane_at(id) {
            Some(at) => Some(self.panes[at]),
            None => None,
        }
    }

    /// The place of the pane that holds this surface.
    pub open spec fn holder(self, id: SurfaceId) -> Option<int> {
        holder_from(self.panes, id, 0)
    }

    /// The pane that holds this surface.
    pub open spec fn pane_id_for_surface(self, id: SurfaceId) -> Option<PaneId> {
        match self.holder(id) {
            Some(at) => Some(self.panes[at].id),
            None => None,
        }
    }

    /// The surface with this identifier.
    pub open spec fn surface(self, id: SurfaceId) -> Option<SurfaceView> {
        match self.holder(id) {
            Some(at) => self.panes[at].surface(id),
            None => None,
        }
    }

    /// The surface selected in the selected pane.
    pub open spec fn selected_surface_id(self) -> Option<SurfaceId> {
        match self.pane(self.selected_pane_id) {
            Some(pane) => Some(pane.selected_surface_id),
            None => None,
        }
    }

    /// The panes in the order of the layout, followed by those that the layout does not name.
    pub open spec fn ordered_pane_ids(self) -> Seq<PaneId> {
        completed(self.layout.leaves(), self.panes, self.panes.len() as int)
    }

    /// The panes in the order of [`WorkspaceView::ordered_pane_ids`].
    pub open spec fn ordered_panes(self) -> Seq<PaneView> {
        panes_for(self.panes, self.ordered_pane_ids(), self.ordered_pane_ids().len() as int)
    }

    /// The workspace with another pane at `at`.
    pub open spec fn with_pane(self, at: int, pane: PaneView) -> WorkspaceView {
        WorkspaceView { panes: self.panes.update(at, pane), ..self }
    }

    /// The workspace with another surface in place of the one with this identifier.
    pub open spec fn with_surface(self, id: SurfaceId, surface: SurfaceView) -> WorkspaceView {
        let at = self.holder(id)->0;
        let pane = self.panes[at];
        self.with_pane(at, pane.with_surface(pane.surface_at(id)->0, surface))
    }
}

impl Workspace {
    /// How many panes there are.
    pub fn pane_count(&self) -> (count: usize)
        ensures
            count == self@.panes.len(),
    {
        self.panes.len()
    }

    /// How many surfaces there are.
    pub fn surface_count(&self) -> (count: usize)
        requires
            surfaces_in(self@.panes, self@.panes.len() as int) <= usize::MAX,
        ensures
            count == surfaces_in(self@.panes, self@.panes.len() as int),
    {
        let mut count: usize = 0;
        let mut at: usize = 0;
        while at < self.panes.len()
            invariant
                at <= self.panes@.len(),
                count == surfaces_in(self@.panes, at as int),
                surfaces_in(self@.panes, self@.panes.len() as int) <= usize::MAX,
            decreases self.panes@.len() - at,
        {
            proof {
                lemma_surfaces_grow(self@.panes, at + 1, self@.panes.len() as int);
            }
            count = count + self.panes[at].surfaces.len();
            at = at + 1;
        }
        count
    }

    /// The selected pane.
    pub fn selected_pane(&self) -> (pane: Option<&Pane>)
        ensures
            opt_pane(pane) == self@.pane(self@.selected_pane_id),
    {
        self.pane(self.selected_pane_id)
    }

    /// The place of the pane with this identifier.
    pub fn pane_index(&self, pane_id: PaneId) -> (place: Option<usize>)
        ensures
            match place {
                Some(at) => at < self@.panes.len() && self@.pane_at(pane_id) == Some(at as int),
                None => self@.pane_at(pane_id) is None,
            },
    {
        let mut at: usize = 0;
        while at < self.panes.len()
            invariant
                at <= self.panes@.len(),
                self@.pane_at(pane_id) == pane_from(self@.panes, pane_id, at as int),
            decreases self.panes@.len() - at,
        {
            if self.panes[at].id == pane_id {
                return Some(at);
            }
            at = at + 1;
        }
        None
    }

    /// The pane with this identifier.
    pub fn pane(&self, pane_id: PaneId) -> (pane: Option<&Pane>)
        ensures
            opt_pane(pane) == self@.pane(pane_id),
    {
        match self.pane_index(pane_id) {
            Some(at) => Some(&self.panes[at]),
            None => None,
        }
    }

    /// Gives access to the pane at a place.
    pub fn pane_slot(&mut self, at: usize) -> (pane: &mut Pane)
        requires
            at < old(self)@.panes.len(),
        ensures
            pane@ == old(self)@.panes[at as int],
            final(self)@ == old(self)@.with_pane(at as int, final(pane)@),
    {
        &mut self.panes[at]
    }

    /// Gives access to the pane with this identifier.
    pub fn pane_mut(&mut self, pane_id: PaneId) -> (pane: Option<&mut Pane>)
        ensures
            match pane {
                Some(inner) => match old(self)@.pane_at(pane_id) {
                    Some(at) => inner@ == old(self)@.panes[at] && final(self)@ == old(
                        self,
                    )@.with_pane(at, final(inner)@),
                    None => false,
                },
                None => old(self)@.pane_at(pane_id) is None && final(self)@ == old(self)@,
            },
    {
        match self.pane_index(pane_id) {
            Some(at) => Some(self.pane_slot(at)),
            None => None,
        }
    }

    /// The panes in the order of the layout, followed by those that the layout does not name.
    pub fn ordered_pane_ids(&self) -> (list: Vec<PaneId>)
        ensures
            list@ == self@.ordered_pane_ids(),
    {
        let mut list: Vec<PaneId> = Vec::new();
        self.layout.collect_pane_ids(&mut list);
        proof {
            assert(list@ =~= self.layout.leaves());
        }
        let mut at: usize = 0;
        while at < self.panes.len()
            invariant
                at <= self.panes@.len(),
                list@ == completed(self@.layout.leaves(), self@.panes, at as int),
            decreases self.panes@.len() - at,
        {
            if !ids::holds(&list, self.panes[at].id) {
                list.push(self.panes[at].id);
            }
            at = at + 1;
        }
        list
    }

    /// The panes in the order of [`Workspace::ordered_pane_ids`].
    pub fn ordered_panes(&self) -> (panes: Vec<&Pane>)
        ensures
            pane_ref_views(panes@) == self@.ordered_panes(),
    {
        let list = self.ordered_pane_ids();
        let mut panes: Vec<&Pane> = Vec::new();
        let mut at: usize = 0;
        proof {
            assert(pane_ref_views(panes@) =~= Seq::empty());
        }
        while at < list.len()
            invariant
                at <= list@.len(),
                list@ == self@.ordered_pane_ids(),
                pane_ref_views(panes@) == panes_for(self@.panes, list@, at as int),
            decreases list@.len() - at,
        {
            let ghost before = pane_ref_views(panes@);
            if let Some(pane) = self.pane(list[at]) {
                panes.push(pane);
                proof {
                    assert(pane_ref_views(panes@) =~= before.push(pane@));
                }
            }
            at = at + 1;
        }
        panes
    }

    /// The surface selected in the selected pane.
    pub fn selected_surface_id(&self) -> (id: Option<SurfaceId>)
        ensures
            id == self@.selected_surface_id(),
    {
        match self.selected_pane() {
            Some(pane) => Some(pane.selected_surface_id),
            None => None,
        }
    }

    /// The place of the pane that holds this surface.
    pub fn holder_index(&self, surface_id: SurfaceId) -> (place: Option<usize>)
        ensures
            match place {
                Some(at) => at < self@.panes.len() && self@.holder(surface_id) == Some(at as int)
                    && self@.panes[at as int].surface_at(surface_id) is Some,
                None => self@.holder(surface_id) is None,
            },
    {
        let mut at: usize = 0;
        while at < self.panes.len()
            invariant
                at <= self.panes@.len(),
                self@.holder(surface_id) == holder_from(self@.panes, surface_id, at as int),
            decreases self.panes@.len() - at,
        {
            if self.panes[at].surface_index(surface_id).is_some() {
                return Some(at);
            }
            at = at + 1;
        }
        None
    }

    /// The pane that holds this surface.
    pub fn pane_id_for_surface(&self, surface_id: SurfaceId) -> (id: Option<PaneId>)
        ensures
            id == self@.pane_id_for_surface(surface_id),
    {
        match self.holder_index(surface_id) {
            Some(at) => Some(self.panes[at].id),
            None => None,
        }
    }

    /// The surface with this identifier.
    pub fn surface(&self, surface_id: SurfaceId) -> (found: Option<&Surface>)
        ensures
            surface::opt_surface(found) == self@.surface(surface_id),
    {
        match self.holder_index(surface_id) {
            Some(at) => self.panes[at].surface(surface_id),
            None => None,
        }
    }

    /// Gives access to the surface with this identifier.
    pub fn surface_mut(&mut self, surface_id: SurfaceId) -> (found: Option<&mut Surface>)
        ensures
            match found {
                Some(inner) => match old(self)@.surface(surface_id) {
                    Some(before) => inner@ == before && final(self)@ == old(self)@.with_surface(
                        surface_id,
                        final(inner)@,
                    ),
                    None => false,
                },
                None => old(self)@.surface(surface_id) is None && final(self)@ == old(self)@,
            },
    {
        match self.holder_index(surface_id) {
            Some(at) => self.pane_slot(at).surface_mut(surface_id),
            None => None,
        }
    }
}

/// More panes do not hold fewer surfaces.
pub proof fn lemma_surfaces_grow(panes: Seq<PaneView>, low: int, high: int)
    requires
        0 <= low <= high,
    ensures
        surfaces_in(panes, low) <= surfaces_in(panes, high),
    decreases high - low,
{
    if low < high {
        lemma_surfaces_grow(panes, low, high - 1);
    }
}

} // verus!
