//! What can be done to a workspace.

use crate::ids;
use crate::ids::{id_string, not_found, PaneId, SurfaceId};
use crate::layout;
use crate::layout::{FocusDirection, PaneRegion, SplitOrientation};
use crate::surface::{Pane, PaneView, Surface, SurfaceView};
use crate::text;
use crate::text::same_text;
use crate::workspace;
use crate::workspace::{Workspace, WorkspaceView};
use vstd::prelude::*;

verus! {

/// The place that lies `delta` steps after `at` in a ring of `len` places.
pub open spec fn ring(at: int, delta: int, len: int) -> int {
    (at + delta) % len
}

/// Walks `delta` steps from `at` in a ring of `len` places.
pub fn ring_step(at: usize, delta: isize, len: usize) -> (next: usize)
    requires
        at < len,
    ensures
        next == ring(at as int, delta as int, len as int),
        next < len,
{
    let sum: i128 = at as i128 + delta as i128;
    let size: i128 = len as i128;
    if sum >= 0 {
        (sum % size) as usize
    } else {
        let back: i128 = (-sum) % size;
        proof {
            let q = (-sum) as int / size as int;
            assert(-sum == q * size + back) by {
                vstd::arithmetic::div_mod::lemma_fundamental_div_mod((-sum) as int, size as int);
                vstd::arithmetic::mul::lemma_mul_is_commutative(q, size as int);
            }
            if back == 0 {
                assert(sum == (-q) * size + 0) by (nonlinear_arith)
                    requires
                        -sum == q * size + 0,
                ;
                vstd::arithmetic::div_mod::lemma_fundamental_div_mod_converse(
                    sum as int,
                    size as int,
                    -q,
                    0,
                );
            } else {
                assert(sum == (-q - 1) * size + (size - back)) by (nonlinear_arith)
                    requires
                        -sum == q * size + back,
                ;
                vstd::arithmetic::div_mod::lemma_fundamental_div_mod_converse(
                    sum as int,
                    size as int,
                    -q - 1,
                    (size - back) as int,
                );
            }
        }
        if back == 0 {
            0
        } else {
            (size - back) as usize
        }
    }
}

/// A result that holds a surface, with the surface and the message taken by their contents.
pub open spec fn surface_result(result: Result<Surface, String>) -> Result<SurfaceView, Seq<char>> {
    match result {
        Ok(surface) => Ok(surface@),
        Err(message) => Err(message@),
    }
}

/// What [`WorkspaceView::detached`] gives where it succeeds.
#[verifier::ext_equal]
pub struct Detached {
    /// The pane that held the surface.
    pub pane_id: PaneId,
    /// Whether the pane went with it.
    pub removed_pane: bool,
    /// The surface, unless the pane was empty.
    pub surface: Option<SurfaceView>,
}

/// The contents of what [`Workspace::detach`] gives.
pub open spec fn detach_result(
    result: Result<(PaneId, bool, Option<Surface>), String>,
) -> Result<Detached, Seq<char>> {
    match result {
        Ok((pane_id, removed_pane, surface)) => Ok(
            Detached {
                pane_id,
                removed_pane,
                surface: match surface {
                    Some(inner) => Some(inner@),
                    None => None,
                },
            },
        ),
        Err(message) => Err(message@),
    }
}

impl WorkspaceView {
    /// The surface that lies `delta` tabs after the selected one, in a ring.
    pub open spec fn neighbor(self, delta: int) -> Result<SurfaceId, Seq<char>> {
        match self.pane(self.selected_pane_id) {
            None => Err(ids::not_found_text("pane"@, self.selected_pane_id)),
            Some(pane) => if pane.surfaces.len() == 0 {
                Err("pane "@ + ids::id_text(pane.id) + " has no surfaces"@)
            } else {
                let current = match pane.surface_at(pane.selected_surface_id) {
                    Some(at) => at,
                    None => 0,
                };
                Ok(pane.surfaces[ring(current, delta, pane.surfaces.len() as int)].id)
            },
        }
    }

    /// The workspace with this pane selected.
    pub open spec fn selecting(self, pane_id: PaneId) -> WorkspaceView {
        WorkspaceView {
            selected_pane_id: pane_id,
            last_selected_pane_id: if self.selected_pane_id != pane_id {
                Some(self.selected_pane_id)
            } else {
                self.last_selected_pane_id
            },
            ..self
        }
    }

    /// Selects a pane.
    pub open spec fn focus_pane(self, pane_id: PaneId) -> (WorkspaceView, Result<(), Seq<char>>) {
        if self.pane_at(pane_id) is Some {
            (self.selecting(pane_id), Ok(()))
        } else {
            (self, Err(ids::not_found_text("pane"@, pane_id)))
        }
    }

    /// Selects a surface and the pane that holds it.
    pub open spec fn focus_surface(self, surface_id: SurfaceId) -> (
        WorkspaceView,
        Result<PaneId, Seq<char>>,
    ) {
        match self.pane_id_for_surface(surface_id) {
            None => (self, Err(ids::not_found_text("surface"@, surface_id))),
            Some(pane_id) => {
                let at = self.pane_at(pane_id)->0;
                let pane = PaneView { selected_surface_id: surface_id, ..self.panes[at] };
                (self.with_pane(at, pane).selecting(pane_id), Ok(pane_id))
            },
        }
    }

    /// The pane that was selected before, if it is still there, else the selected one.
    pub open spec fn last_pane(self) -> PaneId {
        match self.last_selected_pane_id {
            Some(pane_id) => if self.pane_at(pane_id) is Some {
                pane_id
            } else {
                self.selected_pane_id
            },
            None => self.selected_pane_id,
        }
    }

    /// Selects this pane and tells which it is.
    pub open spec fn focus_to(self, pane_id: PaneId) -> (WorkspaceView, Result<PaneId, Seq<char>>) {
        match self.focus_pane(pane_id) {
            (next, Ok(_)) => (next, Ok(pane_id)),
            (next, Err(message)) => (next, Err(message)),
        }
    }

    /// The nearest pane in a direction, or the selected one where none lies that way.
    pub open spec fn adjacent_pane(self, direction: FocusDirection) -> PaneId {
        match layout::adjacent(self.layout.all_regions(), self.selected_pane_id, direction) {
            Some(pane_id) => pane_id,
            None => self.selected_pane_id,
        }
    }

    /// Splits a pane in two.
    pub open spec fn split_pane(
        self,
        target: PaneId,
        orientation: SplitOrientation,
        insert_first: bool,
        select_new: bool,
        new_pane: PaneView,
    ) -> (WorkspaceView, Result<PaneId, Seq<char>>) {
        if self.pane_at(target) is None {
            (self, Err(ids::not_found_text("pane"@, target)))
        } else {
            match self.layout.with_split(target, new_pane.id, orientation, insert_first) {
                None => (
                    self,
                    Err("pane "@ + ids::id_text(target) + " could not be split"@),
                ),
                Some(layout) => (
                    WorkspaceView {
                        layout,
                        panes: self.panes.push(new_pane),
                        selected_pane_id: if select_new {
                            new_pane.id
                        } else {
                            self.selected_pane_id
                        },
                        last_selected_pane_id: if select_new {
                            Some(self.selected_pane_id)
                        } else {
                            self.last_selected_pane_id
                        },
                        ..self
                    },
                    Ok(new_pane.id),
                ),
            }
        }
    }

    /// Puts a surface into a pane at a place, or at the end where `index` is past it.
    pub open spec fn insert_surface(
        self,
        pane_id: PaneId,
        surface: SurfaceView,
        index: int,
        select_new: bool,
    ) -> (WorkspaceView, Result<SurfaceId, Seq<char>>) {
        match self.pane_at(pane_id) {
            None => (self, Err(ids::not_found_text("pane"@, pane_id))),
            Some(at) => {
                let pane = self.panes[at].inserted(index, surface);
                (
                    if select_new {
                        WorkspaceView {
                            selected_pane_id: pane_id,
                            ..self.with_pane(
                                at,
                                PaneView { selected_surface_id: surface.id, ..pane },
                            )
                        }
                    } else {
                        self.with_pane(at, pane)
                    },
                    Ok(surface.id),
                )
            },
        }
    }

    /// Puts a surface into a pane, after the others.
    pub open spec fn create_surface(
        self,
        pane_id: PaneId,
        surface: SurfaceView,
        select_new: bool,
    ) -> (WorkspaceView, Result<SurfaceId, Seq<char>>) {
        match self.pane_at(pane_id) {
            None => (self, Err(ids::not_found_text("pane"@, pane_id))),
            Some(at) => self.insert_surface(
                pane_id,
                surface,
                self.panes[at].surfaces.len() as int,
                select_new,
            ),
        }
    }

    /// Moves a surface to another place in its pane.
    pub open spec fn reorder_surface(self, surface_id: SurfaceId, index: int) -> (
        WorkspaceView,
        Result<(), Seq<char>>,
    ) {
        match self.pane_id_for_surface(surface_id) {
            None => (self, Err(ids::not_found_text("surface"@, surface_id))),
            Some(pane_id) => {
                let at = self.pane_at(pane_id)->0;
                let pane = self.panes[at];
                match pane.surface_at(surface_id) {
                    None => (self, Err(ids::not_found_text("surface"@, surface_id))),
                    Some(place) => {
                        let rest = PaneView { surfaces: pane.surfaces.remove(place), ..pane };
                        (self.with_pane(at, rest.inserted(index, pane.surfaces[place])), Ok(()))
                    },
                }
            },
        }
    }

    /// The workspace without the pane at `at`, and with this layout.
    pub open spec fn dropping_pane(self, at: int, layout: layout::WorkspaceLayout) -> WorkspaceView {
        WorkspaceView {
            layout,
            panes: self.panes.remove(at),
            last_selected_pane_id: if self.last_selected_pane_id == Some(self.panes[at].id) {
                None
            } else {
                self.last_selected_pane_id
            },
            ..self
        }
    }

    /// Takes a surface out of its pane. A pane that would be left empty goes with it, and its
    /// sibling takes its place; the last surface stays. `last` and `none_left` are the messages
    /// for the last surface and for a workspace in which no pane can be selected.
    pub open spec fn detached(
        self,
        surface_id: SurfaceId,
        last: Seq<char>,
        none_left: Seq<char>,
    ) -> (WorkspaceView, Result<Detached, Seq<char>>) {
        match self.pane_id_for_surface(surface_id) {
            None => (self, Err(ids::not_found_text("surface"@, surface_id))),
            Some(pane_id) => {
                let at = self.pane_at(pane_id)->0;
                let pane = self.panes[at];
                if pane.surfaces.len() <= 1 && self.panes.len() <= 1 {
                    (self, Err(last))
                } else if pane.surfaces.len() <= 1 {
                    match self.layout.without(pane_id) {
                        None => (
                            WorkspaceView { layout: self.layout.removed(pane_id), ..self },
                            Err("cannot remove the last pane"@),
                        ),
                        Some(rest) => {
                            let next = self.dropping_pane(at, rest);
                            let done = Detached {
                                pane_id,
                                removed_pane: true,
                                surface: if pane.surfaces.len() == 1 {
                                    Some(pane.surfaces[0])
                                } else {
                                    None
                                },
                            };
                            if self.selected_pane_id == pane_id {
                                match workspace::present_from(
                                    next.panes,
                                    next.ordered_pane_ids(),
                                    0,
                                ) {
                                    None => (next, Err(none_left)),
                                    Some(selected) => (
                                        WorkspaceView { selected_pane_id: selected, ..next },
                                        Ok(done),
                                    ),
                                }
                            } else {
                                (next, Ok(done))
                            }
                        },
                    }
                } else {
                    match pane.surface_at(surface_id) {
                        None => (self, Err(ids::not_found_text("surface"@, surface_id))),
                        Some(place) => (
                            self.with_pane(at, pane.without_surface(place)),
                            Ok(
                                Detached {
                                    pane_id,
                                    removed_pane: false,
                                    surface: Some(pane.surfaces[place]),
                                },
                            ),
                        ),
                    }
                }
            },
        }
    }

    /// Takes a surface out in order to put it elsewhere.
    pub open spec fn remove_surface_for_move(self, surface_id: SurfaceId) -> (
        WorkspaceView,
        Result<SurfaceView, Seq<char>>,
    ) {
        match self.detached(
            surface_id,
            "cannot move the last surface"@,
            "no pane remaining after move"@,
        ) {
            (next, Err(message)) => (next, Err(message)),
            (next, Ok(done)) => match done.surface {
                Some(surface) => (next, Ok(surface)),
                None => (next, Err(ids::not_found_text("surface"@, surface_id))),
            },
        }
    }

    /// Closes a surface; tells the pane it was in and whether the pane went with it.
    pub open spec fn close_surface(self, surface_id: SurfaceId) -> (
        WorkspaceView,
        Result<(PaneId, bool), Seq<char>>,
    ) {
        match self.detached(
            surface_id,
            "cannot close the last surface"@,
            "no pane remaining after close"@,
        ) {
            (next, Err(message)) => (next, Err(message)),
            (next, Ok(done)) => (next, Ok((done.pane_id, done.removed_pane))),
        }
    }
}

/// Writes a message about an object: what it is, its identifier, and what is the matter.
pub fn about(kind: &str, id: u128, rest: &str) -> (message: String)
    ensures
        message@ == kind@ + ids::id_text(id) + rest@,
{
    let mut message = kind.to_owned();
    message.append(id_string(id).as_str());
    message.append(rest);
    message
}

impl Workspace {
    /// The surface that lies `delta` tabs after the selected one, in a ring.
    pub fn selected_surface_neighbor(&self, delta: isize) -> (result: Result<SurfaceId, String>)
        ensures
            text::text_result(result) == self@.neighbor(delta as int),
    {
        let pane = match self.selected_pane() {
            Some(pane) => pane,
            None => {
                return Err(not_found("pane", self.selected_pane_id));
            },
        };
        if pane.surfaces.len() == 0 {
            return Err(about("pane ", pane.id, " has no surfaces"));
        }
        let current_index: usize = match pane.selected_surface_index() {
            Some(at) => at,
            None => 0,
        };
        let next_index = ring_step(current_index, delta, pane.surfaces.len());
        Ok(pane.surfaces[next_index].id)
    }

    /// Selects a pane.
    pub fn focus_pane(&mut self, pane_id: PaneId) -> (result: Result<(), String>)
        ensures
            final(self)@ == old(self)@.focus_pane(pane_id).0,
            text::text_result(result) == old(self)@.focus_pane(pane_id).1,
    {
        if self.pane_index(pane_id).is_none() {
            return Err(not_found("pane", pane_id));
        }
        if self.selected_pane_id != pane_id {
            self.last_selected_pane_id = Some(self.selected_pane_id);
        }
        self.selected_pane_id = pane_id;
        Ok(())
    }

    /// Selects a surface and the pane that holds it.
    pub fn focus_surface(&mut self, surface_id: SurfaceId) -> (result: Result<PaneId, String>)
        ensures
            final(self)@ == old(self)@.focus_surface(surface_id).0,
            text::text_result(result) == old(self)@.focus_surface(surface_id).1,
    {
        let holder = match self.holder_index(surface_id) {
            Some(at) => at,
            None => {
                return Err(not_found("surface", surface_id));
            },
        };
        let pane_id = self.panes[holder].id;
        proof {
            workspace::lemma_pane_found(self@.panes, holder as int, 0);
        }
        if self.selected_pane_id != pane_id {
            self.last_selected_pane_id = Some(self.selected_pane_id);
        }
        self.selected_pane_id = pane_id;
        match self.pane_mut(pane_id) {
            Some(pane) => {
                pane.selected_surface_id = surface_id;
                Ok(pane_id)
            },
            None => Err(not_found("pane", pane_id)),
        }
    }

    /// Selects the pane that was selected before, if it is still there.
    pub fn focus_last_pane(&mut self) -> (result: Result<PaneId, String>)
        ensures
            final(self)@ == old(self)@.focus_to(old(self)@.last_pane()).0,
            text::text_result(result) == old(self)@.focus_to(old(self)@.last_pane()).1,
    {
        let pane_id = match self.last_selected_pane_id {
            Some(candidate) => if self.pane_index(candidate).is_some() {
                candidate
            } else {
                self.selected_pane_id
            },
            None => self.selected_pane_id,
        };
        match self.focus_pane(pane_id) {
            Ok(_) => Ok(pane_id),
            Err(message) => Err(message),
        }
    }

    /// Selects the nearest pane in a direction; where none lies that way, the selected one stays.
    pub fn focus_adjacent_pane(&mut self, direction: FocusDirection) -> (result: Result<
        PaneId,
        String,
    >)
        ensures
            final(self)@ == old(self)@.focus_to(old(self)@.adjacent_pane(direction)).0,
            text::text_result(result) == old(self)@.focus_to(
                old(self)@.adjacent_pane(direction),
            ).1,
    {
        let current_pane_id = self.selected_pane_id;
        let target_pane_id = match self.adjacent_pane_id(direction) {
            Some(pane_id) => pane_id,
            None => current_pane_id,
        };
        match self.focus_pane(target_pane_id) {
            Ok(_) => Ok(target_pane_id),
            Err(message) => Err(message),
        }
    }

    /// The nearest pane in a direction.
    pub fn adjacent_pane_id(&self, direction: FocusDirection) -> (found: Option<PaneId>)
        ensures
            found == layout::adjacent(
                self@.layout.all_regions(),
                self@.selected_pane_id,
                direction,
            ),
    {
        self.layout.adjacent_pane(self.selected_pane_id, direction)
    }

    /// The rectangles that the panes take.
    pub fn debug_pane_regions(&self) -> (regions: Vec<PaneRegion>)
        ensures
            regions@ == self@.layout.all_regions(),
    {
        self.layout.pane_regions()
    }

    /// Splits a pane in two.
    pub fn split_pane(
        &mut self,
        target_pane_id: PaneId,
        orientation: SplitOrientation,
        insert_first: bool,
        select_new: bool,
        new_pane: Pane,
    ) -> (result: Result<PaneId, String>)
        ensures
            final(self)@ == old(self)@.split_pane(
                target_pane_id,
                orientation,
                insert_first,
                select_new,
                new_pane@,
            ).0,
            text::text_result(result) == old(self)@.split_pane(
                target_pane_id,
                orientation,
                insert_first,
                select_new,
                new_pane@,
            ).1,
    {
        if self.pane_index(target_pane_id).is_none() {
            return Err(not_found("pane", target_pane_id));
        }
        let new_pane_id = new_pane.id;
        if self.layout.split_leaf(target_pane_id, new_pane_id, orientation, insert_first) {
            self.panes.push(new_pane);
            if select_new {
                self.last_selected_pane_id = Some(self.selected_pane_id);
                self.selected_pane_id = new_pane_id;
            }
            return Ok(new_pane_id);
        }
        Err(about("pane ", target_pane_id, " could not be split"))
    }

    /// Puts a surface into a pane, after the others.
    pub fn create_surface_in_pane(
        &mut self,
        pane_id: PaneId,
        surface: Surface,
        select_new: bool,
    ) -> (result: Result<SurfaceId, String>)
        ensures
            final(self)@ == old(self)@.create_surface(pane_id, surface@, select_new).0,
            text::text_result(result) == old(self)@.create_surface(
                pane_id,
                surface@,
                select_new,
            ).1,
    {
        match self.pane_index(pane_id) {
            None => Err(not_found("pane", pane_id)),
            Some(at) => {
                let end = self.panes[at].surfaces.len();
                self.insert_surface_in_pane(pane_id, surface, end, select_new)
            },
        }
    }

    /// Renames the workspace; tells whether the title changed.
    pub fn rename(&mut self, title: String) -> (changed: bool)
        ensures
            changed == (old(self)@.title != title@),
            final(self)@ == (WorkspaceView { title: title@, ..old(self)@ }),
    {
        if same_text(self.title.as_str(), title.as_str()) {
            return false;
        }
        self.title = title;
        true
    }

    /// Puts a surface into a pane at a place, or at the end where there is no such place.
    pub fn insert_surface_in_pane(
        &mut self,
        pane_id: PaneId,
        surface: Surface,
        target_index: usize,
        select_new: bool,
    ) -> (result: Result<SurfaceId, String>)
        ensures
            final(self)@ == old(self)@.insert_surface(
                pane_id,
                surface@,
                target_index as int,
                select_new,
            ).0,
            text::text_result(result) == old(self)@.insert_surface(
                pane_id,
                surface@,
                target_index as int,
                select_new,
            ).1,
    {
        let surface_id = surface.id;
        match self.pane_mut(pane_id) {
            None => {
                return Err(not_found("pane", pane_id));
            },
            Some(pane) => {
                pane.insert_surface(target_index, surface);
                if select_new {
                    pane.selected_surface_id = surface_id;
                }
            },
        }
        if select_new {
            self.selected_pane_id = pane_id;
        }
        Ok(surface_id)
    }

    /// Moves a surface to another place in its pane.
    pub fn reorder_surface(&mut self, surface_id: SurfaceId, target_index: usize) -> (result: Result<
        (),
        String,
    >)
        ensures
            final(self)@ == old(self)@.reorder_surface(surface_id, target_index as int).0,
            text::text_result(result) == old(self)@.reorder_surface(
                surface_id,
                target_index as int,
            ).1,
    {
        let holder = match self.holder_index(surface_id) {
            Some(at) => at,
            None => {
                return Err(not_found("surface", surface_id));
            },
        };
        let pane_id = self.panes[holder].id;
        proof {
            workspace::lemma_pane_found(self@.panes, holder as int, 0);
        }
        let at = match self.pane_index(pane_id) {
            Some(at) => at,
            None => {
                return Err(not_found("pane", pane_id));
            },
        };
        match self.panes[at].surface_index(surface_id) {
            None => Err(not_found("surface", surface_id)),
            Some(current_index) => {
                let pane = self.pane_slot(at);
                let surface = pane.take_surface(current_index);
                pane.insert_surface(target_index, surface);
                Ok(())
            },
        }
    }

    /// Takes a surface out of its pane. A pane that would be left empty goes with it, and its
    /// sibling takes its place; the last surface stays.
    pub fn detach(&mut self, surface_id: SurfaceId, last: &str, none_left: &str) -> (result: Result<
        (PaneId, bool, Option<Surface>),
        String,
    >)
        ensures
            final(self)@ == old(self)@.detached(surface_id, last@, none_left@).0,
            detach_result(result) == old(self)@.detached(surface_id, last@, none_left@).1,
    {
        let holder = match self.holder_index(surface_id) {
            Some(at) => at,
            None => {
                return Err(not_found("surface", surface_id));
            },
        };
        let pane_id = self.panes[holder].id;
        proof {
            workspace::lemma_pane_found(self@.panes, holder as int, 0);
        }
        let at = match self.pane_index(pane_id) {
            Some(at) => at,
            None => {
                return Err(not_found("pane", pane_id));
            },
        };
        proof {
            workspace::lemma_pane_from(self@.panes, pane_id, 0);
        }
        let surface_count = self.panes[at].surfaces.len();
        if surface_count <= 1 && self.panes.len() <= 1 {
            return Err(last.to_owned());
        }
        if surface_count <= 1 {
            if !self.layout.remove_pane(pane_id) {
                return Err("cannot remove the last pane".to_owned());
            }
            let mut pane = self.panes.remove(at);
            let surface = pane.surfaces.pop();
            match self.last_selected_pane_id {
                Some(previous) => if previous == pane_id {
                    self.last_selected_pane_id = None;
                },
                None => {},
            }
            proof {
                let rest = old(self)@.layout.without(pane_id)->0;
                assert(self@ =~= old(self)@.dropping_pane(at as int, rest));
            }
            if self.selected_pane_id == pane_id {
                match self.first_present() {
                    Some(selected) => {
                        self.selected_pane_id = selected;
                    },
                    None => {
                        return Err(none_left.to_owned());
                    },
                }
            }
            return Ok((pane_id, true, surface));
        }
        match self.panes[at].surface_index(surface_id) {
            None => Err(not_found("surface", surface_id)),
            Some(place) => {
                let surface = self.pane_slot(at).drop_surface(place);
                Ok((pane_id, false, Some(surface)))
            },
        }
    }

    fn first_present(&self) -> (found: Option<PaneId>)
        ensures
            found == workspace::present_from(self@.panes, self@.ordered_pane_ids(), 0),
    {
        let list = self.ordered_pane_ids();
        let mut at: usize = 0;
        while at < list.len()
            invariant
                at <= list@.len(),
                list@ == self@.ordered_pane_ids(),
                workspace::present_from(self@.panes, list@, 0) == workspace::present_from(
                    self@.panes,
                    list@,
                    at as int,
                ),
            decreases list@.len() - at,
        {
            if self.pane_index(list[at]).is_some() {
                return Some(list[at]);
            }
            at = at + 1;
        }
        None
    }

    /// Takes a surface out in order to put it elsewhere.
    pub fn remove_surface_for_move(&mut self, surface_id: SurfaceId) -> (result: Result<
        Surface,
        String,
    >)
        ensures
            final(self)@ == old(self)@.remove_surface_for_move(surface_id).0,
            surface_result(result) == old(self)@.remove_surface_for_move(surface_id).1,
    {
        match self.detach(
            surface_id,
            "cannot move the last surface",
            "no pane remaining after move",
        ) {
            Err(message) => Err(message),
            Ok((_, _, surface)) => match surface {
                Some(inner) => Ok(inner),
                None => Err(not_found("surface", surface_id)),
            },
        }
    }

    /// Closes a surface; tells the pane it was in and whether the pane went with it.
    pub fn close_surface(&mut self, surface_id: SurfaceId) -> (result: Result<
        (PaneId, bool),
        String,
    >)
        ensures
            final(self)@ == old(self)@.close_surface(surface_id).0,
            text::text_result(result) == old(self)@.close_surface(surface_id).1,
    {
        match self.detach(
            surface_id,
            "cannot close the last surface",
            "no pane remaining after close",
        ) {
            Err(message) => Err(message),
            Ok((pane_id, removed_pane, _)) => Ok((pane_id, removed_pane)),
        }
    }
}

} // verus!
