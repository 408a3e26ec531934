//! Terminal surfaces and the panes that show them as tabs.

use crate::ids::{PaneId, SurfaceId};
use crate::text;
use crate::text::{copy_opt, same_opt};
use vstd::prelude::*;

verus! {

/// What a surface shows.
#[derive(Debug, Clone, Copy, PartialEq, Eq, Structural)]
pub enum SurfaceKind {
    /// A terminal.
    Terminal,
}

/// What is known of the process behind a terminal.
#[derive(Debug)]
pub struct TerminalHealth {
    /// Whether the terminal is on screen.
    pub realized: bool,
    /// Why the terminal could not start.
    pub startup_error: Option<String>,
    /// Whether the I/O thread was started.
    pub io_thread_main_started: bool,
    /// Whether the I/O thread has run.
    pub io_thread_entered: bool,
    /// Whether a start of the process was attempted.
    pub subprocess_start_attempted: bool,
    /// The process.
    pub child_pid: Option<i32>,
    /// Whether the process has ended.
    pub child_exited: bool,
    /// The code that the process ended with.
    pub child_exit_code: Option<u32>,
    /// How long the process ran, in milliseconds.
    pub child_runtime_ms: Option<u64>,
}

/// The contents of a [`TerminalHealth`].
#[verifier::ext_equal]
pub struct HealthView {
    /// See [`TerminalHealth::realized`].
    pub realized: bool,
    /// See [`TerminalHealth::startup_error`].
    pub startup_error: Option<Seq<char>>,
    /// See [`TerminalHealth::io_thread_main_started`].
    pub io_thread_main_started: bool,
    /// See [`TerminalHealth::io_thread_entered`].
    pub io_thread_entered: bool,
    /// See [`TerminalHealth::subprocess_start_attempted`].
    pub subprocess_start_attempted: bool,
    /// See [`TerminalHealth::child_pid`].
    pub child_pid: Option<i32>,
    /// See [`TerminalHealth::child_exited`].
    pub child_exited: bool,
    /// See [`TerminalHealth::child_exit_code`].
    pub child_exit_code: Option<u32>,
    /// See [`TerminalHealth::child_runtime_ms`].
    pub child_runtime_ms: Option<u64>,
}

impl View for TerminalHealth {
    type V = HealthView;

    open spec fn view(&self) -> HealthView {
        HealthView {
            realized: self.realized,
            startup_error: text::opt_text(self.startup_error),
            io_thread_main_started: self.io_thread_main_started,
            io_thread_entered: self.io_thread_entered,
            subprocess_start_attempted: self.subprocess_start_attempted,
            child_pid: self.child_pid,
            child_exited: self.child_exited,
            child_exit_code: self.child_exit_code,
            child_runtime_ms: self.child_runtime_ms,
        }
    }
}

impl HealthView {
    /// A terminal of which nothing is known yet.
    pub open spec fn initial() -> HealthView {
        HealthView {
            realized: false,
            startup_error: None,
            io_thread_main_started: false,
            io_thread_entered: false,
            subprocess_start_attempted: false,
            child_pid: None,
            child_exited: false,
            child_exit_code: None,
            child_runtime_ms: None,
        }
    }
}

impl Default for TerminalHealth {
    fn default() -> (health: Self)
        ensures
            health@ == HealthView::initial(),
    {
        TerminalHealth {
            realized: false,
            startup_error: None,
            io_thread_main_started: false,
            io_thread_entered: false,
            subprocess_start_attempted: false,
            child_pid: None,
            child_exited: false,
            child_exit_code: None,
            child_runtime_ms: None,
        }
    }
}

impl Clone for TerminalHealth {
    fn clone(&self) -> (copy: Self)
        ensures
            copy@ == self@,
    {
        TerminalHealth {
            realized: self.realized,
            startup_error: copy_opt(&self.startup_error),
            io_thread_main_started: self.io_thread_main_started,
            io_thread_entered: self.io_thread_entered,
            subprocess_start_attempted: self.subprocess_start_attempted,
            child_pid: self.child_pid,
            child_exited: self.child_exited,
            child_exit_code: self.child_exit_code,
            child_runtime_ms: self.child_runtime_ms,
        }
    }
}

/// Whether two optional numbers are equal.
fn same_i32(left: Option<i32>, right: Option<i32>) -> (same: bool)
    ensures
        same == (left == right),
{
    match (left, right) {
        (Some(a), Some(b)) => a == b,
        (None, None) => true,
        _ => false,
    }
}

fn same_u32(left: Option<u32>, right: Option<u32>) -> (same: bool)
    ensures
        same == (left == right),
{
    match (left, right) {
        (Some(a), Some(b)) => a == b,
        (None, None) => true,
        _ => false,
    }
}

fn same_u64(left: Option<u64>, right: Option<u64>) -> (same: bool)
    ensures
        same == (left == right),
{
    match (left, right) {
        (Some(a), Some(b)) => a == b,
        (None, None) => true,
        _ => false,
    }
}

impl TerminalHealth {
    /// Whether two reports say the same.
    pub fn same(&self, other: &TerminalHealth) -> (same: bool)
        ensures
            same == (self@ == other@),
    {
        self.realized == other.realized && same_opt(&self.startup_error, &other.startup_error)
            && self.io_thread_main_started == other.io_thread_main_started
            && self.io_thread_entered == other.io_thread_entered && self.subprocess_start_attempted
            == other.subprocess_start_attempted && same_i32(self.child_pid, other.child_pid)
            && self.child_exited == other.child_exited && same_u32(
            self.child_exit_code,
            other.child_exit_code,
        ) && same_u64(self.child_runtime_ms, other.child_runtime_ms)
    }
}

/// A terminal.
#[derive(Debug)]
pub struct Surface {
    /// Its identifier.
    pub id: SurfaceId,
    /// Its title.
    pub title: String,
    /// What it shows.
    pub kind: SurfaceKind,
    /// The directory that its shell is in.
    pub current_directory: Option<String>,
    /// Whether it asks for attention.
    pub unread: bool,
    /// Whether it asks for attention because its text changed.
    pub unread_activity: bool,
    /// Whether it asks for attention because of a notification.
    pub unread_notification: bool,
    /// How often it was flashed.
    pub flash_count: u64,
    /// Its text.
    pub transcript: String,
    /// What is known of its process.
    pub terminal_health: TerminalHealth,
}

/// The contents of a [`Surface`].
#[verifier::ext_equal]
pub struct SurfaceView {
    /// See [`Surface::id`].
    pub id: SurfaceId,
    /// See [`Surface::title`].
    pub title: Seq<char>,
    /// See [`Surface::kind`].
    pub kind: SurfaceKind,
    /// See [`Surface::current_directory`].
    pub current_directory: Option<Seq<char>>,
    /// See [`Surface::unread`].
    pub unread: bool,
    /// See [`Surface::unread_activity`].
    pub unread_activity: bool,
    /// See [`Surface::unread_notification`].
    pub unread_notification: bool,
    /// See [`Surface::flash_count`].
    pub flash_count: u64,
    /// See [`Surface::transcript`].
    pub transcript: Seq<char>,
    /// See [`Surface::terminal_health`].
    pub terminal_health: HealthView,
}

impl View for Surface {
    type V = SurfaceView;

    open spec fn view(&self) -> SurfaceView {
        SurfaceView {
            id: self.id,
            title: self.title@,
            kind: self.kind,
            current_directory: text::opt_text(self.current_directory),
            unread: self.unread,
            unread_activity: self.unread_activity,
            unread_notification: self.unread_notification,
            flash_count: self.flash_count,
            transcript: self.transcript@,
            terminal_health: self.terminal_health@,
        }
    }
}

impl SurfaceView {
    /// A new terminal.
    pub open spec fn terminal(id: SurfaceId, title: Seq<char>) -> SurfaceView {
        SurfaceView {
            id,
            title,
            kind: SurfaceKind::Terminal,
            current_directory: None,
            unread: false,
            unread_activity: false,
            unread_notification: false,
            flash_count: 0,
            transcript: Seq::empty(),
            terminal_health: HealthView::initial(),
        }
    }

    /// The surface with these two reasons to ask for attention.
    pub open spec fn attention(self, activity: bool, notification: bool) -> SurfaceView {
        SurfaceView {
            unread: activity || notification,
            unread_activity: activity,
            unread_notification: notification,
            ..self
        }
    }
}

impl Clone for Surface {
    fn clone(&self) -> (copy: Self)
        ensures
            copy@ == self@,
    {
        Surface {
            id: self.id,
            title: self.title.clone(),
            kind: self.kind,
            current_directory: copy_opt(&self.current_directory),
            unread: self.unread,
            unread_activity: self.unread_activity,
            unread_notification: self.unread_notification,
            flash_count: self.flash_count,
            transcript: self.transcript.clone(),
            terminal_health: self.terminal_health.clone(),
        }
    }
}

impl Surface {
    /// A new terminal.
    pub fn new_terminal(id: SurfaceId, title: String) -> (surface: Surface)
        ensures
            surface@ == SurfaceView::terminal(id, title@),
    {
        Surface {
            id,
            title,
            kind: SurfaceKind::Terminal,
            current_directory: None,
            unread: false,
            unread_activity: false,
            unread_notification: false,
            flash_count: 0,
            transcript: String::new(),
            terminal_health: TerminalHealth::default(),
        }
    }

    /// Brings `unread` in line with its two reasons.
    pub fn sync_unread(&mut self)
        ensures
            final(self)@ == old(self)@.attention(
                old(self)@.unread_activity,
                old(self)@.unread_notification,
            ),
    {
        self.unread = self.unread_activity || self.unread_notification;
    }

    /// Sets the two reasons to ask for attention.
    pub fn set_attention(&mut self, activity: bool, notification: bool)
        ensures
            final(self)@ == old(self)@.attention(activity, notification),
    {
        self.unread_activity = activity;
        self.unread_notification = notification;
        self.sync_unread();
    }
}

/// The contents of each surface.
pub open spec fn surface_views(surfaces: Seq<Surface>) -> Seq<SurfaceView> {
    surfaces.map_values(|surface: Surface| surface@)
}

/// The place of the first surface with this identifier, looking from `at` on.
pub open spec fn surface_from(surfaces: Seq<SurfaceView>, id: SurfaceId, at: int) -> Option<int>
    decreases surfaces.len() - at,
{
    if at >= surfaces.len() {
        None
    } else if surfaces[at].id == id {
        Some(at)
    } else {
        surface_from(surfaces, id, at + 1)
    }
}

/// Copies a list of surfaces.
pub fn copy_surfaces(surfaces: &Vec<Surface>) -> (copy: Vec<Surface>)
    ensures
        surface_views(copy@) == surface_views(surfaces@),
{
    let copy = surfaces.clone();
    proof {
        assert(surface_views(copy@) =~= surface_views(surfaces@));
    }
    copy
}

/// A pane: surfaces shown as tabs, one of them selected.
#[derive(Debug)]
pub struct Pane {
    /// Its identifier.
    pub id: PaneId,
    /// Its surfaces, in the order of their tabs.
    pub surfaces: Vec<Surface>,
    /// The surface whose tab is selected.
    pub selected_surface_id: SurfaceId,
}

/// The contents of a [`Pane`].
#[verifier::ext_equal]
pub struct PaneView {
    /// See [`Pane::id`].
    pub id: PaneId,
    /// See [`Pane::surfaces`].
    pub surfaces: Seq<SurfaceView>,
    /// See [`Pane::selected_surface_id`].
    pub selected_surface_id: SurfaceId,
}

impl View for Pane {
    type V = PaneView;

    open spec fn view(&self) -> PaneView {
        PaneView {
            id: self.id,
            surfaces: surface_views(self.surfaces@),
            selected_surface_id: self.selected_surface_id,
        }
    }
}

impl PaneView {
    /// The place of the surface with this identifier.
    pub open spec fn surface_at(self, id: SurfaceId) -> Option<int> {
        surface_from(self.surfaces, id, 0)
    }

    /// The surface with this identifier.
    pub open spec fn surface(self, id: SurfaceId) -> Option<SurfaceView> {
        match self.surface_at(id) {
            Some(at) => Some(self.surfaces[at]),
            None => None,
        }
    }

    /// The pane with another surface at `at`.
    pub open spec fn with_surface(self, at: int, surface: SurfaceView) -> PaneView {
        PaneView { surfaces: self.surfaces.update(at, surface), ..self }
    }

    /// The pane with one more surface at `at`, or at the end where `at` is past it.
    pub open spec fn inserted(self, at: int, surface: SurfaceView) -> PaneView {
        let place = if at < self.surfaces.len() {
            at
        } else {
            self.surfaces.len() as int
        };
        PaneView { surfaces: self.surfaces.insert(place, surface), ..self }
    }

    /// The pane without the surface at `at`. Where that one was selected, the tab before it is
    /// selected, or the first.
    pub open spec fn without_surface(self, at: int) -> PaneView {
        let rest = self.surfaces.remove(at);
        let next = if at > 0 {
            at - 1
        } else {
            0
        };
        PaneView {
            surfaces: rest,
            selected_surface_id: if self.surfaces[at].id == self.selected_surface_id {
                rest[next].id
            } else {
                self.selected_surface_id
            },
            ..self
        }
    }

    /// A pane with one surface.
    pub open spec fn single(id: PaneId, surface: SurfaceView) -> PaneView {
        PaneView { id, surfaces: seq![surface], selected_surface_id: surface.id }
    }
}

impl Clone for Pane {
    fn clone(&self) -> (copy: Self)
        ensures
            copy@ == self@,
    {
        Pane {
            id: self.id,
            surfaces: copy_surfaces(&self.surfaces),
            selected_surface_id: self.selected_surface_id,
        }
    }
}

/// The contents of an optional surface.
pub open spec fn opt_surface(surface: Option<&Surface>) -> Option<SurfaceView> {
    match surface {
        Some(inner) => Some(inner@),
        None => None,
    }
}

impl Pane {
    /// A pane with one surface.
    pub fn single(id: PaneId, surface: Surface) -> (pane: Pane)
        ensures
            pane@ == PaneView::single(id, surface@),
    {
        let selected_surface_id = surface.id;
        let mut surfaces: Vec<Surface> = Vec::new();
        surfaces.push(surface);
        proof {
            assert(surface_views(surfaces@) =~= seq![surface@]);
        }
        Pane { id, surfaces, selected_surface_id }
    }

    /// The selected surface.
    pub fn selected_surface(&self) -> (surface: Option<&Surface>)
        ensures
            opt_surface(surface) == self@.surface(self@.selected_surface_id),
    {
        self.surface(self.selected_surface_id)
    }

    /// The place of the selected surface.
    pub fn selected_surface_index(&self) -> (place: Option<usize>)
        ensures
            match place {
                Some(at) => at < self@.surfaces.len() && self@.surface_at(
                    self@.selected_surface_id,
                ) == Some(at as int),
                None => self@.surface_at(self@.selected_surface_id) is None,
            },
    {
        self.surface_index(self.selected_surface_id)
    }

    /// The surface with this identifier.
    pub fn surface(&self, surface_id: SurfaceId) -> (surface: Option<&Surface>)
        ensures
            opt_surface(surface) == self@.surface(surface_id),
    {
        match self.surface_index(surface_id) {
            Some(at) => Some(&self.surfaces[at]),
            None => None,
        }
    }

    /// Gives access to the surface with this identifier.
    pub fn surface_mut(&mut self, surface_id: SurfaceId) -> (surface: Option<&mut Surface>)
        ensures
            match surface {
                Some(inner) => match old(self)@.surface_at(surface_id) {
                    Some(at) => inner@ == old(self)@.surfaces[at] && final(self)@ == old(
                        self,
                    )@.with_surface(at, final(inner)@),
                    None => false,
                },
                None => old(self)@.surface_at(surface_id) is None && final(self)@ == old(self)@,
            },
    {
        match self.surface_index(surface_id) {
            Some(at) => Some(self.surface_slot(at)),
            None => None,
        }
    }

    /// Gives access to the surface at a place.
    pub fn surface_slot(&mut self, at: usize) -> (surface: &mut Surface)
        requires
            at < old(self)@.surfaces.len(),
        ensures
            surface@ == old(self)@.surfaces[at as int],
            final(self)@ == old(self)@.with_surface(at as int, final(surface)@),
    {
        &mut self.surfaces[at]
    }

    /// Adds a surface as the last tab.
    pub fn push_surface(&mut self, surface: Surface)
        ensures
            final(self)@ == (PaneView { surfaces: old(self)@.surfaces.push(surface@), ..old(self)@ }),
    {
        self.surfaces.push(surface);
    }

    /// Puts a surface at a place, or at the end where there is no such place.
    pub fn insert_surface(&mut self, target_index: usize, surface: Surface)
        ensures
            final(self)@ == old(self)@.inserted(target_index as int, surface@),
    {
        let place: usize = if target_index < self.surfaces.len() {
            target_index
        } else {
            self.surfaces.len()
        };
        self.surfaces.insert(place, surface);
    }

    /// Takes the surface at a place out.
    pub fn take_surface(&mut self, at: usize) -> (surface: Surface)
        requires
            at < old(self)@.surfaces.len(),
        ensures
            surface@ == old(self)@.surfaces[at as int],
            final(self)@ == (PaneView {
                surfaces: old(self)@.surfaces.remove(at as int),
                ..old(self)@
            }),
    {
        self.surfaces.remove(at)
    }

    /// Takes the surface at a place out. Where it was selected, the tab before it is selected, or
    /// the first.
    pub fn drop_surface(&mut self, at: usize) -> (surface: Surface)
        requires
            at < old(self)@.surfaces.len(),
            old(self)@.surfaces.len() > 1,
        ensures
            surface@ == old(self)@.surfaces[at as int],
            final(self)@ == old(self)@.without_surface(at as int),
    {
        let was_selected = self.surfaces[at].id == self.selected_surface_id;
        let surface = self.surfaces.remove(at);
        if was_selected {
            let next_index: usize = if at > 0 {
                at - 1
            } else {
                0
            };
            self.selected_surface_id = self.surfaces[next_index].id;
        }
        proof {
            assert(self@.surfaces =~= old(self)@.surfaces.remove(at as int));
        }
        surface
    }

    /// The place of the surface with this identifier.
    pub fn surface_index(&self, surface_id: SurfaceId) -> (place: Option<usize>)
        ensures
            match place {
                Some(at) => at < self@.surfaces.len() && self@.surface_at(surface_id) == Some(
                    at as int,
                ) && self@.surfaces[at as int].id == surface_id,
                None => self@.surface_at(surface_id) is None,
            },
    {
        let mut at: usize = 0;
        while at < self.surfaces.len()
            invariant
                at <= self.surfaces@.len(),
                self@.surface_at(surface_id) == surface_from(
                    self@.surfaces,
                    surface_id,
                    at as int,
                ),
            decreases self.surfaces@.len() - at,
        {
            if self.surfaces[at].id == surface_id {
                return Some(at);
            }
            at = at + 1;
        }
        None
    }
}

} // verus!
