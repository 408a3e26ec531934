//! What the terminals that run are given, and what is noted of them.

use crate::answer_surfaces;
use crate::answer_surfaces::workspace_surface_ids;
use crate::display;
use crate::display::file_name;
use crate::ids::{holds, SurfaceId};
use crate::state::{AppState, StateView};
use crate::surface::{HealthView, TerminalHealth};
use crate::text;
use crate::text::{copy_opt, joined, joined3, same_text};
use vstd::prelude::*;

verus! {

// ---------------------------------------------------------------------------
// Input
// ---------------------------------------------------------------------------

/// A byte as a terminal gets it: the end of a line is a carriage return.
pub open spec fn typed_byte(byte: u8) -> u8 {
    if byte == 10 {
        13
    } else {
        byte
    }
}

/// A text as a terminal gets it.
pub open spec fn typed_bytes(content: Seq<char>) -> Seq<u8> {
    let bytes = vstd::utf8::encode_utf8(content);
    Seq::new(bytes.len(), |at: int| typed_byte(bytes[at]))
}

/// A text as a terminal gets it.
pub fn normalize_terminal_input(content: &str) -> (bytes: Vec<u8>)
    ensures
        bytes@ == typed_bytes(content@),
{
    let source = content.as_bytes();
    let mut bytes: Vec<u8> = Vec::new();
    let mut at: usize = 0;
    while at < source.len()
        invariant
            at <= source@.len(),
            source@ == vstd::utf8::encode_utf8(content@),
            bytes@.len() == at,
            forall|k: int| 0 <= k < at ==> bytes@[k] == typed_byte(source@[k]),
        decreases source@.len() - at,
    {
        let byte = source[at];
        bytes.push(
            if byte == 10 {
                13
            } else {
                byte
            },
        );
        at = at + 1;
    }
    proof {
        assert(bytes@ =~= typed_bytes(content@));
    }
    bytes
}

/// What was typed before a terminal was ready.
#[derive(Debug)]
pub struct InputQueue {
    /// Whether the terminal is ready.
    pub ready: bool,
    /// What is kept for it, oldest first.
    pub pending: Vec<Vec<u8>>,
}

/// The contents of an [`InputQueue`].
#[verifier::ext_equal]
pub struct QueueView {
    /// See [`InputQueue::ready`].
    pub ready: bool,
    /// See [`InputQueue::pending`].
    pub pending: Seq<Seq<u8>>,
}

/// The contents of each piece.
pub open spec fn piece_views(pieces: Seq<Vec<u8>>) -> Seq<Seq<u8>> {
    Seq::new(pieces.len(), |at: int| pieces[at]@)
}

impl View for InputQueue {
    type V = QueueView;

    open spec fn view(&self) -> QueueView {
        QueueView { ready: self.ready, pending: piece_views(self.pending@) }
    }
}

impl InputQueue {
    /// A queue for a terminal that is not ready yet.
    pub fn new() -> (queue: InputQueue)
        ensures
            queue@ == (QueueView { ready: false, pending: Seq::empty() }),
    {
        let queue = InputQueue { ready: false, pending: Vec::new() };
        proof {
            assert(queue@.pending =~= Seq::empty());
        }
        queue
    }

    /// Takes a text for the terminal: gives what is to be written now, or keeps it until the
    /// terminal is ready.
    pub fn write_input(&mut self, content: &str) -> (now: Option<Vec<u8>>)
        ensures
            match now {
                Some(bytes) => old(self)@.ready && bytes@ == typed_bytes(content@) && final(self)@
                    == old(self)@,
                None => !old(self)@.ready && final(self)@ == (QueueView {
                    pending: old(self)@.pending.push(typed_bytes(content@)),
                    ..old(self)@
                }),
            },
    {
        let bytes = normalize_terminal_input(content);
        if self.ready {
            return Some(bytes);
        }
        let ghost before = self@.pending;
        self.pending.push(bytes);
        proof {
            assert(self@.pending =~= before.push(typed_bytes(content@)));
        }
        None
    }

    /// Notes that the terminal is ready; gives what was kept for it, oldest first.
    pub fn become_ready(&mut self) -> (kept: Vec<Vec<u8>>)
        ensures
            piece_views(kept@) == old(self)@.pending,
            final(self)@ == (QueueView { ready: true, pending: Seq::empty() }),
    {
        let mut kept: Vec<Vec<u8>> = Vec::new();
        std::mem::swap(&mut kept, &mut self.pending);
        self.ready = true;
        proof {
            assert(self@.pending =~= Seq::empty());
        }
        kept
    }
}

/// What came of an attempt to write bytes.
#[derive(Debug, Clone, Copy, PartialEq, Eq, Structural)]
pub enum WriteEvent {
    /// So many were written.
    Wrote(usize),
    /// A signal came first.
    Interrupted,
    /// They could not be written.
    Failed,
}

/// What is to be done next.
#[derive(Debug, Clone, Copy, PartialEq, Eq, Structural)]
pub enum WriteStep {
    /// Write what follows so many bytes.
    WriteFrom(usize),
    /// Nothing: all is written.
    Done,
    /// Give up.
    GiveUp,
}

/// What is to be done at a place in `total` bytes.
pub open spec fn write_at(offset: int, total: int) -> WriteStep {
    if offset < total {
        WriteStep::WriteFrom(offset as usize)
    } else {
        WriteStep::Done
    }
}

/// What is to be done after an attempt to write what follows `offset` of `total` bytes.
pub open spec fn after_write(offset: int, total: int, event: WriteEvent) -> WriteStep {
    match event {
        WriteEvent::Wrote(count) => write_at(offset + count, total),
        WriteEvent::Interrupted => write_at(offset, total),
        WriteEvent::Failed => WriteStep::GiveUp,
    }
}

/// What is to be done first to write `total` bytes.
pub fn begin_write(total: usize) -> (step: WriteStep)
    ensures
        step == write_at(0, total as int),
{
    if 0 < total {
        WriteStep::WriteFrom(0)
    } else {
        WriteStep::Done
    }
}

/// What is to be done after an attempt to write what follows `offset` of `total` bytes.
pub fn continue_write(offset: usize, total: usize, event: WriteEvent) -> (step: WriteStep)
    requires
        offset <= total,
    ensures
        step == after_write(offset as int, total as int, event),
{
    match event {
        WriteEvent::Wrote(count) => if count < total - offset {
            WriteStep::WriteFrom(offset + count)
        } else {
            WriteStep::Done
        },
        WriteEvent::Interrupted => if offset < total {
            WriteStep::WriteFrom(offset)
        } else {
            WriteStep::Done
        },
        WriteEvent::Failed => WriteStep::GiveUp,
    }
}

// ---------------------------------------------------------------------------
// The process behind a terminal
// ---------------------------------------------------------------------------

impl HealthView {
    /// A terminal that is on screen.
    pub open spec fn on_screen() -> HealthView {
        HealthView { realized: true, ..HealthView::initial() }
    }

    /// A terminal whose process is being started.
    pub open spec fn starting() -> HealthView {
        HealthView { subprocess_start_attempted: true, ..HealthView::on_screen() }
    }

    /// A terminal whose process runs.
    pub open spec fn running(pid: i32) -> HealthView {
        HealthView { child_pid: Some(pid), ..HealthView::starting() }
    }

    /// A terminal whose process has ended; a negative status is no code.
    pub open spec fn ended(pid: Option<i32>, status: i32) -> HealthView {
        HealthView {
            child_pid: pid,
            child_exited: true,
            child_exit_code: if status >= 0 {
                Some(status as u32)
            } else {
                None
            },
            ..HealthView::starting()
        }
    }

    /// A terminal whose process could not be started.
    pub open spec fn failed(reason: Seq<char>) -> HealthView {
        HealthView {
            startup_error: Some("failed to spawn terminal process: "@ + reason),
            ..HealthView::starting()
        }
    }
}

impl TerminalHealth {
    /// A terminal that is on screen.
    pub fn on_screen() -> (health: TerminalHealth)
        ensures
            health@ == HealthView::on_screen(),
    {
        let mut health = TerminalHealth::default();
        health.realized = true;
        health
    }

    /// A terminal whose process is being started.
    pub fn starting() -> (health: TerminalHealth)
        ensures
            health@ == HealthView::starting(),
    {
        let mut health = TerminalHealth::on_screen();
        health.subprocess_start_attempted = true;
        health
    }

    /// A terminal whose process runs.
    pub fn running(pid: i32) -> (health: TerminalHealth)
        ensures
            health@ == HealthView::running(pid),
    {
        let mut health = TerminalHealth::starting();
        health.child_pid = Some(pid);
        health
    }

    /// A terminal whose process has ended.
    pub fn ended(pid: Option<i32>, status: i32) -> (health: TerminalHealth)
        ensures
            health@ == HealthView::ended(pid, status),
    {
        let mut health = TerminalHealth::starting();
        health.child_pid = pid;
        health.child_exited = true;
        health.child_exit_code = if status >= 0 {
            Some(status as u32)
        } else {
            None
        };
        health
    }

    /// A terminal whose process could not be started.
    pub fn failed(reason: &str) -> (health: TerminalHealth)
        ensures
            health@ == HealthView::failed(reason@),
    {
        let mut health = TerminalHealth::starting();
        health.startup_error = Some(joined("failed to spawn terminal process: ", reason));
        health
    }
}

impl StateView {
    /// The process of a terminal could not be started: its transcript says so, and so does what is
    /// known of it.
    pub open spec fn spawn_failed(self, surface_id: SurfaceId, reason: Seq<char>) -> StateView {
        self.append_terminal_text(
            surface_id,
            "[cmux linux] failed to spawn terminal process: "@ + reason + "\n"@,
        ).0.update_health(surface_id, HealthView::failed(reason)).0
    }

    /// The directory in which the process of a terminal is to start.
    pub open spec fn working_directory(self, surface_id: SurfaceId) -> Option<Seq<char>> {
        match self.locate_surface(surface_id) {
            None => None,
            Some((workspace_id, _)) => match self.workspace(workspace_id) {
                None => None,
                Some(workspace) => workspace.current_directory,
            },
        }
    }

    /// What a terminal had on screen when the session was kept.
    pub open spec fn kept_transcript(self, surface_id: SurfaceId) -> Seq<char> {
        match self.locate_surface(surface_id) {
            None => ""@,
            Some((workspace_id, _)) => match self.workspace(workspace_id) {
                None => ""@,
                Some(workspace) => match workspace.surface(surface_id) {
                    None => ""@,
                    Some(surface) => surface.transcript,
                },
            },
        }
    }
}

impl AppState {
    /// Notes that the process of a terminal could not be started.
    pub fn note_spawn_failure(&mut self, surface_id: SurfaceId, reason: &str)
        ensures
            final(self)@ == old(self)@.spawn_failed(surface_id, reason@),
    {
        let line = joined3("[cmux linux] failed to spawn terminal process: ", reason, "\n");
        let _ = self.append_terminal_text(surface_id, line.as_str());
        let _ = self.update_surface_terminal_health(surface_id, TerminalHealth::failed(reason));
    }

    /// Whether a surface exists.
    pub fn surface_exists(&self, surface_id: SurfaceId) -> (exists_so: bool)
        ensures
            exists_so == (self@.locate_surface(surface_id) is Some),
    {
        self.locate_surface(surface_id).is_some()
    }

    /// The directory in which the process of a terminal is to start.
    pub fn surface_working_directory(&self, surface_id: SurfaceId) -> (directory: Option<String>)
        ensures
            text::opt_text(directory) == self@.working_directory(surface_id),
    {
        match self.locate_surface(surface_id) {
            None => None,
            Some((workspace_id, _)) => match self.workspace(workspace_id) {
                None => None,
                Some(workspace) => copy_opt(&workspace.current_directory),
            },
        }
    }

    /// What a terminal had on screen when the session was kept.
    pub fn restored_transcript(&self, surface_id: SurfaceId) -> (content: String)
        ensures
            content@ == self@.kept_transcript(surface_id),
    {
        match self.locate_surface(surface_id) {
            None => "".to_owned(),
            Some((workspace_id, _)) => match self.workspace(workspace_id) {
                None => "".to_owned(),
                Some(workspace) => match workspace.surface(surface_id) {
                    None => "".to_owned(),
                    Some(surface) => surface.transcript.clone(),
                },
            },
        }
    }
}

/// Whether a shell with this name takes the option for a login shell.
pub open spec fn is_login_shell(name: Option<Seq<char>>) -> bool {
    match name {
        Some(inner) => inner == "bash"@ || inner == "fish"@ || inner == "ksh"@ || inner == "sh"@
            || inner == "tcsh"@ || inner == "zsh"@,
        None => false,
    }
}

/// The command that starts a shell, given the value of `SHELL`.
pub open spec fn shell_command(shell: Option<Seq<char>>) -> Seq<Seq<char>> {
    let program = match shell {
        Some(path) => path,
        None => "/bin/bash"@,
    };
    if is_login_shell(display::base_name(program)) {
        Seq::<Seq<char>>::empty().push(program).push("-l"@)
    } else {
        Seq::<Seq<char>>::empty().push(program)
    }
}

/// The command that starts a shell, given the value of `SHELL`.
pub fn login_shell_argv(shell: Option<String>) -> (command: Vec<String>)
    ensures
        text::texts(command@) == shell_command(text::opt_text(shell)),
{
    let program: String = match shell {
        Some(path) => path,
        None => "/bin/bash".to_owned(),
    };
    let ghost path = program@;
    let login = match file_name(program.as_str()) {
        Some(name) => {
            let word = name.as_str();
            same_text(word, "bash") || same_text(word, "fish") || same_text(word, "ksh")
                || same_text(word, "sh") || same_text(word, "tcsh") || same_text(word, "zsh")
        },
        None => false,
    };
    let mut command: Vec<String> = Vec::new();
    command.push(program);
    proof {
        assert(text::texts(command@) =~= Seq::<Seq<char>>::empty().push(path));
    }
    if login {
        command.push("-l".to_owned());
        proof {
            assert(text::texts(command@) =~= Seq::<Seq<char>>::empty().push(path).push("-l"@));
        }
    }
    command
}

// ---------------------------------------------------------------------------
// What no longer exists
// ---------------------------------------------------------------------------

/// Those of the first `count` identifiers that are not in another list.
pub open spec fn missing_from(list: Seq<u128>, live: Seq<u128>, count: int) -> Seq<u128>
    decreases count,
{
    if count <= 0 {
        Seq::empty()
    } else {
        let before = missing_from(list, live, count - 1);
        if live.contains(list[count - 1]) {
            before
        } else {
            before.push(list[count - 1])
        }
    }
}

/// The identifiers of a list that are not in another one.
pub fn stale_ids(list: &Vec<u128>, live: &Vec<u128>) -> (stale: Vec<u128>)
    ensures
        stale@ == missing_from(list@, live@, list@.len() as int),
{
    let mut stale: Vec<u128> = Vec::new();
    let mut at: usize = 0;
    while at < list.len()
        invariant
            at <= list@.len(),
            stale@ == missing_from(list@, live@, at as int),
        decreases list@.len() - at,
    {
        if !holds(live, list[at]) {
            stale.push(list[at]);
        }
        at = at + 1;
    }
    stale
}

impl StateView {
    /// The surfaces of the first `count` workspaces.
    pub open spec fn surfaces_of(self, count: int) -> Seq<SurfaceId>
        decreases count,
    {
        if count <= 0 {
            Seq::empty()
        } else {
            self.surfaces_of(count - 1) + answer_surfaces::ids_of(
                self.workspaces[count - 1].panes,
                self.workspaces[count - 1].panes.len() as int,
            )
        }
    }

    /// All surfaces.
    pub open spec fn all_surfaces(self) -> Seq<SurfaceId> {
        self.surfaces_of(self.workspaces.len() as int)
    }
}

impl AppState {
    /// All surfaces.
    pub fn live_surfaces(&self) -> (list: Vec<SurfaceId>)
        ensures
            list@ == self@.all_surfaces(),
    {
        let mut list: Vec<SurfaceId> = Vec::new();
        let mut at: usize = 0;
        while at < self.workspaces.len()
            invariant
                at <= self.workspaces@.len(),
                list@ == self@.surfaces_of(at as int),
            decreases self.workspaces@.len() - at,
        {
            let mut more = workspace_surface_ids(&self.workspaces[at]);
            list.append(&mut more);
            at = at + 1;
        }
        list
    }
}

/// A terminal is stopped exactly if its surface is no longer there.
pub proof fn law_stale(list: Seq<u128>, live: Seq<u128>, count: int, id: u128)
    requires
        0 <= count <= list.len(),
    ensures
        missing_from(list, live, count).contains(id) <==> list.take(count).contains(id)
            && !live.contains(id),
    decreases count,
{
    if count > 0 {
        law_stale(list, live, count - 1, id);
        let before = missing_from(list, live, count - 1);
        let last = list[count - 1];
        let shorter = list.take(count - 1);
        let longer = list.take(count);
        assert(longer =~= shorter.push(last));
        if shorter.contains(id) {
            let at = choose|at: int| 0 <= at < shorter.len() && shorter[at] == id;
            assert(longer[at] == id);
        }
        if longer.contains(id) && id != last {
            let at = choose|at: int| 0 <= at < longer.len() && longer[at] == id;
            assert(shorter[at] == id);
        }
        assert(longer[count - 1] == last);
        if !live.contains(last) {
            let after = before.push(last);
            if before.contains(id) {
                let at = choose|at: int| 0 <= at < before.len() && before[at] == id;
                assert(after[at] == id);
            }
            assert(after[before.len() as int] == last);
            if after.contains(id) && id != last {
                let at = choose|at: int| 0 <= at < after.len() && after[at] == id;
                assert(before[at] == id);
            }
        }
    }
}

} // verus!
