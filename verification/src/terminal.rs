//! The way from the control protocol to the running terminals.

use crate::ids::SurfaceId;
use vstd::prelude::*;

verus! {

/// Something that a running terminal is to do.
#[derive(Debug)]
pub enum TerminalCommand {
    /// Take a text as if it were typed.
    SendText {
        /// The terminal.
        surface_id: SurfaceId,
        /// The text.
        text: String,
    },
}

/// The contents of a [`TerminalCommand`].
#[verifier::ext_equal]
pub struct CommandView {
    /// The terminal.
    pub surface_id: SurfaceId,
    /// The text.
    pub text: Seq<char>,
}

impl View for TerminalCommand {
    type V = CommandView;

    open spec fn view(&self) -> CommandView {
        match self {
            TerminalCommand::SendText { surface_id, text } => CommandView {
                surface_id: *surface_id,
                text: text@,
            },
        }
    }
}

/// The contents of each command.
pub open spec fn command_views(commands: Seq<TerminalCommand>) -> Seq<CommandView> {
    commands.map_values(|command: TerminalCommand| command@)
}

/// The queue of commands for the running terminals.
#[derive(Debug)]
pub struct TerminalBridge {
    /// Whether running terminals take the commands.
    pub connected: bool,
    /// The commands that were not taken yet, oldest first.
    pub pending: Vec<TerminalCommand>,
}

/// The contents of a [`TerminalBridge`].
#[verifier::ext_equal]
pub struct BridgeView {
    /// See [`TerminalBridge::connected`].
    pub connected: bool,
    /// See [`TerminalBridge::pending`].
    pub pending: Seq<CommandView>,
}

impl View for TerminalBridge {
    type V = BridgeView;

    open spec fn view(&self) -> BridgeView {
        BridgeView { connected: self.connected, pending: command_views(self.pending@) }
    }
}

impl BridgeView {
    /// A queue without commands.
    pub open spec fn fresh(connected: bool) -> BridgeView {
        BridgeView { connected, pending: Seq::empty() }
    }

    /// The queue with one more command.
    pub open spec fn sent(self, surface_id: SurfaceId, text: Seq<char>) -> BridgeView {
        BridgeView { pending: self.pending.push(CommandView { surface_id, text }), ..self }
    }
}

impl TerminalBridge {
    /// A queue whose commands running terminals take.
    pub fn new() -> (bridge: TerminalBridge)
        ensures
            bridge@ == BridgeView::fresh(true),
    {
        let bridge = TerminalBridge { connected: true, pending: Vec::new() };
        proof {
            assert(bridge@.pending =~= Seq::empty());
        }
        bridge
    }

    /// A queue whose commands nobody takes.
    pub fn detached() -> (bridge: TerminalBridge)
        ensures
            bridge@ == BridgeView::fresh(false),
    {
        let bridge = TerminalBridge { connected: false, pending: Vec::new() };
        proof {
            assert(bridge@.pending =~= Seq::empty());
        }
        bridge
    }

    /// Queues a text for a terminal, if running terminals take the commands.
    pub fn send_text(&mut self, surface_id: SurfaceId, text: String) -> (result: Result<(), String>)
        ensures
            old(self)@.connected ==> result is Ok && final(self)@ == old(self)@.sent(
                surface_id,
                text@,
            ),
            !old(self)@.connected ==> final(self)@ == old(self)@ && match result {
                Ok(_) => false,
                Err(message) => message@
                    == "terminal runtime unavailable: sending on a closed channel"@,
            },
    {
        if self.connected {
            self.pending.push(TerminalCommand::SendText { surface_id, text });
            Ok(())
        } else {
            Err("terminal runtime unavailable: sending on a closed channel".to_owned())
        }
    }

    /// Takes the queued commands, oldest first.
    pub fn take_pending(&mut self) -> (commands: Vec<TerminalCommand>)
        ensures
            command_views(commands@) == old(self)@.pending,
            final(self)@ == BridgeView::fresh(old(self)@.connected),
    {
        let mut commands: Vec<TerminalCommand> = Vec::new();
        std::mem::swap(&mut commands, &mut self.pending);
        proof {
            assert(self@.pending =~= Seq::empty());
        }
        commands
    }
}

} // verus!
