//! The mailbox through which everything reaches the coordinator.
use std::collections::VecDeque;
use vstd::prelude::*;

verus! {

/// Commands processed sequentially by the coordinator.
pub enum Command {
    Input { binding_id: String, is_pressed: bool, push_to_talk: bool },
    Cancel,
    /// A segment of the session of this number has finished.
    SegmentFinished { session: u64 },
}

/// What a [`Command`] says.
pub enum CommandView {
    Input { binding_id: Seq<char>, is_pressed: bool, push_to_talk: bool },
    Cancel,
    SegmentFinished { session: nat },
}

impl View for Command {
    type V = CommandView;

    open spec fn view(&self) -> CommandView {
        match self {
            Command::Input { binding_id, is_pressed, push_to_talk } => CommandView::Input {
                binding_id: binding_id@,
                is_pressed: *is_pressed,
                push_to_talk: *push_to_talk,
            },
            Command::Cancel => CommandView::Cancel,
            Command::SegmentFinished { session } => CommandView::SegmentFinished {
                session: *session as nat,
            },
        }
    }
}

/// Serialises all transcription lifecycle events: whoever has something to
/// report leaves a command here, and the coordinator takes the commands out
/// one by one, in the order in which they came.
pub struct TranscriptionCoordinator {
    commands: VecDeque<Command>,
    closed: bool,
}

impl TranscriptionCoordinator {
    /// The commands that wait to be processed, the oldest first.
    pub closed spec fn queue(&self) -> Seq<CommandView> {
        self.commands@.map_values(|c: Command| c@)
    }

    /// Whether nobody processes commands any more.
    pub closed spec fn closed(&self) -> bool {
        self.closed
    }

    pub fn new() -> (coordinator: Self)
        ensures
            coordinator.queue() == Seq::<CommandView>::empty(),
            !coordinator.closed(),
    {
        let coordinator = TranscriptionCoordinator { commands: VecDeque::new(), closed: false };
        assert(coordinator.queue() =~= Seq::<CommandView>::empty());
        coordinator
    }

    /// Leaves a command, unless nobody would process it.
    fn send(&mut self, command: Command)
        ensures
            final(self).closed() == old(self).closed(),
            final(self).queue() == if old(self).closed() {
                old(self).queue()
            } else {
                old(self).queue().push(command@)
            },
    {
        if !self.closed {
            self.commands.push_back(command);
            assert(self.queue() =~= old(self).queue().push(command@));
        }
    }

    /// Send a keyboard/signal input event for a transcribe binding.
    /// For signal-based toggles, use `is_pressed: true` and `push_to_talk: false`.
    /// The hotkey itself is reserved for future use.
    pub fn send_input(
        &mut self,
        binding_id: &str,
        hotkey_string: &str,
        is_pressed: bool,
        push_to_talk: bool,
    )
        ensures
            final(self).closed() == old(self).closed(),
            final(self).queue() == if old(self).closed() {
                old(self).queue()
            } else {
                old(self).queue().push(
                    (CommandView::Input { binding_id: binding_id@, is_pressed, push_to_talk }),
                )
            },
    {
        self.send(Command::Input { binding_id: binding_id.to_owned(), is_pressed, push_to_talk });
    }

    pub fn notify_cancel(&mut self)
        ensures
            final(self).closed() == old(self).closed(),
            final(self).queue() == if old(self).closed() {
                old(self).queue()
            } else {
                old(self).queue().push(CommandView::Cancel)
            },
    {
        self.send(Command::Cancel);
    }

    /// Reports that a segment of the session of this number has finished.
    pub fn notify_segment_finished(&mut self, session: u64)
        ensures
            final(self).closed() == old(self).closed(),
            final(self).queue() == if old(self).closed() {
                old(self).queue()
            } else {
                old(self).queue().push((CommandView::SegmentFinished { session: session as nat }))
            },
    {
        self.send(Command::SegmentFinished { session });
    }

    /// Takes the oldest command that waits.
    pub fn receive(&mut self) -> (command: Option<Command>)
        ensures
            final(self).closed() == old(self).closed(),
            match command {
                Some(c) => old(self).queue().len() > 0 && c@ == old(self).queue()[0]
                    && final(self).queue() == old(self).queue().drop_first(),
                None => old(self).queue().len() == 0 && final(self).queue() == old(self).queue(),
            },
    {
        let command = self.commands.pop_front();
        assert(command is Some ==> self.queue() =~= old(self).queue().drop_first());
        command
    }

    /// Records that nobody processes commands any more; those that wait are
    /// lost.
    pub fn close(&mut self)
        ensures
            final(self).closed(),
            final(self).queue() == Seq::<CommandView>::empty(),
    {
        self.closed = true;
        self.commands = VecDeque::new();
        assert(self.queue() =~= Seq::<CommandView>::empty());
    }

    /// Whether commands are refused.
    pub fn is_closed(&self) -> (closed: bool)
        ensures
            closed == self.closed(),
    {
        self.closed
    }
}

/// What is done with the commands that wait.
pub enum Traffic {
    Send { command: CommandView },
    Receive,
}

/// The commands that wait after some traffic, as long as somebody processes
/// them.
pub open spec fn waiting(traffic: Seq<Traffic>) -> Seq<CommandView>
    decreases traffic.len(),
{
    if traffic.len() == 0 {
        seq![]
    } else {
        let before = waiting(traffic.drop_last());
        match traffic.last() {
            Traffic::Send { command } => before.push(command),
            Traffic::Receive => if before.len() > 0 {
                before.drop_first()
            } else {
                before
            },
        }
    }
}

/// The commands that were sent.
pub open spec fn sent(traffic: Seq<Traffic>) -> Seq<CommandView>
    decreases traffic.len(),
{
    if traffic.len() == 0 {
        seq![]
    } else {
        match traffic.last() {
            Traffic::Send { command } => sent(traffic.drop_last()).push(command),
            Traffic::Receive => sent(traffic.drop_last()),
        }
    }
}

/// The commands that were processed.
pub open spec fn received(traffic: Seq<Traffic>) -> Seq<CommandView>
    decreases traffic.len(),
{
    if traffic.len() == 0 {
        seq![]
    } else {
        let before = waiting(traffic.drop_last());
        if traffic.last() is Receive && before.len() > 0 {
            received(traffic.drop_last()).push(before[0])
        } else {
            received(traffic.drop_last())
        }
    }
}

/// Commands are processed in the order in which they were sent, each of them
/// once: what was sent is what was processed and, after it, what waits.
pub proof fn commands_are_processed_in_order(traffic: Seq<Traffic>)
    ensures
        sent(traffic) == received(traffic) + waiting(traffic),
    decreases traffic.len(),
{
    if traffic.len() > 0 {
        commands_are_processed_in_order(traffic.drop_last());
    }
    assert(sent(traffic) =~= received(traffic) + waiting(traffic));
}

} // verus!
