//! The decisions of the coordinator, one command at a time.
use crate::bindings::{
    self, find_action, is_post_process_binding, is_transcribe_binding, ShortcutKind,
};
use crate::effects::{Effect, TrayIconState, UnloadReason};
use crate::text;
use crate::transcription_coordinator::{Command, CommandView};
use vstd::prelude::*;

verus! {

/// Presses that come sooner than this after the last accepted one are key
/// repeats or double taps. In nanoseconds.
pub const DEBOUNCE: u64 = 30_000_000;

/// Pipeline lifecycle.
///
/// A "session" begins when the user starts recording the first segment and
/// ends when all segments have been transcribed and pasted (or cancelled).
/// Within a session the user may record multiple segments back-to-back;
/// each segment's transcription runs in the background while the next
/// segment is being recorded.
pub enum Stage {
    Idle,
    Active {
        /// The number of this session; no other one has it.
        session: u64,
        /// `Some(binding_id)` while the microphone is recording a segment.
        recording: Option<String>,
        /// Number of transcription tasks that have not yet finished.
        pending_transcriptions: u32,
        /// The binding that started this session (determines post-processing).
        session_binding_id: String,
        /// Monotonically increasing counter for the next segment.
        segment_counter: u64,
    },
}

/// What a [`Stage`] says.
pub enum StageView {
    Idle,
    Active {
        session: nat,
        recording: Option<Seq<char>>,
        pending: nat,
        binding: Seq<char>,
        segments: nat,
    },
}

impl View for Stage {
    type V = StageView;

    open spec fn view(&self) -> StageView {
        match self {
            Stage::Idle => StageView::Idle,
            Stage::Active {
                session,
                recording,
                pending_transcriptions,
                session_binding_id,
                segment_counter,
            } => StageView::Active {
                session: *session as nat,
                recording: text::opt_view(*recording),
                pending: *pending_transcriptions as nat,
                binding: session_binding_id@,
                segments: *segment_counter as nat,
            },
        }
    }
}

/// The state of the coordinator between two commands.
pub struct Pipeline {
    stage: Stage,
    last_press: Option<u64>,
    sessions: u64,
}

/// What a [`Pipeline`] holds: the stage, when the last press was accepted, and
/// how many sessions have begun.
pub struct PipelineView {
    pub stage: StageView,
    pub last_press: Option<nat>,
    pub sessions: nat,
}

impl View for Pipeline {
    type V = PipelineView;

    closed spec fn view(&self) -> PipelineView {
        PipelineView {
            stage: self.stage@,
            last_press: match self.last_press {
                Some(t) => Some(t as nat),
                None => None,
            },
            sessions: self.sessions as nat,
        }
    }
}

impl PipelineView {
    /// The state in which the coordinator starts.
    pub open spec fn initial() -> PipelineView {
        PipelineView { stage: StageView::Idle, last_press: None, sessions: 0 }
    }

    /// A session has a number that was handed out and belongs to one transcribe
    /// binding, which every segment of it is recorded under; it counts no more
    /// unfinished segments than it handed out; and it never lingers with nothing
    /// left to do.
    pub open spec fn wf(self) -> bool {
        match self.stage {
            StageView::Idle => true,
            StageView::Active { session, recording, pending, binding, segments } => {
                &&& session < self.sessions
                &&& bindings::transcribes(binding)
                &&& pending <= segments
                &&& match recording {
                    Some(id) => id == binding,
                    None => pending > 0,
                }
            },
        }
    }

    /// Whether a press at `now` comes too soon after the last accepted one.
    pub open spec fn debounces(self, now: nat) -> bool {
        match self.last_press {
            Some(t) => now < t + DEBOUNCE,
            None => false,
        }
    }

    /// Whether a press of `id` starts a segment: the first of a session, or
    /// the next one of a session of the same binding that does not record.
    pub open spec fn starts(self, id: Seq<char>) -> bool {
        match self.stage {
            StageView::Idle => true,
            StageView::Active { recording, binding, .. } => recording is None && binding == id,
        }
    }

    /// The number of the session that a segment belongs to which starts now.
    pub open spec fn session(self) -> nat {
        match self.stage {
            StageView::Idle => self.sessions,
            StageView::Active { session, .. } => session,
        }
    }

    /// Whether a segment of `id` can start, and there is a number for its
    /// session.
    pub open spec fn can_start(self, id: Seq<char>) -> bool {
        &&& bindings::transcribes(id)
        &&& self.starts(id)
        &&& self.stage is Idle ==> self.sessions < u64::MAX
    }

    /// Whether an event of `id` stops the segment that is being recorded: a
    /// second press in toggle mode, the release in push-to-talk mode.
    pub open spec fn stops(self, id: Seq<char>, is_pressed: bool, push_to_talk: bool) -> bool {
        match self.stage {
            StageView::Idle => false,
            StageView::Active { recording, .. } => recording == Some(id) && is_pressed
                != push_to_talk,
        }
    }

    /// What the coordinator does about a command that comes at `now`.
    pub open spec fn directive(self, command: CommandView, now: nat) -> DirectiveView {
        match (command, self.stage) {
            (CommandView::Input { binding_id, is_pressed, push_to_talk }, _) => {
                if is_pressed && self.debounces(now) {
                    DirectiveView::Ignore
                } else if !bindings::transcribes(binding_id) {
                    match bindings::shortcut_kind(binding_id) {
                        Some(action) => DirectiveView::RunAction { action, is_pressed },
                        None => DirectiveView::Ignore,
                    }
                } else if is_pressed && self.starts(binding_id) {
                    DirectiveView::StartSegment {
                        session: self.session(),
                        binding_id,
                        is_first: self.stage is Idle,
                    }
                } else if self.stops(binding_id, is_pressed, push_to_talk) {
                    DirectiveView::StopSegment {
                        session: self.session(),
                        binding_id,
                        post_process: bindings::post_processes(self.stage->binding),
                        segment_seq: self.stage->segments,
                    }
                } else {
                    DirectiveView::Ignore
                }
            },
            (CommandView::Cancel, StageView::Active { session, recording, .. }) => {
                DirectiveView::EndSession { session, effects: cancel_effects(recording is Some) }
            },
            (
                CommandView::SegmentFinished { session: reported },
                StageView::Active { session, recording, pending, .. },
            ) => {
                if reported == session && recording is None && pending <= 1 {
                    DirectiveView::EndSession { session, effects: complete_effects() }
                } else {
                    DirectiveView::Ignore
                }
            },
            _ => DirectiveView::Ignore,
        }
    }

    /// The state once the command has been dealt with; if a segment is to be
    /// started, it waits for [`Self::after_start`].
    pub open spec fn after(self, command: CommandView, now: nat) -> PipelineView {
        PipelineView {
            stage: match (self.directive(command, now), self.stage) {
                (DirectiveView::EndSession { .. }, _) => StageView::Idle,
                (
                    DirectiveView::StopSegment { .. },
                    StageView::Active { session, pending, binding, segments, .. },
                ) => StageView::Active {
                    session,
                    recording: None,
                    pending: pending + 1,
                    binding,
                    segments: segments + 1,
                },
                (_, StageView::Active { session, recording, pending, binding, segments }) => {
                    if command == (CommandView::SegmentFinished { session }) && pending > 0 {
                        StageView::Active {
                            session,
                            recording,
                            pending: (pending - 1) as nat,
                            binding,
                            segments,
                        }
                    } else {
                        self.stage
                    }
                },
                (_, StageView::Idle) => StageView::Idle,
            },
            last_press: if (command matches CommandView::Input { is_pressed, .. } && is_pressed)
                && !self.debounces(now) {
                Some(now)
            } else {
                self.last_press
            },
            sessions: self.sessions,
        }
    }

    /// The state once it is known whether the recording of a segment of `id`
    /// began.
    pub open spec fn after_start(self, id: Seq<char>, started: bool) -> PipelineView {
        PipelineView {
            stage: match self.stage {
                _ if !started => self.stage,
                StageView::Idle => StageView::Active {
                    session: self.sessions,
                    recording: Some(id),
                    pending: 0,
                    binding: id,
                    segments: 0,
                },
                StageView::Active { session, pending, binding, segments, .. } => {
                    StageView::Active { session, recording: Some(id), pending, binding, segments }
                },
            },
            last_press: self.last_press,
            sessions: if started && self.stage is Idle {
                self.sessions + 1
            } else {
                self.sessions
            },
        }
    }

    /// Whether one more segment can be counted.
    pub open spec fn has_room(self) -> bool {
        match self.stage {
            StageView::Idle => true,
            StageView::Active { pending, segments, .. } => pending < u32::MAX && segments
                < u64::MAX,
        }
    }
}

/// What the coordinator asks its host to do about a command.
pub enum Directive {
    Ignore,
    /// Run an action that is not part of the pipeline: its start on a press,
    /// its stop on a release.
    RunAction { action: ShortcutKind, is_pressed: bool },
    /// Try to record a segment, and report to [`Pipeline::segment_started`].
    StartSegment { session: u64, binding_id: String, is_first: bool },
    /// Stop the recording and transcribe it under this sequence number of its
    /// session.
    StopSegment { session: u64, binding_id: String, post_process: bool, segment_seq: u64 },
    /// The session of this number is over.
    EndSession { session: u64, effects: Vec<Effect> },
}

/// What a [`Directive`] says.
pub enum DirectiveView {
    Ignore,
    RunAction { action: ShortcutKind, is_pressed: bool },
    StartSegment { session: nat, binding_id: Seq<char>, is_first: bool },
    StopSegment { session: nat, binding_id: Seq<char>, post_process: bool, segment_seq: nat },
    EndSession { session: nat, effects: Seq<Effect> },
}

impl View for Directive {
    type V = DirectiveView;

    open spec fn view(&self) -> DirectiveView {
        match self {
            Directive::Ignore => DirectiveView::Ignore,
            Directive::RunAction { action, is_pressed } => DirectiveView::RunAction {
                action: *action,
                is_pressed: *is_pressed,
            },
            Directive::StartSegment { session, binding_id, is_first } => {
                DirectiveView::StartSegment {
                    session: *session as nat,
                    binding_id: binding_id@,
                    is_first: *is_first,
                }
            },
            Directive::StopSegment { session, binding_id, post_process, segment_seq } => {
                DirectiveView::StopSegment {
                    session: *session as nat,
                    binding_id: binding_id@,
                    post_process: *post_process,
                    segment_seq: *segment_seq as nat,
                }
            },
            Directive::EndSession { session, effects } => DirectiveView::EndSession {
                session: *session as nat,
                effects: effects@,
            },
        }
    }
}

/// What ends every session: the traces that it left on the desktop go, and
/// the microphone that was kept open for continuation segments is closed.
pub open spec fn cleanup_effects(reason: UnloadReason) -> Seq<Effect> {
    seq![
        Effect::ClearCapturedApp,
        Effect::UnregisterCancelShortcut,
        Effect::HideRecordingOverlay,
        Effect::ChangeTrayIcon(TrayIconState::Idle),
        Effect::CloseStreamIfOnDemand,
        Effect::MaybeUnloadModel(reason),
    ]
}

/// What cancels a session: the segments in flight are told first, then the
/// current recording goes, if there is one.
pub open spec fn cancel_effects(recording: bool) -> Seq<Effect> {
    seq![Effect::SignalCancel] + (if recording {
        seq![Effect::CancelRecording]
    } else {
        seq![]
    }) + cleanup_effects(UnloadReason::Cancellation)
}

/// What completes a session.
pub open spec fn complete_effects() -> Seq<Effect> {
    cleanup_effects(UnloadReason::SessionComplete)
}

fn push_cleanup(effects: &mut Vec<Effect>, reason: UnloadReason)
    ensures
        final(effects)@ == old(effects)@ + cleanup_effects(reason),
{
    effects.push(Effect::ClearCapturedApp);
    effects.push(Effect::UnregisterCancelShortcut);
    effects.push(Effect::HideRecordingOverlay);
    effects.push(Effect::ChangeTrayIcon(TrayIconState::Idle));
    effects.push(Effect::CloseStreamIfOnDemand);
    effects.push(Effect::MaybeUnloadModel(reason));
    assert(effects@ =~= old(effects)@ + cleanup_effects(reason));
}

impl Pipeline {
    pub fn new() -> (pipeline: Self)
        ensures
            pipeline@ == PipelineView::initial(),
            pipeline@.wf(),
    {
        Pipeline { stage: Stage::Idle, last_press: None, sessions: 0 }
    }

    /// Whether a press at `now` comes too soon after the last accepted one.
    fn debounces(&self, now: u64) -> (yes: bool)
        ensures
            yes == self@.debounces(now as nat),
    {
        match self.last_press {
            Some(t) => now < t || now - t < DEBOUNCE,
            None => false,
        }
    }

    /// Whether a press of a binding starts a segment.
    fn starts(&self, binding_id: &str) -> (yes: bool)
        ensures
            yes == self@.starts(binding_id@),
    {
        match &self.stage {
            Stage::Idle => true,
            Stage::Active { recording, session_binding_id, .. } => {
                recording.is_none() && text::same(session_binding_id.as_str(), binding_id)
            },
        }
    }

    /// Whether a segment of a binding can start, and there is a number for its
    /// session.
    pub fn can_start(&self, binding_id: &str) -> (yes: bool)
        ensures
            yes == self@.can_start(binding_id@),
    {
        let has_number = match &self.stage {
            Stage::Idle => self.sessions < u64::MAX,
            _ => true,
        };
        has_number && is_transcribe_binding(binding_id) && self.starts(binding_id)
    }

    /// Whether an event of a binding stops the segment that is being recorded.
    fn stops(&self, binding_id: &str, is_pressed: bool, push_to_talk: bool) -> (yes: bool)
        ensures
            yes == self@.stops(binding_id@, is_pressed, push_to_talk),
    {
        match &self.stage {
            Stage::Active { recording: Some(active), .. } => {
                is_pressed != push_to_talk && text::same(active.as_str(), binding_id)
            },
            _ => false,
        }
    }

    /// Whether a command would stop a segment that cannot be counted any more.
    pub fn overflows(&self, command: &Command, now: u64) -> (yes: bool)
        ensures
            yes == (self@.directive(command@, now as nat) is StopSegment && !self@.has_room()),
    {
        let (binding_id, is_pressed, push_to_talk) = match command {
            Command::Input { binding_id, is_pressed, push_to_talk } => {
                (binding_id, *is_pressed, *push_to_talk)
            },
            _ => {
                return false;
            },
        };
        let has_room = match &self.stage {
            Stage::Idle => true,
            Stage::Active { pending_transcriptions, segment_counter, .. } => {
                *pending_transcriptions < u32::MAX && *segment_counter < u64::MAX
            },
        };
        !has_room && !(is_pressed && self.debounces(now)) && is_transcribe_binding(
            binding_id.as_str(),
        ) && self.stops(binding_id.as_str(), is_pressed, push_to_talk)
    }

    /// Deals with one command that comes at `now`, in nanoseconds of a clock
    /// that does not go back.
    pub fn handle(&mut self, command: Command, now: u64) -> (directive: Directive)
        requires
            old(self)@.wf(),
            old(self)@.directive(command@, now as nat) is StopSegment ==> old(self)@.has_room(),
        ensures
            directive@ == old(self)@.directive(command@, now as nat),
            final(self)@ == old(self)@.after(command@, now as nat),
            final(self)@.wf(),
    {
        match command {
            Command::Input { binding_id, is_pressed, push_to_talk } => {
                if is_pressed {
                    if self.debounces(now) {
                        return Directive::Ignore;
                    }
                    self.last_press = Some(now);
                }
                if !is_transcribe_binding(binding_id.as_str()) {
                    return match find_action(binding_id.as_str()) {
                        Some(action) => Directive::RunAction { action, is_pressed },
                        None => Directive::Ignore,
                    };
                }
                if is_pressed && self.starts(binding_id.as_str()) {
                    let (session, is_first) = match &self.stage {
                        Stage::Idle => (self.sessions, true),
                        Stage::Active { session, .. } => (*session, false),
                    };
                    Directive::StartSegment { session, binding_id, is_first }
                } else if self.stops(binding_id.as_str(), is_pressed, push_to_talk) {
                    self.stop_segment(binding_id)
                } else {
                    Directive::Ignore
                }
            },
            Command::Cancel => self.cancel(),
            Command::SegmentFinished { session } => self.segment_finished(session),
        }
    }

    fn stop_segment(&mut self, binding_id: String) -> (directive: Directive)
        requires
            old(self)@.stage is Active,
            old(self)@.has_room(),
        ensures
            directive@ == (DirectiveView::StopSegment {
                session: old(self)@.stage->session,
                binding_id: binding_id@,
                post_process: bindings::post_processes(old(self)@.stage->binding),
                segment_seq: old(self)@.stage->segments,
            }),
            final(self)@.stage == (StageView::Active {
                session: old(self)@.stage->session,
                recording: None,
                pending: old(self)@.stage->pending + 1,
                binding: old(self)@.stage->binding,
                segments: old(self)@.stage->segments + 1,
            }),
            final(self)@.last_press == old(self)@.last_press,
            final(self)@.sessions == old(self)@.sessions,
    {
        match &mut self.stage {
            Stage::Active {
                session,
                recording,
                pending_transcriptions,
                session_binding_id,
                segment_counter,
            } => {
                let session: u64 = *session;
                let post_process = is_post_process_binding(session_binding_id.as_str());
                let segment_seq: u64 = *segment_counter;
                *segment_counter = segment_seq + 1;
                *pending_transcriptions = *pending_transcriptions + 1;
                *recording = None;
                Directive::StopSegment { session, binding_id, post_process, segment_seq }
            },
            Stage::Idle => Directive::Ignore,
        }
    }

    fn cancel(&mut self) -> (directive: Directive)
        ensures
            directive@ == old(self)@.directive(CommandView::Cancel, 0),
            final(self)@ == old(self)@.after(CommandView::Cancel, 0),
    {
        let (session, recording) = match &self.stage {
            Stage::Active { session, recording, .. } => (*session, recording.is_some()),
            Stage::Idle => {
                return Directive::Ignore;
            },
        };
        let mut effects: Vec<Effect> = Vec::new();
        effects.push(Effect::SignalCancel);
        if recording {
            effects.push(Effect::CancelRecording);
        }
        push_cleanup(&mut effects, UnloadReason::Cancellation);
        assert(effects@ =~= cancel_effects(recording));
        self.stage = Stage::Idle;
        Directive::EndSession { session, effects }
    }

    fn segment_finished(&mut self, reported: u64) -> (directive: Directive)
        ensures
            directive@ == old(self)@.directive(
                (CommandView::SegmentFinished { session: reported as nat }),
                0,
            ),
            final(self)@ == old(self)@.after(
                (CommandView::SegmentFinished { session: reported as nat }),
                0,
            ),
    {
        let complete = match &mut self.stage {
            Stage::Active { session, recording, pending_transcriptions, .. } => {
                if *session == reported {
                    *pending_transcriptions = pending_transcriptions.saturating_sub(1);
                    *pending_transcriptions == 0 && recording.is_none()
                } else {
                    false
                }
            },
            Stage::Idle => false,
        };
        if complete {
            let mut effects: Vec<Effect> = Vec::new();
            push_cleanup(&mut effects, UnloadReason::SessionComplete);
            assert(effects@ =~= complete_effects());
            self.stage = Stage::Idle;
            Directive::EndSession { session: reported, effects }
        } else {
            Directive::Ignore
        }
    }

    /// Takes in whether the recording that [`Directive::StartSegment`] asked
    /// for began.
    pub fn segment_started(&mut self, binding_id: &str, started: bool)
        requires
            old(self)@.wf(),
            old(self)@.can_start(binding_id@),
        ensures
            final(self)@ == old(self)@.after_start(binding_id@, started),
            final(self)@.wf(),
    {
        if started {
            match &mut self.stage {
                Stage::Active { recording, .. } => {
                    *recording = Some(binding_id.to_owned());
                },
                Stage::Idle => {
                    let session: u64 = self.sessions;
                    self.sessions = session + 1;
                    self.stage = Stage::Active {
                        session,
                        recording: Some(binding_id.to_owned()),
                        pending_transcriptions: 0,
                        session_binding_id: binding_id.to_owned(),
                        segment_counter: 0,
                    };
                },
            }
        }
    }
}

} // verus!
