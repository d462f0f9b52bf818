//! What holds of the coordinator and the segments of all its sessions together.
use crate::actions;
use crate::effects::Effect;
use crate::pipeline::{self, DirectiveView, PipelineView, StageView};
use crate::pipeline_laws::Step;
use crate::segment_laws::{self, SegmentStep, Segments};
use crate::segment_task::{FindingsView, PasteJobView, TaskEventView};
use crate::transcription_coordinator::CommandView;
use crate::window_focus::{self, FocusedAppView, RestoreView};
use vstd::prelude::*;

verus! {

/// A session: its segments, whether they were told that it was cancelled, the
/// snapshot of the window to bring back, and, for the record, the window that
/// was captured when it began.
pub struct SessionView {
    pub segments: Segments,
    pub cancelled: bool,
    pub slot: Option<FocusedAppView>,
    pub window: Option<FocusedAppView>,
}

impl SessionView {
    /// A session that has just begun.
    pub open spec fn begun() -> SessionView {
        SessionView { segments: Segments::initial(), cancelled: false, slot: None, window: None }
    }

    /// How many segments have not passed on their turn.
    pub open spec fn unfinished(self) -> nat {
        (self.segments.segments.len() - self.segments.turn) as nat
    }

    /// The session after some effects; `captured` is the window that the
    /// platform names when it is asked for the focused one.
    pub open spec fn affected(
        self,
        effects: Seq<Effect>,
        captured: Option<FocusedAppView>,
    ) -> SessionView {
        let captures = effects.contains(Effect::CaptureFocusedApp);
        SessionView {
            cancelled: self.cancelled || effects.contains(Effect::SignalCancel),
            slot: if captures {
                captured
            } else if effects.contains(Effect::ClearCapturedApp) {
                None
            } else {
                self.slot
            },
            window: if captures {
                captured
            } else {
                self.window
            },
            ..self
        }
    }

    /// The session after a step of its segments.
    pub open spec fn after(self, step: SegmentStep) -> SessionView {
        SessionView { segments: self.segments.after(step), ..self }
    }

    /// What is to be done right before a paste of the session, with a mouse
    /// button held or not.
    pub open spec fn restoring(self, job: PasteJobView, button_held: bool) -> RestoreView {
        job.restoring(self.slot, button_held)
    }
}

/// The coordinator, the commands on their way to it, and all sessions that have
/// begun, by their numbers.
pub struct World {
    pub pipeline: PipelineView,
    pub mail: Seq<CommandView>,
    pub sessions: Seq<SessionView>,
}

/// What happens next in the world.
pub enum WorldStep {
    /// The user does something.
    Post { command: CommandView },
    /// A segment of a session is told something; where that was the last thing
    /// it waited for, it reports.
    Tell { session: nat, segment: nat, event: TaskEventView, findings: FindingsView },
    /// The coordinator deals with the oldest command.
    Process { now: nat, started: bool, captured: Option<FocusedAppView> },
}

/// How many reports of a session's segments are on their way.
pub open spec fn reports(mail: Seq<CommandView>, session: nat) -> nat
    decreases mail.len(),
{
    if mail.len() == 0 {
        0
    } else {
        reports(mail.drop_last(), session) + if mail.last() == (CommandView::SegmentFinished {
            session,
        }) {
            1nat
        } else {
            0nat
        }
    }
}

impl World {
    pub open spec fn initial() -> World {
        World { pipeline: PipelineView::initial(), mail: seq![], sessions: seq![] }
    }

    /// The oldest command, as the coordinator deals with it.
    pub open spec fn step(self, now: nat, started: bool) -> Step {
        Step { command: self.mail[0], now, started }
    }

    /// Whether a step can be taken: only segments report that they have
    /// finished; a segment is told that its turn has come only when it has, and
    /// learns whether its own session was cancelled.
    pub open spec fn allows(self, step: WorldStep) -> bool {
        match step {
            WorldStep::Post { command } => command !is SegmentFinished,
            WorldStep::Tell { session, segment, event, findings } => {
                &&& session < self.sessions.len()
                &&& self.sessions[session as int].segments.allows(
                    SegmentStep::Tell { segment, event, findings },
                )
                &&& event matches TaskEventView::Cancellation { cancelled } ==> cancelled
                    == self.sessions[session as int].cancelled
            },
            WorldStep::Process { .. } => self.mail.len() > 0,
        }
    }

    /// The world after a step.
    pub open spec fn after(self, step: WorldStep) -> World {
        match step {
            WorldStep::Post { command } => World { mail: self.mail.push(command), ..self },
            WorldStep::Tell { session, segment, event, findings } => {
                let told = self.sessions[session as int];
                let then_told = told.after(SegmentStep::Tell { segment, event, findings });
                World {
                    mail: if then_told.segments.turn > told.segments.turn {
                        self.mail.push(CommandView::SegmentFinished { session })
                    } else {
                        self.mail
                    },
                    sessions: self.sessions.update(session as int, then_told),
                    ..self
                }
            },
            WorldStep::Process { now, started, captured } => {
                let step = self.step(now, started);
                let effects = self.pipeline.effects(step);
                World {
                    pipeline: self.pipeline.step(step),
                    mail: self.mail.drop_first(),
                    sessions: match self.pipeline.directive(step.command, now) {
                        DirectiveView::StartSegment { is_first: true, .. } => if started {
                            self.sessions.push(SessionView::begun().affected(effects, captured))
                        } else {
                            self.sessions
                        },
                        DirectiveView::StartSegment { session, .. } => self.sessions.update(
                            session as int,
                            self.sessions[session as int].affected(effects, captured),
                        ),
                        DirectiveView::StopSegment { session, post_process, .. } => {
                            self.sessions.update(
                                session as int,
                                self.sessions[session as int].affected(effects, captured).after(
                                    SegmentStep::Stop { post_process },
                                ),
                            )
                        },
                        DirectiveView::EndSession { session, .. } => self.sessions.update(
                            session as int,
                            self.sessions[session as int].affected(effects, captured),
                        ),
                        _ => self.sessions,
                    },
                }
            },
        }
    }

    /// Whether the session of a number is the one that runs.
    pub open spec fn runs(self, session: nat) -> bool {
        self.pipeline.stage is Active && self.pipeline.stage->session == session
    }

    /// What holds of the session of a number. While it runs, the coordinator
    /// counts its segments, and those of them whose reports it has not seen, and
    /// the window that it captured is kept. Once it is over, it was cancelled or
    /// its segments are all done, and the snapshot is gone.
    pub open spec fn session_wf(self, session: nat) -> bool {
        let view = self.sessions[session as int];
        &&& view.segments.wf()
        &&& if self.runs(session) {
            &&& !view.cancelled
            &&& view.slot == view.window
            &&& self.pipeline.stage->segments == view.segments.segments.len()
            &&& self.pipeline.stage->pending == view.unfinished() + reports(self.mail, session)
        } else {
            &&& view.slot is None
            &&& view.cancelled || view.unfinished() == 0
        }
    }

    /// Every session is in order, and nothing is heard of sessions to come.
    pub open spec fn wf(self) -> bool {
        &&& self.pipeline.wf()
        &&& self.pipeline.sessions == self.sessions.len()
        &&& forall|session: nat| session < self.sessions.len() ==> #[trigger] self.session_wf(session)
        &&& forall|session: nat|
            session >= self.sessions.len() ==> #[trigger] reports(self.mail, session) == 0
    }
}

/// Steps that can be taken one after the other.
pub open spec fn possible(steps: Seq<WorldStep>) -> bool
    decreases steps.len(),
{
    steps.len() == 0 || (possible(steps.drop_last()) && world(steps.drop_last()).allows(
        steps.last(),
    ))
}

/// The world after its steps.
pub open spec fn world(steps: Seq<WorldStep>) -> World
    decreases steps.len(),
{
    if steps.len() == 0 {
        World::initial()
    } else {
        world(steps.drop_last()).after(steps.last())
    }
}

proof fn reports_of_first(mail: Seq<CommandView>, session: nat)
    requires
        mail.len() > 0,
    ensures
        reports(mail, session) == reports(mail.drop_first(), session) + if mail[0] == (
        CommandView::SegmentFinished { session }) {
            1nat
        } else {
            0nat
        },
    decreases mail.len(),
{
    if mail.len() > 1 {
        reports_of_first(mail.drop_last(), session);
        assert(mail.drop_last().drop_first() =~= mail.drop_first().drop_last());
    } else {
        assert(mail.drop_first() =~= Seq::<CommandView>::empty());
        assert(mail.drop_last() =~= Seq::<CommandView>::empty());
    }
}

proof fn reports_of_push(mail: Seq<CommandView>, one: CommandView, session: nat)
    ensures
        reports(mail.push(one), session) == reports(mail, session) + if one == (
        CommandView::SegmentFinished { session }) {
            1nat
        } else {
            0nat
        },
{
    assert(mail.push(one).drop_last() =~= mail);
}

/// Which of the effects that a session feels come with which directive.
proof fn felt_effects()
    ensures
        ({
            let first = actions::start_effects(true);
            let next = actions::start_effects(false);
            let stop = actions::stop_effects();
            &&& first.contains(Effect::CaptureFocusedApp) && !first.contains(Effect::SignalCancel)
            &&& !next.contains(Effect::CaptureFocusedApp) && !next.contains(
                Effect::ClearCapturedApp,
            ) && !next.contains(Effect::SignalCancel)
            &&& !stop.contains(Effect::CaptureFocusedApp) && !stop.contains(
                Effect::ClearCapturedApp,
            ) && !stop.contains(Effect::SignalCancel)
        }),
        forall|recording: bool|
            {
                let cancel = #[trigger] pipeline::cancel_effects(recording);
                &&& !cancel.contains(Effect::CaptureFocusedApp)
                &&& cancel.contains(Effect::ClearCapturedApp)
                &&& cancel.contains(Effect::SignalCancel)
            },
        ({
            let complete = pipeline::complete_effects();
            &&& !complete.contains(Effect::CaptureFocusedApp)
            &&& complete.contains(Effect::ClearCapturedApp)
            &&& !complete.contains(Effect::SignalCancel)
        }),
{
    assert(actions::start_effects(true)[0] == Effect::CaptureFocusedApp);
    assert(pipeline::complete_effects()[0] == Effect::ClearCapturedApp);
    assert forall|recording: bool| {
        let cancel = #[trigger] pipeline::cancel_effects(recording);
        &&& !cancel.contains(Effect::CaptureFocusedApp)
        &&& cancel.contains(Effect::ClearCapturedApp)
        &&& cancel.contains(Effect::SignalCancel)
    } by {
        let cancel = pipeline::cancel_effects(recording);
        assert(cancel[0] == Effect::SignalCancel);
        assert(cancel[cancel.len() - 6] == Effect::ClearCapturedApp);
    }
}

proof fn telling_keeps_order(
    w: World,
    session: nat,
    segment: nat,
    event: TaskEventView,
    findings: FindingsView,
)
    requires
        w.wf(),
        w.allows(WorldStep::Tell { session, segment, event, findings }),
    ensures
        w.after(WorldStep::Tell { session, segment, event, findings }).wf(),
{
    let v = w.after(WorldStep::Tell { session, segment, event, findings });
    assert(w.session_wf(session));
    segment_laws::step_keeps_order(
        w.sessions[session as int].segments,
        SegmentStep::Tell { segment, event, findings },
    );
    assert forall|other: nat| other < v.sessions.len() implies #[trigger] v.session_wf(other) by {
        assert(w.session_wf(other));
        reports_of_push(w.mail, CommandView::SegmentFinished { session }, other);
    }
    assert forall|other: nat| other >= v.sessions.len() implies #[trigger] reports(v.mail, other)
        == 0 by {
        assert(reports(w.mail, other) == 0);
        reports_of_push(w.mail, CommandView::SegmentFinished { session }, other);
    }
}

proof fn processing_keeps_order(
    w: World,
    now: nat,
    started: bool,
    captured: Option<FocusedAppView>,
)
    requires
        w.wf(),
        w.allows(WorldStep::Process { now, started, captured }),
    ensures
        w.after(WorldStep::Process { now, started, captured }).wf(),
{
    let v = w.after(WorldStep::Process { now, started, captured });
    let directive = w.pipeline.directive(w.mail[0], now);
    felt_effects();
    if w.pipeline.stage is Active {
        let current = w.pipeline.stage->session;
        assert(w.session_wf(current));
        reports_of_first(w.mail, current);
        if directive is StopSegment {
            segment_laws::step_keeps_order(
                w.sessions[current as int].segments,
                SegmentStep::Stop { post_process: directive->post_process },
            );
        }
    }
    assert forall|other: nat| other >= w.sessions.len() implies #[trigger] reports(v.mail, other)
        == 0 by {
        assert(reports(w.mail, other) == 0);
        reports_of_first(w.mail, other);
    }
    assert forall|other: nat| other < v.sessions.len() implies #[trigger] v.session_wf(other) by {
        if other < w.sessions.len() {
            assert(w.session_wf(other));
            reports_of_first(w.mail, other);
        }
    }
}

/// Whatever happens, and however sessions overlap, the coordinator knows at all
/// times how many segments of the session that runs are in flight: those that
/// have not passed on their turn, and those whose reports are on their way.
pub proof fn pending_counts_what_is_in_flight(steps: Seq<WorldStep>)
    requires
        possible(steps),
    ensures
        world(steps).wf(),
    decreases steps.len(),
{
    if steps.len() > 0 {
        let w = world(steps.drop_last());
        pending_counts_what_is_in_flight(steps.drop_last());
        match steps.last() {
            WorldStep::Post { command } => {
                let v = w.after(steps.last());
                assert forall|session: nat| session < v.sessions.len() implies
                    #[trigger] v.session_wf(session) by {
                    assert(w.session_wf(session));
                    reports_of_push(w.mail, command, session);
                }
                assert forall|session: nat| session >= v.sessions.len() implies
                    #[trigger] reports(v.mail, session) == 0 by {
                    assert(reports(w.mail, session) == 0);
                    reports_of_push(w.mail, command, session);
                }
            },
            WorldStep::Tell { session, segment, event, findings } => {
                telling_keeps_order(w, session, segment, event, findings);
            },
            WorldStep::Process { now, started, captured } => {
                processing_keeps_order(w, now, started, captured);
            },
        }
    }
}

/// A session that is not cancelled ends only when every one of its segments
/// has been pasted or has given up, and passed on its turn.
pub proof fn session_completes_when_every_segment_is_done(
    steps: Seq<WorldStep>,
    now: nat,
    started: bool,
)
    requires
        possible(steps),
        world(steps).mail.len() > 0,
        world(steps).mail[0] !is Cancel,
        world(steps).pipeline.stage is Active,
        world(steps).pipeline.step(world(steps).step(now, started)).stage is Idle,
    ensures
        ({
            let session = world(steps).pipeline.stage->session;
            let segments = world(steps).sessions[session as int].segments.segments;
            &&& forall|i: int|
                0 <= i < segments.len() ==> (#[trigger] segments[i]).stage is Finished
            &&& reports(world(steps).mail.drop_first(), session) == 0
        }),
{
    let w = world(steps);
    let session = w.pipeline.stage->session;
    pending_counts_what_is_in_flight(steps);
    assert(w.session_wf(session));
    reports_of_first(w.mail, session);
}

/// Once every segment of the session that runs has passed on its turn, and every
/// report was dealt with, the session goes on only as long as it records.
pub proof fn finished_session_ends(steps: Seq<WorldStep>)
    requires
        possible(steps),
        world(steps).pipeline.stage is Active,
        world(steps).sessions[world(steps).pipeline.stage->session as int].unfinished() == 0,
        reports(world(steps).mail, world(steps).pipeline.stage->session) == 0,
    ensures
        world(steps).pipeline.stage->recording is Some,
{
    pending_counts_what_is_in_flight(steps);
    assert(world(steps).session_wf(world(steps).pipeline.stage->session));
}

/// Where a segment pastes, its text lands in the right window: with the setting
/// on, the platform is asked, right before the paste, for the window that was
/// captured when the segment's own session began, for the first segment as for
/// every later one, whatever other sessions do, as soon as no mouse button is
/// held. With the setting off, or after its session was cancelled, no window is
/// asked for.
pub proof fn pastes_go_to_the_window_of_their_session(
    steps: Seq<WorldStep>,
    session: nat,
    segment: nat,
    button_held: bool,
)
    requires
        possible(steps),
        session < world(steps).sessions.len(),
        segment < world(steps).sessions[session as int].segments.segments.len(),
        world(steps).sessions[session as int].segments.segments[segment as int].stage is Paste,
    ensures
        ({
            let view = world(steps).sessions[session as int];
            let stage = view.segments.segments[segment as int].stage;
            view.restoring(stage->Paste_job, button_held) == if stage->Paste_job.restore_focus
                && !view.cancelled {
                window_focus::restoring(view.window, button_held)
            } else {
                RestoreView::Nothing
            }
        }),
{
    pending_counts_what_is_in_flight(steps);
    assert(world(steps).session_wf(session));
}

/// The window of a session is the one that was focused when it began; nothing
/// that happens later changes it, and a cancelled session stays cancelled.
pub proof fn window_of_a_session_stays(steps: Seq<WorldStep>, step: WorldStep)
    requires
        possible(steps.push(step)),
    ensures
        ({
            let before = world(steps);
            let after = world(steps.push(step));
            &&& before.sessions.len() <= after.sessions.len() <= before.sessions.len() + 1
            &&& forall|i: int|
                0 <= i < before.sessions.len() ==> (#[trigger] after.sessions[i]).window
                    == before.sessions[i].window && (before.sessions[i].cancelled
                    ==> after.sessions[i].cancelled)
            &&& after.sessions.len() > before.sessions.len() ==> (step matches
                WorldStep::Process { captured, .. } && after.sessions.last().window == captured)
        }),
{
    assert(steps.push(step).drop_last() =~= steps);
    pending_counts_what_is_in_flight(steps);
    felt_effects();
    let w = world(steps);
    if w.pipeline.stage is Active {
        assert(w.session_wf(w.pipeline.stage->session));
    }
}

/// No segment of a cancelled session begins to paste.
pub proof fn cancelled_session_begins_no_paste(
    steps: Seq<WorldStep>,
    step: WorldStep,
    session: nat,
    segment: nat,
)
    requires
        possible(steps.push(step)),
        session < world(steps).sessions.len(),
        world(steps).sessions[session as int].cancelled,
        segment < world(steps).sessions[session as int].segments.segments.len(),
        world(steps).sessions[session as int].segments.segments[segment as int].stage !is Paste,
    ensures
        world(steps.push(step)).sessions[session as int].segments.segments[segment as int].stage
            !is Paste,
{
    assert(steps.push(step).drop_last() =~= steps);
    pending_counts_what_is_in_flight(steps);
    let w = world(steps);
    assert(w.session_wf(session));
    if w.pipeline.stage is Active {
        assert(w.session_wf(w.pipeline.stage->session));
    }
}

} // verus!
