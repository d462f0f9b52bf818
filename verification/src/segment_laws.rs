//! What holds of the segments of one session, however their work interleaves.
use crate::post_process::PostProcessView;
use crate::segment_task::{DraftView, FindingsView, TaskEventView, TaskStageView};
use vstd::prelude::*;

verus! {

/// A segment of a session.
pub struct SegmentView {
    pub stage: TaskStageView,
    pub post_process: bool,
}

/// The segments of a session, in the order in which their recordings stopped,
/// with the paste queue that they share and a record of what was pasted.
pub struct Segments {
    pub segments: Seq<SegmentView>,
    pub turn: nat,
    pub pasted: Seq<nat>,
}

/// What happens next in a session.
pub enum SegmentStep {
    /// The recording of a further segment stops.
    Stop { post_process: bool },
    /// A segment is told something, and finds something out about it.
    Tell { segment: nat, event: TaskEventView, findings: FindingsView },
}

impl Segments {
    /// A session in which no recording has stopped yet.
    pub open spec fn initial() -> Segments {
        Segments { segments: seq![], turn: 0, pasted: seq![] }
    }

    /// A segment is told that its turn has come only when it has.
    pub open spec fn allows(self, step: SegmentStep) -> bool {
        match step {
            SegmentStep::Stop { .. } => true,
            SegmentStep::Tell { segment, event, .. } => {
                &&& segment < self.segments.len()
                &&& event is TurnCame ==> self.turn == segment
            },
        }
    }

    /// The session after a step. The turn passes on when a segment that waits
    /// to pass it on is told that this was done.
    pub open spec fn after(self, step: SegmentStep) -> Segments {
        match step {
            SegmentStep::Stop { post_process } => Segments {
                segments: self.segments.push(
                    SegmentView { stage: TaskStageView::TakeSamples, post_process },
                ),
                ..self
            },
            SegmentStep::Tell { segment, event, findings } => {
                let told = self.segments[segment as int];
                Segments {
                    segments: self.segments.update(
                        segment as int,
                        SegmentView {
                            stage: told.stage.after(event, findings, told.post_process),
                            ..told
                        },
                    ),
                    turn: if told.stage is Advance && event is Advanced {
                        self.turn + 1
                    } else {
                        self.turn
                    },
                    pasted: if told.stage is Paste && event is Pasted {
                        self.pasted.push(segment)
                    } else {
                        self.pasted
                    },
                }
            },
        }
    }

    /// Whoever is before the turn is done, whoever is behind it waits, and only
    /// the segment whose turn it is pastes, once.
    pub open spec fn wf(self) -> bool {
        &&& self.turn <= self.segments.len()
        &&& forall|i: int|
            0 <= i < self.segments.len() ==> {
                let stage = (#[trigger] self.segments[i]).stage;
                &&& stage is Finished <==> i < self.turn
                &&& has_turn(stage) ==> i == self.turn
            }
        &&& forall|i: int, j: int|
            0 <= i < j < self.pasted.len() ==> #[trigger] self.pasted[i] < #[trigger] self.pasted[j]
        &&& forall|i: int|
            0 <= i < self.pasted.len() ==> {
                let segment = #[trigger] self.pasted[i];
                &&& segment < self.segments.len()
                &&& segment <= self.turn
                &&& segment == self.turn ==> self.segments[segment as int].stage is Advance
            }
    }
}

/// Whether a segment holds the turn.
pub open spec fn has_turn(stage: TaskStageView) -> bool {
    stage is CheckBeforePaste || stage is Paste || stage is Advance
}

/// The steps of a session, each of them allowed where it is taken.
pub open spec fn allowed(steps: Seq<SegmentStep>) -> bool
    decreases steps.len(),
{
    steps.len() == 0 || (allowed(steps.drop_last()) && session(steps.drop_last()).allows(
        steps.last(),
    ))
}

/// The session after its steps.
pub open spec fn session(steps: Seq<SegmentStep>) -> Segments
    decreases steps.len(),
{
    if steps.len() == 0 {
        Segments::initial()
    } else {
        session(steps.drop_last()).after(steps.last())
    }
}

/// A step keeps the order.
pub proof fn step_keeps_order(s: Segments, step: SegmentStep)
    requires
        s.wf(),
        s.allows(step),
    ensures
        s.after(step).wf(),
{
    let t = s.after(step);
    match step {
        SegmentStep::Stop { .. } => {
            assert forall|i: int| 0 <= i < t.segments.len() implies {
                let stage = (#[trigger] t.segments[i]).stage;
                &&& stage is Finished <==> i < t.turn
                &&& has_turn(stage) ==> i == t.turn
            } by {
                if i < s.segments.len() {
                    assert(t.segments[i] == s.segments[i]);
                }
            }
            assert forall|i: int| 0 <= i < t.pasted.len() implies {
                let segment = #[trigger] t.pasted[i];
                &&& segment < t.segments.len()
                &&& segment <= t.turn
                &&& segment == t.turn ==> t.segments[segment as int].stage is Advance
            } by {
                assert(t.pasted[i] == s.pasted[i]);
                assert(t.segments[t.pasted[i] as int] == s.segments[t.pasted[i] as int]);
            }
        },
        SegmentStep::Tell { segment, event, findings } => {
            let told = s.segments[segment as int];
            assert forall|i: int| 0 <= i < t.segments.len() implies {
                let stage = (#[trigger] t.segments[i]).stage;
                &&& stage is Finished <==> i < t.turn
                &&& has_turn(stage) ==> i == t.turn
            } by {
                if i != segment {
                    assert(t.segments[i] == s.segments[i]);
                }
            }
            assert forall|i: int| 0 <= i < t.pasted.len() implies {
                let segment = #[trigger] t.pasted[i];
                &&& segment < t.segments.len()
                &&& segment <= t.turn
                &&& segment == t.turn ==> t.segments[segment as int].stage is Advance
            } by {
                if i < s.pasted.len() {
                    assert(t.pasted[i] == s.pasted[i]);
                }
            }
        },
    }
}

/// However the work of its segments interleaves, a session is in order.
pub proof fn session_stays_in_order(steps: Seq<SegmentStep>)
    requires
        allowed(steps),
    ensures
        session(steps).wf(),
    decreases steps.len(),
{
    if steps.len() > 0 {
        session_stays_in_order(steps.drop_last());
        step_keeps_order(session(steps.drop_last()), steps.last());
    }
}

/// Segments paste in recording order, however long each of them takes, and
/// none pastes twice.
pub proof fn segments_paste_in_recording_order(steps: Seq<SegmentStep>, i: int, j: int)
    requires
        allowed(steps),
        0 <= i < j < session(steps).pasted.len(),
    ensures
        session(steps).pasted[i] < session(steps).pasted[j],
{
    session_stays_in_order(steps);
}

/// The turn is never lost: it always belongs to a segment that still has to
/// pass it on, or all segments are done.
pub proof fn turn_is_never_lost(steps: Seq<SegmentStep>)
    requires
        allowed(steps),
    ensures
        ({
            let s = session(steps);
            ||| s.turn < s.segments.len() && s.segments[s.turn as int].stage !is Finished
            ||| s.turn == s.segments.len() && forall|i: int|
                0 <= i < s.segments.len() ==> (#[trigger] s.segments[i]).stage is Finished
        }),
{
    session_stays_in_order(steps);
}

/// A segment passes its turn on only after its paste has returned, and the
/// others wait for that as long as it takes.
pub proof fn turn_passes_after_the_paste(s: Segments, step: SegmentStep)
    requires
        s.wf(),
        s.allows(step),
        s.turn < s.segments.len(),
        s.segments[s.turn as int].stage is Paste,
    ensures
        s.after(step).turn == s.turn,
        ({
            let holder = s.after(step).segments[s.turn as int].stage;
            let returned = step matches SegmentStep::Tell { segment, event, .. } && segment
                == s.turn && event is Pasted;
            if returned {
                holder is Advance && s.after(step).pasted == s.pasted.push(s.turn)
            } else {
                holder == s.segments[s.turn as int].stage
            }
        }),
{
}

/// How many events a segment has before it, at most.
pub open spec fn distance(stage: TaskStageView) -> nat {
    match stage {
        TaskStageView::TakeSamples => 14,
        TaskStageView::CheckBeforeTranscription => 13,
        TaskStageView::Transcribe => 12,
        TaskStageView::Configure { .. } => 11,
        TaskStageView::CheckBeforePostProcessing { .. } => 10,
        TaskStageView::CheckMicrophone { .. } => 9,
        TaskStageView::ShowProcessing { .. } => 8,
        TaskStageView::PostProcess { step: PostProcessView::AskStructured { .. }, .. } => 7,
        TaskStageView::PostProcess { .. } => 6,
        TaskStageView::SaveHistory { .. } => 5,
        TaskStageView::AwaitTurn { .. } => 4,
        TaskStageView::CheckBeforePaste { .. } => 3,
        TaskStageView::Paste { .. } => 2,
        TaskStageView::Advance => 1,
        TaskStageView::Finished => 0,
    }
}

/// Whether an event is the kind that a segment waits for.
pub open spec fn awaited(stage: TaskStageView, event: TaskEventView) -> bool {
    match stage {
        TaskStageView::TakeSamples => event is SamplesTaken,
        TaskStageView::CheckBeforeTranscription => event is Cancellation,
        TaskStageView::Transcribe => event is Transcribed,
        TaskStageView::Configure { .. } => event is Configured,
        TaskStageView::CheckBeforePostProcessing { .. } => event is Cancellation,
        TaskStageView::CheckMicrophone { .. } => event is Microphone,
        TaskStageView::ShowProcessing { .. } => event is ProcessingShown,
        TaskStageView::PostProcess { .. } => event is Replied,
        TaskStageView::SaveHistory { .. } => event is HistorySaved,
        TaskStageView::AwaitTurn { .. } => event is TurnCame,
        TaskStageView::CheckBeforePaste { .. } => event is Cancellation,
        TaskStageView::Paste { .. } => event is Pasted,
        TaskStageView::Advance => event is Advanced,
        TaskStageView::Finished => false,
    }
}

/// Whatever the events say, each one that a segment waits for brings it closer
/// to its end, and no other event moves it. So every segment passes its turn
/// on, whether it was transcribed, failed, or was cancelled.
pub proof fn segments_come_to_an_end(
    stage: TaskStageView,
    event: TaskEventView,
    findings: FindingsView,
    post_process: bool,
)
    ensures
        awaited(stage, event) ==> distance(stage.after(event, findings, post_process)) < distance(
            stage,
        ),
        !awaited(stage, event) ==> stage.after(event, findings, post_process) == stage,
        distance(stage) == 0 <==> stage is Finished,
        distance(stage.after(event, findings, post_process)) == 0 && distance(stage) > 0
            ==> stage is Advance,
{
}

/// The stage of a segment after a run of events, each with what was found out
/// about it.
pub open spec fn stage_after(
    stage: TaskStageView,
    events: Seq<(TaskEventView, FindingsView)>,
    post_process: bool,
) -> TaskStageView
    decreases events.len(),
{
    if events.len() == 0 {
        stage
    } else {
        let (event, findings) = events.last();
        stage_after(stage, events.drop_last(), post_process).after(event, findings, post_process)
    }
}

/// Whether a segment has nothing left to do but to take and pass on its turn.
pub open spec fn gives_up(stage: TaskStageView) -> bool {
    ||| stage is AwaitTurn && stage->paste is None
    ||| stage is Advance
    ||| stage is Finished
}

/// A segment that learns, at any of its checks, that the session was cancelled
/// is neither transcribed, post-processed, kept nor pasted after that.
pub proof fn cancelled_segment_does_nothing_more(
    stage: TaskStageView,
    findings: FindingsView,
    events: Seq<(TaskEventView, FindingsView)>,
    post_process: bool,
)
    requires
        stage is CheckBeforeTranscription || stage is CheckBeforePostProcessing
            || stage is CheckBeforePaste,
    ensures
        gives_up(
            stage_after(
                stage.after(
                    TaskEventView::Cancellation { cancelled: true },
                    findings,
                    post_process,
                ),
                events,
                post_process,
            ),
        ),
    decreases events.len(),
{
    if events.len() > 0 {
        cancelled_segment_does_nothing_more(stage, findings, events.drop_last(), post_process);
    }
}

/// The history tells what is pasted: the text that it names, or else the bare
/// transcription; and it names a prompt only beside such a text.
pub proof fn history_tells_what_is_pasted(draft: DraftView, processed: Option<Seq<char>>)
    ensures
        draft.job(processed).text == match draft.entry(processed).post_processed_text {
            Some(text) => text,
            None => draft.entry(processed).transcription,
        },
        draft.entry(processed).transcription == draft.transcription,
        draft.entry(processed).post_process_prompt is Some ==> draft.entry(
            processed,
        ).post_processed_text is Some,
{
}

} // verus!
