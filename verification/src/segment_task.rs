//! What becomes of a segment once its recording has stopped.
use crate::chinese::{self, maybe_convert_chinese_variant};
use crate::json::{Reading, ReadingView};
use crate::post_process::{
    self, post_process_transcription, PostProcess, PostProcessView, Reply, ReplyView,
};
use crate::settings::{AppSettings, SettingsView};
use crate::text;
use crate::window_focus::{
    self, restore_focused_app_keep, FocusedApp, FocusedAppView, Restore, RestoreView,
};
use vstd::prelude::*;

verus! {

/// A transcription on its way to the history and to the target window.
pub struct Draft {
    /// What was transcribed.
    pub transcription: String,
    /// What it became so far.
    pub text: String,
    /// The settings as they were when it was transcribed.
    pub settings: AppSettings,
}

/// What is kept of a segment.
pub struct HistoryEntry {
    pub transcription: String,
    /// The text that was pasted, where it is not the bare transcription.
    pub post_processed_text: Option<String>,
    /// The prompt that a language model followed.
    pub post_process_prompt: Option<String>,
}

/// What is to be pasted, and whether the captured window comes back first.
pub struct PasteJob {
    pub text: String,
    pub restore_focus: bool,
}

/// What a segment waits for after its recording.
pub enum TaskStage {
    /// To know whether its recording left any samples.
    TakeSamples,
    /// To know whether the session was cancelled, before it is transcribed.
    CheckBeforeTranscription,
    /// To be transcribed.
    Transcribe,
    /// For the settings.
    Configure { transcription: String },
    /// To know whether the session was cancelled, before it is post-processed.
    CheckBeforePostProcessing { draft: Draft },
    /// To know whether the microphone already records the next segment.
    CheckMicrophone { draft: Draft },
    /// For the overlay that says that it is being post-processed; it is shown
    /// only where it does not hide that of a recording.
    ShowProcessing { draft: Draft },
    /// For a language model that is to be asked.
    PostProcess { draft: Draft, step: PostProcess },
    /// To be kept in the history.
    SaveHistory { entry: HistoryEntry, job: PasteJob },
    /// For its turn in the paste queue.
    AwaitTurn { paste: Option<PasteJob> },
    /// To know whether the session was cancelled, before it is pasted.
    CheckBeforePaste { job: PasteJob },
    /// To be pasted.
    Paste { job: PasteJob },
    /// To pass the turn on.
    Advance,
    /// For nothing any more.
    Finished,
}

/// What a segment is told.
pub enum TaskEvent {
    /// Whether its recording left any samples.
    SamplesTaken { present: bool },
    /// Whether its session was cancelled.
    Cancellation { cancelled: bool },
    /// The transcription, unless it failed.
    Transcribed { transcription: Option<String> },
    /// The settings.
    Configured { settings: AppSettings },
    /// Whether the microphone records.
    Microphone { recording: bool },
    /// That the overlay is shown.
    ProcessingShown,
    /// What came of asking a language model.
    Replied { reply: Reply },
    HistorySaved,
    /// That its turn has come.
    TurnCame,
    /// That the paste has returned, whether it succeeded or not.
    Pasted,
    /// That the turn was passed on.
    Advanced,
}

/// What a [`Draft`] says.
pub struct DraftView {
    pub transcription: Seq<char>,
    pub text: Seq<char>,
    pub settings: SettingsView,
}

/// What a [`HistoryEntry`] says.
pub struct HistoryEntryView {
    pub transcription: Seq<char>,
    pub post_processed_text: Option<Seq<char>>,
    pub post_process_prompt: Option<Seq<char>>,
}

/// What a [`PasteJob`] says.
pub struct PasteJobView {
    pub text: Seq<char>,
    pub restore_focus: bool,
}

impl PasteJobView {
    /// What is to be done about a captured window right before the paste, with a
    /// mouse button held or not: it comes back only where that is wanted.
    pub open spec fn restoring(self, app: Option<FocusedAppView>, button_held: bool) -> RestoreView {
        if self.restore_focus {
            window_focus::restoring(app, button_held)
        } else {
            RestoreView::Nothing
        }
    }
}

/// What a [`TaskStage`] says.
pub enum TaskStageView {
    TakeSamples,
    CheckBeforeTranscription,
    Transcribe,
    Configure { transcription: Seq<char> },
    CheckBeforePostProcessing { draft: DraftView },
    CheckMicrophone { draft: DraftView },
    ShowProcessing { draft: DraftView },
    PostProcess { draft: DraftView, step: PostProcessView },
    SaveHistory { entry: HistoryEntryView, job: PasteJobView },
    AwaitTurn { paste: Option<PasteJobView> },
    CheckBeforePaste { job: PasteJobView },
    Paste { job: PasteJobView },
    Advance,
    Finished,
}

/// What a [`TaskEvent`] says.
pub enum TaskEventView {
    SamplesTaken { present: bool },
    Cancellation { cancelled: bool },
    Transcribed { transcription: Option<Seq<char>> },
    Configured { settings: SettingsView },
    Microphone { recording: bool },
    ProcessingShown,
    Replied { reply: ReplyView },
    HistorySaved,
    TurnCame,
    Pasted,
    Advanced,
}

impl View for Draft {
    type V = DraftView;

    open spec fn view(&self) -> DraftView {
        DraftView {
            transcription: self.transcription@,
            text: self.text@,
            settings: self.settings@,
        }
    }
}

impl View for HistoryEntry {
    type V = HistoryEntryView;

    open spec fn view(&self) -> HistoryEntryView {
        HistoryEntryView {
            transcription: self.transcription@,
            post_processed_text: text::opt_view(self.post_processed_text),
            post_process_prompt: text::opt_view(self.post_process_prompt),
        }
    }
}

impl View for PasteJob {
    type V = PasteJobView;

    open spec fn view(&self) -> PasteJobView {
        PasteJobView { text: self.text@, restore_focus: self.restore_focus }
    }
}

impl View for TaskStage {
    type V = TaskStageView;

    open spec fn view(&self) -> TaskStageView {
        match self {
            TaskStage::TakeSamples => TaskStageView::TakeSamples,
            TaskStage::CheckBeforeTranscription => TaskStageView::CheckBeforeTranscription,
            TaskStage::Transcribe => TaskStageView::Transcribe,
            TaskStage::Configure { transcription } => TaskStageView::Configure {
                transcription: transcription@,
            },
            TaskStage::CheckBeforePostProcessing { draft } => {
                TaskStageView::CheckBeforePostProcessing { draft: draft@ }
            },
            TaskStage::CheckMicrophone { draft } => TaskStageView::CheckMicrophone {
                draft: draft@,
            },
            TaskStage::ShowProcessing { draft } => TaskStageView::ShowProcessing { draft: draft@ },
            TaskStage::PostProcess { draft, step } => TaskStageView::PostProcess {
                draft: draft@,
                step: step@,
            },
            TaskStage::SaveHistory { entry, job } => TaskStageView::SaveHistory {
                entry: entry@,
                job: job@,
            },
            TaskStage::AwaitTurn { paste } => TaskStageView::AwaitTurn {
                paste: match paste {
                    Some(job) => Some(job@),
                    None => None,
                },
            },
            TaskStage::CheckBeforePaste { job } => TaskStageView::CheckBeforePaste { job: job@ },
            TaskStage::Paste { job } => TaskStageView::Paste { job: job@ },
            TaskStage::Advance => TaskStageView::Advance,
            TaskStage::Finished => TaskStageView::Finished,
        }
    }
}

impl View for TaskEvent {
    type V = TaskEventView;

    open spec fn view(&self) -> TaskEventView {
        match self {
            TaskEvent::SamplesTaken { present } => TaskEventView::SamplesTaken {
                present: *present,
            },
            TaskEvent::Cancellation { cancelled } => TaskEventView::Cancellation {
                cancelled: *cancelled,
            },
            TaskEvent::Transcribed { transcription } => TaskEventView::Transcribed {
                transcription: text::opt_view(*transcription),
            },
            TaskEvent::Configured { settings } => TaskEventView::Configured {
                settings: settings@,
            },
            TaskEvent::Microphone { recording } => TaskEventView::Microphone {
                recording: *recording,
            },
            TaskEvent::ProcessingShown => TaskEventView::ProcessingShown,
            TaskEvent::Replied { reply } => TaskEventView::Replied { reply: reply@ },
            TaskEvent::HistorySaved => TaskEventView::HistorySaved,
            TaskEvent::TurnCame => TaskEventView::TurnCame,
            TaskEvent::Pasted => TaskEventView::Pasted,
            TaskEvent::Advanced => TaskEventView::Advanced,
        }
    }
}

impl DraftView {
    /// The text that is pasted in the end.
    pub open spec fn final_text(self, processed: Option<Seq<char>>) -> Seq<char> {
        match processed {
            Some(processed) => processed,
            None => self.text,
        }
    }

    /// What the history keeps: the prompt is named only where a language model
    /// followed it, the text only where it may differ from the transcription.
    pub open spec fn entry(self, processed: Option<Seq<char>>) -> HistoryEntryView {
        HistoryEntryView {
            transcription: self.transcription,
            post_processed_text: if processed is Some || self.text != self.transcription {
                Some(self.final_text(processed))
            } else {
                None
            },
            post_process_prompt: if processed is Some {
                self.settings.selected_prompt()
            } else {
                None
            },
        }
    }

    /// What is pasted in the end.
    pub open spec fn job(self, processed: Option<Seq<char>>) -> PasteJobView {
        PasteJobView {
            text: self.final_text(processed),
            restore_focus: self.settings.restore_focus,
        }
    }

    /// Where a segment goes with a post-processing that has come this far.
    pub open spec fn post_processed(self, step: PostProcessView) -> TaskStageView {
        match step {
            PostProcessView::Done { result } => TaskStageView::SaveHistory {
                entry: self.entry(result),
                job: self.job(result),
            },
            _ => TaskStageView::PostProcess { draft: self, step },
        }
    }

    /// Where a segment goes when its post-processing begins.
    pub open spec fn post_processing(self) -> TaskStageView {
        self.post_processed(PostProcessView::first(self.settings, self.text))
    }
}

/// What is found out about an event before a segment goes on.
pub struct Findings {
    /// A transcription in the variant of Chinese that the settings ask for.
    pub converted: Option<String>,
    /// What a reply holds under the field that was asked for.
    pub found: Reading,
}

/// What [`Findings`] say.
pub struct FindingsView {
    pub converted: Option<Seq<char>>,
    pub found: ReadingView,
}

impl View for Findings {
    type V = FindingsView;

    open spec fn view(&self) -> FindingsView {
        FindingsView { converted: text::opt_view(self.converted), found: self.found@ }
    }
}

/// Where a segment goes that has nothing to paste: it still takes its turn, so
/// that the segments behind it get theirs.
pub open spec fn give_up() -> TaskStageView {
    TaskStageView::AwaitTurn { paste: None }
}

impl TaskStageView {
    /// Whether this can be what is found out about an event.
    pub open spec fn admits(self, event: TaskEventView, findings: FindingsView) -> bool {
        match (self, event) {
            (
                TaskStageView::Configure { transcription },
                TaskEventView::Configured { settings },
            ) => chinese::can_become(settings.language, transcription, findings.converted),
            (TaskStageView::PostProcess { .. }, TaskEventView::Replied { reply }) => findings.found
                == post_process::found_in(reply),
            _ => true,
        }
    }

    /// Where a segment goes on an event and what was found out about it. One
    /// that it does not wait for leaves it where it is.
    pub open spec fn after(
        self,
        event: TaskEventView,
        findings: FindingsView,
        post_process: bool,
    ) -> TaskStageView {
        match (self, event) {
            (TaskStageView::TakeSamples, TaskEventView::SamplesTaken { present }) => {
                if present {
                    TaskStageView::CheckBeforeTranscription
                } else {
                    give_up()
                }
            },
            (
                TaskStageView::CheckBeforeTranscription,
                TaskEventView::Cancellation { cancelled },
            ) => {
                if cancelled {
                    give_up()
                } else {
                    TaskStageView::Transcribe
                }
            },
            (TaskStageView::Transcribe, TaskEventView::Transcribed { transcription }) => {
                match transcription {
                    Some(transcription) if transcription.len() > 0 => TaskStageView::Configure {
                        transcription,
                    },
                    _ => give_up(),
                }
            },
            (
                TaskStageView::Configure { transcription },
                TaskEventView::Configured { settings },
            ) => TaskStageView::CheckBeforePostProcessing {
                draft: DraftView {
                    transcription,
                    text: match findings.converted {
                        Some(converted) => converted,
                        None => transcription,
                    },
                    settings,
                },
            },
            (
                TaskStageView::CheckBeforePostProcessing { draft },
                TaskEventView::Cancellation { cancelled },
            ) => {
                if cancelled {
                    give_up()
                } else if post_process {
                    TaskStageView::CheckMicrophone { draft }
                } else {
                    TaskStageView::SaveHistory { entry: draft.entry(None), job: draft.job(None) }
                }
            },
            (TaskStageView::CheckMicrophone { draft }, TaskEventView::Microphone { recording }) => {
                if recording {
                    draft.post_processing()
                } else {
                    TaskStageView::ShowProcessing { draft }
                }
            },
            (TaskStageView::ShowProcessing { draft }, TaskEventView::ProcessingShown) => {
                draft.post_processing()
            },
            (TaskStageView::PostProcess { draft, step }, TaskEventView::Replied { reply }) => {
                draft.post_processed(step.after(reply, findings.found))
            },
            (TaskStageView::SaveHistory { entry, job }, TaskEventView::HistorySaved) => {
                TaskStageView::AwaitTurn { paste: Some(job) }
            },
            (TaskStageView::AwaitTurn { paste }, TaskEventView::TurnCame) => {
                match paste {
                    Some(job) => TaskStageView::CheckBeforePaste { job },
                    None => TaskStageView::Advance,
                }
            },
            (
                TaskStageView::CheckBeforePaste { job },
                TaskEventView::Cancellation { cancelled },
            ) => {
                if cancelled {
                    TaskStageView::Advance
                } else {
                    TaskStageView::Paste { job }
                }
            },
            (TaskStageView::Paste { .. }, TaskEventView::Pasted) => TaskStageView::Advance,
            (TaskStageView::Advance, TaskEventView::Advanced) => TaskStageView::Finished,
            _ => self,
        }
    }
}

/// The way of one segment from the end of its recording to the end of its turn
/// in the paste queue.
pub struct SegmentTask {
    stage: TaskStage,
    post_process: bool,
    session: u64,
    segment_seq: u64,
}

/// Turns a draft into what is kept and what is pasted.
pub fn finalize(draft: Draft, processed: Option<String>) -> (outcome: (HistoryEntry, PasteJob))
    ensures
        outcome.0@ == draft@.entry(text::opt_view(processed)),
        outcome.1@ == draft@.job(text::opt_view(processed)),
{
    let restore_focus = draft.settings.restore_focus_before_paste;
    match processed {
        Some(processed) => (
            HistoryEntry {
                transcription: draft.transcription,
                post_processed_text: Some(processed.clone()),
                post_process_prompt: draft.settings.selected_prompt(),
            },
            PasteJob { text: processed, restore_focus },
        ),
        None => {
            let post_processed_text = if draft.text != draft.transcription {
                Some(draft.text.clone())
            } else {
                None
            };
            (
                HistoryEntry {
                    transcription: draft.transcription,
                    post_processed_text,
                    post_process_prompt: None,
                },
                PasteJob { text: draft.text, restore_focus },
            )
        },
    }
}

/// Says what is to be done about the captured window right before a paste; the
/// snapshot is kept for the segments that follow.
pub fn restore_before_paste(
    job: &PasteJob,
    slot: &Option<FocusedApp>,
    button_held: bool,
) -> (step: Restore)
    ensures
        step@ == job@.restoring(window_focus::opt_app(*slot), button_held),
{
    if job.restore_focus {
        restore_focused_app_keep(slot, button_held)
    } else {
        Restore::Nothing
    }
}

/// Says where a segment goes with a post-processing that has come this far.
fn post_processed(draft: Draft, step: PostProcess) -> (stage: TaskStage)
    ensures
        stage@ == draft@.post_processed(step@),
{
    match step {
        PostProcess::Done { result } => {
            let (entry, job) = finalize(draft, result);
            TaskStage::SaveHistory { entry, job }
        },
        step => TaskStage::PostProcess { draft, step },
    }
}

/// Begins the post-processing of a segment.
fn post_processing(draft: Draft) -> (stage: TaskStage)
    ensures
        stage@ == draft@.post_processing(),
{
    let step = post_process_transcription(&draft.settings, draft.text.as_str());
    post_processed(draft, step)
}

impl SegmentTask {
    /// What the segment waits for.
    pub closed spec fn stage_view(&self) -> TaskStageView {
        self.stage@
    }

    /// Whether a language model gets to see the segment.
    pub closed spec fn post_process(&self) -> bool {
        self.post_process
    }

    /// The number of its session.
    pub closed spec fn session_number(&self) -> u64 {
        self.session
    }

    /// Its place in the recording order of its session.
    pub closed spec fn seq(&self) -> u64 {
        self.segment_seq
    }

    pub fn new(post_process: bool, session: u64, segment_seq: u64) -> (task: Self)
        ensures
            task.stage_view() == TaskStageView::TakeSamples,
            task.post_process() == post_process,
            task.session_number() == session,
            task.seq() == segment_seq,
    {
        SegmentTask { stage: TaskStage::TakeSamples, post_process, session, segment_seq }
    }

    /// What the segment waits for.
    pub fn stage(&self) -> (stage: &TaskStage)
        ensures
            stage@ == self.stage_view(),
    {
        &self.stage
    }

    /// The number of its session, to which it reports when it has finished.
    pub fn session(&self) -> (session: u64)
        ensures
            session == self.session_number(),
    {
        self.session
    }

    /// Its place in the recording order of its session.
    pub fn segment_seq(&self) -> (seq: u64)
        ensures
            seq == self.seq(),
    {
        self.segment_seq
    }

    /// Finds out what has to be known about an event before the segment goes
    /// on: the Chinese variant of its transcription, or what a reply holds.
    pub fn look_into(&self, event: &TaskEvent) -> (findings: Findings)
        ensures
            self.stage_view().admits(event@, findings@),
    {
        match (&self.stage, event) {
            (TaskStage::Configure { transcription }, TaskEvent::Configured { settings }) => {
                Findings {
                    converted: maybe_convert_chinese_variant(settings, transcription.as_str()),
                    found: Reading::NotJson,
                }
            },
            (TaskStage::PostProcess { .. }, TaskEvent::Replied { reply }) => Findings {
                converted: None,
                found: post_process::find_in(reply),
            },
            _ => Findings { converted: None, found: Reading::NotJson },
        }
    }

    /// Takes in an event and says what the segment waits for next.
    pub fn resume(self, event: TaskEvent) -> (task: Self)
        ensures
            exists|findings: FindingsView| #[trigger]
                self.stage_view().admits(event@, findings) && task.stage_view()
                    == self.stage_view().after(event@, findings, self.post_process()),
            task.post_process() == self.post_process(),
            task.session_number() == self.session_number(),
            task.seq() == self.seq(),
    {
        let findings = self.look_into(&event);
        let ghost known = findings@;
        assert(self.stage_view().admits(event@, known));
        self.resume_with(event, findings)
    }

    /// Takes in an event and what was found out about it, and says what the
    /// segment waits for next.
    pub fn resume_with(self, event: TaskEvent, findings: Findings) -> (task: Self)
        ensures
            task.stage_view() == self.stage_view().after(event@, findings@, self.post_process()),
            task.post_process() == self.post_process(),
            task.session_number() == self.session_number(),
            task.seq() == self.seq(),
    {
        let post_process = self.post_process;
        let stage = match (self.stage, event) {
            (TaskStage::TakeSamples, TaskEvent::SamplesTaken { present }) => {
                if present {
                    TaskStage::CheckBeforeTranscription
                } else {
                    TaskStage::AwaitTurn { paste: None }
                }
            },
            (TaskStage::CheckBeforeTranscription, TaskEvent::Cancellation { cancelled }) => {
                if cancelled {
                    TaskStage::AwaitTurn { paste: None }
                } else {
                    TaskStage::Transcribe
                }
            },
            (TaskStage::Transcribe, TaskEvent::Transcribed { transcription }) => {
                match transcription {
                    Some(transcription) => {
                        if transcription.as_str().is_empty() {
                            TaskStage::AwaitTurn { paste: None }
                        } else {
                            TaskStage::Configure { transcription }
                        }
                    },
                    None => TaskStage::AwaitTurn { paste: None },
                }
            },
            (
                TaskStage::Configure { transcription },
                TaskEvent::Configured { settings },
            ) => {
                let text = match findings.converted {
                    Some(converted) => converted,
                    None => transcription.clone(),
                };
                TaskStage::CheckBeforePostProcessing {
                    draft: Draft { transcription, text, settings },
                }
            },
            (
                TaskStage::CheckBeforePostProcessing { draft },
                TaskEvent::Cancellation { cancelled },
            ) => {
                if cancelled {
                    TaskStage::AwaitTurn { paste: None }
                } else if post_process {
                    TaskStage::CheckMicrophone { draft }
                } else {
                    let (entry, job) = finalize(draft, None);
                    TaskStage::SaveHistory { entry, job }
                }
            },
            (TaskStage::CheckMicrophone { draft }, TaskEvent::Microphone { recording }) => {
                if recording {
                    post_processing(draft)
                } else {
                    TaskStage::ShowProcessing { draft }
                }
            },
            (TaskStage::ShowProcessing { draft }, TaskEvent::ProcessingShown) => {
                post_processing(draft)
            },
            (TaskStage::PostProcess { draft, step }, TaskEvent::Replied { reply }) => {
                post_processed(draft, step.resume_with(reply, findings.found))
            },
            (TaskStage::SaveHistory { entry, job }, TaskEvent::HistorySaved) => {
                TaskStage::AwaitTurn { paste: Some(job) }
            },
            (TaskStage::AwaitTurn { paste }, TaskEvent::TurnCame) => {
                match paste {
                    Some(job) => TaskStage::CheckBeforePaste { job },
                    None => TaskStage::Advance,
                }
            },
            (TaskStage::CheckBeforePaste { job }, TaskEvent::Cancellation { cancelled }) => {
                if cancelled {
                    TaskStage::Advance
                } else {
                    TaskStage::Paste { job }
                }
            },
            (TaskStage::Paste { .. }, TaskEvent::Pasted) => TaskStage::Advance,
            (TaskStage::Advance, TaskEvent::Advanced) => TaskStage::Finished,
            (stage, _) => stage,
        };
        SegmentTask { stage, post_process, session: self.session, segment_seq: self.segment_seq }
    }
}

} // verus!
