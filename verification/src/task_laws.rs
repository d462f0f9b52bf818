//! What holds of one segment on its way from its samples to its paste.
use crate::chinese;
use crate::json;
use crate::post_process::{PostProcessView, ReplyView};
use crate::segment_task::{
    DraftView, FindingsView, HistoryEntryView, PasteJobView, TaskEventView, TaskStageView,
};
use crate::settings::SettingsView;
use crate::window_focus::{self, FocusedAppView, RestoreView};
use vstd::prelude::*;

verus! {

/// A segment that was told the events of an uncancelled session up to its
/// settings: it left samples, was transcribed as `t`, and got to know the
/// settings; `any` is whatever was found out about the other events.
pub open spec fn configured(
    t: Seq<char>,
    settings: SettingsView,
    known: FindingsView,
    any: FindingsView,
    post_process: bool,
) -> TaskStageView {
    TaskStageView::TakeSamples.after(
        TaskEventView::SamplesTaken { present: true },
        any,
        post_process,
    ).after(TaskEventView::Cancellation { cancelled: false }, any, post_process).after(
        TaskEventView::Transcribed { transcription: Some(t) },
        any,
        post_process,
    ).after(TaskEventView::Configured { settings }, known, post_process)
}

/// A segment with something to keep and paste, on the rest of an uncancelled
/// way to its paste.
pub open spec fn carried_on(
    stage: TaskStageView,
    any: FindingsView,
    post_process: bool,
) -> TaskStageView {
    stage.after(TaskEventView::HistorySaved, any, post_process).after(
        TaskEventView::TurnCame,
        any,
        post_process,
    ).after(TaskEventView::Cancellation { cancelled: false }, any, post_process)
}

/// Whatever was said is pasted: every transcription that is not empty, in full,
/// or its conversion where there is one, and the history keeps what was said
/// beside what it became. The captured window comes back where the settings say
/// so.
pub proof fn what_was_said_is_pasted(
    t: Seq<char>,
    settings: SettingsView,
    known: FindingsView,
    any: FindingsView,
)
    requires
        t.len() > 0,
    ensures
        ({
            let text = match known.converted {
                Some(converted) => converted,
                None => t,
            };
            let kept = configured(t, settings, known, any, false).after(
                TaskEventView::Cancellation { cancelled: false },
                any,
                false,
            );
            &&& kept is SaveHistory
            &&& kept->entry.transcription == t
            &&& kept->entry.post_processed_text == if text == t {
                None
            } else {
                Some(text)
            }
            &&& kept->entry.post_process_prompt is None
            &&& carried_on(kept, any, false) is Paste
            &&& carried_on(kept, any, false)->Paste_job.text == text
            &&& carried_on(kept, any, false)->Paste_job.restore_focus == settings.restore_focus
        }),
{
}

/// With post-processing, a language model is asked about all of the text, by the
/// settings of the segment, whether or not the microphone records meanwhile; the
/// overlay is shown only where it does not.
pub proof fn post_processing_sees_the_whole_text(
    t: Seq<char>,
    settings: SettingsView,
    known: FindingsView,
    any: FindingsView,
)
    requires
        t.len() > 0,
    ensures
        ({
            let text = match known.converted {
                Some(converted) => converted,
                None => t,
            };
            let waiting = configured(t, settings, known, any, true).after(
                TaskEventView::Cancellation { cancelled: false },
                any,
                true,
            );
            let busy = waiting.after(TaskEventView::Microphone { recording: true }, any, true);
            let free = waiting.after(TaskEventView::Microphone { recording: false }, any, true);
            let step = PostProcessView::first(settings, text);
            &&& waiting is CheckMicrophone
            &&& free is ShowProcessing
            &&& free.after(TaskEventView::ProcessingShown, any, true) == busy
            &&& step !is Done ==> busy is PostProcess && busy->step == step
                && busy->PostProcess_draft.text == text && busy->PostProcess_draft.transcription
                == t && busy->PostProcess_draft.settings == settings
            &&& step is Done ==> step->result is None && busy is SaveHistory
                && busy->entry.transcription == t && carried_on(
                busy,
                any,
                true,
            )->Paste_job.text == text
        }),
{
}

/// What a language model made of a text is pasted in place of it and kept beside
/// what was said, with the prompt that it followed; where it made nothing of it,
/// the text stays. As long as there is someone left to ask, the segment waits.
pub proof fn processed_text_is_pasted(
    draft: DraftView,
    step: PostProcessView,
    reply: ReplyView,
    known: FindingsView,
    any: FindingsView,
    post_process: bool,
)
    ensures
        ({
            let next = TaskStageView::PostProcess { draft, step }.after(
                TaskEventView::Replied { reply },
                known,
                post_process,
            );
            let paste = carried_on(next, any, post_process);
            match step.after(reply, known.found) {
                PostProcessView::Done { result: Some(result) } => {
                    &&& next is SaveHistory
                    &&& next->entry == (HistoryEntryView {
                        transcription: draft.transcription,
                        post_processed_text: Some(result),
                        post_process_prompt: draft.settings.selected_prompt(),
                    })
                    &&& paste == (TaskStageView::Paste {
                        job: PasteJobView {
                            text: result,
                            restore_focus: draft.settings.restore_focus,
                        },
                    })
                },
                PostProcessView::Done { result: None } => {
                    &&& next is SaveHistory
                    &&& next->entry == (HistoryEntryView {
                        transcription: draft.transcription,
                        post_processed_text: if draft.text == draft.transcription {
                            None
                        } else {
                            Some(draft.text)
                        },
                        post_process_prompt: None,
                    })
                    &&& paste == (TaskStageView::Paste {
                        job: PasteJobView {
                            text: draft.text,
                            restore_focus: draft.settings.restore_focus,
                        },
                    })
                },
                again => next == (TaskStageView::PostProcess { draft, step: again }),
            }
        }),
{
}

/// A segment gives its paste up for four reasons and no other: it left no
/// samples, its transcription failed, nothing was said, or its session was
/// cancelled.
pub proof fn only_four_reasons_to_give_up(
    stage: TaskStageView,
    event: TaskEventView,
    findings: FindingsView,
    post_process: bool,
)
    requires
        !(stage is AwaitTurn || stage is Paste || stage is Advance || stage is Finished),
    ensures
        ({
            let next = stage.after(event, findings, post_process);
            let given_up = next == (TaskStageView::AwaitTurn { paste: None }) || next is Advance;
            given_up <==> {
                ||| stage is TakeSamples && event == (TaskEventView::SamplesTaken {
                    present: false,
                })
                ||| stage is Transcribe && event == (TaskEventView::Transcribed {
                    transcription: None,
                })
                ||| stage is Transcribe && (event matches TaskEventView::Transcribed {
                    transcription: Some(t),
                } && t.len() == 0)
                ||| (stage is CheckBeforeTranscription || stage is CheckBeforePostProcessing
                    || stage is CheckBeforePaste) && event == (TaskEventView::Cancellation {
                    cancelled: true,
                })
            }
        }),
{
}

/// A segment pastes what it was to paste when it began to wait for its turn, and
/// passes its turn on after that.
pub proof fn waiting_changes_nothing(
    job: PasteJobView,
    entry: HistoryEntryView,
    any: FindingsView,
    post_process: bool,
)
    ensures
        ({
            let kept = TaskStageView::SaveHistory { entry, job };
            let paste = carried_on(kept, any, post_process);
            let done = paste.after(TaskEventView::Pasted, any, post_process);
            &&& kept.after(TaskEventView::HistorySaved, any, post_process) == (
            TaskStageView::AwaitTurn { paste: Some(job) })
            &&& paste == (TaskStageView::Paste { job })
            &&& done is Advance
            &&& done.after(TaskEventView::Advanced, any, post_process) is Finished
            &&& TaskStageView::AwaitTurn { paste: None }.after(
                TaskEventView::TurnCame,
                any,
                post_process,
            ) is Advance
        }),
{
}

/// What is found out before a segment goes on is what there is to find: of its
/// transcription, a conversion that its language asks for; of a structured reply,
/// the text under the field that was asked for.
pub proof fn findings_are_what_there_is_to_find(
    t: Seq<char>,
    settings: SettingsView,
    draft: DraftView,
    step: PostProcessView,
    content: Seq<char>,
    findings: FindingsView,
)
    ensures
        (TaskStageView::Configure { transcription: t }).admits(
            (TaskEventView::Configured { settings }),
            findings,
        ) <==> chinese::can_become(settings.language, t, findings.converted),
        (TaskStageView::PostProcess { draft, step }).admits(
            (TaskEventView::Replied { reply: (ReplyView::Content { content }) }),
            findings,
        ) <==> findings.found == json::reading(json::parsed(content), "transcription"@),
{
}

/// Right before a paste, a captured window that is wanted back is asked for,
/// unless a mouse button is held, which is waited out; one that is not wanted is
/// left alone.
pub proof fn window_comes_back_where_it_is_wanted(
    job: PasteJobView,
    app: FocusedAppView,
    button_held: bool,
)
    ensures
        job.restoring(None, button_held) is Nothing,
        !job.restore_focus ==> job.restoring(Some(app), button_held) is Nothing,
        job.restore_focus && button_held ==> job.restoring(Some(app), button_held) is Wait,
        job.restore_focus && !button_held ==> job.restoring(Some(app), button_held) == (
        RestoreView::Ask { request: window_focus::restore_request(app) }),
{
}

} // verus!
