//! What is said of a value is what it holds.
use crate::json::{Reading, ReadingView};
use crate::pipeline::{Directive, DirectiveView};
use crate::post_process::{Account, PostProcess, PostProcessView, Reply, ReplyView};
use crate::segment_task::{
    Draft, Findings, HistoryEntry, PasteJob, TaskEvent, TaskEventView, TaskStage, TaskStageView,
};
use crate::settings::AppSettings;
use crate::text;
use crate::transcription_coordinator::{Command, CommandView};
use crate::window_focus::{
    self, FocusedApp, FocusedAppView, FocusedWindow, Restore, RestoreRequest, RestoreRequestView,
    RestoreView,
};
use vstd::prelude::*;

verus! {

/// A text that may be missing is there with all its characters, or not at all.
pub proof fn missing_texts_are_missing(s: Option<String>)
    ensures
        s is None <==> text::opt_view(s) is None,
        s matches Some(s1) ==> text::opt_view(s) == Some(s1@),
{
}

/// Settings say what they hold: every prompt in its place, and every text in
/// full.
pub proof fn settings_say_what_they_hold(settings: AppSettings, i: int)
    ensures
        settings@.language == settings.selected_language@,
        settings@.restore_focus == settings.restore_focus_before_paste,
        settings@.models == settings.post_process_models@,
        settings@.api_keys == settings.post_process_api_keys@,
        settings@.prompt_id == text::opt_view(settings.post_process_selected_prompt_id),
        settings@.apple_id == settings.apple_intelligence_provider_id@,
        settings.active_post_process_provider is None <==> settings@.provider is None,
        settings.active_post_process_provider matches Some(provider) ==> settings@.provider == Some(
            provider@,
        ) && provider@.id == provider.id@ && provider@.structured
            == provider.supports_structured_output,
        settings@.prompts.len() == settings.post_process_prompts@.len(),
        0 <= i < settings@.prompts.len() ==> settings@.prompts[i].id
            == settings.post_process_prompts@[i].id@ && settings@.prompts[i].prompt
            == settings.post_process_prompts@[i].prompt@,
{
}

/// A command says which binding, in which mode, and whose session.
pub proof fn commands_say_what_they_hold(command: Command)
    ensures
        match command {
            Command::Input { binding_id, is_pressed, push_to_talk } => command@ == (
            CommandView::Input { binding_id: binding_id@, is_pressed, push_to_talk }),
            Command::Cancel => command@ is Cancel,
            Command::SegmentFinished { session } => command@ is SegmentFinished
                && command@->session == session,
        },
{
}

/// A directive says all that its host needs to know.
pub proof fn directives_say_what_they_hold(directive: Directive)
    ensures
        match directive {
            Directive::Ignore => directive@ is Ignore,
            Directive::RunAction { action, is_pressed } => directive@ == (
            DirectiveView::RunAction { action, is_pressed }),
            Directive::StartSegment { session, binding_id, is_first } => directive@ is StartSegment
                && directive@->StartSegment_session == session
                && directive@->StartSegment_binding_id == binding_id@ && directive@->is_first
                == is_first,
            Directive::StopSegment { session, binding_id, post_process, segment_seq } => {
                directive@ is StopSegment && directive@->StopSegment_session == session
                    && directive@->StopSegment_binding_id == binding_id@
                    && directive@->post_process == post_process && directive@->segment_seq
                    == segment_seq
            },
            Directive::EndSession { session, effects } => directive@ is EndSession
                && directive@->EndSession_session == session && directive@->effects == effects@,
        },
{
}

/// What a segment carries with it is said in full: drafts, entries of the
/// history, and pastes.
pub proof fn segments_carry_whole_texts(
    draft: Draft,
    entry: HistoryEntry,
    job: PasteJob,
    findings: Findings,
)
    ensures
        draft@.transcription == draft.transcription@,
        draft@.text == draft.text@,
        draft@.settings == draft.settings@,
        entry@.transcription == entry.transcription@,
        entry@.post_processed_text == text::opt_view(entry.post_processed_text),
        entry@.post_process_prompt == text::opt_view(entry.post_process_prompt),
        job@.text == job.text@,
        job@.restore_focus == job.restore_focus,
        findings@.converted == text::opt_view(findings.converted),
        findings@.found == findings.found@,
{
}

/// The stage of a segment says what it waits for, and with what.
pub proof fn stages_say_what_they_hold(stage: TaskStage)
    ensures
        match stage {
            TaskStage::TakeSamples => stage@ is TakeSamples,
            TaskStage::CheckBeforeTranscription => stage@ is CheckBeforeTranscription,
            TaskStage::Transcribe => stage@ is Transcribe,
            TaskStage::Configure { transcription } => stage@ == (TaskStageView::Configure {
                transcription: transcription@,
            }),
            TaskStage::CheckBeforePostProcessing { draft } => stage@ == (
            TaskStageView::CheckBeforePostProcessing { draft: draft@ }),
            TaskStage::CheckMicrophone { draft } => stage@ == (TaskStageView::CheckMicrophone {
                draft: draft@,
            }),
            TaskStage::ShowProcessing { draft } => stage@ == (TaskStageView::ShowProcessing {
                draft: draft@,
            }),
            TaskStage::PostProcess { draft, step } => stage@ == (TaskStageView::PostProcess {
                draft: draft@,
                step: step@,
            }),
            TaskStage::SaveHistory { entry, job } => stage@ == (TaskStageView::SaveHistory {
                entry: entry@,
                job: job@,
            }),
            TaskStage::AwaitTurn { paste: Some(job) } => stage@ == (TaskStageView::AwaitTurn {
                paste: Some(job@),
            }),
            TaskStage::AwaitTurn { paste: None } => stage@ == (TaskStageView::AwaitTurn {
                paste: None,
            }),
            TaskStage::CheckBeforePaste { job } => stage@ == (TaskStageView::CheckBeforePaste {
                job: job@,
            }),
            TaskStage::Paste { job } => stage@ == (TaskStageView::Paste { job: job@ }),
            TaskStage::Advance => stage@ is Advance,
            TaskStage::Finished => stage@ is Finished,
        },
{
}

/// What a segment is told says what was told.
pub proof fn events_say_what_they_hold(event: TaskEvent)
    ensures
        match event {
            TaskEvent::SamplesTaken { present } => event@ == (TaskEventView::SamplesTaken {
                present,
            }),
            TaskEvent::Cancellation { cancelled } => event@ == (TaskEventView::Cancellation {
                cancelled,
            }),
            TaskEvent::Transcribed { transcription } => event@ == (TaskEventView::Transcribed {
                transcription: text::opt_view(transcription),
            }),
            TaskEvent::Configured { settings } => event@ == (TaskEventView::Configured {
                settings: settings@,
            }),
            TaskEvent::Microphone { recording } => event@ == (TaskEventView::Microphone {
                recording,
            }),
            TaskEvent::ProcessingShown => event@ is ProcessingShown,
            TaskEvent::Replied { reply } => event@ == (TaskEventView::Replied { reply: reply@ }),
            TaskEvent::HistorySaved => event@ is HistorySaved,
            TaskEvent::TurnCame => event@ is TurnCame,
            TaskEvent::Pasted => event@ is Pasted,
            TaskEvent::Advanced => event@ is Advanced,
        },
{
}

/// Questions say in full what is asked, and of whom.
pub proof fn questions_say_what_they_hold(step: PostProcess, account: Account)
    ensures
        account@.provider_id == account.provider_id@,
        account@.api_key == account.api_key@,
        account@.model == account.model@,
        match step {
            PostProcess::Done { result } => step@ == (PostProcessView::Done {
                result: text::opt_view(result),
            }),
            PostProcess::AskDevice { system_prompt, user_content, token_limit } => step@ == (
            PostProcessView::AskDevice {
                system_prompt: system_prompt@,
                user_content: user_content@,
                token_limit,
            }),
            PostProcess::AskStructured {
                account,
                system_prompt,
                user_content,
                schema,
                prompt,
            } => step@ == (PostProcessView::AskStructured {
                account: account@,
                system_prompt: system_prompt@,
                user_content: user_content@,
                schema: schema@,
                prompt: prompt@,
            }),
            PostProcess::AskPlain { account, prompt } => step@ == (PostProcessView::AskPlain {
                account: account@,
                prompt: prompt@,
            }),
        },
{
}

/// Answers say in full what was answered, and readings what was read.
pub proof fn answers_say_what_they_hold(reply: Reply, found: Reading)
    ensures
        match reply {
            Reply::Failed => reply@ is Failed,
            Reply::NoContent => reply@ is NoContent,
            Reply::Content { content } => reply@ == (ReplyView::Content { content: content@ }),
        },
        match found {
            Reading::NotJson => found@ is NotJson,
            Reading::Missing => found@ is Missing,
            Reading::Text { text } => found@ == (ReadingView::Text { text: text@ }),
        },
{
}

/// A captured window is said by all that it was captured as.
pub proof fn windows_say_what_they_hold(app: FocusedApp)
    ensures
        match app.window {
            FocusedWindow::MacOs { pid, window_title, window_pos, window_size } => app@ == (
            FocusedAppView::MacOs {
                pid,
                title: text::opt_view(window_title),
                pos: window_pos,
                size: window_size,
            }),
            FocusedWindow::Windows { hwnd } => app@ == (FocusedAppView::Windows { hwnd }),
            FocusedWindow::Linux => app@ is Linux,
        },
        window_focus::opt_app(Some(app)) == Some(app@),
        window_focus::opt_app(None) is None,
{
}

/// What is asked of the platform is said in full.
pub proof fn requests_say_what_they_hold(request: RestoreRequest, restore: Restore)
    ensures
        match request {
            RestoreRequest::RunScript { script } => request@ == (RestoreRequestView::RunScript {
                script: script@,
            }),
            RestoreRequest::SetForegroundWindow { hwnd } => request@ == (
            RestoreRequestView::SetForegroundWindow { hwnd }),
            RestoreRequest::NotSupported => request@ is NotSupported,
        },
        match restore {
            Restore::Nothing => restore@ is Nothing,
            Restore::Wait => restore@ is Wait,
            Restore::Ask { request } => restore@ == (RestoreView::Ask { request: request@ }),
        },
{
}

} // verus!
