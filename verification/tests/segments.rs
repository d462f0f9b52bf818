use handy::json::Reading;
use handy::paste_queue::PasteQueue;
use handy::post_process::{PostProcess, Reply};
use handy::segment_task::{
    finalize, restore_before_paste, Draft, Findings, HistoryEntry, PasteJob, SegmentTask,
    TaskEvent, TaskStage,
};
use handy::settings::{AppSettings, LlmPrompt, PostProcessProvider, StringTable};
use handy::window_focus::{FocusedApp, FocusedWindow, Restore, RestoreRequest};

fn settings(language: &str, provider: bool) -> AppSettings {
    let mut models = StringTable::new();
    models.insert("cloud".to_string(), "m".to_string());
    AppSettings {
        selected_language: language.to_string(),
        restore_focus_before_paste: true,
        active_post_process_provider: if provider {
            Some(PostProcessProvider {
                id: "cloud".to_string(),
                supports_structured_output: true,
            })
        } else {
            None
        },
        post_process_models: models,
        post_process_api_keys: StringTable::new(),
        post_process_selected_prompt_id: Some("p".to_string()),
        post_process_prompts: vec![LlmPrompt {
            id: "p".to_string(),
            prompt: "Fix ${output}".to_string(),
        }],
        apple_intelligence_provider_id: "apple_intelligence".to_string(),
    }
}

fn configured(language: &str, provider: bool) -> TaskEvent {
    TaskEvent::Configured { settings: settings(language, provider) }
}

fn samples(present: bool) -> TaskEvent {
    TaskEvent::SamplesTaken { present }
}

fn cancelled(cancelled: bool) -> TaskEvent {
    TaskEvent::Cancellation { cancelled }
}

fn transcribed(s: &str) -> TaskEvent {
    TaskEvent::Transcribed { transcription: Some(s.to_string()) }
}

fn replied(s: &str) -> TaskEvent {
    TaskEvent::Replied { reply: Reply::Content { content: s.to_string() } }
}

fn recording(recording: bool) -> TaskEvent {
    TaskEvent::Microphone { recording }
}

fn run(post_process: bool, events: Vec<TaskEvent>) -> SegmentTask {
    let mut task = SegmentTask::new(post_process, 2, 4);
    for event in events {
        task = task.resume(event);
    }
    assert_eq!(task.session(), 2);
    assert_eq!(task.segment_seq(), 4);
    task
}

/// Takes a turn that is left with nothing to paste.
fn assert_gives_up(task: SegmentTask) {
    assert!(matches!(task.stage(), TaskStage::AwaitTurn { paste: None }));
    let task = task.resume(TaskEvent::TurnCame);
    assert!(matches!(task.stage(), TaskStage::Advance));
    let task = task.resume(TaskEvent::Advanced);
    assert!(matches!(task.stage(), TaskStage::Finished));
}

/// What is kept and pasted, in words.
fn outcome(task: &SegmentTask) -> (String, Option<String>, Option<String>, String, bool) {
    match task.stage() {
        TaskStage::SaveHistory { entry, job } => words(entry, job),
        _ => panic!("nothing to keep"),
    }
}

fn words(
    entry: &HistoryEntry,
    job: &PasteJob,
) -> (String, Option<String>, Option<String>, String, bool) {
    (
        entry.transcription.clone(),
        entry.post_processed_text.clone(),
        entry.post_process_prompt.clone(),
        job.text.clone(),
        job.restore_focus,
    )
}

fn some(s: &str) -> Option<String> {
    Some(s.to_string())
}

#[test]
fn a_segment_without_samples_gives_up() {
    assert_gives_up(run(false, vec![samples(false)]));
}

#[test]
fn a_segment_that_is_cancelled_before_transcription_gives_up() {
    assert_gives_up(run(false, vec![samples(true), cancelled(true)]));
}

#[test]
fn a_segment_whose_transcription_fails_gives_up() {
    let failed = TaskEvent::Transcribed { transcription: None };
    assert_gives_up(run(false, vec![samples(true), cancelled(false), failed]));
}

#[test]
fn a_segment_without_words_gives_up() {
    assert_gives_up(run(true, vec![samples(true), cancelled(false), transcribed("")]));
}

#[test]
fn a_segment_that_is_cancelled_before_post_processing_gives_up() {
    assert_gives_up(run(
        true,
        vec![
            samples(true),
            cancelled(false),
            transcribed("hi"),
            configured("en", true),
            cancelled(true),
        ],
    ));
}

#[test]
fn a_plain_segment_is_kept_and_pasted() {
    let task = run(
        false,
        vec![
            samples(true),
            cancelled(false),
            transcribed("hi"),
            configured("en", true),
            cancelled(false),
        ],
    );
    assert_eq!(
        outcome(&task),
        ("hi".to_string(), None, None, "hi".to_string(), true)
    );
    let task = task.resume(TaskEvent::HistorySaved);
    match task.stage() {
        TaskStage::AwaitTurn { paste: Some(job) } => assert_eq!(job.text, "hi"),
        _ => panic!("expected to wait"),
    }
    let task = task.resume(TaskEvent::TurnCame).resume(cancelled(false));
    match task.stage() {
        TaskStage::Paste { job } => {
            assert_eq!(job.text, "hi");
            assert!(job.restore_focus);
        }
        _ => panic!("expected to paste"),
    }
    let task = task.resume(TaskEvent::TurnCame).resume(TaskEvent::Advanced).resume(cancelled(true));
    assert!(matches!(task.stage(), TaskStage::Paste { .. }));
    let task = task.resume(TaskEvent::Pasted);
    assert!(matches!(task.stage(), TaskStage::Advance));
    assert!(matches!(task.resume(TaskEvent::Advanced).stage(), TaskStage::Finished));
}

#[test]
fn a_segment_that_is_cancelled_before_its_paste_only_passes_the_turn_on() {
    let task = run(
        false,
        vec![
            samples(true),
            cancelled(false),
            transcribed("hi"),
            configured("en", false),
            cancelled(false),
            TaskEvent::HistorySaved,
            TaskEvent::TurnCame,
            cancelled(true),
        ],
    );
    assert!(matches!(task.stage(), TaskStage::Advance));
}

#[test]
fn a_converted_segment_is_kept_with_both_texts() {
    let task = run(false, vec![samples(true), cancelled(false), transcribed("開放中文轉換")]);
    let task = task.resume(configured("zh-Hans", false)).resume(cancelled(false));
    assert_eq!(
        outcome(&task),
        (
            "開放中文轉換".to_string(),
            some("开放中文转换"),
            None,
            "开放中文转换".to_string(),
            true,
        )
    );
}

#[test]
fn a_known_conversion_is_used() {
    let task = run(false, vec![samples(true), cancelled(false), transcribed("old")]);
    let findings = Findings { converted: some("new"), found: Reading::NotJson };
    let task = task.resume_with(configured("en", false), findings).resume(cancelled(false));
    assert_eq!(
        outcome(&task),
        ("old".to_string(), some("new"), None, "new".to_string(), true)
    );
}

#[test]
fn a_conversion_that_changes_nothing_is_not_kept() {
    let task = run(false, vec![samples(true), cancelled(false), transcribed("same")]);
    let findings = Findings { converted: some("same"), found: Reading::NotJson };
    let task = task.resume_with(configured("en", false), findings).resume(cancelled(false));
    assert_eq!(
        outcome(&task),
        ("same".to_string(), None, None, "same".to_string(), true)
    );
}

#[test]
fn post_processing_without_a_provider_keeps_the_text() {
    let task = run(
        true,
        vec![
            samples(true),
            cancelled(false),
            transcribed("hi"),
            configured("en", false),
            cancelled(false),
        ],
    );
    assert!(matches!(task.stage(), TaskStage::CheckMicrophone { .. }));
    let task = task.resume(recording(false));
    assert!(matches!(task.stage(), TaskStage::ShowProcessing { .. }));
    let task = task.resume(TaskEvent::ProcessingShown);
    assert_eq!(
        outcome(&task),
        ("hi".to_string(), None, None, "hi".to_string(), true)
    );
}

fn asking(is_recording: bool) -> SegmentTask {
    let task = run(
        true,
        vec![
            samples(true),
            cancelled(false),
            transcribed("helo"),
            configured("en", true),
            cancelled(false),
            recording(is_recording),
        ],
    );
    if is_recording {
        task
    } else {
        task.resume(TaskEvent::ProcessingShown)
    }
}

#[test]
fn a_recording_is_not_covered_by_the_processing_overlay() {
    assert!(matches!(asking(true).stage(), TaskStage::PostProcess { .. }));
    assert!(matches!(asking(false).stage(), TaskStage::PostProcess { .. }));
}

#[test]
fn a_post_processed_segment_is_kept_with_its_prompt() {
    let task = asking(true);
    match task.stage() {
        TaskStage::PostProcess { step: PostProcess::AskStructured { user_content, .. }, .. } => {
            assert_eq!(user_content, "helo");
        }
        _ => panic!("expected a question"),
    }
    let task = task.resume(replied(r#"{"transcription":"hello"}"#));
    assert_eq!(
        outcome(&task),
        (
            "helo".to_string(),
            some("hello"),
            some("Fix ${output}"),
            "hello".to_string(),
            true,
        )
    );
}

#[test]
fn a_known_reading_is_used() {
    let findings = Findings {
        converted: None,
        found: Reading::Text { text: "known".to_string() },
    };
    let task = asking(false).resume_with(replied("x"), findings);
    assert_eq!(outcome(&task).3, "known");
}

#[test]
fn a_failed_question_is_asked_once_more() {
    let task = asking(false).resume(TaskEvent::Replied { reply: Reply::Failed });
    match task.stage() {
        TaskStage::PostProcess { step: PostProcess::AskPlain { prompt, .. }, .. } => {
            assert_eq!(prompt, "Fix helo");
        }
        _ => panic!("expected a second question"),
    }
    let task = task.resume(TaskEvent::Replied { reply: Reply::Failed });
    assert_eq!(
        outcome(&task),
        ("helo".to_string(), None, None, "helo".to_string(), true)
    );
}

#[test]
fn an_event_that_is_not_awaited_changes_nothing() {
    let task = run(true, vec![samples(true)]);
    let task = task
        .resume(TaskEvent::TurnCame)
        .resume(TaskEvent::Pasted)
        .resume(TaskEvent::Advanced)
        .resume(transcribed("x"))
        .resume(samples(false));
    assert!(matches!(task.stage(), TaskStage::CheckBeforeTranscription));
}

#[test]
fn a_draft_becomes_an_entry_and_a_job() {
    let draft = |text: &str| Draft {
        transcription: "a".to_string(),
        text: text.to_string(),
        settings: settings("en", true),
    };
    let (entry, job) = finalize(draft("b"), some("c"));
    assert_eq!(
        words(&entry, &job),
        ("a".to_string(), some("c"), some("Fix ${output}"), "c".to_string(), true)
    );
    let (entry, job) = finalize(draft("a"), some("a"));
    assert_eq!(
        words(&entry, &job),
        ("a".to_string(), some("a"), some("Fix ${output}"), "a".to_string(), true)
    );
    let (entry, job) = finalize(draft("b"), None);
    assert_eq!(
        words(&entry, &job),
        ("a".to_string(), some("b"), None, "b".to_string(), true)
    );
    let (entry, job) = finalize(draft("a"), None);
    assert_eq!(
        words(&entry, &job),
        ("a".to_string(), None, None, "a".to_string(), true)
    );
}

#[test]
fn a_prompt_that_is_gone_is_not_named() {
    let mut s = settings("en", true);
    s.post_process_selected_prompt_id = None;
    s.restore_focus_before_paste = false;
    let draft = Draft { transcription: "a".to_string(), text: "a".to_string(), settings: s };
    let (entry, job) = finalize(draft, some("c"));
    assert_eq!(
        words(&entry, &job),
        ("a".to_string(), some("c"), None, "c".to_string(), false)
    );
}

#[test]
fn segments_paste_in_recording_order_however_fast_they_are() {
    let mut queue = PasteQueue::new();
    let mut pasted: Vec<u64> = Vec::new();
    let mut tasks: Vec<Option<SegmentTask>> = Vec::new();
    for seq in 0..4u64 {
        let mut task = SegmentTask::new(false, 0, seq);
        let events = if seq == 1 {
            vec![samples(false)]
        } else {
            vec![
                samples(true),
                cancelled(false),
                transcribed("hi"),
                configured("en", false),
                cancelled(false),
                TaskEvent::HistorySaved,
            ]
        };
        for event in events {
            task = task.resume(event);
        }
        tasks.push(Some(task));
    }
    while tasks.iter().any(|t| t.is_some()) {
        for slot in tasks.iter_mut().rev() {
            let Some(task) = slot.take() else { continue };
            let event = match task.stage() {
                TaskStage::AwaitTurn { .. } => {
                    if !queue.is_turn(task.segment_seq()) {
                        *slot = Some(task);
                        continue;
                    }
                    TaskEvent::TurnCame
                }
                TaskStage::CheckBeforePaste { .. } => cancelled(false),
                TaskStage::Paste { .. } => {
                    pasted.push(task.segment_seq());
                    TaskEvent::Pasted
                }
                TaskStage::Advance => {
                    queue.advance();
                    TaskEvent::Advanced
                }
                TaskStage::Finished => continue,
                _ => panic!("unexpected stage"),
            };
            *slot = Some(task.resume(event));
        }
    }
    assert_eq!(pasted, vec![0, 2, 3]);
    assert!(queue.is_turn(4));
}

#[test]
fn the_window_comes_back_before_a_paste_only_where_it_is_wanted() {
    let slot = Some(FocusedApp { window: FocusedWindow::Windows { hwnd: 8 } });
    let job = |restore_focus: bool| PasteJob { text: "hi".to_string(), restore_focus };
    assert_eq!(
        restore_before_paste(&job(true), &slot, false),
        Restore::Ask { request: RestoreRequest::SetForegroundWindow { hwnd: 8 } }
    );
    assert_eq!(restore_before_paste(&job(true), &slot, true), Restore::Wait);
    assert_eq!(restore_before_paste(&job(true), &None, true), Restore::Nothing);
    for held in [false, true] {
        assert_eq!(restore_before_paste(&job(false), &slot, held), Restore::Nothing);
    }
}
