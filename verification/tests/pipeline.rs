use handy::bindings::ShortcutKind;
use handy::effects::{Effect, TrayIconState, UnloadReason};
use handy::pipeline::{Directive, Pipeline};
use handy::transcription_coordinator::Command;
use handy::window_focus::{
    capture_focused_app, clear_captured_app, restore_focused_app_keep, CaptureReply, FocusedApp,
    Restore, RestoreRequest,
};

const MS: u64 = 1_000_000;

const PLAIN: &str = "transcribe";
const PROCESSED: &str = "transcribe_with_post_process";

fn input(id: &str, is_pressed: bool, push_to_talk: bool) -> Command {
    Command::Input { binding_id: id.to_string(), is_pressed, push_to_talk }
}

fn handle(p: &mut Pipeline, command: Command, now: u64) -> Directive {
    assert!(!p.overflows(&command, now));
    p.handle(command, now)
}

/// A directive in words.
fn told(directive: &Directive) -> String {
    match directive {
        Directive::Ignore => "ignore".to_string(),
        Directive::RunAction { action, is_pressed } => format!("run {action:?} {is_pressed}"),
        Directive::StartSegment { binding_id, is_first, .. } => {
            format!("start {binding_id} {is_first}")
        }
        Directive::StopSegment { binding_id, post_process, segment_seq, .. } => {
            format!("stop {binding_id} {post_process} {segment_seq}")
        }
        Directive::EndSession { effects, .. } => format!("end {effects:?}"),
    }
}

/// Presses and lets the recording begin.
fn start(p: &mut Pipeline, id: &str, push_to_talk: bool, now: u64) -> String {
    let directive = handle(p, input(id, true, push_to_talk), now);
    if let Directive::StartSegment { binding_id, .. } = &directive {
        assert!(p.can_start(binding_id));
        p.segment_started(binding_id, true);
    }
    told(&directive)
}

fn finished(session: u64) -> Command {
    Command::SegmentFinished { session }
}

fn cleanup(reason: UnloadReason) -> Vec<Effect> {
    vec![
        Effect::ClearCapturedApp,
        Effect::UnregisterCancelShortcut,
        Effect::HideRecordingOverlay,
        Effect::ChangeTrayIcon(TrayIconState::Idle),
        Effect::CloseStreamIfOnDemand,
        Effect::MaybeUnloadModel(reason),
    ]
}

#[test]
fn toggle_mode_starts_and_stops_by_presses() {
    let mut p = Pipeline::new();
    assert_eq!(start(&mut p, PLAIN, false, 0), "start transcribe true");
    let release = handle(&mut p, input(PLAIN, false, false), 10 * MS);
    assert_eq!(told(&release), "ignore");
    let press = handle(&mut p, input(PLAIN, true, false), 500 * MS);
    assert_eq!(told(&press), "stop transcribe false 0");
}

#[test]
fn push_to_talk_stops_by_the_release() {
    let mut p = Pipeline::new();
    assert_eq!(start(&mut p, PROCESSED, true, 0), "start transcribe_with_post_process true");
    let press = handle(&mut p, input(PROCESSED, true, true), 100 * MS);
    assert_eq!(told(&press), "ignore");
    let release = handle(&mut p, input(PROCESSED, false, true), 101 * MS);
    assert_eq!(told(&release), "stop transcribe_with_post_process true 0");
}

#[test]
fn presses_are_debounced_for_thirty_milliseconds() {
    let mut p = Pipeline::new();
    assert_eq!(start(&mut p, PLAIN, false, 7 * MS), "start transcribe true");
    let early = handle(&mut p, input(PLAIN, true, false), 37 * MS - 1);
    assert_eq!(told(&early), "ignore");
    let in_time = handle(&mut p, input(PLAIN, true, false), 37 * MS);
    assert_eq!(told(&in_time), "stop transcribe false 0");
}

#[test]
fn a_debounced_press_does_not_restart_the_clock() {
    let mut p = Pipeline::new();
    start(&mut p, PLAIN, false, 0);
    assert_eq!(told(&handle(&mut p, input(PLAIN, true, false), 20 * MS)), "ignore");
    let press = handle(&mut p, input(PLAIN, true, false), 30 * MS);
    assert_eq!(told(&press), "stop transcribe false 0");
}

#[test]
fn releases_pass_within_the_debounce_time() {
    let mut p = Pipeline::new();
    start(&mut p, PLAIN, true, 0);
    let release = handle(&mut p, input(PLAIN, false, true), 1);
    assert_eq!(told(&release), "stop transcribe false 0");
}

#[test]
fn presses_of_all_bindings_share_the_debounce_clock() {
    let mut p = Pipeline::new();
    let test = handle(&mut p, input("test", true, false), 0);
    assert_eq!(told(&test), format!("run {:?} true", ShortcutKind::Test));
    assert_eq!(told(&handle(&mut p, input(PLAIN, true, false), 29 * MS)), "ignore");
    assert_eq!(start(&mut p, PLAIN, false, 30 * MS), "start transcribe true");
}

#[test]
fn other_bindings_run_their_action_or_nothing() {
    let mut p = Pipeline::new();
    assert_eq!(told(&handle(&mut p, input("cancel", true, false), 0)), "run Cancel true");
    assert_eq!(told(&handle(&mut p, input("cancel", false, false), 0)), "run Cancel false");
    assert_eq!(told(&handle(&mut p, input("test", false, true), 0)), "run Test false");
    assert_eq!(told(&handle(&mut p, input("unknown", true, false), 100 * MS)), "ignore");
}

#[test]
fn a_recording_that_does_not_begin_leaves_no_session() {
    let mut p = Pipeline::new();
    assert_eq!(told(&handle(&mut p, input(PLAIN, true, false), 0)), "start transcribe true");
    p.segment_started(PLAIN, false);
    assert_eq!(told(&handle(&mut p, Command::Cancel, 0)), "ignore");
    assert_eq!(start(&mut p, PROCESSED, false, 50 * MS), "start transcribe_with_post_process true");
}

#[test]
fn the_user_can_keep_talking() {
    let mut p = Pipeline::new();
    start(&mut p, PLAIN, true, 0);
    let first = handle(&mut p, input(PLAIN, false, true), 10 * MS);
    assert_eq!(told(&first), "stop transcribe false 0");
    assert_eq!(start(&mut p, PLAIN, true, 40 * MS), "start transcribe false");
    let second = handle(&mut p, input(PLAIN, false, true), 50 * MS);
    assert_eq!(told(&second), "stop transcribe false 1");
    assert_eq!(start(&mut p, PLAIN, true, 80 * MS), "start transcribe false");
    let third = handle(&mut p, input(PLAIN, false, true), 90 * MS);
    assert_eq!(told(&third), "stop transcribe false 2");
}

#[test]
fn a_session_ignores_the_other_transcribe_binding() {
    let mut p = Pipeline::new();
    start(&mut p, PLAIN, false, 0);
    assert_eq!(told(&handle(&mut p, input(PROCESSED, true, false), 50 * MS)), "ignore");
    assert_eq!(told(&handle(&mut p, input(PROCESSED, false, true), 60 * MS)), "ignore");
    assert_eq!(told(&handle(&mut p, input(PLAIN, true, false), 100 * MS)), "stop transcribe false 0");
    assert!(!p.can_start(PROCESSED));
    assert!(p.can_start(PLAIN));
    assert!(!p.can_start("cancel"));
    assert_eq!(told(&handle(&mut p, input(PROCESSED, true, false), 150 * MS)), "ignore");
}

#[test]
fn a_session_ends_with_its_last_segment() {
    let mut p = Pipeline::new();
    start(&mut p, PLAIN, true, 0);
    handle(&mut p, input(PLAIN, false, true), 0);
    start(&mut p, PLAIN, true, 40 * MS);
    handle(&mut p, input(PLAIN, false, true), 40 * MS);
    assert_eq!(told(&handle(&mut p, finished(0), 0)), "ignore");
    let end = handle(&mut p, finished(0), 0);
    let effects = cleanup(UnloadReason::SessionComplete);
    assert_eq!(told(&end), format!("end {effects:?}"));
    assert_eq!(start(&mut p, PROCESSED, true, 80 * MS), "start transcribe_with_post_process true");
    let stop = handle(&mut p, input(PROCESSED, false, true), 80 * MS);
    assert_eq!(told(&stop), "stop transcribe_with_post_process true 0");
}

#[test]
fn a_recording_keeps_its_session_alive() {
    let mut p = Pipeline::new();
    start(&mut p, PLAIN, true, 0);
    handle(&mut p, input(PLAIN, false, true), 0);
    start(&mut p, PLAIN, true, 40 * MS);
    assert_eq!(told(&handle(&mut p, finished(0), 0)), "ignore");
    assert_eq!(told(&handle(&mut p, finished(0), 0)), "ignore");
    let stop = handle(&mut p, input(PLAIN, false, true), 50 * MS);
    assert_eq!(told(&stop), "stop transcribe false 1");
    assert!(matches!(
        handle(&mut p, finished(0), 0),
        Directive::EndSession { .. }
    ));
}

#[test]
fn cancelling_while_recording_throws_the_recording_away() {
    let mut p = Pipeline::new();
    start(&mut p, PLAIN, false, 0);
    let mut effects = vec![Effect::SignalCancel, Effect::CancelRecording];
    effects.extend(cleanup(UnloadReason::Cancellation));
    assert_eq!(told(&handle(&mut p, Command::Cancel, 0)), format!("end {effects:?}"));
    assert_eq!(told(&handle(&mut p, Command::Cancel, 0)), "ignore");
}

#[test]
fn cancelling_while_transcribing_signals_and_cleans_up() {
    let mut p = Pipeline::new();
    start(&mut p, PLAIN, true, 0);
    handle(&mut p, input(PLAIN, false, true), 0);
    let mut effects = vec![Effect::SignalCancel];
    effects.extend(cleanup(UnloadReason::Cancellation));
    assert_eq!(told(&handle(&mut p, Command::Cancel, 0)), format!("end {effects:?}"));
    assert_eq!(told(&handle(&mut p, finished(0), 0)), "ignore");
}

#[test]
fn a_late_report_of_a_cancelled_session_leaves_the_next_one_alone() {
    let mut p = Pipeline::new();
    start(&mut p, PLAIN, false, 0);
    let stop = handle(&mut p, input(PLAIN, true, false), 100 * MS);
    assert!(matches!(stop, Directive::StopSegment { session: 0, segment_seq: 0, .. }));
    let cancel = handle(&mut p, Command::Cancel, 200 * MS);
    assert!(matches!(cancel, Directive::EndSession { session: 0, .. }));
    start(&mut p, PLAIN, false, 300 * MS);
    let stop = handle(&mut p, input(PLAIN, true, false), 400 * MS);
    assert!(matches!(stop, Directive::StopSegment { session: 1, segment_seq: 0, .. }));
    assert_eq!(told(&handle(&mut p, finished(0), 450 * MS)), "ignore");
    assert_eq!(start(&mut p, PLAIN, false, 500 * MS), "start transcribe false");
    let stop = handle(&mut p, input(PLAIN, true, false), 600 * MS);
    assert!(matches!(stop, Directive::StopSegment { session: 1, segment_seq: 1, .. }));
    assert_eq!(told(&handle(&mut p, finished(1), 0)), "ignore");
    assert_eq!(told(&handle(&mut p, finished(0), 0)), "ignore");
    assert!(matches!(
        handle(&mut p, finished(1), 0),
        Directive::EndSession { session: 1, .. }
    ));
}

#[test]
fn sessions_are_numbered_one_after_the_other() {
    let mut p = Pipeline::new();
    for number in 0..3u64 {
        let press = handle(&mut p, input(PLAIN, true, true), number * 100 * MS);
        match press {
            Directive::StartSegment { session, is_first, .. } => {
                assert_eq!(session, number);
                assert!(is_first);
            }
            _ => panic!("expected a start"),
        }
        p.segment_started(PLAIN, true);
        handle(&mut p, Command::Cancel, 0);
    }
}

#[test]
fn a_start_that_failed_uses_no_number() {
    let mut p = Pipeline::new();
    handle(&mut p, input(PLAIN, true, true), 0);
    p.segment_started(PLAIN, false);
    assert!(matches!(
        handle(&mut p, input(PLAIN, true, true), 50 * MS),
        Directive::StartSegment { session: 0, is_first: true, .. }
    ));
}

#[test]
fn the_desktop_follows_a_whole_session() {
    let mut p = Pipeline::new();
    let mut seen: Vec<Effect> = Vec::new();
    start(&mut p, PLAIN, true, 0);
    seen.extend(handy::actions::start_segment(true, true).1);
    handle(&mut p, input(PLAIN, false, true), 0);
    seen.extend(handy::actions::stop_segment(false, 0, 0).0);
    start(&mut p, PLAIN, true, 40 * MS);
    seen.extend(handy::actions::start_segment(false, true).1);
    handle(&mut p, input(PLAIN, false, true), 40 * MS);
    seen.extend(handy::actions::stop_segment(false, 0, 1).0);
    handle(&mut p, finished(0), 0);
    if let Directive::EndSession { effects, .. } = handle(&mut p, finished(0), 0) {
        seen.extend(effects);
    }
    let count = |wanted: Effect| seen.iter().filter(|e| **e == wanted).count();
    assert_eq!(count(Effect::RegisterCancelShortcut), 1);
    assert_eq!(count(Effect::UnregisterCancelShortcut), 1);
    assert_eq!(count(Effect::CaptureFocusedApp), 1);
    assert_eq!(count(Effect::ClearCapturedApp), 1);
    let icons: Vec<TrayIconState> = seen
        .iter()
        .filter_map(|e| match e {
            Effect::ChangeTrayIcon(state) => Some(*state),
            _ => None,
        })
        .collect();
    assert_eq!(
        icons,
        vec![
            TrayIconState::Recording,
            TrayIconState::Transcribing,
            TrayIconState::Recording,
            TrayIconState::Transcribing,
            TrayIconState::Idle,
        ]
    );
}

#[test]
fn each_session_brings_back_its_own_window() {
    let mut p = Pipeline::new();
    let mut slots: Vec<Option<FocusedApp>> = Vec::new();
    for hwnd in [11isize, 22] {
        let now = hwnd as u64 * 100 * MS;
        start(&mut p, PLAIN, true, now);
        let mut slot = None;
        let effects = handy::actions::start_segment(true, true).1;
        assert!(effects.contains(&Effect::CaptureFocusedApp));
        capture_focused_app(&mut slot, CaptureReply::ForegroundWindow { hwnd });
        slots.push(slot);
        handle(&mut p, input(PLAIN, false, true), now);
        if hwnd == 11 {
            match handle(&mut p, Command::Cancel, now) {
                Directive::EndSession { session, effects } => {
                    assert!(effects.contains(&Effect::ClearCapturedApp));
                    clear_captured_app(&mut slots[session as usize]);
                }
                _ => panic!("expected the end"),
            }
        }
    }
    assert_eq!(told(&handle(&mut p, finished(0), 0)), "ignore");
    assert_eq!(restore_focused_app_keep(&slots[0], false), Restore::Nothing);
    assert_eq!(
        restore_focused_app_keep(&slots[1], false),
        Restore::Ask { request: RestoreRequest::SetForegroundWindow { hwnd: 22 } }
    );
}
