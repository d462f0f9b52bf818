use handy::actions::{start_segment, stop_segment};
use handy::effects::{Effect, TrayIconState};
use handy::paste_queue::PasteQueue;
use handy::segment_task::TaskStage;
use handy::utils::cancel_current_operation;

#[test]
fn the_first_segment_captures_loads_and_registers() {
    let (started, effects) = start_segment(true, true);
    assert!(started);
    assert_eq!(
        effects,
        vec![
            Effect::CaptureFocusedApp,
            Effect::InitiateModelLoad,
            Effect::ChangeTrayIcon(TrayIconState::Recording),
            Effect::ShowRecordingOverlay,
            Effect::PlayStartSoundThenMute,
            Effect::RegisterCancelShortcut,
        ]
    );
}

#[test]
fn continuation_segments_skip_one_time_actions() {
    let (started, effects) = start_segment(false, true);
    assert!(started);
    assert_eq!(
        effects,
        vec![
            Effect::ChangeTrayIcon(TrayIconState::Recording),
            Effect::ShowRecordingOverlay,
            Effect::ApplyMute,
        ]
    );
}

#[test]
fn nothing_follows_a_recording_that_did_not_start() {
    for first in [false, true] {
        let (started, effects) = start_segment(first, false);
        assert!(!started);
        assert!(effects.is_empty());
    }
}

#[test]
fn a_stopped_segment_waits_for_its_samples() {
    let (effects, task) = stop_segment(true, 5, 7);
    assert_eq!(
        effects,
        vec![
            Effect::RemoveMute,
            Effect::PlayStopSound,
            Effect::StopRecordingKeepStream,
            Effect::ChangeTrayIcon(TrayIconState::Transcribing),
            Effect::ShowTranscribingOverlay,
        ]
    );
    assert_eq!(task.session(), 5);
    assert_eq!(task.segment_seq(), 7);
    assert!(matches!(task.stage(), TaskStage::TakeSamples));
}

#[test]
fn cancelling_stops_the_recording_and_tells_the_coordinator() {
    assert_eq!(
        cancel_current_operation(true),
        vec![Effect::CancelRecording, Effect::NotifyCancel]
    );
    assert_eq!(cancel_current_operation(false), vec![Effect::CancelRecording]);
}

#[test]
fn the_turn_goes_from_segment_to_segment() {
    let mut queue = PasteQueue::new();
    assert!(queue.is_turn(0));
    assert!(!queue.is_turn(1));
    assert!(queue.can_advance());
    queue.advance();
    assert!(!queue.is_turn(0));
    assert!(queue.is_turn(1));
    queue.advance();
    assert!(queue.is_turn(2));
}
