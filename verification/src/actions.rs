//! Starting and stopping the recording of a segment.
use crate::effects::{Effect, TrayIconState};
use crate::segment_task::{SegmentTask, TaskStageView};
use vstd::prelude::*;

verus! {

/// What follows the start of a recording, in order. Only the first segment of
/// a session captures the focused window, loads the model, plays the start
/// sound and registers the cancel shortcut.
pub open spec fn start_effects(is_first_segment: bool) -> Seq<Effect> {
    if is_first_segment {
        seq![
            Effect::CaptureFocusedApp,
            Effect::InitiateModelLoad,
            Effect::ChangeTrayIcon(TrayIconState::Recording),
            Effect::ShowRecordingOverlay,
            Effect::PlayStartSoundThenMute,
            Effect::RegisterCancelShortcut,
        ]
    } else {
        seq![
            Effect::ChangeTrayIcon(TrayIconState::Recording),
            Effect::ShowRecordingOverlay,
            Effect::ApplyMute,
        ]
    }
}

/// What stops a recording, in order: the sound is unmuted before the stop
/// sound is played, so that it can be heard.
pub open spec fn stop_effects() -> Seq<Effect> {
    seq![
        Effect::RemoveMute,
        Effect::PlayStopSound,
        Effect::StopRecordingKeepStream,
        Effect::ChangeTrayIcon(TrayIconState::Transcribing),
        Effect::ShowTranscribingOverlay,
    ]
}

/// Start recording a segment. Says `true` if recording actually started, and
/// what is left to do then.
///
/// The recording itself is attempted first, for minimum latency; its outcome
/// comes in as `recording_started`.
///
/// When `is_first_segment` is `true`, captures the focused window, initiates
/// model loading, plays the start sound, and registers the cancel shortcut.
/// Continuation segments skip these one-time actions. Whether the captured
/// window is brought back before a paste is decided when the paste is due.
pub fn start_segment(is_first_segment: bool, recording_started: bool) -> (started: (
    bool,
    Vec<Effect>,
))
    ensures
        started.0 == recording_started,
        started.1@ == if recording_started {
            start_effects(is_first_segment)
        } else {
            seq![]
        },
        recording_started && is_first_segment ==> started.1@.contains(Effect::CaptureFocusedApp),
{
    let mut effects: Vec<Effect> = Vec::new();
    if !recording_started {
        assert(effects@ =~= seq![]);
        return (false, effects);
    }
    if is_first_segment {
        effects.push(Effect::CaptureFocusedApp);
        effects.push(Effect::InitiateModelLoad);
    }
    effects.push(Effect::ChangeTrayIcon(TrayIconState::Recording));
    effects.push(Effect::ShowRecordingOverlay);
    if is_first_segment {
        effects.push(Effect::PlayStartSoundThenMute);
        effects.push(Effect::RegisterCancelShortcut);
    } else {
        effects.push(Effect::ApplyMute);
    }
    assert(effects@ =~= start_effects(is_first_segment));
    assert(is_first_segment ==> effects@[0] == Effect::CaptureFocusedApp);
    (true, effects)
}

/// Stop recording a segment and set its transcription going.
///
/// The samples are taken at once, so that the microphone is immediately free
/// for a new recording; the task that comes back takes care of the rest. It
/// belongs to the session of the number that is given.
pub fn stop_segment(post_process: bool, session: u64, segment_seq: u64) -> (stopped: (
    Vec<Effect>,
    SegmentTask,
))
    ensures
        stopped.0@ == stop_effects(),
        stopped.1.stage_view() == TaskStageView::TakeSamples,
        stopped.1.post_process() == post_process,
        stopped.1.session_number() == session,
        stopped.1.seq() == segment_seq,
{
    let mut effects: Vec<Effect> = Vec::new();
    effects.push(Effect::RemoveMute);
    effects.push(Effect::PlayStopSound);
    effects.push(Effect::StopRecordingKeepStream);
    effects.push(Effect::ChangeTrayIcon(TrayIconState::Transcribing));
    effects.push(Effect::ShowTranscribingOverlay);
    assert(effects@ =~= stop_effects());
    (effects, SegmentTask::new(post_process, session, segment_seq))
}

} // verus!
