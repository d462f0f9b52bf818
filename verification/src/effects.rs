//! What the pipeline does to the world around it.
use vstd::prelude::*;

verus! {

/// The states that the tray icon shows.
#[derive(Clone, Copy, Debug, PartialEq, Eq, Structural)]
pub enum TrayIconState {
    Idle,
    Recording,
    Transcribing,
}

/// Why the model may be dropped from memory.
#[derive(Clone, Copy, Debug, PartialEq, Eq, Structural)]
pub enum UnloadReason {
    Cancellation,
    SessionComplete,
}

/// What the library asks its host to do to the world, one step each.
#[derive(Clone, Copy, Debug, PartialEq, Eq, Structural)]
pub enum Effect {
    /// Remember the window that has the focus, for the session that begins.
    CaptureFocusedApp,
    /// Forget the window that the session remembered.
    ClearCapturedApp,
    /// Start to load the model in the background.
    InitiateModelLoad,
    /// Let the model go, if it is set up to be unloaded at once.
    MaybeUnloadModel(UnloadReason),
    ChangeTrayIcon(TrayIconState),
    ShowRecordingOverlay,
    ShowTranscribingOverlay,
    HideRecordingOverlay,
    /// In the background: play the start sound to its end, then mute.
    PlayStartSoundThenMute,
    /// In the background: mute.
    ApplyMute,
    RemoveMute,
    PlayStopSound,
    /// Take the samples of the segment and leave the microphone open.
    StopRecordingKeepStream,
    /// Throw the running recording away.
    CancelRecording,
    /// Close the microphone, if it is opened on demand.
    CloseStreamIfOnDemand,
    RegisterCancelShortcut,
    UnregisterCancelShortcut,
    /// Tell the segments of the session that are still in flight to stop.
    SignalCancel,
    /// Tell the coordinator that the user cancelled.
    NotifyCancel,
}

} // verus!
