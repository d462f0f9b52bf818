//! What holds of the coordinator over whole runs of commands.
use crate::actions;
use crate::bindings::{self, ShortcutKind};
use crate::effects::{Effect, TrayIconState};
use crate::pipeline::{self, DirectiveView, PipelineView, StageView};
use crate::transcription_coordinator::CommandView;
use crate::utils;
use vstd::prelude::*;

verus! {

/// A command, when it came, and what its host found out on the way: whether a
/// recording that it asked for began.
pub struct Step {
    pub command: CommandView,
    pub now: nat,
    pub started: bool,
}

impl PipelineView {
    /// The state after a command was dealt with to the end.
    pub open spec fn step(self, step: Step) -> PipelineView {
        match self.directive(step.command, step.now) {
            DirectiveView::StartSegment { binding_id, .. } => self.after(
                step.command,
                step.now,
            ).after_start(binding_id, step.started),
            _ => self.after(step.command, step.now),
        }
    }

    /// What a command does to the world.
    pub open spec fn effects(self, step: Step) -> Seq<Effect> {
        match self.directive(step.command, step.now) {
            DirectiveView::StartSegment { is_first, .. } => if step.started {
                actions::start_effects(is_first)
            } else {
                seq![]
            },
            DirectiveView::StopSegment { .. } => actions::stop_effects(),
            DirectiveView::EndSession { effects, .. } => effects,
            DirectiveView::RunAction { action: ShortcutKind::Cancel, is_pressed } => if is_pressed {
                utils::cancel_operation_effects(true)
            } else {
                seq![]
            },
            _ => seq![],
        }
    }

    /// Whether a command begins a session.
    pub open spec fn begins(self, step: Step) -> bool {
        self.stage is Idle && self.step(step).stage is Active
    }
}

/// The state after a run of commands.
pub open spec fn run(steps: Seq<Step>) -> PipelineView
    decreases steps.len(),
{
    if steps.len() == 0 {
        PipelineView::initial()
    } else {
        run(steps.drop_last()).step(steps.last())
    }
}

/// What a run of commands does to the world.
pub open spec fn run_effects(steps: Seq<Step>) -> Seq<Effect>
    decreases steps.len(),
{
    if steps.len() == 0 {
        seq![]
    } else {
        run_effects(steps.drop_last()) + run(steps.drop_last()).effects(steps.last())
    }
}

/// Whether something is on, that one effect turns on and another one off.
pub open spec fn on(effects: Seq<Effect>, turn_on: Effect, turn_off: Effect) -> bool
    decreases effects.len(),
{
    if effects.len() == 0 {
        false
    } else if effects.last() == turn_on {
        true
    } else if effects.last() == turn_off {
        false
    } else {
        on(effects.drop_last(), turn_on, turn_off)
    }
}

/// What the tray icon shows.
pub open spec fn tray(effects: Seq<Effect>) -> TrayIconState
    decreases effects.len(),
{
    if effects.len() == 0 {
        TrayIconState::Idle
    } else {
        match effects.last() {
            Effect::ChangeTrayIcon(state) => state,
            _ => tray(effects.drop_last()),
        }
    }
}

/// What a session's stage should look like from the tray.
pub open spec fn tray_of(stage: StageView) -> TrayIconState {
    match stage {
        StageView::Idle => TrayIconState::Idle,
        StageView::Active { recording, .. } => if recording is Some {
            TrayIconState::Recording
        } else {
            TrayIconState::Transcribing
        },
    }
}

/// The sequence numbers that the current session has handed out.
pub open spec fn issued(steps: Seq<Step>) -> Seq<nat>
    decreases steps.len(),
{
    if steps.len() == 0 {
        seq![]
    } else {
        let before = run(steps.drop_last());
        match before.directive(steps.last().command, steps.last().now) {
            DirectiveView::StopSegment { segment_seq, .. } => issued(steps.drop_last()).push(
                segment_seq,
            ),
            DirectiveView::EndSession { .. } => seq![],
            _ => if before.begins(steps.last()) {
                seq![]
            } else {
                issued(steps.drop_last())
            },
        }
    }
}

/// When presses were accepted.
pub open spec fn accepted_presses(steps: Seq<Step>) -> Seq<nat>
    decreases steps.len(),
{
    if steps.len() == 0 {
        seq![]
    } else {
        let step = steps.last();
        let earlier = accepted_presses(steps.drop_last());
        if (step.command matches CommandView::Input { is_pressed, .. } && is_pressed) && !run(
            steps.drop_last(),
        ).debounces(step.now) {
            earlier.push(step.now)
        } else {
            earlier
        }
    }
}

/// Every state that the coordinator reaches is well-formed: a session belongs
/// to one binding, counts its segments, and never lingers with nothing to do.
pub proof fn reachable_states_are_well_formed(steps: Seq<Step>)
    ensures
        run(steps).wf(),
    decreases steps.len(),
{
    if steps.len() > 0 {
        reachable_states_are_well_formed(steps.drop_last());
    }
}

/// One event never both starts and stops a segment.
pub proof fn starting_and_stopping_exclude_each_other(
    p: PipelineView,
    id: Seq<char>,
    is_pressed: bool,
    push_to_talk: bool,
)
    ensures
        !(p.starts(id) && p.stops(id, is_pressed, push_to_talk)),
{
}

/// The last effect that matters decides.
proof fn on_by_last(a: Seq<Effect>, b: Seq<Effect>, at: int, turn_on: Effect, turn_off: Effect)
    requires
        0 <= at < b.len(),
        b[at] == turn_on || b[at] == turn_off,
        forall|j: int| at < j < b.len() ==> b[j] != turn_on && b[j] != turn_off,
    ensures
        on(a + b, turn_on, turn_off) == (b[at] == turn_on),
    decreases b.len(),
{
    assert((a + b).last() == b.last());
    if at < b.len() - 1 {
        assert((a + b).drop_last() =~= a + b.drop_last());
        on_by_last(a, b.drop_last(), at, turn_on, turn_off);
    }
}

/// Effects that do not matter change nothing.
proof fn on_unchanged(a: Seq<Effect>, b: Seq<Effect>, turn_on: Effect, turn_off: Effect)
    requires
        forall|j: int| 0 <= j < b.len() ==> b[j] != turn_on && b[j] != turn_off,
    ensures
        on(a + b, turn_on, turn_off) == on(a, turn_on, turn_off),
    decreases b.len(),
{
    if b.len() == 0 {
        assert(a + b =~= a);
    } else {
        assert((a + b).last() == b.last());
        assert((a + b).drop_last() =~= a + b.drop_last());
        on_unchanged(a, b.drop_last(), turn_on, turn_off);
    }
}

/// The last icon stays.
proof fn tray_by_last(a: Seq<Effect>, b: Seq<Effect>, at: int, state: TrayIconState)
    requires
        0 <= at < b.len(),
        b[at] == Effect::ChangeTrayIcon(state),
        forall|j: int| at < j < b.len() ==> b[j] !is ChangeTrayIcon,
    ensures
        tray(a + b) == state,
    decreases b.len(),
{
    assert((a + b).last() == b.last());
    if at < b.len() - 1 {
        assert((a + b).drop_last() =~= a + b.drop_last());
        tray_by_last(a, b.drop_last(), at, state);
    }
}

proof fn tray_unchanged(a: Seq<Effect>, b: Seq<Effect>)
    requires
        forall|j: int| 0 <= j < b.len() ==> b[j] !is ChangeTrayIcon,
    ensures
        tray(a + b) == tray(a),
    decreases b.len(),
{
    if b.len() == 0 {
        assert(a + b =~= a);
    } else {
        assert((a + b).last() == b.last());
        assert((a + b).drop_last() =~= a + b.drop_last());
        tray_unchanged(a, b.drop_last());
    }
}

/// Where a session ends, the tray icon goes idle, the cancel shortcut and the
/// captured window go.
proof fn ending_effects(a: Seq<Effect>, p: PipelineView, step: Step)
    requires
        p.directive(step.command, step.now) is EndSession,
    ensures
        tray(a + p.effects(step)) == TrayIconState::Idle,
        !on(
            a + p.effects(step),
            Effect::RegisterCancelShortcut,
            Effect::UnregisterCancelShortcut,
        ),
        !on(a + p.effects(step), Effect::CaptureFocusedApp, Effect::ClearCapturedApp),
{
    let b = p.effects(step);
    let n = b.len() as int;
    assert(b[n - 6] == Effect::ClearCapturedApp);
    assert(b[n - 5] == Effect::UnregisterCancelShortcut);
    assert(b[n - 3] == Effect::ChangeTrayIcon(TrayIconState::Idle));
    tray_by_last(a, b, n - 3, TrayIconState::Idle);
    on_by_last(
        a,
        b,
        n - 5,
        Effect::RegisterCancelShortcut,
        Effect::UnregisterCancelShortcut,
    );
    on_by_last(a, b, n - 6, Effect::CaptureFocusedApp, Effect::ClearCapturedApp);
}

/// Where a segment starts, the tray icon shows it; the first one of a session
/// registers the cancel shortcut and captures the window.
proof fn starting_effects(a: Seq<Effect>, is_first: bool)
    ensures
        tray(a + actions::start_effects(is_first)) == TrayIconState::Recording,
        on(
            a + actions::start_effects(is_first),
            Effect::RegisterCancelShortcut,
            Effect::UnregisterCancelShortcut,
        ) == (is_first || on(
            a,
            Effect::RegisterCancelShortcut,
            Effect::UnregisterCancelShortcut,
        )),
        on(
            a + actions::start_effects(is_first),
            Effect::CaptureFocusedApp,
            Effect::ClearCapturedApp,
        ) == (is_first || on(a, Effect::CaptureFocusedApp, Effect::ClearCapturedApp)),
{
    let b = actions::start_effects(is_first);
    if is_first {
        tray_by_last(a, b, 2, TrayIconState::Recording);
        on_by_last(a, b, 5, Effect::RegisterCancelShortcut, Effect::UnregisterCancelShortcut);
        on_by_last(a, b, 0, Effect::CaptureFocusedApp, Effect::ClearCapturedApp);
    } else {
        tray_by_last(a, b, 0, TrayIconState::Recording);
        on_unchanged(a, b, Effect::RegisterCancelShortcut, Effect::UnregisterCancelShortcut);
        on_unchanged(a, b, Effect::CaptureFocusedApp, Effect::ClearCapturedApp);
    }
}

/// Where a segment stops, the tray icon shows that it is being transcribed.
proof fn stopping_effects(a: Seq<Effect>)
    ensures
        tray(a + actions::stop_effects()) == TrayIconState::Transcribing,
        on(
            a + actions::stop_effects(),
            Effect::RegisterCancelShortcut,
            Effect::UnregisterCancelShortcut,
        ) == on(a, Effect::RegisterCancelShortcut, Effect::UnregisterCancelShortcut),
        on(a + actions::stop_effects(), Effect::CaptureFocusedApp, Effect::ClearCapturedApp) == on(
            a,
            Effect::CaptureFocusedApp,
            Effect::ClearCapturedApp,
        ),
{
    let b = actions::stop_effects();
    tray_by_last(a, b, 3, TrayIconState::Transcribing);
    on_unchanged(a, b, Effect::RegisterCancelShortcut, Effect::UnregisterCancelShortcut);
    on_unchanged(a, b, Effect::CaptureFocusedApp, Effect::ClearCapturedApp);
}

/// What the desktop shows of a session is true at all times: the cancel
/// shortcut is registered, and the window that was captured when the session
/// began is kept, exactly while the session runs, and the tray icon tells
/// recording, transcribing and idle apart.
pub proof fn desktop_follows_the_session(steps: Seq<Step>)
    ensures
        on(
            run_effects(steps),
            Effect::RegisterCancelShortcut,
            Effect::UnregisterCancelShortcut,
        ) == (run(steps).stage is Active),
        on(run_effects(steps), Effect::CaptureFocusedApp, Effect::ClearCapturedApp) == (run(
            steps,
        ).stage is Active),
        tray(run_effects(steps)) == tray_of(run(steps).stage),
    decreases steps.len(),
{
    if steps.len() > 0 {
        let earlier = steps.drop_last();
        let p = run(earlier);
        let step = steps.last();
        let a = run_effects(earlier);
        let b = p.effects(step);
        desktop_follows_the_session(earlier);
        match p.directive(step.command, step.now) {
            DirectiveView::StartSegment { is_first, .. } => {
                if step.started {
                    starting_effects(a, is_first);
                } else {
                    assert(a + b =~= a);
                }
            },
            DirectiveView::StopSegment { .. } => {
                stopping_effects(a);
            },
            DirectiveView::EndSession { .. } => {
                ending_effects(a, p, step);
            },
            _ => {
                tray_unchanged(a, b);
                on_unchanged(
                    a,
                    b,
                    Effect::RegisterCancelShortcut,
                    Effect::UnregisterCancelShortcut,
                );
                on_unchanged(a, b, Effect::CaptureFocusedApp, Effect::ClearCapturedApp);
            },
        }
    }
}

/// The segments of a session are numbered from zero, in the order in which
/// their recordings stopped.
pub proof fn segments_are_numbered_in_recording_order(steps: Seq<Step>)
    requires
        run(steps).stage is Active,
    ensures
        issued(steps) == Seq::new(run(steps).stage->segments, |i: int| i as nat),
    decreases steps.len(),
{
    let earlier = steps.drop_last();
    let p = run(earlier);
    let step = steps.last();
    if p.stage is Active {
        segments_are_numbered_in_recording_order(earlier);
    }
    assert(issued(steps) =~= Seq::new(run(steps).stage->segments, |i: int| i as nat));
}

/// Two accepted presses are never closer together than the debounce time.
pub proof fn accepted_presses_keep_their_distance(steps: Seq<Step>)
    ensures
        forall|i: int, j: int|
            0 <= i < j < accepted_presses(steps).len() ==> #[trigger] accepted_presses(steps)[j]
                >= #[trigger] accepted_presses(steps)[i] + 30_000_000,
        run(steps).last_press == if accepted_presses(steps).len() == 0 {
            None
        } else {
            Some(accepted_presses(steps).last())
        },
    decreases steps.len(),
{
    if steps.len() > 0 {
        accepted_presses_keep_their_distance(steps.drop_last());
    }
}

/// Whether a press is no key repeat: thirty milliseconds or more have passed
/// since the last press that was accepted, if there was one.
pub open spec fn late(p: PipelineView, now: nat) -> bool {
    p.last_press matches Some(t) ==> t + 30_000_000 <= now
}

/// A press that comes within thirty milliseconds of the last accepted one changes
/// nothing, whatever its binding.
pub proof fn early_press_changes_nothing(
    p: PipelineView,
    binding_id: Seq<char>,
    push_to_talk: bool,
    now: nat,
)
    requires
        !late(p, now),
    ensures
        ({
            let press = CommandView::Input { binding_id, is_pressed: true, push_to_talk };
            p.directive(press, now) is Ignore && p.after(press, now) == p
        }),
{
}

/// Every other press is accepted, and the next one is measured against it; a
/// release never is.
pub proof fn accepted_press_sets_the_clock(
    p: PipelineView,
    binding_id: Seq<char>,
    is_pressed: bool,
    push_to_talk: bool,
    now: nat,
)
    requires
        is_pressed ==> late(p, now),
    ensures
        ({
            let after = p.after(CommandView::Input { binding_id, is_pressed, push_to_talk }, now);
            after.sessions == p.sessions && after.last_press == if is_pressed {
                Some(now)
            } else {
                p.last_press
            }
        }),
{
}

/// A release is never held back.
pub proof fn release_is_not_debounced(
    p: PipelineView,
    binding_id: Seq<char>,
    push_to_talk: bool,
    now: nat,
)
    ensures
        ({
            let release = CommandView::Input { binding_id, is_pressed: false, push_to_talk };
            p.directive(release, now) == (PipelineView { last_press: None, ..p }).directive(
                release,
                now,
            ) && p.after(release, now).last_press == p.last_press
        }),
{
}

/// Between sessions, a press of a transcribe binding in either mode asks for the
/// first segment of a session with the next number. If its recording begins, the
/// session belongs to that binding and has nothing in flight; if not, there is
/// none.
pub proof fn first_press_begins_a_session(
    p: PipelineView,
    id: Seq<char>,
    push_to_talk: bool,
    now: nat,
)
    requires
        p.stage is Idle,
        id == "transcribe"@ || id == "transcribe_with_post_process"@,
        late(p, now),
    ensures
        ({
            let press = CommandView::Input { binding_id: id, is_pressed: true, push_to_talk };
            let asked = p.after(press, now);
            &&& p.directive(press, now) == (DirectiveView::StartSegment {
                session: p.sessions,
                binding_id: id,
                is_first: true,
            })
            &&& asked.stage is Idle
            &&& asked.after_start(id, false) == asked
            &&& asked.after_start(id, true) == (PipelineView {
                stage: StageView::Active {
                    session: p.sessions,
                    recording: Some(id),
                    pending: 0,
                    binding: id,
                    segments: 0,
                },
                last_press: Some(now),
                sessions: p.sessions + 1,
            })
        }),
{
    bindings::four_bindings_mean_something(id);
}

/// While earlier segments are still being transcribed, however many, a press
/// starts the next segment at once, and they stay in flight.
pub proof fn user_can_keep_talking(p: PipelineView, push_to_talk: bool, now: nat)
    requires
        p.stage is Active,
        p.stage->recording is None,
        p.stage->binding == "transcribe"@ || p.stage->binding == "transcribe_with_post_process"@,
        late(p, now),
    ensures
        ({
            let id = p.stage->binding;
            let press = CommandView::Input { binding_id: id, is_pressed: true, push_to_talk };
            let asked = p.after(press, now);
            &&& p.directive(press, now) == (DirectiveView::StartSegment {
                session: p.stage->session,
                binding_id: id,
                is_first: false,
            })
            &&& asked.stage == p.stage
            &&& asked.after_start(id, false) == asked
            &&& asked.after_start(id, true) == (PipelineView {
                stage: StageView::Active {
                    session: p.stage->session,
                    recording: Some(id),
                    pending: p.stage->pending,
                    binding: id,
                    segments: p.stage->segments,
                },
                last_press: Some(now),
                sessions: p.sessions,
            })
        }),
{
    bindings::four_bindings_mean_something(p.stage->binding);
}

/// Whoever was told to start a segment can report that it began, as long as
/// there are numbers for sessions.
pub proof fn asked_for_segment_can_start(
    p: PipelineView,
    id: Seq<char>,
    push_to_talk: bool,
    now: nat,
)
    requires
        p.sessions < u64::MAX,
        p.directive(
            CommandView::Input { binding_id: id, is_pressed: true, push_to_talk },
            now,
        ) is StartSegment,
    ensures
        p.after(
            CommandView::Input { binding_id: id, is_pressed: true, push_to_talk },
            now,
        ).can_start(id),
{
}

/// Segments can be counted up to the limits of the machine.
pub proof fn segments_can_be_counted(p: PipelineView)
    requires
        p.stage is Active ==> p.stage->pending < 4_294_967_295 && p.stage->segments
            < 18_446_744_073_709_551_615,
    ensures
        p.has_room(),
{
}

/// While a session runs, the other transcribe binding can neither start nor
/// stop anything.
pub proof fn session_ignores_other_bindings(
    p: PipelineView,
    binding_id: Seq<char>,
    is_pressed: bool,
    push_to_talk: bool,
    now: nat,
)
    requires
        p.stage is Active,
        p.stage->recording matches Some(id) ==> id == p.stage->binding,
        bindings::transcribes(binding_id),
        binding_id != p.stage->binding,
    ensures
        ({
            let input = CommandView::Input { binding_id, is_pressed, push_to_talk };
            p.directive(input, now) is Ignore && p.after(input, now).stage == p.stage
        }),
{
}

/// A binding outside of the pipeline runs its action on presses and releases, or
/// nothing, and leaves every session alone.
pub proof fn other_bindings_run_their_action(
    p: PipelineView,
    id: Seq<char>,
    is_pressed: bool,
    push_to_talk: bool,
    now: nat,
)
    requires
        id != "transcribe"@,
        id != "transcribe_with_post_process"@,
        is_pressed ==> late(p, now),
    ensures
        ({
            let input = CommandView::Input { binding_id: id, is_pressed, push_to_talk };
            &&& p.after(input, now).stage == p.stage
            &&& id == "cancel"@ ==> p.directive(input, now) == (DirectiveView::RunAction {
                action: ShortcutKind::Cancel,
                is_pressed,
            })
            &&& id == "test"@ ==> p.directive(input, now) == (DirectiveView::RunAction {
                action: ShortcutKind::Test,
                is_pressed,
            })
            &&& id != "cancel"@ && id != "test"@ ==> p.directive(input, now) is Ignore
        }),
{
    bindings::four_bindings_mean_something(id);
}

/// A segment that is being recorded stops by the second press in toggle mode, and
/// by the release in push-to-talk mode, however many are in flight; the event
/// that is meant for the other mode leaves it running. It is post-processed where
/// the session's binding says so.
pub proof fn segment_stops_by_its_mode(p: PipelineView, push_to_talk: bool, now: nat)
    requires
        p.stage is Active,
        p.stage->recording == Some(p.stage->binding),
        p.stage->binding == "transcribe"@ || p.stage->binding == "transcribe_with_post_process"@,
    ensures
        ({
            let id = p.stage->binding;
            let stop = CommandView::Input {
                binding_id: id,
                is_pressed: !push_to_talk,
                push_to_talk,
            };
            let other = CommandView::Input {
                binding_id: id,
                is_pressed: push_to_talk,
                push_to_talk,
            };
            &&& push_to_talk || late(p, now) ==> {
                &&& p.directive(stop, now) == (DirectiveView::StopSegment {
                    session: p.stage->session,
                    binding_id: id,
                    post_process: id == "transcribe_with_post_process"@,
                    segment_seq: p.stage->segments,
                })
                &&& p.after(stop, now).stage == (StageView::Active {
                    session: p.stage->session,
                    recording: None,
                    pending: p.stage->pending + 1,
                    binding: id,
                    segments: p.stage->segments + 1,
                })
            }
            &&& p.directive(other, now) is Ignore
            &&& p.after(other, now).stage == p.stage
        }),
{
    bindings::four_bindings_mean_something(p.stage->binding);
}

/// A release does nothing where nothing is being recorded.
pub proof fn release_without_recording_does_nothing(
    p: PipelineView,
    id: Seq<char>,
    push_to_talk: bool,
    now: nat,
)
    requires
        bindings::transcribes(id),
        p.stage is Active ==> p.stage->recording is None,
    ensures
        ({
            let release = CommandView::Input { binding_id: id, is_pressed: false, push_to_talk };
            p.directive(release, now) is Ignore && p.after(release, now) == p
        }),
{
}

/// Between sessions there is nothing to cancel, and no report matters.
pub proof fn nothing_ends_between_sessions(p: PipelineView, session: nat, now: nat)
    requires
        p.stage is Idle,
    ensures
        p.directive(CommandView::Cancel, now) is Ignore,
        p.after(CommandView::Cancel, now) == p,
        p.directive(CommandView::SegmentFinished { session }, now) is Ignore,
        p.after(CommandView::SegmentFinished { session }, now) == p,
{
}

/// A report of the session's own takes one segment off those in flight. Where it
/// was the last of them and nothing is being recorded, the session is complete.
pub proof fn own_report_is_counted(p: PipelineView, now: nat)
    requires
        p.stage is Active,
        p.stage->pending > 0,
    ensures
        ({
            let report = CommandView::SegmentFinished { session: p.stage->session };
            let after = p.after(report, now);
            &&& after.last_press == p.last_press && after.sessions == p.sessions
            &&& if p.stage->recording is None && p.stage->pending == 1 {
                &&& p.directive(report, now) == (DirectiveView::EndSession {
                    session: p.stage->session,
                    effects: pipeline::complete_effects(),
                })
                &&& after.stage is Idle
            } else {
                &&& p.directive(report, now) is Ignore
                &&& after.stage == (StageView::Active {
                    session: p.stage->session,
                    recording: p.stage->recording,
                    pending: (p.stage->pending - 1) as nat,
                    binding: p.stage->binding,
                    segments: p.stage->segments,
                })
            }
        }),
{
}

/// Cancelling ends a session whatever it is doing: the segments in flight are
/// told, a recording is thrown away, and whatever they still report is ignored.
pub proof fn cancel_ends_the_session(p: PipelineView, now: nat, later: nat, session: nat)
    requires
        p.stage is Active,
    ensures
        p.directive(CommandView::Cancel, now) == (DirectiveView::EndSession {
            session: p.stage->session,
            effects: pipeline::cancel_effects(p.stage->recording is Some),
        }),
        pipeline::cancel_effects(p.stage->recording is Some)[0] == Effect::SignalCancel,
        pipeline::cancel_effects(p.stage->recording is Some).contains(Effect::CancelRecording) == (
        p.stage->recording is Some),
        p.after(CommandView::Cancel, now) == (PipelineView { stage: StageView::Idle, ..p }),
        ({
            let idle = p.after(CommandView::Cancel, now);
            let report = CommandView::SegmentFinished { session };
            idle.directive(report, later) is Ignore && idle.after(report, later) == idle
        }),
{
    let effects = pipeline::cancel_effects(p.stage->recording is Some);
    if p.stage->recording is Some {
        assert(effects[1] == Effect::CancelRecording);
    }
}

/// A session hears only of its own segments: the report of a segment of another
/// session, however late it comes, changes nothing.
pub proof fn report_of_another_session_changes_nothing(p: PipelineView, session: nat, now: nat)
    requires
        p.stage is Active,
        session != p.stage->session,
    ensures
        p.directive(CommandView::SegmentFinished { session }, now) is Ignore,
        p.after(CommandView::SegmentFinished { session }, now) == p,
{
}

/// Every session gets a number that none before it had, and keeps it.
pub proof fn sessions_have_their_own_numbers(steps: Seq<Step>, step: Step)
    ensures
        ({
            let before = run(steps);
            let after = run(steps.push(step));
            &&& before.begins(step) ==> after.stage->session == before.sessions && after.sessions
                == before.sessions + 1
            &&& !before.begins(step) ==> after.sessions == before.sessions
            &&& before.stage is Active ==> before.stage->session < before.sessions
            &&& before.stage is Active && after.stage is Active ==> after.stage->session
                == before.stage->session
        }),
{
    assert(steps.push(step).drop_last() =~= steps);
    reachable_states_are_well_formed(steps);
}

/// The state after a number of segments of a session reported that they
/// finished.
pub open spec fn after_finished(p: PipelineView, session: nat, segments: nat) -> PipelineView
    decreases segments,
{
    if segments == 0 {
        p
    } else {
        after_finished(p, session, (segments - 1) as nat).after(
            CommandView::SegmentFinished { session },
            0,
        )
    }
}

/// A session that does not record any more ends when as many of its segments
/// have reported as are pending, and not before.
pub proof fn session_ends_with_its_last_segment(p: PipelineView, reports: nat)
    requires
        p.wf(),
        p.stage is Active,
        p.stage->recording is None,
        reports <= p.stage->pending,
    ensures
        after_finished(p, p.stage->session, reports).stage == if reports == p.stage->pending {
            StageView::Idle
        } else {
            StageView::Active {
                session: p.stage->session,
                recording: None,
                pending: (p.stage->pending - reports) as nat,
                binding: p.stage->binding,
                segments: p.stage->segments,
            }
        },
    decreases reports,
{
    if reports > 0 {
        session_ends_with_its_last_segment(p, (reports - 1) as nat);
    }
}

/// A session does not end while it records, whatever segments report.
pub proof fn recording_keeps_the_session(p: PipelineView, session: nat, now: nat)
    requires
        p.wf(),
        p.stage is Active,
        p.stage->recording is Some,
    ensures
        p.directive(CommandView::SegmentFinished { session }, now) is Ignore,
        p.after(CommandView::SegmentFinished { session }, now).stage is Active,
        p.after(CommandView::SegmentFinished { session }, now).stage->recording
            == p.stage->recording,
        p.stage->pending == 0 ==> p.after(CommandView::SegmentFinished { session }, now) == p,
{
}

/// The first segment of a session does what a session does once; continuation
/// segments skip it.
pub proof fn continuation_skips_one_time_actions()
    ensures
        ({
            let first = actions::start_effects(true);
            let next = actions::start_effects(false);
            &&& first.contains(Effect::CaptureFocusedApp)
            &&& first.contains(Effect::InitiateModelLoad)
            &&& first.contains(Effect::PlayStartSoundThenMute)
            &&& first.contains(Effect::RegisterCancelShortcut)
            &&& !next.contains(Effect::CaptureFocusedApp)
            &&& !next.contains(Effect::InitiateModelLoad)
            &&& !next.contains(Effect::PlayStartSoundThenMute)
            &&& !next.contains(Effect::RegisterCancelShortcut)
        }),
{
    let first = actions::start_effects(true);
    assert(first[0] == Effect::CaptureFocusedApp);
    assert(first[1] == Effect::InitiateModelLoad);
    assert(first[4] == Effect::PlayStartSoundThenMute);
    assert(first[5] == Effect::RegisterCancelShortcut);
}

} // verus!
