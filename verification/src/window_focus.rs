//! Capture and restore the frontmost application window.
//!
//! When a transcription shortcut is pressed, the application **and the specific
//! window** in the foreground are recorded. Before the result is pasted that
//! exact window can be brought back, so that the text lands in the correct
//! place, even if the user switched applications or windows meanwhile.
use crate::decimal;
use crate::text;
use vstd::prelude::*;
use vstd::slice::slice_subrange;
use vstd::string::StringExecFns;

verus! {

/// The window that was focused at capture time, as its platform names it.
#[derive(Debug, Clone, PartialEq, Eq)]
pub enum FocusedWindow {
    MacOs {
        pid: i32,
        /// Window title at capture time (used as primary match key).
        window_title: Option<String>,
        /// Window position (x, y) at capture time (disambiguation).
        window_pos: Option<(i32, i32)>,
        /// Window size (w, h) at capture time (disambiguation).
        window_size: Option<(i32, i32)>,
    },
    Windows { hwnd: isize },
    Linux,
}

/// Handle representing the window that was focused at capture time.
#[derive(Debug, Clone, PartialEq, Eq)]
pub struct FocusedApp {
    pub window: FocusedWindow,
}

/// What a [`FocusedApp`] says.
pub enum FocusedAppView {
    MacOs {
        pid: i32,
        title: Option<Seq<char>>,
        pos: Option<(i32, i32)>,
        size: Option<(i32, i32)>,
    },
    Windows { hwnd: isize },
    Linux,
}

impl View for FocusedApp {
    type V = FocusedAppView;

    open spec fn view(&self) -> FocusedAppView {
        match self.window {
            FocusedWindow::MacOs { pid, window_title, window_pos, window_size } => {
                FocusedAppView::MacOs {
                    pid,
                    title: text::opt_view(window_title),
                    pos: window_pos,
                    size: window_size,
                }
            },
            FocusedWindow::Windows { hwnd } => FocusedAppView::Windows { hwnd },
            FocusedWindow::Linux => FocusedAppView::Linux,
        }
    }
}

pub open spec fn opt_app(app: Option<FocusedApp>) -> Option<FocusedAppView> {
    match app {
        Some(app) => Some(app@),
        None => None,
    }
}

// Capturing

/// Asks macOS, in a single call, for the process of the frontmost application
/// and for the title, position and size of its focused window. The answer has
/// the form `PID|title|x,y|w,h`, where the title may hold bars of its own; where
/// the window cannot be told, the process still comes, before three bars.
pub const CAPTURE_SCRIPT: &'static str =
    "
tell application \"System Events\"
    set frontProc to first process whose frontmost is true
    set appPID to unix id of frontProc
    try
        set focusedWin to value of attribute \"AXFocusedWindow\" of frontProc
        set winTitle to value of attribute \"AXTitle\" of focusedWin
        set winPos to value of attribute \"AXPosition\" of focusedWin
        set winSize to value of attribute \"AXSize\" of focusedWin
        return (appPID as text) & \"|\" & winTitle & \"|\" & (item 1 of winPos as text) & \",\" & (item 2 of winPos as text) & \"|\" & (item 1 of winSize as text) & \",\" & (item 2 of winSize as text)
    on error
        return (appPID as text) & \"|||\"
    end try
end tell
";

/// What asking the platform for the focused window came to.
pub enum CaptureReply {
    /// macOS: the script could not be run.
    ScriptNotRun,
    /// macOS: the script ended, and wrote this.
    ScriptEnded { success: bool, stdout: Vec<u8> },
    /// Windows: the foreground window, zero if there is none.
    ForegroundWindow { hwnd: isize },
    /// Linux: on Wayland in particular, the focused window cannot be told
    /// without compositor-specific protocols.
    NotSupported,
}

/// What `String::from_utf8_lossy` makes of bytes.
pub uninterp spec fn lossy_text(bytes: Seq<u8>) -> Seq<char>;

/// `String::from_utf8_lossy`: bytes that are valid UTF-8 become the text that
/// they encode; what becomes of others depends on the bytes alone.
#[verifier::external_body]
fn text_from_utf8(bytes: &[u8]) -> (s: String)
    ensures
        s@ == lossy_text(bytes@),
        vstd::utf8::valid_utf8(bytes@) ==> s@ == vstd::utf8::decode_utf8(bytes@),
{
    String::from_utf8_lossy(bytes).into_owned()
}

/// Two numbers with exactly one comma between them.
pub open spec fn pair(s: Seq<char>) -> Option<(i32, i32)> {
    let (first, rest) = (text::before(s, ','), text::behind(s, ','));
    if !s.contains(',') || rest.contains(',') {
        None
    } else {
        match (
            decimal::parsed_i32(text::trimmed(first)),
            decimal::parsed_i32(text::trimmed(rest)),
        ) {
            (Some(a), Some(b)) => Some((a, b)),
            _ => None,
        }
    }
}

/// The fields of a report of the form `PID|title|x,y|w,h`, as many as there are.
pub open spec fn fields(report: Seq<char>) -> Seq<Seq<char>> {
    if report.contains('|') {
        seq![text::before(report, '|')] + window_fields(text::behind(report, '|'))
    } else {
        seq![report]
    }
}

/// The fields of a report behind the process. Size and position hold no bars,
/// so they stand behind the last two; the title is all that is left, bars of its
/// own and all.
pub open spec fn window_fields(rest: Seq<char>) -> Seq<Seq<char>> {
    let (front, last) = (text::before_last(rest, '|'), text::behind_last(rest, '|'));
    if !rest.contains('|') {
        seq![rest]
    } else if !front.contains('|') {
        seq![front, last]
    } else {
        seq![text::before_last(front, '|'), text::behind_last(front, '|'), last]
    }
}

/// The title that a field names, without the whitespace around it.
pub open spec fn title_in(field: Seq<char>) -> Option<Seq<char>> {
    if text::trimmed(field).len() > 0 {
        Some(text::trimmed(field))
    } else {
        None
    }
}

/// The window that a report of the form `PID|title|x,y|w,h` describes. The
/// process must be there; what else is missing or malformed is left out.
pub open spec fn described(report: Seq<char>) -> Option<FocusedAppView> {
    let parts = fields(text::trimmed(report));
    match decimal::parsed_i32(parts[0]) {
        Some(pid) => Some(
            FocusedAppView::MacOs {
                pid,
                title: if parts.len() > 1 {
                    title_in(parts[1])
                } else {
                    None
                },
                pos: if parts.len() > 2 {
                    pair(parts[2])
                } else {
                    None
                },
                size: if parts.len() > 3 {
                    pair(parts[3])
                } else {
                    None
                },
            },
        ),
        None => None,
    }
}

/// The window that a platform's reply names.
pub open spec fn captured(reply: CaptureReply) -> Option<FocusedAppView> {
    match reply {
        CaptureReply::ScriptNotRun => None,
        CaptureReply::ScriptEnded { success, stdout } => if success {
            described(lossy_text(stdout@))
        } else {
            None
        },
        CaptureReply::ForegroundWindow { hwnd } => if hwnd == 0 {
            None
        } else {
            Some(FocusedAppView::Windows { hwnd })
        },
        CaptureReply::NotSupported => None,
    }
}

fn parse_pair(s: &[char]) -> (numbers: Option<(i32, i32)>)
    ensures
        numbers == pair(s@),
{
    let i: usize = text::find(s, ',');
    if i == s.len() {
        return None;
    }
    let first = slice_subrange(s, 0, i);
    let rest = slice_subrange(s, i + 1, s.len());
    proof {
        text::lemma_before_behind(s@, ',');
        assert(first@ =~= text::before(s@, ','));
        assert(rest@ =~= text::behind(s@, ','));
        text::lemma_before_behind(rest@, ',');
    }
    if text::find(rest, ',') < rest.len() {
        return None;
    }
    match (
        decimal::parse_i32(text::trim_chars(first)),
        decimal::parse_i32(text::trim_chars(rest)),
    ) {
        (Some(a), Some(b)) => Some((a, b)),
        _ => None,
    }
}

fn parse_title(field: &[char]) -> (title: Option<String>)
    ensures
        text::opt_view(title) == title_in(field@),
{
    let title = text::trim_chars(field);
    if title.len() > 0 {
        Some(text::string_of(title))
    } else {
        None
    }
}

/// Reads a report of the form `PID|title|x,y|w,h`.
pub fn parse_report(report: &str) -> (app: Option<FocusedApp>)
    ensures
        opt_app(app) == described(report@),
{
    let chars = text::chars_of(report);
    let line = text::trim_chars(chars.as_slice());
    let first: usize = text::find(line, '|');
    proof {
        text::lemma_before_behind(line@, '|');
    }
    let process = slice_subrange(line, 0, first);
    assert(process@ =~= text::before(line@, '|'));
    assert(first == line@.len() ==> process@ =~= line@);
    let pid = match decimal::parse_i32(process) {
        Some(pid) => pid,
        None => {
            return None;
        },
    };
    let mut window_title: Option<String> = None;
    let mut window_pos: Option<(i32, i32)> = None;
    let mut window_size: Option<(i32, i32)> = None;
    if first < line.len() {
        let rest = slice_subrange(line, first + 1, line.len());
        assert(rest@ =~= text::behind(line@, '|'));
        let last: usize = text::find_last(rest, '|');
        if last == 0 {
            window_title = parse_title(rest);
        } else {
            let front = slice_subrange(rest, 0, last - 1);
            let behind = slice_subrange(rest, last, rest.len());
            assert(front@ =~= text::before_last(rest@, '|'));
            assert(behind@ =~= text::behind_last(rest@, '|'));
            let middle: usize = text::find_last(front, '|');
            if middle == 0 {
                window_title = parse_title(front);
                window_pos = parse_pair(behind);
            } else {
                let title = slice_subrange(front, 0, middle - 1);
                let pos = slice_subrange(front, middle, front.len());
                assert(title@ =~= text::before_last(front@, '|'));
                assert(pos@ =~= text::behind_last(front@, '|'));
                window_title = parse_title(title);
                window_pos = parse_pair(pos);
                window_size = parse_pair(behind);
            }
        }
    }
    Some(
        FocusedApp { window: FocusedWindow::MacOs { pid, window_title, window_pos, window_size } },
    )
}

/// Reads off a platform's reply which window has the focus.
pub fn platform_capture(reply: CaptureReply) -> (app: Option<FocusedApp>)
    ensures
        opt_app(app) == captured(reply),
        reply matches CaptureReply::ScriptEnded { success: true, stdout } ==> (
        vstd::utf8::valid_utf8(stdout@) ==> opt_app(app) == described(
            vstd::utf8::decode_utf8(stdout@),
        )),
{
    match reply {
        CaptureReply::ScriptNotRun => None,
        CaptureReply::ScriptEnded { success, stdout } => {
            if success {
                parse_report(text_from_utf8(stdout.as_slice()).as_str())
            } else {
                None
            }
        },
        CaptureReply::ForegroundWindow { hwnd } => {
            if hwnd == 0 {
                None
            } else {
                Some(FocusedApp { window: FocusedWindow::Windows { hwnd } })
            }
        },
        CaptureReply::NotSupported => None,
    }
}

// Restoring

/// How long a window manager is given to complete a switch.
pub const SETTLE_MILLIS: u64 = 50;

/// Where a window whose position is not known is looked for.
pub const NO_POSITION: i32 = -99999;

/// The size of a window whose size is not known.
pub const NO_SIZE: i32 = -1;

pub const SELECT_PROCESS: &'static str =
    "
tell application \"System Events\"
    set targetProc to first process whose unix id is ";

pub const MATCH_EXACTLY: &'static str =
    "
    set frontmost of targetProc to true
    set matched to false

    -- Try to match by title + position + size (most precise)
    repeat with w in windows of targetProc
        try
            set wTitle to name of w
            set wPos to position of w
            set wSize to size of w
            if wTitle = \"";

pub const AND_X: &'static str = "\" and (item 1 of wPos) = ";

pub const AND_Y: &'static str = " and (item 2 of wPos) = ";

pub const AND_W: &'static str = " and (item 1 of wSize) = ";

pub const AND_H: &'static str = " and (item 2 of wSize) = ";

pub const MATCH_BY_TITLE: &'static str =
    " then
                perform action \"AXRaise\" of w
                set matched to true
                exit repeat
            end if
        end try
    end repeat

    -- Fallback: match by title only (window may have moved)
    if not matched then
        repeat with w in windows of targetProc
            try
                if name of w = \"";

pub const RAISE_MATCH: &'static str =
    "\" then
                    perform action \"AXRaise\" of w
                    set matched to true
                    exit repeat
                end if
            end try
        end repeat
    end if
end tell
";

pub const ACTIVATE_PROCESS: &'static str =
    "tell application \"System Events\" to set frontmost of first process whose unix id is ";

pub const TO_FRONT: &'static str = " to true";

/// A text as it is written inside the quotes of a script: a backslash goes
/// before every backslash and every quote.
pub open spec fn escaped(s: Seq<char>) -> Seq<char>
    decreases s.len(),
{
    if s.len() == 0 {
        s
    } else if s.last() == '\\' || s.last() == '"' {
        escaped(s.drop_last()).push('\\').push(s.last())
    } else {
        escaped(s.drop_last()).push(s.last())
    }
}

/// The script that brings a window back: the exact window by title, position
/// and size, else one of the same title, else the process alone.
pub open spec fn restore_script(
    pid: i32,
    title: Option<Seq<char>>,
    pos: Option<(i32, i32)>,
    size: Option<(i32, i32)>,
) -> Seq<char> {
    let (x, y) = match pos {
        Some(pos) => pos,
        None => (NO_POSITION, NO_POSITION),
    };
    let (w, h) = match size {
        Some(size) => size,
        None => (NO_SIZE, NO_SIZE),
    };
    match title {
        Some(title) => SELECT_PROCESS@ + decimal::decimal(pid as int) + MATCH_EXACTLY@ + escaped(
            title,
        ) + AND_X@ + decimal::decimal(x as int) + AND_Y@ + decimal::decimal(y as int) + AND_W@
            + decimal::decimal(w as int) + AND_H@ + decimal::decimal(h as int) + MATCH_BY_TITLE@
            + escaped(title) + RAISE_MATCH@,
        None => ACTIVATE_PROCESS@ + decimal::decimal(pid as int) + TO_FRONT@,
    }
}

/// What the platform is asked to do to bring a window back.
#[derive(Debug, PartialEq, Eq)]
pub enum RestoreRequest {
    /// macOS: run this script.
    RunScript { script: String },
    /// Windows: bring this window to the foreground.
    SetForegroundWindow { hwnd: isize },
    /// Linux: there is no way to.
    NotSupported,
}

/// What a [`RestoreRequest`] says.
pub enum RestoreRequestView {
    RunScript { script: Seq<char> },
    SetForegroundWindow { hwnd: isize },
    NotSupported,
}

impl View for RestoreRequest {
    type V = RestoreRequestView;

    open spec fn view(&self) -> RestoreRequestView {
        match self {
            RestoreRequest::RunScript { script } => RestoreRequestView::RunScript {
                script: script@,
            },
            RestoreRequest::SetForegroundWindow { hwnd } => {
                RestoreRequestView::SetForegroundWindow { hwnd: *hwnd }
            },
            RestoreRequest::NotSupported => RestoreRequestView::NotSupported,
        }
    }
}

/// What brings a captured window back.
pub open spec fn restore_request(app: FocusedAppView) -> RestoreRequestView {
    match app {
        FocusedAppView::MacOs { pid, title, pos, size } => RestoreRequestView::RunScript {
            script: restore_script(pid, title, pos, size),
        },
        FocusedAppView::Windows { hwnd } => RestoreRequestView::SetForegroundWindow { hwnd },
        FocusedAppView::Linux => RestoreRequestView::NotSupported,
    }
}

/// What brings back the window that was captured, if one was.
pub open spec fn opt_restore(app: Option<FocusedAppView>) -> Option<RestoreRequestView> {
    match app {
        Some(app) => Some(restore_request(app)),
        None => None,
    }
}

fn escape(s: &str) -> (t: String)
    ensures
        t@ == escaped(s@),
{
    let chars = text::chars_of(s);
    let mut t = String::new();
    let mut i: usize = 0;
    while i < chars.len()
        invariant
            i <= chars@.len(),
            t@ == escaped(chars@.take(i as int)),
        decreases chars.len() - i,
    {
        let c = chars[i];
        if c == '\\' || c == '"' {
            t.push('\\');
        }
        t.push(c);
        i = i + 1;
        assert(chars@.take(i as int).drop_last() =~= chars@.take(i - 1));
    }
    assert(chars@.take(i as int) =~= chars@);
    t
}

/// Says what the platform has to do to bring a captured window back.
pub fn platform_restore(app: &FocusedApp) -> (request: RestoreRequest)
    ensures
        request@ == restore_request(app@),
{
    let (pid, window_title, window_pos, window_size) = match &app.window {
        FocusedWindow::MacOs { pid, window_title, window_pos, window_size } => {
            (*pid, window_title, *window_pos, *window_size)
        },
        FocusedWindow::Windows { hwnd } => {
            return RestoreRequest::SetForegroundWindow { hwnd: *hwnd };
        },
        FocusedWindow::Linux => {
            return RestoreRequest::NotSupported;
        },
    };
    let (x, y) = match window_pos {
        Some(pos) => pos,
        None => (NO_POSITION, NO_POSITION),
    };
    let (w, h) = match window_size {
        Some(size) => size,
        None => (NO_SIZE, NO_SIZE),
    };
    let mut script = String::new();
    match window_title {
        Some(title) => {
            let title = escape(title.as_str());
            script.append(SELECT_PROCESS);
            decimal::push_i32(&mut script, pid);
            script.append(MATCH_EXACTLY);
            script.append(title.as_str());
            script.append(AND_X);
            decimal::push_i32(&mut script, x);
            script.append(AND_Y);
            decimal::push_i32(&mut script, y);
            script.append(AND_W);
            decimal::push_i32(&mut script, w);
            script.append(AND_H);
            decimal::push_i32(&mut script, h);
            script.append(MATCH_BY_TITLE);
            script.append(title.as_str());
            script.append(RAISE_MATCH);
        },
        None => {
            script.append(ACTIVATE_PROCESS);
            decimal::push_i32(&mut script, pid);
            script.append(TO_FRONT);
        },
    }
    RestoreRequest::RunScript { script }
}

/// How an attempt to bring a window back ended.
#[derive(Debug, Clone, Copy, PartialEq, Eq, Structural)]
pub enum RestoreReply {
    Succeeded,
    Failed,
    NotSupported,
}

/// Says whether focus was successfully restored, and for how many milliseconds
/// the window manager is to be given time; without a reply there was nothing
/// to restore.
pub fn restore_outcome(reply: Option<RestoreReply>) -> (outcome: (bool, u64))
    ensures
        outcome == if reply == Some(RestoreReply::Succeeded) {
            (true, SETTLE_MILLIS)
        } else {
            (false, 0)
        },
{
    match reply {
        Some(RestoreReply::Succeeded) => (true, SETTLE_MILLIS),
        _ => (false, 0),
    }
}

// The captured window

/// Snapshot the currently focused application and its active window, as the
/// platform replied. Where it named none, an earlier snapshot goes as well.
pub fn capture_focused_app(slot: &mut Option<FocusedApp>, reply: CaptureReply)
    ensures
        opt_app(*final(slot)) == captured(reply),
        reply matches CaptureReply::ScriptEnded { success: true, stdout } ==> (
        vstd::utf8::valid_utf8(stdout@) ==> opt_app(*final(slot)) == described(
            vstd::utf8::decode_utf8(stdout@),
        )),
{
    *slot = platform_capture(reply);
}

/// What is to be done about a captured window that is wanted back.
#[derive(Debug, PartialEq, Eq)]
pub enum Restore {
    /// Nothing was captured, or it is not wanted back.
    Nothing,
    /// The user is dragging something: no window is activated before the mouse
    /// button is released.
    Wait,
    /// The platform is to be asked.
    Ask { request: RestoreRequest },
}

/// What a [`Restore`] says.
pub enum RestoreView {
    Nothing,
    Wait,
    Ask { request: RestoreRequestView },
}

impl View for Restore {
    type V = RestoreView;

    open spec fn view(&self) -> RestoreView {
        match self {
            Restore::Nothing => RestoreView::Nothing,
            Restore::Wait => RestoreView::Wait,
            Restore::Ask { request } => RestoreView::Ask { request: request@ },
        }
    }
}

/// What is to be done about a captured window, with a mouse button held or not.
pub open spec fn restoring(app: Option<FocusedAppView>, button_held: bool) -> RestoreView {
    match opt_restore(app) {
        Some(request) => if button_held {
            RestoreView::Wait
        } else {
            RestoreView::Ask { request }
        },
        None => RestoreView::Nothing,
    }
}

/// Re-activate the previously captured window and clear the snapshot: says
/// what has to be done. While a mouse button is held, the snapshot stays, and
/// nothing is activated.
pub fn restore_focused_app(slot: &mut Option<FocusedApp>, button_held: bool) -> (restore: Restore)
    ensures
        restore@ == restoring(opt_app(*old(slot)), button_held),
        *final(slot) == if button_held {
            *old(slot)
        } else {
            None
        },
        button_held ==> restore !is Ask,
{
    let restore = restore_focused_app_keep(slot, button_held);
    if !button_held {
        *slot = None;
    }
    restore
}

/// Re-activate the previously captured window and keep the snapshot for the
/// segments that follow. While a mouse button is held, nothing is activated.
pub fn restore_focused_app_keep(slot: &Option<FocusedApp>, button_held: bool) -> (restore: Restore)
    ensures
        restore@ == restoring(opt_app(*slot), button_held),
        button_held ==> restore !is Ask,
{
    match slot {
        Some(app) => if button_held {
            Restore::Wait
        } else {
            Restore::Ask { request: platform_restore(app) }
        },
        None => Restore::Nothing,
    }
}

/// Discard any stored snapshot without restoring focus (e.g. on cancel).
pub fn clear_captured_app(slot: &mut Option<FocusedApp>)
    ensures
        *final(slot) is None,
{
    *slot = None;
}

} // verus!
