//! What holds of captured windows and of the way they are brought back.
use crate::decimal;
use crate::text;
use crate::text_laws;
use crate::window_focus::{
    self, CaptureReply, FocusedAppView, RestoreRequestView, RestoreView,
};
use vstd::prelude::*;

verus! {

/// The report of a window: `PID|title|x,y|w,h`.
pub open spec fn report(
    pid: i32,
    title: Seq<char>,
    pos: (i32, i32),
    size: (i32, i32),
) -> Seq<char> {
    decimal::decimal(pid as int) + seq!['|'] + (title + seq!['|'] + (numbers(pos) + seq!['|']
        + numbers(size)))
}

/// Two numbers with a comma between them.
pub open spec fn numbers(pair: (i32, i32)) -> Seq<char> {
    decimal::decimal(pair.0 as int) + seq![','] + decimal::decimal(pair.1 as int)
}

/// The report of a process whose focused window could not be told.
pub open spec fn bare_report(pid: i32) -> Seq<char> {
    decimal::decimal(pid as int) + seq!['|'] + seq!['|', '|']
}

/// Two numbers with one comma between them are read, whatever whitespace stands
/// around each; anything else is no pair.
pub proof fn pair_is_two_numbers(a: Seq<char>, b: Seq<char>)
    requires
        !a.contains(','),
    ensures
        window_focus::pair(a) is None,
        b.contains(',') ==> window_focus::pair(a + seq![','] + b) is None,
        !b.contains(',') ==> window_focus::pair(a + seq![','] + b) == match (
            decimal::parsed_i32(text::trimmed(a)),
            decimal::parsed_i32(text::trimmed(b)),
        ) {
            (Some(m), Some(n)) => Some((m, n)),
            _ => None,
        },
{
    assert forall|i: int| 0 <= i < a.len() implies a[i] != ',' by {
        assert(a.contains(a[i]));
    }
    text_laws::first_separator_parts_a_text(a, b, ',');
}

/// A report is read field by field, whatever whitespace stands around it: without
/// a process it says nothing; each of the other fields is read on its own, and one
/// that cannot be read, or is not there, is left out. Bars belong to the title,
/// unless there are too few.
pub proof fn fields_are_read_one_by_one(
    line: Seq<char>,
    p: Seq<char>,
    t: Seq<char>,
    a: Seq<char>,
    b: Seq<char>,
)
    requires
        !p.contains('|'),
        !a.contains('|'),
        !b.contains('|'),
    ensures
        text::trimmed(line) == joined(p, t, a, b) ==> window_focus::described(line) == read(
            p,
            Some(t),
            Some(a),
            Some(b),
        ),
        text::trimmed(line) == p + seq!['|'] + (t + seq!['|'] + a) && !t.contains('|')
            ==> window_focus::described(line) == read(p, Some(t), Some(a), None),
        text::trimmed(line) == p + seq!['|'] + t && !t.contains('|') ==> window_focus::described(
            line,
        ) == read(p, Some(t), None, None),
        text::trimmed(line) == p ==> window_focus::described(line) == read(p, None, None, None),
{
    assert forall|i: int| 0 <= i < p.len() implies p[i] != '|' by {
        assert(p.contains(p[i]));
    }
    assert forall|i: int| 0 <= i < a.len() implies a[i] != '|' by {
        assert(a.contains(a[i]));
    }
    assert forall|i: int| 0 <= i < b.len() implies b[i] != '|' by {
        assert(b.contains(b[i]));
    }
    joined_parts_are_split(p, t, a, b);
    assert(seq![p] + seq![t, a] =~= seq![p, t, a]);
    assert(seq![p] + seq![t] =~= seq![p, t]);
    text_laws::first_separator_parts_a_text(p, t + seq!['|'] + a, '|');
    text_laws::last_separator_parts_a_text(t, a, '|');
    text_laws::first_separator_parts_a_text(p, t, '|');
}

/// The window that the fields of a report describe, each of them read on its
/// own.
pub open spec fn read(
    p: Seq<char>,
    t: Option<Seq<char>>,
    a: Option<Seq<char>>,
    b: Option<Seq<char>>,
) -> Option<FocusedAppView> {
    match decimal::parsed_i32(p) {
        Some(pid) => Some(
            FocusedAppView::MacOs {
                pid,
                title: match t {
                    Some(t) => window_focus::title_in(t),
                    None => None,
                },
                pos: match a {
                    Some(a) => window_focus::pair(a),
                    None => None,
                },
                size: match b {
                    Some(b) => window_focus::pair(b),
                    None => None,
                },
            },
        ),
        None => None,
    }
}

/// A title is what a field holds between the whitespace around it, in full; a
/// field of whitespace names none.
pub proof fn title_is_the_whole_field(field: Seq<char>)
    ensures
        window_focus::title_in(field) is None <==> forall|i: int|
            0 <= i < field.len() ==> text::white(#[trigger] field[i]),
        window_focus::title_in(field) matches Some(title) ==> title == text::trimmed(field),
{
    text_laws::blank_text_is_trimmed_away(field);
}

/// A reply names the window that its text describes where the script succeeded,
/// the foreground window where there is one, and else none.
pub proof fn replies_name_a_window_or_none(stdout: Vec<u8>, hwnd: isize)
    ensures
        window_focus::captured(CaptureReply::ScriptNotRun) is None,
        window_focus::captured(CaptureReply::NotSupported) is None,
        window_focus::captured((CaptureReply::ScriptEnded { success: false, stdout })) is None,
        window_focus::captured((CaptureReply::ScriptEnded { success: true, stdout }))
            == window_focus::described(window_focus::lossy_text(stdout@)),
        window_focus::captured((CaptureReply::ForegroundWindow { hwnd })) == if hwnd == 0 {
            None
        } else {
            Some(FocusedAppView::Windows { hwnd })
        },
{
}

/// A number is written in digits, after a minus sign at most.
proof fn decimal_characters(n: int)
    ensures
        decimal::decimal(n).len() > 0,
        forall|i: int|
            0 <= i < decimal::decimal(n).len() ==> {
                let c = #[trigger] decimal::decimal(n)[i];
                decimal::digit(c) || c == '-'
            },
{
    let magnitude = if n < 0 {
        (-n) as nat
    } else {
        n as nat
    };
    decimal::digits_stand_for_number(magnitude);
    let digits = decimal::digits_of(magnitude);
    assert forall|i: int| 0 <= i < decimal::decimal(n).len() implies {
        let c = #[trigger] decimal::decimal(n)[i];
        decimal::digit(c) || c == '-'
    } by {
        if n < 0 {
            if i > 0 {
                assert(decimal::decimal(n)[i] == digits[i - 1]);
            }
        } else {
            assert(decimal::decimal(n)[i] == digits[i]);
        }
    }
}

/// A text that neither begins nor ends with whitespace is its own trimming,
/// also where a line break follows it.
proof fn trimmed_as_it_is(s: Seq<char>)
    requires
        s.len() > 0,
        !text::white(s.first()),
        !text::white(s.last()),
    ensures
        text::trimmed(s) == s,
        text::trimmed(s.push('\n')) == s,
{
    let t = s.push('\n');
    assert(text::trimmed_start(s) == s);
    assert(text::trimmed_end(s) == s);
    assert(t.first() == s.first());
    assert(text::trimmed_start(t) == t);
    assert(t.drop_last() =~= s);
    assert(text::white('\n'));
    assert(text::trimmed_end(t) == text::trimmed_end(t.drop_last()));
}

/// Two numbers are read back.
proof fn numbers_are_read_back(pair: (i32, i32))
    ensures
        window_focus::pair(numbers(pair)) == Some(pair),
        forall|i: int| 0 <= i < numbers(pair).len() ==> #[trigger] numbers(pair)[i] != '|',
        numbers(pair).len() > 0,
        !text::white(numbers(pair).first()),
        !text::white(numbers(pair).last()),
{
    let a = decimal::decimal(pair.0 as int);
    let b = decimal::decimal(pair.1 as int);
    decimal_characters(pair.0 as int);
    decimal_characters(pair.1 as int);
    decimal::decimal_is_read_back(pair.0 as int);
    decimal::decimal_is_read_back(pair.1 as int);
    assert forall|i: int| 0 <= i < a.len() implies a[i] != ',' by {}
    text_laws::first_separator_parts_a_text(a, b, ',');
    assert(!b.contains(',')) by {
        assert forall|i: int| 0 <= i < b.len() implies b[i] != ',' by {}
    }
    trimmed_as_it_is(a);
    trimmed_as_it_is(b);
    let s = numbers(pair);
    assert(s.first() == a.first());
    assert(s.last() == b.last());
    assert forall|i: int| 0 <= i < s.len() implies #[trigger] s[i] != '|' by {
        if i < a.len() {
            assert(s[i] == a[i]);
        } else if i > a.len() {
            assert(s[i] == b[i - a.len() - 1]);
        }
    }
}

/// Four parts with bars between them.
pub open spec fn joined(p: Seq<char>, t: Seq<char>, a: Seq<char>, b: Seq<char>) -> Seq<char> {
    p + seq!['|'] + (t + seq!['|'] + (a + seq!['|'] + b))
}

/// Four parts with bars between them are told apart, whatever bars the second
/// one holds.
proof fn joined_parts_are_split(p: Seq<char>, t: Seq<char>, a: Seq<char>, b: Seq<char>)
    requires
        forall|i: int| 0 <= i < p.len() ==> p[i] != '|',
        forall|i: int| 0 <= i < a.len() ==> a[i] != '|',
        forall|i: int| 0 <= i < b.len() ==> b[i] != '|',
    ensures
        window_focus::fields(joined(p, t, a, b)) == seq![p, t, a, b],
{
    let rest = t + seq!['|'] + (a + seq!['|'] + b);
    let front = t + seq!['|'] + a;
    assert(rest =~= front + seq!['|'] + b);
    assert(window_focus::window_fields(rest) == seq![t, a, b]) by {
        text_laws::last_separator_parts_a_text(front, b, '|');
        text_laws::last_separator_parts_a_text(t, a, '|');
    }
    text_laws::first_separator_parts_a_text(p, rest, '|');
    assert(seq![p] + seq![t, a, b] =~= seq![p, t, a, b]);
}

/// A line break behind the last of the parts is trimmed away.
proof fn joined_line_is_trimmed(p: Seq<char>, t: Seq<char>, a: Seq<char>, b: Seq<char>)
    requires
        p.len() > 0,
        !text::white(p.first()),
        b.len() > 0,
        !text::white(b.last()),
    ensures
        text::trimmed(joined(p, t, a, b).push('\n')) == joined(p, t, a, b),
{
    let r = joined(p, t, a, b);
    assert(r.first() == p.first());
    assert(r.last() == b.last());
    trimmed_as_it_is(r);
}

/// The parts of a report.
proof fn report_parts(pid: i32, title: Seq<char>, pos: (i32, i32), size: (i32, i32))
    ensures
        window_focus::fields(text::trimmed(report(pid, title, pos, size).push('\n'))) == seq![
            decimal::decimal(pid as int),
            title,
            numbers(pos),
            numbers(size),
        ],
{
    let p = decimal::decimal(pid as int);
    decimal_characters(pid as int);
    assert(!text::white(p.first())) by {
        assert(decimal::digit(p[0]) || p[0] == '-');
    }
    assert forall|i: int| 0 <= i < p.len() implies p[i] != '|' by {
        assert(decimal::digit(p[i]) || p[i] == '-');
    }
    numbers_are_read_back(pos);
    numbers_are_read_back(size);
    joined_line_is_trimmed(p, title, numbers(pos), numbers(size));
    joined_parts_are_split(p, title, numbers(pos), numbers(size));
}

/// What a report describes whose parts are all there.
proof fn described_by_parts(
    report: Seq<char>,
    parts: Seq<Seq<char>>,
    pid: i32,
    pos: (i32, i32),
    size: (i32, i32),
)
    requires
        parts == window_focus::fields(text::trimmed(report)),
        parts.len() == 4,
        decimal::parsed_i32(parts[0]) == Some(pid),
        window_focus::pair(parts[2]) == Some(pos),
        window_focus::pair(parts[3]) == Some(size),
    ensures
        window_focus::described(report) == Some(
            FocusedAppView::MacOs {
                pid,
                title: window_focus::title_in(parts[1]),
                pos: Some(pos),
                size: Some(size),
            },
        ),
{
}

/// The report of a window is read back exactly, whichever window it was and
/// whatever its title holds; of the title, only the whitespace around it goes.
pub proof fn report_is_read_back(
    pid: i32,
    title: Seq<char>,
    pos: (i32, i32),
    size: (i32, i32),
)
    ensures
        window_focus::described(report(pid, title, pos, size).push('\n')) == Some(
            FocusedAppView::MacOs {
                pid,
                title: window_focus::title_in(title),
                pos: Some(pos),
                size: Some(size),
            },
        ),
        title.len() > 0 && text::trimmed(title) == title ==> window_focus::title_in(title) == Some(
            title,
        ),
{
    let parts = seq![decimal::decimal(pid as int), title, numbers(pos), numbers(size)];
    report_parts(pid, title, pos, size);
    decimal::decimal_is_read_back(pid as int);
    numbers_are_read_back(pos);
    numbers_are_read_back(size);
    described_by_parts(report(pid, title, pos, size).push('\n'), parts, pid, pos, size);
}

/// The report of a process whose window could not be told names the process
/// and nothing else.
pub proof fn bare_report_is_read_back(pid: i32)
    ensures
        window_focus::described(bare_report(pid).push('\n')) == Some(
            FocusedAppView::MacOs { pid, title: None, pos: None, size: None },
        ),
{
    let p = decimal::decimal(pid as int);
    let r = bare_report(pid);
    let none = Seq::<char>::empty();
    decimal_characters(pid as int);
    decimal::decimal_is_read_back(pid as int);
    assert(r.first() == p.first());
    assert(r.last() == '|');
    trimmed_as_it_is(r);
    assert forall|i: int| 0 <= i < p.len() implies p[i] != '|' by {}
    assert(window_focus::window_fields(seq!['|', '|']) == seq![none, none, none]) by {
        assert(seq!['|', '|'] =~= seq!['|'] + seq!['|'] + none);
        text_laws::last_separator_parts_a_text(seq!['|'], none, '|');
        assert(seq!['|'] =~= none + seq!['|'] + none);
        text_laws::last_separator_parts_a_text(none, none, '|');
    }
    text_laws::first_separator_parts_a_text(p, seq!['|', '|'], '|');
    assert(window_focus::fields(r) =~= seq![p, none, none, none]);
    assert(!none.contains(','));
    assert(text::trimmed(none) =~= none);
}

/// What stands between the quotes of a script, read character by character: a
/// backslash stands for the backslash or the quote behind it, and a bare quote
/// would end the text too early.
pub open spec fn quoted(s: Seq<char>) -> Option<Seq<char>>
    decreases s.len(),
{
    if s.len() == 0 {
        Some(s)
    } else if s[0] == '"' {
        None
    } else if s[0] == '\\' {
        if s.len() > 1 && (s[1] == '\\' || s[1] == '"') {
            match quoted(s.skip(2)) {
                Some(rest) => Some(seq![s[1]] + rest),
                None => None,
            }
        } else {
            None
        }
    } else {
        match quoted(s.drop_first()) {
            Some(rest) => Some(seq![s[0]] + rest),
            None => None,
        }
    }
}

/// Quoted texts can be put one behind the other.
proof fn quoted_joins(a: Seq<char>, b: Seq<char>)
    requires
        quoted(a) is Some,
        quoted(b) is Some,
    ensures
        quoted(a + b) == Some(quoted(a)->0 + quoted(b)->0),
    decreases a.len(),
{
    let s = a + b;
    if a.len() == 0 {
        assert(s =~= b);
        assert(quoted(a)->0 + quoted(b)->0 =~= quoted(b)->0);
    } else if a[0] == '\\' {
        quoted_joins(a.skip(2), b);
        assert(s.skip(2) =~= a.skip(2) + b);
        assert(seq![a[1]] + (quoted(a.skip(2))->0 + quoted(b)->0) =~= (seq![a[1]] + quoted(
            a.skip(2),
        )->0) + quoted(b)->0);
    } else {
        quoted_joins(a.drop_first(), b);
        assert(s.drop_first() =~= a.drop_first() + b);
        assert(seq![a[0]] + (quoted(a.drop_first())->0 + quoted(b)->0) =~= (seq![a[0]] + quoted(
            a.drop_first(),
        )->0) + quoted(b)->0);
    }
}

/// A title in a script is read as the very title that was captured: it cannot
/// end its quotes early, whatever characters it holds.
pub proof fn escaped_title_is_read_back(title: Seq<char>)
    ensures
        quoted(window_focus::escaped(title)) == Some(title),
    decreases title.len(),
{
    if title.len() > 0 {
        let front = title.drop_last();
        let c = title.last();
        let tail = if c == '\\' || c == '"' {
            seq!['\\', c]
        } else {
            seq![c]
        };
        escaped_title_is_read_back(front);
        let none = Seq::<char>::empty();
        assert(quoted(none) == Some(none));
        if c == '\\' || c == '"' {
            assert(tail.skip(2) =~= none);
        } else {
            assert(tail.drop_first() =~= none);
        }
        assert(seq![c] + none =~= seq![c]);
        assert(quoted(tail) == Some(seq![c]));
        quoted_joins(window_focus::escaped(front), tail);
        assert(window_focus::escaped(title) =~= window_focus::escaped(front) + tail);
        assert(front + seq![c] =~= title);
    }
}

/// A script that looks for a window by all that is known of it. It compares the
/// process with `pid`, the title in both of its comparisons with what stands
/// between the quotes there, and position and size with `x`, `y`, `w` and `h`.
pub open spec fn looks_for(
    script: Seq<char>,
    pid: Seq<char>,
    quotation: Seq<char>,
    x: Seq<char>,
    y: Seq<char>,
    w: Seq<char>,
    h: Seq<char>,
) -> bool {
    script == window_focus::SELECT_PROCESS@ + pid + window_focus::MATCH_EXACTLY@ + quotation
        + window_focus::AND_X@ + x + window_focus::AND_Y@ + y + window_focus::AND_W@ + w
        + window_focus::AND_H@ + h + window_focus::MATCH_BY_TITLE@ + quotation
        + window_focus::RAISE_MATCH@
}

/// The script for a window with a title compares each thing with the very value
/// that was captured: both quotations read as the whole title, and the numbers
/// beside them as the process, the position and the size. A position or a size
/// that is not known is compared with one that no window has.
pub proof fn script_looks_for_the_captured_window(
    pid: i32,
    title: Seq<char>,
    pos: Option<(i32, i32)>,
    size: Option<(i32, i32)>,
) -> (found: (Seq<char>, Seq<char>, Seq<char>, Seq<char>, Seq<char>, Seq<char>))
    ensures
        looks_for(
            window_focus::restore_script(pid, Some(title), pos, size),
            found.0,
            found.1,
            found.2,
            found.3,
            found.4,
            found.5,
        ),
        decimal::parsed_i32(found.0) == Some(pid),
        quoted(found.1) == Some(title),
        pos matches Some(pos) ==> decimal::parsed_i32(found.2) == Some(pos.0)
            && decimal::parsed_i32(found.3) == Some(pos.1),
        pos is None ==> decimal::parsed(found.2) == Some(-99999int) && decimal::parsed(found.3)
            == Some(-99999int),
        size matches Some(size) ==> decimal::parsed_i32(found.4) == Some(size.0)
            && decimal::parsed_i32(found.5) == Some(size.1),
        size is None ==> decimal::parsed(found.4) == Some(-1int) && decimal::parsed(found.5) == Some(
            -1int,
        ),
{
    let (x, y) = match pos {
        Some(pos) => pos,
        None => (window_focus::NO_POSITION, window_focus::NO_POSITION),
    };
    let (w, h) = match size {
        Some(size) => size,
        None => (window_focus::NO_SIZE, window_focus::NO_SIZE),
    };
    decimal::decimal_is_read_back(pid as int);
    decimal::decimal_is_read_back(x as int);
    decimal::decimal_is_read_back(y as int);
    decimal::decimal_is_read_back(w as int);
    decimal::decimal_is_read_back(h as int);
    escaped_title_is_read_back(title);
    (
        decimal::decimal(pid as int),
        window_focus::escaped(title),
        decimal::decimal(x as int),
        decimal::decimal(y as int),
        decimal::decimal(w as int),
        decimal::decimal(h as int),
    )
}

/// Without a title, the script activates the captured process and looks for no
/// window.
pub proof fn script_activates_the_captured_process(
    pid: i32,
    pos: Option<(i32, i32)>,
    size: Option<(i32, i32)>,
) -> (found: Seq<char>)
    ensures
        window_focus::restore_script(pid, None, pos, size) == window_focus::ACTIVATE_PROCESS@ + found
            + window_focus::TO_FRONT@,
        decimal::parsed_i32(found) == Some(pid),
{
    decimal::decimal_is_read_back(pid as int);
    decimal::decimal(pid as int)
}

/// Every captured window is asked for in the way of its platform, by what it was
/// captured as.
pub proof fn windows_are_asked_for_by_what_they_are(app: FocusedAppView)
    ensures
        app matches FocusedAppView::MacOs { pid, title, pos, size } ==> (
        window_focus::restore_request(app) == (RestoreRequestView::RunScript {
            script: window_focus::restore_script(pid, title, pos, size),
        })),
        app matches FocusedAppView::Windows { hwnd } ==> window_focus::restore_request(app) == (
        RestoreRequestView::SetForegroundWindow { hwnd }),
        app is Linux ==> window_focus::restore_request(app) is NotSupported,
        window_focus::restoring(None, true) is Nothing,
        window_focus::restoring(None, false) is Nothing,
        window_focus::opt_restore(None) is None,
        window_focus::opt_restore(Some(app)) == Some(window_focus::restore_request(app)),
{
}

/// The window that was in front when it was captured is the one that is looked
/// for: by its process, its title, its position and its size. This holds of the
/// report as a text and of the bytes in which the platform writes it.
pub proof fn captured_window_is_the_one_restored(
    pid: i32,
    title: Seq<char>,
    pos: (i32, i32),
    size: (i32, i32),
)
    ensures
        window_focus::opt_restore(
            window_focus::described(report(pid, title, pos, size).push('\n')),
        ) == Some(
            RestoreRequestView::RunScript {
                script: window_focus::restore_script(
                    pid,
                    window_focus::title_in(title),
                    Some(pos),
                    Some(size),
                ),
            },
        ),
        ({
            let stdout = vstd::utf8::encode_utf8(report(pid, title, pos, size).push('\n'));
            &&& vstd::utf8::valid_utf8(stdout)
            &&& window_focus::described(vstd::utf8::decode_utf8(stdout))
                == window_focus::described(report(pid, title, pos, size).push('\n'))
        }),
{
    report_is_read_back(pid, title, pos, size);
    vstd::utf8::encode_utf8_valid_utf8(report(pid, title, pos, size).push('\n'));
    vstd::utf8::encode_utf8_decode_utf8(report(pid, title, pos, size).push('\n'));
}

/// The same holds of a window that its platform names by a handle; where no
/// window was in front, nothing is brought back.
pub proof fn captured_handle_is_the_one_restored(hwnd: isize)
    ensures
        window_focus::opt_restore(
            window_focus::captured(CaptureReply::ForegroundWindow { hwnd }),
        ) == if hwnd == 0 {
            None
        } else {
            Some(RestoreRequestView::SetForegroundWindow { hwnd })
        },
{
}

/// The snapshot after a window was asked for back a number of times, each time
/// with a mouse button held or not.
pub open spec fn snapshot_after(app: Option<FocusedAppView>, held: Seq<bool>) -> Option<
    FocusedAppView,
>
    decreases held.len(),
{
    if held.len() == 0 {
        app
    } else if held.last() {
        snapshot_after(app, held.drop_last())
    } else {
        None
    }
}

/// A drag is waited out: as long as a mouse button is held, no window is
/// activated and the snapshot is kept; as soon as it is released, the captured
/// window is asked for.
pub proof fn drag_is_waited_out(app: FocusedAppView, held: Seq<bool>)
    requires
        forall|i: int| 0 <= i < held.len() ==> held[i],
    ensures
        snapshot_after(Some(app), held) == Some(app),
        window_focus::restoring(snapshot_after(Some(app), held), true) is Wait,
        window_focus::restoring(snapshot_after(Some(app), held), false) == (RestoreView::Ask {
            request: window_focus::restore_request(app),
        }),
    decreases held.len(),
{
    if held.len() > 0 {
        assert forall|i: int| 0 <= i < held.drop_last().len() implies held.drop_last()[i] by {
            assert(held.drop_last()[i] == held[i]);
        }
        drag_is_waited_out(app, held.drop_last());
    }
}

} // verus!
