use handy::window_focus::{
    capture_focused_app, clear_captured_app, parse_report, platform_capture, platform_restore,
    restore_focused_app, restore_focused_app_keep, restore_outcome, CaptureReply, FocusedApp,
    FocusedWindow, Restore, RestoreReply, RestoreRequest, CAPTURE_SCRIPT,
};

fn mac(
    pid: i32,
    title: Option<&str>,
    window_pos: Option<(i32, i32)>,
    window_size: Option<(i32, i32)>,
) -> FocusedApp {
    FocusedApp {
        window: FocusedWindow::MacOs {
            pid,
            window_title: title.map(str::to_string),
            window_pos,
            window_size,
        },
    }
}

fn ended(success: bool, stdout: &[u8]) -> CaptureReply {
    CaptureReply::ScriptEnded { success, stdout: stdout.to_vec() }
}

/// The script that looks for a window, written out in one piece.
fn expected_script(pid: i32, title: &str, x: i32, y: i32, w: i32, h: i32) -> String {
    format!(
        r#"
tell application "System Events"
    set targetProc to first process whose unix id is {pid}
    set frontmost of targetProc to true
    set matched to false

    -- Try to match by title + position + size (most precise)
    repeat with w in windows of targetProc
        try
            set wTitle to name of w
            set wPos to position of w
            set wSize to size of w
            if wTitle = "{title}" and (item 1 of wPos) = {x} and (item 2 of wPos) = {y} and (item 1 of wSize) = {w} and (item 2 of wSize) = {h} then
                perform action "AXRaise" of w
                set matched to true
                exit repeat
            end if
        end try
    end repeat

    -- Fallback: match by title only (window may have moved)
    if not matched then
        repeat with w in windows of targetProc
            try
                if name of w = "{title}" then
                    perform action "AXRaise" of w
                    set matched to true
                    exit repeat
                end if
            end try
        end repeat
    end if
end tell
"#
    )
}

fn script(app: &FocusedApp) -> String {
    match platform_restore(app) {
        RestoreRequest::RunScript { script } => script,
        _ => panic!("expected a script"),
    }
}

#[test]
fn the_capture_script_is_as_it_should_be() {
    assert_eq!(
        CAPTURE_SCRIPT,
        r#"
tell application "System Events"
    set frontProc to first process whose frontmost is true
    set appPID to unix id of frontProc
    try
        set focusedWin to value of attribute "AXFocusedWindow" of frontProc
        set winTitle to value of attribute "AXTitle" of focusedWin
        set winPos to value of attribute "AXPosition" of focusedWin
        set winSize to value of attribute "AXSize" of focusedWin
        return (appPID as text) & "|" & winTitle & "|" & (item 1 of winPos as text) & "," & (item 2 of winPos as text) & "|" & (item 1 of winSize as text) & "," & (item 2 of winSize as text)
    on error
        return (appPID as text) & "|||"
    end try
end tell
"#
    );
}

#[test]
fn a_full_report_is_read() {
    assert_eq!(
        parse_report("412|Notes — draft|-10,25|800,600\n"),
        Some(mac(412, Some("Notes — draft"), Some((-10, 25)), Some((800, 600))))
    );
}

#[test]
fn a_bare_report_names_the_process_alone() {
    assert_eq!(parse_report("412|||\n"), Some(mac(412, None, None, None)));
    assert_eq!(parse_report("412"), Some(mac(412, None, None, None)));
}

#[test]
fn spaces_around_the_fields_are_ignored() {
    assert_eq!(
        parse_report("  5|  Mail  | 1 , 2 |3 ,4 \n"),
        Some(mac(5, Some("Mail"), Some((1, 2)), Some((3, 4))))
    );
}

#[test]
fn a_report_without_a_process_is_refused() {
    assert_eq!(parse_report(""), None);
    assert_eq!(parse_report("|title|1,2|3,4"), None);
    assert_eq!(parse_report("abc|title|1,2|3,4"), None);
    assert_eq!(parse_report("7 |title|1,2|3,4"), None);
    assert_eq!(parse_report("2147483648|title|1,2|3,4"), None);
}

#[test]
fn malformed_numbers_are_left_out() {
    assert_eq!(parse_report("1|t|1|3,4"), Some(mac(1, Some("t"), None, Some((3, 4)))));
    assert_eq!(parse_report("1|t|1,2,3|3,x"), Some(mac(1, Some("t"), None, None)));
    assert_eq!(parse_report("1|t|,|3,"), Some(mac(1, Some("t"), None, None)));
    assert_eq!(parse_report("1|   |1.5,2|+3,-4"), Some(mac(1, None, None, Some((3, -4)))));
}

#[test]
fn bars_in_the_title_belong_to_the_title() {
    assert_eq!(
        parse_report("7|a|b|1,2|3,4\n"),
        Some(mac(7, Some("a|b"), Some((1, 2)), Some((3, 4))))
    );
    assert_eq!(
        platform_capture(ended(true, b"7|a|b|1,2|3,4\n")),
        Some(mac(7, Some("a|b"), Some((1, 2)), Some((3, 4))))
    );
    assert_eq!(
        parse_report("7| | x ||1,2|3,4"),
        Some(mac(7, Some("| x |"), Some((1, 2)), Some((3, 4))))
    );
    assert_eq!(
        parse_report("7|||||"),
        Some(mac(7, Some("||"), None, None))
    );
}

#[test]
fn reports_with_fewer_fields_are_read_from_the_left() {
    assert_eq!(parse_report("7|a"), Some(mac(7, Some("a"), None, None)));
    assert_eq!(parse_report("7|a|1,2"), Some(mac(7, Some("a"), Some((1, 2)), None)));
    assert_eq!(parse_report("7|"), Some(mac(7, None, None, None)));
}

#[test]
fn platform_replies_name_a_window_or_none() {
    assert_eq!(platform_capture(CaptureReply::ScriptNotRun), None);
    assert_eq!(platform_capture(CaptureReply::NotSupported), None);
    assert_eq!(platform_capture(ended(false, b"1|t|1,2|3,4")), None);
    assert_eq!(
        platform_capture(ended(true, "1|é|1,2|3,4\n".as_bytes())),
        Some(mac(1, Some("é"), Some((1, 2)), Some((3, 4))))
    );
    assert_eq!(platform_capture(CaptureReply::ForegroundWindow { hwnd: 0 }), None);
    assert_eq!(
        platform_capture(CaptureReply::ForegroundWindow { hwnd: -3 }),
        Some(FocusedApp { window: FocusedWindow::Windows { hwnd: -3 } })
    );
}

#[test]
fn bytes_that_are_no_text_become_replacement_characters() {
    assert_eq!(
        platform_capture(ended(true, b"1|a\xffb|1,2|3,4")),
        Some(mac(1, Some("a\u{fffd}b"), Some((1, 2)), Some((3, 4))))
    );
}

#[test]
fn the_exact_window_is_looked_for() {
    assert_eq!(
        script(&mac(412, Some("Notes"), Some((-10, 25)), Some((800, 600)))),
        expected_script(412, "Notes", -10, 25, 800, 600)
    );
}

#[test]
fn a_window_without_place_or_size_is_looked_for_by_impossible_ones() {
    assert_eq!(
        script(&mac(1, Some("t"), None, None)),
        expected_script(1, "t", -99999, -99999, -1, -1)
    );
}

#[test]
fn a_process_without_a_title_is_activated_alone() {
    assert_eq!(
        script(&mac(-5, None, Some((1, 2)), Some((3, 4)))),
        r#"tell application "System Events" to set frontmost of first process whose unix id is -5 to true"#
    );
}

#[test]
fn quotes_and_backslashes_in_titles_are_escaped() {
    let title = r#"a "b" \c\"#;
    let by_hand = title.replace('\\', "\\\\").replace('"', "\\\"");
    assert_eq!(by_hand, r#"a \"b\" \\c\\"#);
    assert_eq!(
        script(&mac(1, Some(title), Some((1, 2)), Some((3, 4)))),
        expected_script(1, &by_hand, 1, 2, 3, 4)
    );
}

#[test]
fn each_platform_is_asked_in_its_own_way() {
    assert_eq!(
        platform_restore(&FocusedApp { window: FocusedWindow::Windows { hwnd: 77 } }),
        RestoreRequest::SetForegroundWindow { hwnd: 77 }
    );
    assert_eq!(
        platform_restore(&FocusedApp { window: FocusedWindow::Linux }),
        RestoreRequest::NotSupported
    );
}

#[test]
fn only_success_restores_and_settles() {
    assert_eq!(restore_outcome(Some(RestoreReply::Succeeded)), (true, 50));
    assert_eq!(restore_outcome(Some(RestoreReply::Failed)), (false, 0));
    assert_eq!(restore_outcome(Some(RestoreReply::NotSupported)), (false, 0));
    assert_eq!(restore_outcome(None), (false, 0));
}

#[test]
fn the_captured_window_is_the_one_restored() {
    let mut slot: Option<FocusedApp> = None;
    capture_focused_app(&mut slot, ended(true, b"412|Notes|-10,25|800,600\n"));
    let expected = expected_script(412, "Notes", -10, 25, 800, 600);
    for _ in 0..2 {
        assert_eq!(
            restore_focused_app_keep(&slot, false),
            Restore::Ask { request: RestoreRequest::RunScript { script: expected.clone() } }
        );
    }
    assert_eq!(
        restore_focused_app(&mut slot, false),
        Restore::Ask { request: RestoreRequest::RunScript { script: expected } }
    );
    assert_eq!(slot, None);
    assert_eq!(restore_focused_app(&mut slot, false), Restore::Nothing);
    assert_eq!(restore_focused_app_keep(&slot, false), Restore::Nothing);
}

#[test]
fn a_drag_is_waited_out() {
    let mut slot = Some(FocusedApp { window: FocusedWindow::Windows { hwnd: 9 } });
    for _ in 0..3 {
        assert_eq!(restore_focused_app_keep(&slot, true), Restore::Wait);
        assert_eq!(restore_focused_app(&mut slot, true), Restore::Wait);
        assert!(slot.is_some());
    }
    assert_eq!(
        restore_focused_app(&mut slot, false),
        Restore::Ask { request: RestoreRequest::SetForegroundWindow { hwnd: 9 } }
    );
    assert_eq!(restore_focused_app(&mut slot, true), Restore::Nothing);
    assert_eq!(restore_focused_app_keep(&slot, true), Restore::Nothing);
}

#[test]
fn the_captured_handle_is_the_one_restored() {
    let mut slot: Option<FocusedApp> = None;
    capture_focused_app(&mut slot, CaptureReply::ForegroundWindow { hwnd: 9 });
    assert_eq!(
        restore_focused_app(&mut slot, false),
        Restore::Ask { request: RestoreRequest::SetForegroundWindow { hwnd: 9 } }
    );
}

#[test]
fn a_failed_capture_forgets_the_earlier_one() {
    let mut slot = Some(mac(1, Some("t"), None, None));
    capture_focused_app(&mut slot, CaptureReply::NotSupported);
    assert_eq!(slot, None);
}

#[test]
fn a_captured_window_can_be_discarded() {
    let mut slot = Some(mac(1, Some("t"), None, None));
    clear_captured_app(&mut slot);
    assert_eq!(slot, None);
}
