use handy::transcription_coordinator::{Command, TranscriptionCoordinator};

#[test]
fn a_new_mailbox_is_empty_and_open() {
    let mut mailbox = TranscriptionCoordinator::new();
    assert!(!mailbox.is_closed());
    assert!(mailbox.receive().is_none());
}

#[test]
fn commands_come_out_in_the_order_in_which_they_went_in() {
    let mut mailbox = TranscriptionCoordinator::new();
    mailbox.send_input("transcribe", "ctrl+space", true, false);
    mailbox.notify_segment_finished(3);
    match mailbox.receive() {
        Some(Command::Input { binding_id, is_pressed, push_to_talk }) => {
            assert_eq!(binding_id, "transcribe");
            assert!(is_pressed);
            assert!(!push_to_talk);
        }
        _ => panic!("expected the input"),
    }
    mailbox.notify_cancel();
    mailbox.send_input("test", "", false, true);
    assert!(matches!(mailbox.receive(), Some(Command::SegmentFinished { session: 3 })));
    assert!(matches!(mailbox.receive(), Some(Command::Cancel)));
    match mailbox.receive() {
        Some(Command::Input { binding_id, is_pressed, push_to_talk }) => {
            assert_eq!(binding_id, "test");
            assert!(!is_pressed);
            assert!(push_to_talk);
        }
        _ => panic!("expected the input"),
    }
    assert!(mailbox.receive().is_none());
}

#[test]
fn a_closed_mailbox_loses_and_refuses_commands() {
    let mut mailbox = TranscriptionCoordinator::new();
    mailbox.notify_cancel();
    mailbox.close();
    assert!(mailbox.is_closed());
    assert!(mailbox.receive().is_none());
    mailbox.notify_cancel();
    mailbox.notify_segment_finished(3);
    mailbox.send_input("transcribe", "", true, true);
    assert!(mailbox.receive().is_none());
}
