//! What the bindings of shortcuts stand for.
use crate::text;
use vstd::prelude::*;

verus! {

/// The shortcut actions that run outside of a transcription session.
#[derive(Clone, Copy, Debug, PartialEq, Eq, Structural)]
pub enum ShortcutKind {
    /// Cancels whatever is in progress.
    Cancel,
    /// Reports that the shortcut arrived.
    Test,
}

/// The bindings that drive the transcription pipeline.
pub open spec fn transcribes(id: Seq<char>) -> bool {
    id == "transcribe"@ || post_processes(id)
}

/// The binding whose sessions send their text through a language model.
pub open spec fn post_processes(id: Seq<char>) -> bool {
    id == "transcribe_with_post_process"@
}

/// The action that a binding outside of the pipeline stands for.
pub open spec fn shortcut_kind(id: Seq<char>) -> Option<ShortcutKind> {
    if id == "cancel"@ {
        Some(ShortcutKind::Cancel)
    } else if id == "test"@ {
        Some(ShortcutKind::Test)
    } else {
        None
    }
}

pub fn is_transcribe_binding(id: &str) -> (yes: bool)
    ensures
        yes == transcribes(id@),
{
    text::same(id, "transcribe") || text::same(id, "transcribe_with_post_process")
}

pub fn is_post_process_binding(id: &str) -> (yes: bool)
    ensures
        yes == post_processes(id@),
{
    text::same(id, "transcribe_with_post_process")
}

/// Looks up the action of a binding that is not part of the pipeline.
pub fn find_action(id: &str) -> (action: Option<ShortcutKind>)
    ensures
        action == shortcut_kind(id@),
{
    if text::same(id, "cancel") {
        Some(ShortcutKind::Cancel)
    } else if text::same(id, "test") {
        Some(ShortcutKind::Test)
    } else {
        None
    }
}

/// No binding is both part of the pipeline and an action of its own.
pub proof fn pipeline_bindings_are_not_actions(id: Seq<char>)
    requires
        transcribes(id),
    ensures
        shortcut_kind(id) is None,
{
    reveal_strlit("transcribe");
    reveal_strlit("transcribe_with_post_process");
    reveal_strlit("cancel");
    reveal_strlit("test");
    assert("transcribe"@.len() == 10);
    assert("transcribe_with_post_process"@.len() == 28);
    assert("cancel"@.len() == 6);
    assert("test"@.len() == 4);
}

/// Two bindings drive the pipeline, and the longer one alone post-processes; two
/// others run an action; every other binding is nobody's.
pub proof fn four_bindings_mean_something(id: Seq<char>)
    ensures
        id == "transcribe"@ ==> transcribes(id) && !post_processes(id),
        id == "transcribe_with_post_process"@ ==> transcribes(id) && post_processes(id),
        id == "cancel"@ ==> shortcut_kind(id) == Some(ShortcutKind::Cancel),
        id == "test"@ ==> shortcut_kind(id) == Some(ShortcutKind::Test),
        id != "transcribe"@ && id != "transcribe_with_post_process"@ ==> !transcribes(id)
            && !post_processes(id),
        id != "cancel"@ && id != "test"@ ==> shortcut_kind(id) is None,
{
    reveal_strlit("transcribe");
    reveal_strlit("transcribe_with_post_process");
    reveal_strlit("cancel");
    reveal_strlit("test");
    assert("transcribe"@.len() == 10);
    assert("transcribe_with_post_process"@.len() == 28);
    assert("cancel"@.len() == 6);
    assert("test"@.len() == 4);
}

} // verus!
