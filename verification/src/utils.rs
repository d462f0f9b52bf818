//! Cancellation, and what can be told about the desktop.
use crate::effects::Effect;
use crate::text;
use vstd::prelude::*;

verus! {

// Cancellation

/// What cancels whatever is in progress: the recording at once, the rest of
/// the session through the coordinator, if there is one.
pub open spec fn cancel_operation_effects(coordinator_runs: bool) -> Seq<Effect> {
    seq![Effect::CancelRecording] + (if coordinator_runs {
        seq![Effect::NotifyCancel]
    } else {
        seq![]
    })
}

/// Centralized cancellation that can be called from anywhere in the app.
/// Cancels any ongoing recording immediately for responsiveness, then notifies
/// the coordinator, if there is one, to handle full session cleanup.
pub fn cancel_current_operation(coordinator_runs: bool) -> (effects: Vec<Effect>)
    ensures
        effects@ == cancel_operation_effects(coordinator_runs),
{
    let mut effects: Vec<Effect> = Vec::new();
    effects.push(Effect::CancelRecording);
    if coordinator_runs {
        effects.push(Effect::NotifyCancel);
    }
    assert(effects@ =~= cancel_operation_effects(coordinator_runs));
    effects
}

// The desktop

/// What `str::to_lowercase` makes of a text.
pub uninterp spec fn lowercase(s: Seq<char>) -> Seq<char>;

/// What `str::to_uppercase` makes of a text.
pub uninterp spec fn uppercase(s: Seq<char>) -> Seq<char>;

/// A letter from A to Z as a small letter.
pub open spec fn ascii_lowercase(c: char) -> char {
    if 'A' <= c <= 'Z' {
        (c as u32 + 32) as char
    } else {
        c
    }
}

/// A letter from a to z as a capital letter.
pub open spec fn ascii_uppercase(c: char) -> char {
    if 'a' <= c <= 'z' {
        (c as u32 - 32) as char
    } else {
        c
    }
}

/// A text with its letters from A to Z as small letters.
pub open spec fn ascii_small(s: Seq<char>) -> Seq<char> {
    s.map_values(|c: char| ascii_lowercase(c))
}

/// A text with its letters from a to z as capital letters.
pub open spec fn ascii_capital(s: Seq<char>) -> Seq<char> {
    s.map_values(|c: char| ascii_uppercase(c))
}

/// Whether a text that may be missing is ASCII as far as it is there.
pub open spec fn ascii(s: Option<String>) -> bool {
    s matches Some(s) ==> vstd::utf8::is_ascii_chars(s@)
}

/// `str::to_lowercase`: the result depends on the text alone, and in an ASCII
/// text it is the letters from A to Z that change.
pub assume_specification[ str::to_lowercase ](s: &str) -> (lower: String)
    ensures
        lower@ == lowercase(s@),
        vstd::utf8::is_ascii_chars(s@) ==> lower@ == ascii_small(s@),
;

/// `str::to_uppercase`: the result depends on the text alone, and in an ASCII
/// text it is the letters from a to z that change.
pub assume_specification[ str::to_uppercase ](s: &str) -> (upper: String)
    ensures
        upper@ == uppercase(s@),
        vstd::utf8::is_ascii_chars(s@) ==> upper@ == ascii_capital(s@),
;

/// The environment variables that tell which desktop the user works on; those
/// that are not set are missing.
pub struct DesktopEnvironment {
    pub wayland_display: Option<String>,
    pub xdg_session_type: Option<String>,
    pub xdg_current_desktop: Option<String>,
    pub kde_session_version: Option<String>,
}

impl DesktopEnvironment {
    pub open spec fn wayland(&self) -> bool {
        ||| self.wayland_display is Some
        ||| self.xdg_session_type matches Some(kind) && lowercase(kind@) == "wayland"@
    }

    pub open spec fn kde_plasma(&self) -> bool {
        ||| self.xdg_current_desktop matches Some(desktop) && text::occurs(
            uppercase(desktop@),
            "KDE"@,
        )
        ||| self.kde_session_version is Some
    }

    /// What tells Wayland where the kind of the session is ASCII: its letters
    /// may be small or capital.
    pub open spec fn ascii_wayland(&self) -> bool {
        ||| self.wayland_display is Some
        ||| self.xdg_session_type matches Some(kind) && ascii_small(kind@) == "wayland"@
    }

    /// What tells KDE Plasma where the name of the desktop is ASCII: its letters
    /// may be small or capital.
    pub open spec fn ascii_kde_plasma(&self) -> bool {
        ||| self.xdg_current_desktop matches Some(desktop) && text::occurs(
            ascii_capital(desktop@),
            "KDE"@,
        )
        ||| self.kde_session_version is Some
    }
}

/// Whether the kind of a session, in small letters, is Wayland's.
pub fn names_wayland(kind: &str) -> (yes: bool)
    ensures
        yes == (kind@ == "wayland"@),
{
    text::same(kind, "wayland")
}

/// Whether the name of a desktop, in capital letters, speaks of KDE.
pub fn names_kde(desktop: &str) -> (yes: bool)
    ensures
        yes == text::occurs(desktop@, "KDE"@),
{
    text::contains(desktop, "KDE")
}

/// Check if using the Wayland display server protocol.
pub fn is_wayland(environment: &DesktopEnvironment) -> (yes: bool)
    ensures
        yes == environment.wayland(),
        ascii(environment.xdg_session_type) ==> yes == environment.ascii_wayland(),
{
    if environment.wayland_display.is_some() {
        return true;
    }
    match &environment.xdg_session_type {
        Some(kind) => names_wayland(kind.as_str().to_lowercase().as_str()),
        None => false,
    }
}

/// Check if running on KDE Plasma desktop environment.
pub fn is_kde_plasma(environment: &DesktopEnvironment) -> (yes: bool)
    ensures
        yes == environment.kde_plasma(),
        ascii(environment.xdg_current_desktop) ==> yes == environment.ascii_kde_plasma(),
{
    let named = match &environment.xdg_current_desktop {
        Some(desktop) => names_kde(desktop.as_str().to_uppercase().as_str()),
        None => false,
    };
    named || environment.kde_session_version.is_some()
}

/// Check if running on KDE Plasma with Wayland.
pub fn is_kde_wayland(environment: &DesktopEnvironment) -> (yes: bool)
    ensures
        yes == (environment.wayland() && environment.kde_plasma()),
        ascii(environment.xdg_session_type) && ascii(environment.xdg_current_desktop) ==> yes == (
        environment.ascii_wayland() && environment.ascii_kde_plasma()),
{
    is_wayland(environment) && is_kde_plasma(environment)
}

/// A display of Wayland's, or a session that calls itself Wayland in whatever
/// letters, tells Wayland; nothing else does.
pub proof fn wayland_is_told_by_display_or_session(environment: DesktopEnvironment)
    ensures
        environment.wayland_display is Some ==> environment.wayland()
            && environment.ascii_wayland(),
        environment.wayland_display is None ==> (match environment.xdg_session_type {
            Some(kind) => (environment.wayland() <==> lowercase(kind@) == "wayland"@) && (
            environment.ascii_wayland() <==> kind@.len() == 7 && forall|i: int|
                0 <= i < 7 ==> same_letter(#[trigger] kind@[i], "wayland"@[i])),
            None => !environment.wayland() && !environment.ascii_wayland(),
        }),
{
    reveal_strlit("wayland");
    if environment.xdg_session_type is Some {
        let kind = environment.xdg_session_type->0@;
        let small = ascii_small(kind);
        if kind.len() == 7 && forall|i: int|
            0 <= i < 7 ==> same_letter(#[trigger] kind[i], "wayland"@[i]) {
            assert forall|i: int| 0 <= i < 7 implies small[i] == "wayland"@[i] by {
                assert(same_letter(kind[i], "wayland"@[i]));
            }
            assert(small =~= "wayland"@);
        }
        if small == "wayland"@ {
            assert(small.len() == 7);
            assert forall|i: int| 0 <= i < 7 implies same_letter(
                #[trigger] kind[i],
                "wayland"@[i],
            ) by {
                assert(small[i] == ascii_lowercase(kind[i]));
            }
        }
    }
}

/// Whether a letter is a given small letter, or the capital one of it.
pub open spec fn same_letter(c: char, small: char) -> bool {
    c == small || c as int + 32 == small as int
}

/// A desktop whose name holds KDE in whatever letters, or a session version of
/// KDE's, tells KDE Plasma; nothing else does.
pub proof fn kde_is_told_by_desktop_or_version(environment: DesktopEnvironment)
    ensures
        environment.kde_session_version is Some ==> environment.kde_plasma()
            && environment.ascii_kde_plasma(),
        environment.kde_session_version is None ==> (match environment.xdg_current_desktop {
            Some(desktop) => (environment.kde_plasma() <==> text::occurs(
                uppercase(desktop@),
                "KDE"@,
            )) && (environment.ascii_kde_plasma() <==> exists|at: int| spells_kde(desktop@, at)),
            None => !environment.kde_plasma() && !environment.ascii_kde_plasma(),
        }),
{
    reveal_strlit("KDE");
    if environment.xdg_current_desktop is Some {
        let desktop = environment.xdg_current_desktop->0@;
        let capital = ascii_capital(desktop);
        if text::occurs(capital, "KDE"@) {
            let at = choose|at: int| text::occurs_at(capital, "KDE"@, at);
            let found = capital.subrange(at, at + 3);
            assert(found[0] == ascii_uppercase(desktop[at]));
            assert(found[1] == ascii_uppercase(desktop[at + 1]));
            assert(found[2] == ascii_uppercase(desktop[at + 2]));
            assert(spells_kde(desktop, at));
        }
        if exists|at: int| spells_kde(desktop, at) {
            let at = choose|at: int| spells_kde(desktop, at);
            assert(capital.subrange(at, at + 3) =~= "KDE"@);
            assert(text::occurs_at(capital, "KDE"@, at));
        }
    }
}

/// Whether a text spells KDE at a place, in small or capital letters.
pub open spec fn spells_kde(s: Seq<char>, at: int) -> bool {
    &&& 0 <= at
    &&& at + 3 <= s.len()
    &&& s[at] == 'K' || s[at] == 'k'
    &&& s[at + 1] == 'D' || s[at + 1] == 'd'
    &&& s[at + 2] == 'E' || s[at + 2] == 'e'
}

} // verus!
