use handy::utils::{
    is_kde_plasma, is_kde_wayland, is_wayland, names_kde, names_wayland, DesktopEnvironment,
};

fn environment(
    wayland_display: Option<&str>,
    session_type: Option<&str>,
    desktop: Option<&str>,
    kde: Option<&str>,
) -> DesktopEnvironment {
    DesktopEnvironment {
        wayland_display: wayland_display.map(str::to_string),
        xdg_session_type: session_type.map(str::to_string),
        xdg_current_desktop: desktop.map(str::to_string),
        kde_session_version: kde.map(str::to_string),
    }
}

#[test]
fn wayland_is_told_by_its_display() {
    assert!(is_wayland(&environment(Some("wayland-0"), None, None, None)));
    assert!(is_wayland(&environment(Some(""), Some("x11"), None, None)));
    assert!(!is_wayland(&environment(None, None, None, None)));
}

#[test]
fn wayland_is_told_by_the_session_type_in_any_case() {
    assert!(is_wayland(&environment(None, Some("wayland"), None, None)));
    assert!(is_wayland(&environment(None, Some("WayLand"), None, None)));
    assert!(!is_wayland(&environment(None, Some("x11"), None, None)));
    assert!(!is_wayland(&environment(None, Some("wayland2"), None, None)));
    assert!(!is_wayland(&environment(None, Some(""), None, None)));
}

#[test]
fn kde_is_told_by_the_desktop_in_any_case_and_place() {
    assert!(is_kde_plasma(&environment(None, None, Some("KDE"), None)));
    assert!(is_kde_plasma(&environment(None, None, Some("ubuntu:kde"), None)));
    assert!(is_kde_plasma(&environment(None, None, Some("xkDex"), None)));
    assert!(!is_kde_plasma(&environment(None, None, Some("GNOME"), None)));
    assert!(!is_kde_plasma(&environment(None, None, Some("K DE"), None)));
    assert!(!is_kde_plasma(&environment(None, None, None, None)));
}

#[test]
fn kde_is_told_by_its_session_version() {
    assert!(is_kde_plasma(&environment(None, None, Some("GNOME"), Some("5"))));
    assert!(is_kde_plasma(&environment(None, None, None, Some(""))));
}

#[test]
fn kde_on_wayland_takes_both() {
    assert!(is_kde_wayland(&environment(None, Some("Wayland"), Some("kde"), None)));
    assert!(!is_kde_wayland(&environment(None, Some("x11"), Some("kde"), None)));
    assert!(!is_kde_wayland(&environment(Some("wayland-0"), None, Some("GNOME"), None)));
}

#[test]
fn names_are_compared_as_they_are() {
    assert!(names_wayland("wayland"));
    assert!(!names_wayland("Wayland"));
    assert!(names_kde("X-KDE"));
    assert!(!names_kde("kde"));
}
