use linux_tabs::detect_desktop_environment;
use linux_tabs::DesktopEnvironment;

#[test]
fn test_detect_desktop_environment() {
    // Detection must not panic, whatever the session variable holds.
    let _ = detect_desktop_environment(None);
}

#[test]
fn detects_gnome_from_combined_value() {
    let r = detect_desktop_environment(Some("ubuntu:GNOME"));
    assert_eq!(r, Some(DesktopEnvironment::GNOME));
}

#[test]
fn detects_plain_gnome() {
    let r = detect_desktop_environment(Some("GNOME"));
    assert_eq!(r, Some(DesktopEnvironment::GNOME));
}

#[test]
fn detects_kde() {
    let r = detect_desktop_environment(Some("KDE"));
    assert_eq!(r, Some(DesktopEnvironment::KDE));
}

#[test]
fn rejects_unrecognized_value() {
    let r = detect_desktop_environment(Some("XFCE"));
    assert_eq!(r, None);
}

#[test]
fn rejects_absent_value() {
    let r = detect_desktop_environment(None);
    assert_eq!(r, None);
}

#[test]
fn detection_is_case_sensitive() {
    let r = detect_desktop_environment(Some("gnome"));
    assert_eq!(r, None);
}

#[test]
fn first_marker_wins_on_ambiguous_value() {
    let r = detect_desktop_environment(Some("GNOME:KDE"));
    assert_eq!(r, Some(DesktopEnvironment::GNOME));
}

#[test]
fn detection_is_idempotent() {
    let value = Some("ubuntu:GNOME");
    let first = detect_desktop_environment(value);
    let second = detect_desktop_environment(value);
    assert_eq!(first, second);
    let unset_first = detect_desktop_environment(None);
    let unset_second = detect_desktop_environment(None);
    assert_eq!(unset_first, unset_second);
}
