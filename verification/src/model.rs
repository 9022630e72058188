//! The closed sets of supported desktop environments and tab actions, and the
//! fixed wording each contributes to detection and to diagnostic messages.

use vstd::prelude::*;

verus! {

/// Desktop environments with a known external tab-control protocol.
///
/// A value has no identity beyond its variant tag: it is compared and copied
/// by value, and it is the sole key used to select call templates.
#[derive(Clone, Copy, Debug, PartialEq, Eq, Structural)]
pub enum DesktopEnvironment {
    GNOME,
    KDE,
}

/// The three user-facing tab operations this library can trigger.
#[derive(Clone, Copy, Debug, PartialEq, Eq, Structural)]
pub enum TabAction {
    CreateTab,
    SelectNextTab,
    SelectPreviousTab,
}

/// The name of `env`: the marker substring that advertises it in the session
/// variable, and the name diagnostic messages use for it.
pub open spec fn env_name(env: DesktopEnvironment) -> Seq<char> {
    match env {
        DesktopEnvironment::GNOME => "GNOME"@,
        DesktopEnvironment::KDE => "KDE"@,
    }
}

/// The wording diagnostic messages use for `action`.
pub open spec fn action_phrase(action: TabAction) -> Seq<char> {
    match action {
        TabAction::CreateTab => "tab creation"@,
        TabAction::SelectNextTab => "next tab selection"@,
        TabAction::SelectPreviousTab => "previous tab selection"@,
    }
}

/// The command-line tool through which `env`'s call templates are issued, and
/// whose presence the availability probe checks.
pub open spec fn tool_name(env: DesktopEnvironment) -> Seq<char> {
    match env {
        DesktopEnvironment::GNOME => "gdbus"@,
        DesktopEnvironment::KDE => "qdbus"@,
    }
}

impl DesktopEnvironment {
    /// The name of this environment, as used in detection and diagnostics.
    pub fn name(&self) -> (r: &'static str)
        ensures
            r@ == env_name(*self),
    {
        match self {
            DesktopEnvironment::GNOME => "GNOME",
            DesktopEnvironment::KDE => "KDE",
        }
    }

    /// The command-line tool this environment's call templates run through.
    pub fn tool(&self) -> (r: &'static str)
        ensures
            r@ == tool_name(*self),
    {
        match self {
            DesktopEnvironment::GNOME => "gdbus",
            DesktopEnvironment::KDE => "qdbus",
        }
    }
}

impl TabAction {
    /// The wording diagnostic messages use for this action.
    pub fn phrase(&self) -> (r: &'static str)
        ensures
            r@ == action_phrase(*self),
    {
        match self {
            TabAction::CreateTab => "tab creation",
            TabAction::SelectNextTab => "next tab selection",
            TabAction::SelectPreviousTab => "previous tab selection",
        }
    }
}

} // verus!
