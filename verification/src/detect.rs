//! Identification of the active desktop environment from the session
//! variable's raw value.

use vstd::prelude::*;

use crate::model::{env_name, DesktopEnvironment};
use crate::text::{seq_contains, str_contains};

verus! {

/// The environment detected from the session variable's value, `None` when
/// the variable is absent. Matching is substring-based and case-sensitive on
/// the raw value; where the value carries more than one marker, the first
/// environment in declaration order wins.
pub open spec fn spec_detect(desktop: Option<Seq<char>>) -> Option<DesktopEnvironment> {
    match desktop {
        Option::None => Option::None,
        Option::Some(value) => if seq_contains(value, env_name(DesktopEnvironment::GNOME)) {
            Option::Some(DesktopEnvironment::GNOME)
        } else if seq_contains(value, env_name(DesktopEnvironment::KDE)) {
            Option::Some(DesktopEnvironment::KDE)
        } else {
            Option::None
        },
    }
}

/// The view of an optional session-variable value.
pub open spec fn session_value_view(desktop: Option<&str>) -> Option<Seq<char>> {
    match desktop {
        Option::None => Option::None,
        Option::Some(value) => Option::Some(value@),
    }
}

/// Identify the desktop environment advertised by the session variable.
///
/// `desktop` is the variable's value, `None` when it is absent or unreadable.
/// Returns `None` when no marker substring of a supported environment occurs
/// in the value. The result depends on nothing but `desktop`: repeated calls
/// on an unchanged value agree.
pub fn detect_desktop_environment(desktop: Option<&str>) -> (r: Option<DesktopEnvironment>)
    ensures
        r == spec_detect(session_value_view(desktop)),
{
    match desktop {
        Option::None => Option::None,
        Option::Some(value) => {
            if str_contains(value, DesktopEnvironment::GNOME.name()) {
                Option::Some(DesktopEnvironment::GNOME)
            } else if str_contains(value, DesktopEnvironment::KDE.name()) {
                Option::Some(DesktopEnvironment::KDE)
            } else {
                Option::None
            }
        },
    }
}

/// Detection is deterministic: with no change to the underlying session
/// value, two detections yield the same result.
pub proof fn lemma_detect_idempotent(first: Option<Seq<char>>, second: Option<Seq<char>>)
    requires
        first == second,
    ensures
        spec_detect(first) == spec_detect(second),
{
}

} // verus!
