//! The closed registry of external call templates: one template for each
//! (desktop environment, tab action) pair.

use vstd::prelude::*;
use vstd::slice::slice_index_get;

use crate::model::{tool_name, DesktopEnvironment, TabAction};

verus! {

/// The external invocation recipe bound to one (environment, action) pair:
/// either a session-bus call issued through the environment's bus-client
/// tool, or a direct command invocation.
pub enum CallTemplate {
    /// A session-bus invocation: destination service, object path, method
    /// name, and a single expression payload handed to the method.
    BusCall { destination: String, object_path: String, method: String, payload: String },
    /// A direct command invocation: executable name and positional arguments.
    Command { program: String, args: Vec<String> },
}

/// The shell expression a GNOME bus call evaluates to perform `action` on the
/// focused window.
pub open spec fn gnome_payload(action: TabAction) -> Seq<char> {
    match action {
        TabAction::CreateTab => "global.display.focus_window && global.display.focus_window.new_tab()"@,
        TabAction::SelectNextTab => "global.display.focus_window && global.display.focus_window.switch_to_next_tab()"@,
        TabAction::SelectPreviousTab => "global.display.focus_window && global.display.focus_window.switch_to_previous_tab()"@,
    }
}

/// The KDE window-manager method that performs `action`.
pub open spec fn kde_method(action: TabAction) -> Seq<char> {
    match action {
        TabAction::CreateTab => "org.kde.KMainWindow.newTab"@,
        TabAction::SelectNextTab => "org.kde.KMainWindow.nextTab"@,
        TabAction::SelectPreviousTab => "org.kde.KMainWindow.previousTab"@,
    }
}

/// `template` is the one call template the registry binds to `(env, action)`:
/// a GNOME shell bus call evaluating the action's expression, or a direct
/// KDE command addressing the Konsole window.
pub open spec fn is_template_for(
    template: CallTemplate,
    env: DesktopEnvironment,
    action: TabAction,
) -> bool {
    match env {
        DesktopEnvironment::GNOME => {
            &&& template matches CallTemplate::BusCall {
                destination,
                object_path,
                method,
                payload,
            }
            &&& destination@ == "org.gnome.Shell"@
            &&& object_path@ == "/org/gnome/Shell"@
            &&& method@ == "org.gnome.Shell.Eval"@
            &&& payload@ == gnome_payload(action)
        },
        DesktopEnvironment::KDE => {
            &&& template matches CallTemplate::Command { program, args }
            &&& program@ == "qdbus"@
            &&& args@.len() == 3
            &&& args@[0]@ == "org.kde.konsole"@
            &&& args@[1]@ == "/Konsole"@
            &&& args@[2]@ == kde_method(action)
        },
    }
}

/// The executable a rendered template runs.
pub open spec fn spec_program(template: CallTemplate) -> Seq<char> {
    match template {
        CallTemplate::BusCall { .. } => "gdbus"@,
        CallTemplate::Command { program, .. } => program@,
    }
}

/// The argument list a rendered template passes to its executable.
pub open spec fn spec_arguments(template: CallTemplate) -> Seq<Seq<char>> {
    match template {
        CallTemplate::BusCall { destination, object_path, method, payload } => seq![
            "call"@,
            "--session"@,
            "--dest"@,
            destination@,
            "--object-path"@,
            object_path@,
            "--method"@,
            method@,
            payload@,
        ],
        CallTemplate::Command { args, .. } => args.deep_view(),
    }
}

impl CallTemplate {
    /// Render this template as the program and argument list to spawn: a bus
    /// call becomes a `gdbus call` invocation on the session bus, a direct
    /// command is passed through unchanged.
    pub fn command_line(&self) -> (r: (String, Vec<String>))
        ensures
            r.0@ == spec_program(*self),
            r.1.deep_view() == spec_arguments(*self),
    {
        match self {
            CallTemplate::BusCall { destination, object_path, method, payload } => {
                let mut args: Vec<String> = Vec::new();
                args.push(String::from_str("call"));
                args.push(String::from_str("--session"));
                args.push(String::from_str("--dest"));
                args.push(destination.clone());
                args.push(String::from_str("--object-path"));
                args.push(object_path.clone());
                args.push(String::from_str("--method"));
                args.push(method.clone());
                args.push(payload.clone());
                proof {
                    assert(args.deep_view() =~= spec_arguments(*self));
                }
                (String::from_str("gdbus"), args)
            },
            CallTemplate::Command { program, args } => {
                let mut copied: Vec<String> = Vec::new();
                let mut i: usize = 0;
                let n = args.len();
                while i < n
                    invariant
                        n == args@.len(),
                        i <= n,
                        copied@.len() == i,
                        forall|k: int| 0 <= k < i ==> copied@[k]@ == args@[k]@,
                    decreases n - i,
                {
                    copied.push(slice_index_get(args.as_slice(), i).clone());
                    i += 1;
                }
                proof {
                    assert(copied.deep_view() =~= spec_arguments(*self));
                }
                (program.clone(), copied)
            },
        }
    }
}

/// One registry binding: the call template for one (environment, action) pair.
pub struct RegistryEntry {
    pub environment: DesktopEnvironment,
    pub action: TabAction,
    pub template: CallTemplate,
}

/// Entry `i` of `entries` is keyed by `(env, action)`.
pub open spec fn entry_is(
    entries: Seq<RegistryEntry>,
    i: int,
    env: DesktopEnvironment,
    action: TabAction,
) -> bool {
    &&& 0 <= i < entries.len()
    &&& entries[i].environment == env
    &&& entries[i].action == action
}

/// Some entry of `entries` is keyed by `(env, action)`.
pub open spec fn covers(
    entries: Seq<RegistryEntry>,
    env: DesktopEnvironment,
    action: TabAction,
) -> bool {
    exists|i: int| entry_is(entries, i, env, action)
}

/// The immutable lookup table from (environment, action) to call template,
/// populated once with one entry per pair of the closed variant sets.
pub struct Registry {
    entries: Vec<RegistryEntry>,
}

impl Registry {
    /// The registry's bindings, in iteration order.
    pub closed spec fn entries_seq(self) -> Seq<RegistryEntry> {
        self.entries@
    }

    /// Well-formed: every entry carries the one template its pair calls for,
    /// every (environment, action) pair is covered, and no pair is bound
    /// twice.
    pub open spec fn wf(self) -> bool {
        &&& forall|i: int|
            0 <= i < self.entries_seq().len() ==> is_template_for(
                #[trigger] self.entries_seq()[i].template,
                self.entries_seq()[i].environment,
                self.entries_seq()[i].action,
            )
        &&& forall|env: DesktopEnvironment, action: TabAction|
            #[trigger] covers(self.entries_seq(), env, action)
        &&& forall|i: int, j: int|
            #![trigger self.entries_seq()[i], self.entries_seq()[j]]
            0 <= i < self.entries_seq().len() && 0 <= j < self.entries_seq().len() && i != j
                ==> !(self.entries_seq()[i].environment == self.entries_seq()[j].environment
                && self.entries_seq()[i].action == self.entries_seq()[j].action)
    }

    /// Build the registry: six entries, one per (environment, action) pair.
    pub fn new() -> (r: Registry)
        ensures
            r.wf(),
            r.entries_seq().len() == 6,
    {
        let mut entries: Vec<RegistryEntry> = Vec::new();
        entries.push(gnome_entry_exec(TabAction::CreateTab));
        entries.push(gnome_entry_exec(TabAction::SelectNextTab));
        entries.push(gnome_entry_exec(TabAction::SelectPreviousTab));
        entries.push(kde_entry_exec(TabAction::CreateTab));
        entries.push(kde_entry_exec(TabAction::SelectNextTab));
        entries.push(kde_entry_exec(TabAction::SelectPreviousTab));
        let r = Registry { entries };
        proof {
            assert forall|env: DesktopEnvironment, action: TabAction|
                #[trigger] covers(r.entries_seq(), env, action) by {
                let s = r.entries_seq();
                match (env, action) {
                    (DesktopEnvironment::GNOME, TabAction::CreateTab) => {
                        assert(entry_is(s, 0, env, action));
                    },
                    (DesktopEnvironment::GNOME, TabAction::SelectNextTab) => {
                        assert(entry_is(s, 1, env, action));
                    },
                    (DesktopEnvironment::GNOME, TabAction::SelectPreviousTab) => {
                        assert(entry_is(s, 2, env, action));
                    },
                    (DesktopEnvironment::KDE, TabAction::CreateTab) => {
                        assert(entry_is(s, 3, env, action));
                    },
                    (DesktopEnvironment::KDE, TabAction::SelectNextTab) => {
                        assert(entry_is(s, 4, env, action));
                    },
                    (DesktopEnvironment::KDE, TabAction::SelectPreviousTab) => {
                        assert(entry_is(s, 5, env, action));
                    },
                }
            }
        }
        r
    }

    /// Look up the call template bound to `(env, action)`. The registry is
    /// exhaustively populated over the closed variant sets, so the lookup
    /// always succeeds.
    pub fn template_for(&self, env: DesktopEnvironment, action: TabAction) -> (r: &CallTemplate)
        requires
            self.wf(),
        ensures
            is_template_for(*r, env, action),
    {
        let n = self.entries.len();
        let mut i: usize = 0;
        while i < n
            invariant
                n == self.entries_seq().len(),
                self.wf(),
                i <= n,
                forall|k: int| 0 <= k < i ==> !entry_is(self.entries_seq(), k, env, action),
            decreases n - i,
        {
            let entry = slice_index_get(self.entries.as_slice(), i);
            if entry.environment == env && entry.action == action {
                return &entry.template;
            }
            i += 1;
        }
        proof {
            assert(covers(self.entries_seq(), env, action));
            assert(false);
        }
        unreached()
    }
}

/// Every (environment, action) pair resolves to exactly one entry of a
/// well-formed registry: one entry with that key exists, no two distinct
/// entries share it, and the entry carries the pair's one template.
pub proof fn lemma_registry_exhaustive(
    r: Registry,
    env: DesktopEnvironment,
    action: TabAction,
)
    requires
        r.wf(),
    ensures
        exists|i: int| entry_is(r.entries_seq(), i, env, action),
        forall|i: int, j: int|
            entry_is(r.entries_seq(), i, env, action) && entry_is(r.entries_seq(), j, env, action)
                ==> i == j,
        forall|i: int|
            entry_is(r.entries_seq(), i, env, action) ==> is_template_for(
                r.entries_seq()[i].template,
                env,
                action,
            ),
{
    assert(covers(r.entries_seq(), env, action));
}

/// The GNOME entry for `action`: a shell bus call evaluating the action's
/// expression on the focused window.
fn gnome_entry_exec(action: TabAction) -> (r: RegistryEntry)
    ensures
        r.environment == DesktopEnvironment::GNOME,
        r.action == action,
        is_template_for(r.template, DesktopEnvironment::GNOME, action),
{
    let payload = match action {
        TabAction::CreateTab => String::from_str(
            "global.display.focus_window && global.display.focus_window.new_tab()",
        ),
        TabAction::SelectNextTab => String::from_str(
            "global.display.focus_window && global.display.focus_window.switch_to_next_tab()",
        ),
        TabAction::SelectPreviousTab => String::from_str(
            "global.display.focus_window && global.display.focus_window.switch_to_previous_tab()",
        ),
    };
    RegistryEntry {
        environment: DesktopEnvironment::GNOME,
        action,
        template: CallTemplate::BusCall {
            destination: String::from_str("org.gnome.Shell"),
            object_path: String::from_str("/org/gnome/Shell"),
            method: String::from_str("org.gnome.Shell.Eval"),
            payload,
        },
    }
}

/// The KDE entry for `action`: a direct command addressing the Konsole
/// window through the environment's bus tool.
fn kde_entry_exec(action: TabAction) -> (r: RegistryEntry)
    ensures
        r.environment == DesktopEnvironment::KDE,
        r.action == action,
        is_template_for(r.template, DesktopEnvironment::KDE, action),
{
    let method = match action {
        TabAction::CreateTab => String::from_str("org.kde.KMainWindow.newTab"),
        TabAction::SelectNextTab => String::from_str("org.kde.KMainWindow.nextTab"),
        TabAction::SelectPreviousTab => String::from_str("org.kde.KMainWindow.previousTab"),
    };
    let mut args: Vec<String> = Vec::new();
    args.push(String::from_str("org.kde.konsole"));
    args.push(String::from_str("/Konsole"));
    args.push(method);
    RegistryEntry {
        environment: DesktopEnvironment::KDE,
        action,
        template: CallTemplate::Command { program: String::from_str("qdbus"), args },
    }
}

/// A well-formed registry's templates run through the tool designated for
/// their environment: the rendered program of the template bound to `env` is
/// `env`'s tool.
pub proof fn lemma_template_uses_designated_tool(
    template: CallTemplate,
    env: DesktopEnvironment,
    action: TabAction,
)
    requires
        is_template_for(template, env, action),
    ensures
        spec_program(template) == tool_name(env),
{
}

} // verus!
