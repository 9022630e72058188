//! Interpretation of one external call's outcome: success, or a failure
//! carrying a diagnostic that names the environment, the action, and the
//! external process's own error text.

use vstd::prelude::*;

use crate::model::{action_phrase, env_name, tool_name, DesktopEnvironment, TabAction};
use crate::text::{contains_at, seq_contains};

verus! {

/// What became of one attempt to run an external process.
pub enum ProcessOutcome {
    /// The process was spawned and ran to completion: `success` is whether
    /// its exit status reported success, `stderr` its captured standard
    /// error.
    Exited { success: bool, stderr: String },
    /// The process could not be spawned at all; `reason` describes the spawn
    /// error.
    NotSpawned { reason: String },
}

/// A failed dispatch attempt: the offending environment and action, and a
/// human-readable diagnostic carrying the external error text.
pub struct DispatchFailure {
    pub environment: DesktopEnvironment,
    pub action: TabAction,
    pub message: String,
}

/// The outcome reports that the external process ran and exited successfully.
pub open spec fn outcome_is_success(outcome: ProcessOutcome) -> bool {
    match outcome {
        ProcessOutcome::Exited { success, .. } => success,
        ProcessOutcome::NotSpawned { .. } => false,
    }
}

/// The diagnostic text an outcome contributes to a failure message: the
/// captured standard error, or the spawn error's description.
pub open spec fn outcome_detail(outcome: ProcessOutcome) -> Seq<char> {
    match outcome {
        ProcessOutcome::Exited { stderr, .. } => stderr@,
        ProcessOutcome::NotSpawned { reason } => reason@,
    }
}

/// The diagnostic for a failed `(env, action)` dispatch with external error
/// text `detail`.
pub open spec fn failure_message(
    env: DesktopEnvironment,
    action: TabAction,
    detail: Seq<char>,
) -> Seq<char> {
    env_name(env) + " "@ + action_phrase(action) + " failed: "@ + detail
}

/// Build the failure value for `(env, action)` with external error text
/// `detail`.
fn failure(env: DesktopEnvironment, action: TabAction, detail: &str) -> (r: DispatchFailure)
    ensures
        r.environment == env,
        r.action == action,
        r.message@ == failure_message(env, action, detail@),
{
    let mut message = String::from_str(env.name());
    message.append(" ");
    message.append(action.phrase());
    message.append(" failed: ");
    message.append(detail);
    proof {
        assert(message@ =~= failure_message(env, action, detail@));
    }
    DispatchFailure { environment: env, action, message }
}

/// Interpret the outcome of the external call issued for `(env, action)`:
/// success exactly when the process ran and exited successfully, otherwise a
/// failure whose diagnostic names the environment and the action and carries
/// the external error text.
pub fn dispatch_outcome(
    env: DesktopEnvironment,
    action: TabAction,
    outcome: &ProcessOutcome,
) -> (r: Result<(), DispatchFailure>)
    ensures
        r is Ok <==> outcome_is_success(*outcome),
        r matches Err(f) ==> {
            &&& f.environment == env
            &&& f.action == action
            &&& f.message@ == failure_message(env, action, outcome_detail(*outcome))
        },
{
    match outcome {
        ProcessOutcome::Exited { success, stderr } => {
            if *success {
                Ok(())
            } else {
                Err(failure(env, action, stderr.as_str()))
            }
        },
        ProcessOutcome::NotSpawned { reason } => Err(failure(env, action, reason.as_str())),
    }
}

impl DesktopEnvironment {
    /// Interpret the outcome of this environment's external create-tab call.
    pub fn create_tab(&self, outcome: &ProcessOutcome) -> (r: Result<(), DispatchFailure>)
        ensures
            r is Ok <==> outcome_is_success(*outcome),
            r matches Err(f) ==> {
                &&& f.environment == *self
                &&& f.action == TabAction::CreateTab
                &&& f.message@ == failure_message(
                    *self,
                    TabAction::CreateTab,
                    outcome_detail(*outcome),
                )
            },
    {
        dispatch_outcome(*self, TabAction::CreateTab, outcome)
    }

    /// Interpret the outcome of this environment's external next-tab call.
    pub fn select_next_tab(&self, outcome: &ProcessOutcome) -> (r: Result<(), DispatchFailure>)
        ensures
            r is Ok <==> outcome_is_success(*outcome),
            r matches Err(f) ==> {
                &&& f.environment == *self
                &&& f.action == TabAction::SelectNextTab
                &&& f.message@ == failure_message(
                    *self,
                    TabAction::SelectNextTab,
                    outcome_detail(*outcome),
                )
            },
    {
        dispatch_outcome(*self, TabAction::SelectNextTab, outcome)
    }

    /// Interpret the outcome of this environment's external previous-tab
    /// call.
    pub fn select_previous_tab(&self, outcome: &ProcessOutcome) -> (r: Result<
        (),
        DispatchFailure,
    >)
        ensures
            r is Ok <==> outcome_is_success(*outcome),
            r matches Err(f) ==> {
                &&& f.environment == *self
                &&& f.action == TabAction::SelectPreviousTab
                &&& f.message@ == failure_message(
                    *self,
                    TabAction::SelectPreviousTab,
                    outcome_detail(*outcome),
                )
            },
    {
        dispatch_outcome(*self, TabAction::SelectPreviousTab, outcome)
    }

    /// Advisory availability of this environment's control tool, judged from
    /// the outcome of the presence probe: true only when the probe process
    /// ran and exited successfully; a probe that could not be spawned, or
    /// exited unsuccessfully, yields false, never a propagated failure.
    pub fn is_available(&self, probe: &ProcessOutcome) -> (r: bool)
        ensures
            r == outcome_is_success(*probe),
    {
        match probe {
            ProcessOutcome::Exited { success, .. } => *success,
            ProcessOutcome::NotSpawned { .. } => false,
        }
    }

    /// The presence probe for this environment's control tool: locate the
    /// tool's executable on the search path.
    pub fn probe_command(&self) -> (r: (String, Vec<String>))
        ensures
            r.0@ == "which"@,
            r.1.deep_view() =~= seq![tool_name(*self)],
    {
        let mut args: Vec<String> = Vec::new();
        args.push(String::from_str(self.tool()));
        (String::from_str("which"), args)
    }
}

/// A dispatch failure's diagnostic names its parts: the environment's name,
/// the action's wording, and the external error text each occur in the
/// message.
pub proof fn lemma_failure_message_names_parts(
    env: DesktopEnvironment,
    action: TabAction,
    detail: Seq<char>,
)
    ensures
        seq_contains(failure_message(env, action, detail), env_name(env)),
        seq_contains(failure_message(env, action, detail), action_phrase(action)),
        seq_contains(failure_message(env, action, detail), detail),
{
    reveal_strlit(" ");
    reveal_strlit(" failed: ");
    let m = failure_message(env, action, detail);
    let name_len = env_name(env).len() as int;
    let phrase_len = action_phrase(action).len() as int;
    assert(m.subrange(0, name_len) =~= env_name(env));
    assert(contains_at(m, env_name(env), 0));
    let phrase_at = name_len + 1;
    assert(m.subrange(phrase_at, phrase_at + phrase_len) =~= action_phrase(action));
    assert(contains_at(m, action_phrase(action), phrase_at));
    let detail_at = m.len() - detail.len();
    assert(m.subrange(detail_at as int, m.len() as int) =~= detail);
    assert(contains_at(m, detail, detail_at as int));
}

} // verus!
