//! What is reported when starting the agent fails.

use vstd::prelude::*;
use vstd::string::StringExecFns;
use crate::text::{format_uuid, uuid_text};

verus! {

/// The step of starting the agent at which something failed.
#[derive(Debug, Clone, Copy, PartialEq, Eq, Structural)]
pub enum SpawnPhase {
    /// Creating the process.
    Create,
    /// Writing the prompt to its input.
    WritePrompt,
    /// Closing its input.
    ClosePrompt,
}

/// What a fresh run reports for a failure in the given phase.
pub open spec fn fresh_context(phase: SpawnPhase) -> Seq<char> {
    match phase {
        SpawnPhase::Create => "Gemini CLI execution for new task"@,
        SpawnPhase::WritePrompt => "Failed to write prompt to Gemini CLI stdin"@,
        SpawnPhase::ClosePrompt => "Failed to close Gemini CLI stdin"@,
    }
}

/// What a continuing run reports for a failure in the given phase, up to
/// the attempt's identifier.
pub open spec fn followup_context(phase: SpawnPhase) -> Seq<char> {
    match phase {
        SpawnPhase::Create => "Gemini CLI followup execution with context for attempt "@,
        SpawnPhase::WritePrompt => "Failed to write resume prompt to Gemini CLI stdin for attempt "@,
        SpawnPhase::ClosePrompt => "Failed to close Gemini CLI stdin for attempt "@,
    }
}

/// What is reported for a failure in the given phase: for a continuing
/// run, named by its attempt, the attempt is part of the report.
pub open spec fn failure_context(phase: SpawnPhase, attempt: Option<u128>) -> Seq<char> {
    match attempt {
        Some(a) => followup_context(phase) + uuid_text(a),
        None => fresh_context(phase),
    }
}

/// The report for a failure in the given phase, of a fresh run where
/// `attempt` is none, of the continuation of that attempt otherwise.
pub fn spawn_failure_context(phase: SpawnPhase, attempt: Option<u128>) -> (context: String)
    ensures
        context@ == failure_context(phase, attempt),
{
    match attempt {
        Some(a) => {
            let mut context = match phase {
                SpawnPhase::Create => "Gemini CLI followup execution with context for attempt ".to_owned(),
                SpawnPhase::WritePrompt => "Failed to write resume prompt to Gemini CLI stdin for attempt ".to_owned(),
                SpawnPhase::ClosePrompt => "Failed to close Gemini CLI stdin for attempt ".to_owned(),
            };
            context.append(format_uuid(a).as_str());
            context
        },
        None => match phase {
            SpawnPhase::Create => "Gemini CLI execution for new task".to_owned(),
            SpawnPhase::WritePrompt => "Failed to write prompt to Gemini CLI stdin".to_owned(),
            SpawnPhase::ClosePrompt => "Failed to close Gemini CLI stdin".to_owned(),
        },
    }
}

/// The session that a run is recorded under before its output begins: the
/// attempt's identifier as text.
pub fn session_id(attempt_id: u128) -> (session: String)
    ensures
        session@ == uuid_text(attempt_id),
{
    format_uuid(attempt_id)
}

} // verus!
