//! The text that the agent is given on its input.

use vstd::prelude::*;
use vstd::string::StringExecFns;
use crate::executor::{GeminiExecutor, GeminiFollowupExecutor};
use crate::entry::opt_text;
use crate::text::{format_uuid, uuid_text};

verus! {

/// The command line of the agent, as the shell is handed it.
pub const GEMINI_COMMAND: &'static str = "npx @google/gemini-cli@latest --yolo";

/// The environment variable that silences the agent's runtime warnings.
pub const QUIET_VARIABLE: &'static str = "NODE_NO_WARNINGS";

/// The value that the variable is set to.
pub const QUIET_VALUE: &'static str = "1";

/// What a task is known by.
#[derive(Debug, PartialEq, Eq)]
pub struct Task {
    pub id: u128,
    pub project_id: u128,
    pub title: String,
    pub description: Option<String>,
}

/// What an earlier attempt left behind.
#[derive(Debug, PartialEq, Eq)]
pub struct AttemptResumeContext {
    pub execution_history: String,
    pub cumulative_diffs: String,
}

/// The prompt of a fresh run: the project, the title and, where there is
/// one, the description.
pub open spec fn spawn_prompt(
    project_id: u128,
    title: Seq<char>,
    description: Option<Seq<char>>,
) -> Seq<char> {
    let head = "project_id: "@ + uuid_text(project_id) + "\n            \nTask title: "@ + title;
    match description {
        Some(d) => head + "\nTask description: "@ + d,
        None => head,
    }
}

/// The text itself, or the placeholder where the text is empty.
pub open spec fn or_placeholder(text: Seq<char>, placeholder: Seq<char>) -> Seq<char> {
    if text.len() == 0 {
        placeholder
    } else {
        text
    }
}

/// The description, or its placeholder where there is none or it is empty.
pub open spec fn description_or_placeholder(description: Option<Seq<char>>) -> Seq<char> {
    match description {
        Some(d) => or_placeholder(d, "No description provided"@),
        None => "No description provided"@,
    }
}

/// The prompt of a run that continues an earlier attempt: the task, the
/// history of the attempt, the changes so far, the new request and the
/// instructions, each under its heading.
pub open spec fn comprehensive_prompt(
    project_id: u128,
    task_id: u128,
    title: Seq<char>,
    description: Option<Seq<char>>,
    history: Seq<char>,
    diffs: Seq<char>,
    request: Seq<char>,
) -> Seq<char> {
    "RESUME CONTEXT FOR CONTINUING TASK\n\n=== TASK INFORMATION ===\nProject ID: "@ + uuid_text(
        project_id,
    ) + "\nTask ID: "@ + uuid_text(task_id) + "\nTask Title: "@ + title + "\nTask Description: "@
        + description_or_placeholder(description)
        + "\n\n=== EXECUTION HISTORY ===\nThe following is the execution history from this"@
        + " task attempt:\n\n"@
        + or_placeholder(history, "(No previous execution history)"@)
        + "\n\n=== CURRENT CHANGES ===\nThe following git diff shows changes made from the base branch to the current state:\n\n```diff\n"@
        + or_placeholder(diffs, "(No changes detected)"@) + "\n```\n\n=== CURRENT REQUEST ===\n"@
        + request
        + "\n\n=== INSTRUCTIONS ===\nYou are continuing work on the above task. The execution history shows what has been done previously, and the git diff shows the current state of all changes. Please continue from where the previous execution left off, taking into account all the context provided above.\n"@
}

impl GeminiExecutor {
    /// The prompt that a fresh run of the task is given.
    pub fn spawn_prompt(task: &Task) -> (prompt: String)
        ensures
            prompt@ == spawn_prompt(task.project_id, task.title@, opt_text(task.description)),
    {
        let mut prompt = "project_id: ".to_owned();
        prompt.append(format_uuid(task.project_id).as_str());
        prompt.append("\n            \nTask title: ");
        prompt.append(task.title.as_str());
        match &task.description {
            Some(d) => {
                prompt.append("\nTask description: ");
                prompt.append(d.as_str());
            },
            None => {},
        }
        prompt
    }
}

impl GeminiFollowupExecutor {
    /// The prompt that a run is given which continues this attempt.
    pub fn build_comprehensive_prompt(
        &self,
        task: &Task,
        resume_context: &AttemptResumeContext,
    ) -> (prompt: String)
        ensures
            prompt@ == comprehensive_prompt(
                task.project_id,
                task.id,
                task.title@,
                opt_text(task.description),
                resume_context.execution_history@,
                resume_context.cumulative_diffs@,
                self.prompt@,
            ),
    {
        let mut prompt =
            "RESUME CONTEXT FOR CONTINUING TASK\n\n=== TASK INFORMATION ===\nProject ID: ".to_owned();
        prompt.append(format_uuid(task.project_id).as_str());
        prompt.append("\nTask ID: ");
        prompt.append(format_uuid(task.id).as_str());
        prompt.append("\nTask Title: ");
        prompt.append(task.title.as_str());
        prompt.append("\nTask Description: ");
        match &task.description {
            Some(d) => {
                if d.as_str().is_empty() {
                    prompt.append("No description provided");
                } else {
                    prompt.append(d.as_str());
                }
            },
            None => {
                prompt.append("No description provided");
            },
        }
        prompt.append(
            "\n\n=== EXECUTION HISTORY ===\nThe following is the execution history from this",
        );
        prompt.append(" task attempt:\n\n");
        if resume_context.execution_history.as_str().is_empty() {
            prompt.append("(No previous execution history)");
        } else {
            prompt.append(resume_context.execution_history.as_str());
        }
        prompt.append(
            "\n\n=== CURRENT CHANGES ===\nThe following git diff shows changes made from the base branch to the current state:\n\n```diff\n",
        );
        if resume_context.cumulative_diffs.as_str().is_empty() {
            prompt.append("(No changes detected)");
        } else {
            prompt.append(resume_context.cumulative_diffs.as_str());
        }
        prompt.append("\n```\n\n=== CURRENT REQUEST ===\n");
        prompt.append(self.prompt.as_str());
        prompt.append(
            "\n\n=== INSTRUCTIONS ===\nYou are continuing work on the above task. The execution history shows what has been done previously, and the git diff shows the current state of all changes. Please continue from where the previous execution left off, taking into account all the context provided above.\n",
        );
        prompt
    }
}

} // verus!
