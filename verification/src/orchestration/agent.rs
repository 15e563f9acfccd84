//! The agent expert: plans actions from content and renders what each
//! tool would do.  Nothing is executed here; running a command or a
//! request is the embedding application's business.

use vstd::prelude::*;
use vstd::string::{StringExecFns, StringSliceAdditionalSpecFns};
use crate::bytes::{is_sub, str_contains, str_eq};
use crate::orchestration::experts::ExpertError;
use crate::orchestration::types::{
    Artifact, ExpertResult, ExpertType, ResultStatus, TranslatedContent,
};
use crate::text::{lower_of, to_lowercase};

verus! {

/// One planned action: which tool, what it was asked, and whether it
/// could destroy data.
pub struct Action {
    pub tool: String,
    pub command: String,
    pub destructive: bool,
}

/// The lowercased text asks for an HTTP request.
pub open spec fn spec_wants_http(lb: Seq<u8>) -> bool {
    is_sub(lb, "fetch".spec_bytes()) || is_sub(lb, "get".spec_bytes()) || is_sub(
        lb,
        "http".spec_bytes(),
    )
}

/// The lowercased text asks for a command execution.
pub open spec fn spec_wants_bash(lb: Seq<u8>) -> bool {
    is_sub(lb, "run".spec_bytes()) || is_sub(lb, "execute".spec_bytes()) || is_sub(
        lb,
        "command".spec_bytes(),
    )
}

/// The lowercased text asks for a file operation.
pub open spec fn spec_wants_file(lb: Seq<u8>) -> bool {
    is_sub(lb, "read file".spec_bytes()) || is_sub(lb, "write file".spec_bytes())
}

/// The lowercased text names a destructive operation.
pub open spec fn spec_destructive(lb: Seq<u8>) -> bool {
    is_sub(lb, "delete".spec_bytes()) || is_sub(lb, "remove".spec_bytes()) || is_sub(
        lb,
        "rm ".spec_bytes(),
    ) || is_sub(lb, "drop".spec_bytes()) || is_sub(lb, "truncate".spec_bytes()) || is_sub(
        lb,
        "force".spec_bytes(),
    ) || is_sub(lb, "overwrite".spec_bytes()) || is_sub(lb, "wipe".spec_bytes()) || is_sub(
        lb,
        "erase".spec_bytes(),
    )
}

/// How many actions the planner emits for the lowercased text (at least
/// one: with nothing recognized, a single analysis action).
pub open spec fn spec_action_count(lb: Seq<u8>) -> int {
    let k = (if spec_wants_http(lb) {
        1int
    } else {
        0int
    }) + (if spec_wants_bash(lb) {
        1int
    } else {
        0int
    }) + (if spec_wants_file(lb) {
        1int
    } else {
        0int
    });
    if k == 0 {
        1
    } else {
        k
    }
}

/// The agent: allowed tools, and whether destructive actions demand
/// confirmation.
pub struct AgentExpert {
    confirm_destructive: bool,
    allowed_tools: Vec<String>,
}

impl AgentExpert {
    pub closed spec fn spec_confirm(&self) -> bool {
        self.confirm_destructive
    }

    pub closed spec fn spec_tools(&self) -> Seq<String> {
        self.allowed_tools@
    }

    /// The default agent: confirmation on, the three standard tools.
    pub fn new() -> (r: Self)
        ensures
            r.spec_confirm(),
            r.spec_tools().len() == 3,
            r.spec_tools()[0]@ == "bash"@,
            r.spec_tools()[1]@ == "http"@,
            r.spec_tools()[2]@ == "file"@,
    {
        AgentExpert {
            confirm_destructive: true,
            allowed_tools: crate::orchestration::types::default_allowed_tools(),
        }
    }

    /// An agent restricted to the given tools, confirmation on.
    pub fn with_tools(allowed_tools: Vec<String>) -> (r: Self)
        ensures
            r.spec_confirm(),
            r.spec_tools() == allowed_tools@,
    {
        AgentExpert { confirm_destructive: true, allowed_tools }
    }

    pub fn expert_type(&self) -> (r: ExpertType)
        ensures
            r == ExpertType::Agent,
    {
        ExpertType::Agent
    }

    pub fn capabilities(&self) -> (r: &'static str)
        ensures
            r@ == "Executes actions using available tools (bash, HTTP, file operations)"@,
    {
        "Executes actions using available tools (bash, HTTP, file operations)"
    }

    /// Whether the (already lowercased) text names a destructive
    /// operation, by the fixed keyword list.
    pub fn might_be_destructive(&self, text: &str) -> (r: bool)
        ensures
            r == spec_destructive(text.spec_bytes()),
    {
        str_contains(text, "delete") || str_contains(text, "remove") || str_contains(text, "rm ")
            || str_contains(text, "drop") || str_contains(text, "truncate") || str_contains(
            text,
            "force",
        ) || str_contains(text, "overwrite") || str_contains(text, "wipe") || str_contains(
            text,
            "erase",
        )
    }

    /// Plan the actions the content asks for, scanning its lowercased
    /// text: an HTTP request, a command execution and a file operation,
    /// in that order, each present exactly when its keywords occur; with
    /// none of them, one analysis action.
    pub fn determine_actions(&self, content: &TranslatedContent) -> (r: Vec<Action>)
        ensures
            ({
                let lb = vstd::utf8::encode_utf8(lower_of(content.text@));
                let h = spec_wants_http(lb);
                let b = spec_wants_bash(lb);
                let f = spec_wants_file(lb);
                r@.len() == spec_action_count(lb) && (h ==> r@[0].tool@ == "http"@
                    && !r@[0].destructive) && (b ==> {
                    let i = if h {
                        1int
                    } else {
                        0int
                    };
                    r@[i].tool@ == "bash"@ && r@[i].destructive == spec_destructive(lb)
                }) && (f ==> {
                    let i = (if h {
                        1int
                    } else {
                        0int
                    }) + (if b {
                        1int
                    } else {
                        0int
                    });
                    r@[i].tool@ == "file"@ && r@[i].destructive == (is_sub(
                        lb,
                        "write".spec_bytes(),
                    ) || is_sub(lb, "delete".spec_bytes()))
                }) && (!h && !b && !f ==> r@[0].tool@ == "analysis"@ && !r@[0].destructive)
            }),
    {
        let lowered = to_lowercase(content.text.as_str());
        let text_lower = lowered.as_str();
        let mut actions: Vec<Action> = Vec::new();
        let h = str_contains(text_lower, "fetch") || str_contains(text_lower, "get")
            || str_contains(text_lower, "http");
        let b = str_contains(text_lower, "run") || str_contains(text_lower, "execute")
            || str_contains(text_lower, "command");
        let f = str_contains(text_lower, "read file") || str_contains(text_lower, "write file");
        if h {
            actions.push(Action {
                tool: "http".to_owned(),
                command: "HTTP request detected".to_owned(),
                destructive: false,
            });
        }
        if b {
            actions.push(Action {
                tool: "bash".to_owned(),
                command: "Command execution detected".to_owned(),
                destructive: self.might_be_destructive(text_lower),
            });
        }
        if f {
            actions.push(Action {
                tool: "file".to_owned(),
                command: "File operation detected".to_owned(),
                destructive: str_contains(text_lower, "write") || str_contains(
                    text_lower,
                    "delete",
                ),
            });
        }
        if actions.len() == 0 {
            actions.push(Action {
                tool: "analysis".to_owned(),
                command: "Analyze content for actionable items".to_owned(),
                destructive: false,
            });
        }
        actions
    }

    /// Whether a tool is in the allowed list.
    fn tool_allowed(&self, tool: &str) -> (r: bool)
        ensures
            r == exists|j: int|
                0 <= j < self.spec_tools().len() && (#[trigger] self.spec_tools()[j])@ == tool@,
    {
        let n = self.allowed_tools.len();
        let mut i: usize = 0;
        while i < n
            invariant
                n == self.spec_tools().len(),
                0 <= i <= n,
                forall|j: int| 0 <= j < i ==> (#[trigger] self.spec_tools()[j])@ != tool@,
            decreases n - i,
        {
            if str_eq(self.allowed_tools[i].as_str(), tool) {
                return true;
            }
            i += 1;
        }
        false
    }

    /// Render what one action does.  A tool outside the allowed list is a
    /// configuration error; a destructive action under confirmation is
    /// answered with a confirmation notice instead of a result; an
    /// unknown allowed tool is a processing error.
    pub fn execute_action(&self, action: &Action) -> (r: Result<String, ExpertError>)
        ensures
            !(exists|j: int|
                0 <= j < self.spec_tools().len() && (#[trigger] self.spec_tools()[j])@
                    == action.tool@) ==> r is Err && r->Err_0 is ConfigError,
    {
        if !self.tool_allowed(action.tool.as_str()) {
            let mut m = String::new();
            m.append("Tool '");
            m.append(action.tool.as_str());
            m.append("' is not in allowed tools list");
            return Err(ExpertError::ConfigError(m));
        }
        if action.destructive && self.confirm_destructive {
            let mut m = String::new();
            m.append("Destructive action detected: ");
            m.append(action.command.as_str());
            m.append("\nTool: ");
            m.append(action.tool.as_str());
            m.append("\nStatus: Requires confirmation (confirmation system not yet implemented)");
            return Ok(m);
        }
        if str_eq(action.tool.as_str(), "bash") {
            let mut m = String::new();
            m.append("Bash command analysis:\nCommand: ");
            m.append(action.command.as_str());
            m.append(
                "\nStatus: Simulated (actual execution requires user approval)\n\nTo execute, the system would:\n1. Validate command safety\n2. Run in isolated environment\n3. Capture output and errors\n4. Return results",
            );
            Ok(m)
        } else if str_eq(action.tool.as_str(), "http") {
            Ok(
                "HTTP request capability available:\n- GET/POST/PUT/DELETE requests\n- Header customization\n- Authentication support\n- Response parsing\n\nNote: Actual HTTP execution would require specific endpoint details".to_owned(),
            )
        } else if str_eq(action.tool.as_str(), "file") {
            let mut m = String::new();
            m.append("File operation analysis:\nOperation: ");
            m.append(action.command.as_str());
            m.append(
                "\n\nAvailable file operations:\n- Read files\n- Write files\n- List directories\n- Move/copy files\n\nNote: File system access requires proper permissions",
            );
            Ok(m)
        } else if str_eq(action.tool.as_str(), "analysis") {
            Ok(
                "Action Analysis:\n\nNo specific executable actions detected in the content.\n\nThe Agent expert can help with:\n- Running shell commands\n- Making HTTP/API requests\n- File system operations\n- Data transformations\n- External service integrations\n\nPlease provide more specific action requests.".to_owned(),
            )
        } else {
            let mut m = String::new();
            m.append("Unknown tool: ");
            m.append(action.tool.as_str());
            Err(ExpertError::ProcessingError(m))
        }
    }

    /// Plan and render every action.  Failures of single actions become
    /// failure lines in the output; the overall result always succeeds,
    /// with one artifact per action that rendered.
    pub fn process(&self, content: &TranslatedContent) -> (r: Result<ExpertResult, ExpertError>)
        ensures
            r is Ok,
            r->Ok_0.expert == ExpertType::Agent,
            r->Ok_0.status == ResultStatus::Success,
            r->Ok_0.error is None,
    {
        let actions = self.determine_actions(content);
        let mut outputs = String::new();
        let mut artifacts: Vec<Artifact> = Vec::new();
        let n = actions.len();
        let mut i: usize = 0;
        while i < n
            invariant
                n == actions@.len(),
                0 <= i <= n,
            decreases n - i,
        {
            if i > 0 {
                outputs.append("\n\n---\n\n");
            }
            match self.execute_action(&actions[i]) {
                Ok(result) => {
                    let mut name = String::new();
                    name.append("action_");
                    name.append(actions[i].tool.as_str());
                    name.append(".txt");
                    artifacts.push(
                        Artifact::new(name.as_str(), result.as_str(), "action_result"),
                    );
                    outputs.append(result.as_str());
                },
                Err(e) => {
                    outputs.append("Action failed: ");
                    let m = e.message();
                    outputs.append(m.as_str());
                },
            }
            i += 1;
        }
        let mut output = String::new();
        output.append("Executed ");
        let count = crate::text::u64_to_string(n as u64);
        output.append(count.as_str());
        output.append(" action(s):\n\n");
        output.append(outputs.as_str());
        Ok(ExpertResult::success(ExpertType::Agent, output).with_artifacts(artifacts))
    }
}

impl crate::orchestration::experts::Expert for AgentExpert {
    fn expert_type(&self) -> ExpertType {
        ExpertType::Agent
    }

    fn capabilities(&self) -> &'static str {
        "Executes actions using available tools (bash, HTTP, file operations)"
    }
}

} // verus!
