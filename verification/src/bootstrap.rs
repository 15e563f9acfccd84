//! The system prompt of the tool-running assistant.

use vstd::prelude::*;

verus! {

/// The fixed prompt describing the three tools and how to call them.
pub fn get_system_prompt() -> (r: String)
    ensures
        r@ == "You have 3 tools. Output JSON to use them:\n\n{\"tool\": \"write_file\", \"arguments\": {\"path\": \"file.lua\", \"content\": \"code here\"}}\n{\"tool\": \"read_file\", \"arguments\": {\"path\": \"file.lua\"}}\n{\"tool\": \"run_file\", \"arguments\": {\"path\": \"file.lua\"}}\n\nExample: To create and run calculator.lua:\n{\"tool\": \"write_file\", \"arguments\": {\"path\": \"calculator.lua\", \"content\": \"print(42 + 58)\"}}\n{\"tool\": \"run_file\", \"arguments\": {\"path\": \"calculator.lua\"}}"@,
{
    "You have 3 tools. Output JSON to use them:\n\n{\"tool\": \"write_file\", \"arguments\": {\"path\": \"file.lua\", \"content\": \"code here\"}}\n{\"tool\": \"read_file\", \"arguments\": {\"path\": \"file.lua\"}}\n{\"tool\": \"run_file\", \"arguments\": {\"path\": \"file.lua\"}}\n\nExample: To create and run calculator.lua:\n{\"tool\": \"write_file\", \"arguments\": {\"path\": \"calculator.lua\", \"content\": \"print(42 + 58)\"}}\n{\"tool\": \"run_file\", \"arguments\": {\"path\": \"calculator.lua\"}}".to_owned()
}

} // verus!
