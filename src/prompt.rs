//! The request sent to a model.

use vstd::prelude::*;
use vstd::string::*;

verus! {

/// A request with the command and explanation it produced.
#[derive(Debug)]
pub struct Prompt {
    pub user_input: String,
    pub command: String,
    pub explanation: String,
}

impl Prompt {
    pub fn new(user_input: String, command: String, explanation: String) -> (r: Self)
        ensures
            r.user_input == user_input,
            r.command == command,
            r.explanation == explanation,
    {
        Prompt { user_input, command, explanation }
    }
}

/// The shell named in prompts on Unix-like systems.
pub open spec fn unix_shell() -> Seq<char> {
    "Unix/Linux bash"@
}

/// The request for a command for `os_type` that does what `user_input` asks,
/// answered in the JSON form the parser reads first.
pub open spec fn prompt_text(os_type: Seq<char>, user_input: Seq<char>) -> Seq<char> {
    "You are a shell command assistant. Convert the following natural language query into a "@
        + os_type
        + " command.\nYour response must be in this JSON format:\n{\n  \"command\": \"the actual shell command\",\n  \"explanation\": \"brief explanation of what the command does\"\n}\n\nThe command should be valid for "@
        + os_type
        + ". Do not include any markdown formatting, just return valid JSON.\n\nUSER QUERY: "@
        + user_input + "\n"@
}

/// The prompt for a shell named `os_type`.
pub fn construct_prompt_for(os_type: &str, user_input: &str) -> (r: String)
    ensures
        r@ == prompt_text(os_type@, user_input@),
{
    let mut r = String::from_str(
        "You are a shell command assistant. Convert the following natural language query into a ",
    );
    r.append(os_type);
    r.append(
        " command.\nYour response must be in this JSON format:\n{\n  \"command\": \"the actual shell command\",\n  \"explanation\": \"brief explanation of what the command does\"\n}\n\nThe command should be valid for ",
    );
    r.append(os_type);
    r.append(". Do not include any markdown formatting, just return valid JSON.\n\nUSER QUERY: ");
    r.append(user_input);
    r.append("\n");
    r
}

/// The prompt for a Unix shell.
pub fn construct_prompt(user_input: &str) -> (r: String)
    ensures
        r@ == prompt_text(unix_shell(), user_input@),
{
    construct_prompt_for("Unix/Linux bash", user_input)
}

} // verus!
