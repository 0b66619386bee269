//! Default values of the settings that a document may leave out.

use vstd::prelude::*;

verus! {

broadcast use vstd::string::to_string_from_display_ensures_for_str;

/// What a list of strings holds, each string as its characters.
pub open spec fn strings_view(strings: Seq<String>) -> Seq<Seq<char>> {
    strings.map_values(|s: String| s@)
}

/// Milliseconds allowed to the tagging tool when the document names no limit.
pub const DEFAULT_CTAGS_TIMEOUT_MS: u64 = 500;

/// The time limit of the tagging tool when the document names none.
pub fn default_ctags_timeout_ms() -> (ms: u64)
    ensures
        ms == DEFAULT_CTAGS_TIMEOUT_MS,
        ms == 500,
{
    DEFAULT_CTAGS_TIMEOUT_MS
}

/// The value of a switch that is off unless the document turns it on.
pub fn default_false() -> (flag: bool)
    ensures
        !flag,
{
    false
}

/// The value of a switch that is on unless the document turns it off.
pub fn default_true() -> (flag: bool)
    ensures
        flag,
{
    true
}

/// The model of the hosted backend when the document names none.
pub open spec fn default_openai_model_spec() -> Seq<char> {
    "gpt-4o"@
}

/// The command whose output is the hosted backend's credential when the
/// document names none: a shell that prints the variable `OPENAI_API_KEY`.
pub open spec fn default_openai_api_key_cmd_spec() -> Seq<Seq<char>> {
    seq!["sh"@, "-c"@, "echo $OPENAI_API_KEY"@]
}

/// The instruction given to the active backend when the document gives none.
pub open spec fn default_inline_assist_system_prompt_spec() -> Seq<char> {
    "You are an inline assistant for a code editor. Your response to user prompts will be used \
        to replace code in the editor."@
}

/// The prompt template used when the document gives none. It holds the
/// markers `{{language_id}}` and `{{text}}` and forbids code fences.
pub open spec fn default_inline_assist_prompt_template_spec() -> Seq<char> {
    "I'm working within the {{language_id}} language. If I show you code below, then please \
        rewrite it to make improvements as you see fit. If I show you a question or directive, \
        write code to satisfy the question or directive. Never use markdown to format your response. \
        For example, do not use triple backticks (```).\n\n\
        {{text}}\n"@
}

/// The model of the hosted backend when the document names none.
pub fn default_openai_model() -> (model: String)
    ensures
        model@ == default_openai_model_spec(),
{
    "gpt-4o".to_string()
}

/// The credential command of the hosted backend when the document names none.
pub fn default_openai_api_key_cmd() -> (cmd: Vec<String>)
    ensures
        strings_view(cmd@) == default_openai_api_key_cmd_spec(),
{
    let mut cmd: Vec<String> = Vec::new();
    cmd.push("sh".to_string());
    cmd.push("-c".to_string());
    cmd.push("echo $OPENAI_API_KEY".to_string());
    assert(strings_view(cmd@) =~= default_openai_api_key_cmd_spec());
    cmd
}

/// The prompt template used when the document gives none.
pub fn default_inline_assist_prompt_template() -> (template: String)
    ensures
        template@ == default_inline_assist_prompt_template_spec(),
{
    "I'm working within the {{language_id}} language. If I show you code below, then please \
        rewrite it to make improvements as you see fit. If I show you a question or directive, \
        write code to satisfy the question or directive. Never use markdown to format your response. \
        For example, do not use triple backticks (```).\n\n\
        {{text}}\n".to_string()
}

/// The system prompt used when the document gives none.
pub fn default_inline_assist_system_prompt() -> (prompt: String)
    ensures
        prompt@ == default_inline_assist_system_prompt_spec(),
{
    "You are an inline assistant for a code editor. Your response to user prompts will be used \
        to replace code in the editor.".to_string()
}

} // verus!
