use pickls_config::config::{
    OllamaConfig, OpenAIConfig, PicklsAIConfig, PicklsAIProvider, PicklsConfig,
    PicklsLanguageConfig,
};
use pickls_config::defaults::{
    default_ctags_timeout_ms, default_false, default_inline_assist_prompt_template,
    default_inline_assist_system_prompt, default_openai_api_key_cmd, default_openai_model,
    default_true, DEFAULT_CTAGS_TIMEOUT_MS,
};

#[test]
fn ctags_timeout_defaults_to_500() {
    assert_eq!(default_ctags_timeout_ms(), 500);
    assert_eq!(DEFAULT_CTAGS_TIMEOUT_MS, 500);
}

#[test]
fn switch_defaults() {
    assert!(!default_false());
    assert!(default_true());
}

#[test]
fn openai_model_defaults_to_gpt_4o() {
    assert_eq!(default_openai_model(), "gpt-4o");
}

#[test]
fn api_key_cmd_defaults_to_shell_indirection() {
    assert_eq!(
        default_openai_api_key_cmd(),
        vec!["sh".to_string(), "-c".to_string(), "echo $OPENAI_API_KEY".to_string()]
    );
}

#[test]
fn system_prompt_default_is_verbatim() {
    assert_eq!(
        default_inline_assist_system_prompt(),
        "You are an inline assistant for a code editor. Your response to user prompts will be used to replace code in the editor."
    );
}

#[test]
fn prompt_template_default_is_verbatim() {
    let template = default_inline_assist_prompt_template();
    assert_eq!(
        template,
        "I'm working within the {{language_id}} language. If I show you code below, then please rewrite it to make improvements as you see fit. If I show you a question or directive, write code to satisfy the question or directive. Never use markdown to format your response. For example, do not use triple backticks (```).\n\n{{text}}\n"
    );
    assert!(template.contains("{{language_id}}"));
    assert!(template.contains("{{text}}"));
}

#[test]
fn openai_config_default() {
    let openai = OpenAIConfig::default();
    assert_eq!(openai.model, "gpt-4o");
    assert_eq!(openai.api_key_cmd, vec!["sh", "-c", "echo $OPENAI_API_KEY"]);
}

#[test]
fn ollama_config_default_is_empty() {
    let ollama = OllamaConfig::default();
    assert_eq!(ollama.model, "");
    assert_eq!(ollama.api_address, "");
}

#[test]
fn provider_defaults_to_hosted() {
    assert_eq!(PicklsAIProvider::default(), PicklsAIProvider::OpenAI);
}

#[test]
fn language_default_is_empty() {
    let language = PicklsLanguageConfig::default();
    assert!(language.root_markers.is_empty());
    assert!(language.linters.is_empty());
    assert!(language.formatters.is_empty());
}

#[test]
fn ai_config_default() {
    let ai = PicklsAIConfig::default();
    assert_eq!(ai.inline_assist_provider, PicklsAIProvider::OpenAI);
    assert_eq!(ai.system_prompt, default_inline_assist_system_prompt());
    assert_eq!(ai.inline_assist_prompt_template, default_inline_assist_prompt_template());
    assert_eq!(ai.openai, None);
    assert_eq!(ai.ollama, None);
}

#[test]
fn config_default() {
    let config = PicklsConfig::default();
    assert!(config.languages.is_empty());
    assert_eq!(config.symbols, None);
    assert_eq!(config.ai, PicklsAIConfig::default());
    assert!(config.is_well_formed());
}
