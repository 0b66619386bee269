use pickls_config::backend::{ActiveBackend, BackendError};
use pickls_config::config::{
    OllamaConfig, OpenAIConfig, PicklsAIProvider, PicklsConfig, PicklsSymbolsConfig,
    PicklsSymbolsSource,
};
use pickls_config::defaults::{
    default_inline_assist_prompt_template, default_inline_assist_system_prompt,
};
use pickls_config::document::{
    AIDocument, ConfigDocument, FormatterDocument, LanguageDocument, LinterDocument,
    OllamaDocument, OpenAIDocument, SymbolsDocument,
};
use pickls_config::linter::DescriptionSource;
use pickls_config::resolve::DecodeError;

fn empty_document() -> ConfigDocument {
    ConfigDocument { languages: None, symbols: None, ai: None }
}

fn empty_ai() -> AIDocument {
    AIDocument {
        system_prompt: None,
        inline_assist_provider: None,
        inline_assist_prompt_template: None,
        openai: None,
        ollama: None,
    }
}

fn empty_language() -> LanguageDocument {
    LanguageDocument { root_markers: None, linters: None, formatters: None }
}

fn flake8() -> LinterDocument {
    LinterDocument {
        program: "flake8".to_string(),
        args: None,
        use_stdin: false,
        pattern: "(\\d+):(\\d+): (.*)".to_string(),
        filename_match: None,
        line_match: 1,
        start_col_match: None,
        end_col_match: None,
        severity_match: None,
        description_match: Some(-1),
        use_stderr: None,
    }
}

fn black() -> FormatterDocument {
    FormatterDocument {
        program: "black".to_string(),
        args: vec!["-".to_string()],
        use_stdin: None,
        stderr_indicates_error: None,
    }
}

#[test]
fn empty_document_resolves_to_the_default_configuration() {
    let config = empty_document().resolve().unwrap();
    assert_eq!(config, PicklsConfig::default());
}

#[test]
fn absent_ctags_timeout_is_500() {
    let symbols = SymbolsDocument { source: "universal-ctags".to_string(), ctags_timeout_ms: None };
    assert_eq!(
        symbols.resolve(),
        Ok(PicklsSymbolsConfig { source: PicklsSymbolsSource::UniversalCtags, ctags_timeout_ms: 500 })
    );
}

#[test]
fn given_ctags_timeout_is_kept() {
    let symbols =
        SymbolsDocument { source: "universal-ctags".to_string(), ctags_timeout_ms: Some(1250) };
    assert_eq!(symbols.resolve().unwrap().ctags_timeout_ms, 1250);
}

#[test]
fn unknown_symbols_source_is_rejected() {
    let symbols = SymbolsDocument { source: "etags".to_string(), ctags_timeout_ms: None };
    assert_eq!(symbols.resolve(), Err(DecodeError::UnknownSymbolsSource));
    let shouting = SymbolsDocument { source: "Universal-Ctags".to_string(), ctags_timeout_ms: None };
    assert_eq!(shouting.resolve(), Err(DecodeError::UnknownSymbolsSource));
    let mut doc = empty_document();
    doc.symbols = Some(symbols);
    assert_eq!(doc.resolve(), Err(DecodeError::UnknownSymbolsSource));
}

#[test]
fn unknown_provider_is_rejected() {
    let mut ai = empty_ai();
    ai.inline_assist_provider = Some("anthropic".to_string());
    assert_eq!(ai.resolve(), Err(DecodeError::UnknownProvider));
    let mut spelled = empty_ai();
    spelled.inline_assist_provider = Some("OpenAI".to_string());
    assert_eq!(spelled.resolve(), Err(DecodeError::UnknownProvider));
    let mut doc = empty_document();
    doc.ai = Some(ai);
    assert_eq!(doc.resolve(), Err(DecodeError::UnknownProvider));
}

#[test]
fn known_provider_words_are_read() {
    let mut ai = empty_ai();
    ai.inline_assist_provider = Some("openai".to_string());
    assert_eq!(ai.resolve().unwrap().inline_assist_provider, PicklsAIProvider::OpenAI);
    ai.inline_assist_provider = Some("ollama".to_string());
    assert_eq!(ai.resolve().unwrap().inline_assist_provider, PicklsAIProvider::Ollama);
}

#[test]
fn absent_provider_is_the_hosted_family() {
    let ai = empty_ai().resolve().unwrap();
    assert_eq!(ai.inline_assist_provider, PicklsAIProvider::OpenAI);
}

#[test]
fn absent_openai_model_is_gpt_4o() {
    let openai = OpenAIDocument { model: None, api_key_cmd: None }.resolve();
    assert_eq!(openai.model, "gpt-4o");
    assert_eq!(openai.api_key_cmd, vec!["sh", "-c", "echo $OPENAI_API_KEY"]);
    assert_eq!(openai, OpenAIConfig::default());
}

#[test]
fn given_openai_settings_are_kept() {
    let openai = OpenAIDocument {
        model: Some("gpt-4o-mini".to_string()),
        api_key_cmd: Some(vec!["pass".to_string(), "show".to_string(), "openai".to_string()]),
    }
    .resolve();
    assert_eq!(openai.model, "gpt-4o-mini");
    assert_eq!(openai.api_key_cmd, vec!["pass", "show", "openai"]);
}

#[test]
fn absent_use_stderr_is_false() {
    let linter = flake8().resolve();
    assert!(!linter.use_stderr);
    assert!(linter.args.is_empty());
    assert_eq!(linter.program, "flake8");
    assert_eq!(linter.pattern, "(\\d+):(\\d+): (.*)");
    assert_eq!(linter.line_match, 1);
    let mut loud = flake8();
    loud.use_stderr = Some(true);
    loud.args = Some(vec!["$filename".to_string()]);
    let linter = loud.resolve();
    assert!(linter.use_stderr);
    assert_eq!(linter.args, vec!["$filename"]);
}

#[test]
fn absent_formatter_use_stdin_is_true() {
    let formatter = black().resolve();
    assert!(formatter.use_stdin);
    assert!(!formatter.stderr_indicates_error);
    assert_eq!(formatter.program, "black");
    assert_eq!(formatter.args, vec!["-"]);
    let mut strict = black();
    strict.use_stdin = Some(false);
    strict.stderr_indicates_error = Some(true);
    let formatter = strict.resolve();
    assert!(!formatter.use_stdin);
    assert!(formatter.stderr_indicates_error);
}

#[test]
fn previous_line_sentinel_is_accepted_and_kept() {
    let linter = flake8().resolve();
    assert_eq!(linter.description_match, Some(-1));
    assert_eq!(linter.description_source(), DescriptionSource::PreviousLine);
    let mut third = flake8();
    third.description_match = Some(3);
    assert_eq!(third.resolve().description_source(), DescriptionSource::Group(3));
    let mut none = flake8();
    none.description_match = None;
    assert_eq!(none.resolve().description_source(), DescriptionSource::Absent);
}

#[test]
fn python_with_one_linter_and_no_formatters() {
    let mut python = empty_language();
    python.linters = Some(vec![flake8()]);
    let mut doc = empty_document();
    doc.languages = Some(vec![("python".to_string(), python)]);
    let config = doc.resolve().unwrap();
    let language = config.language("python").unwrap();
    assert!(language.formatters.is_empty());
    assert!(language.root_markers.is_empty());
    assert_eq!(language.linters.len(), 1);
    assert!(!language.linters[0].use_stderr);
    assert!(!language.linters[0].use_stdin);
    assert_eq!(language.linters[0].program, "flake8");
    assert_eq!(language.linters[0].description_match, Some(-1));
    assert!(language.linters[0].refers_to_groups_of(3));
}

#[test]
fn omitted_ai_section_takes_every_default() {
    let config = empty_document().resolve().unwrap();
    assert_eq!(config.ai.inline_assist_provider, PicklsAIProvider::OpenAI);
    assert_eq!(config.ai.openai, None);
    assert_eq!(config.ai.ollama, None);
    assert_eq!(config.ai.system_prompt, default_inline_assist_system_prompt());
    assert_eq!(
        config.ai.system_prompt,
        "You are an inline assistant for a code editor. Your response to user prompts will be used to replace code in the editor."
    );
    assert_eq!(config.ai.inline_assist_prompt_template, default_inline_assist_prompt_template());
}

#[test]
fn local_family_without_model_decodes_and_fails_at_use() {
    let mut ai = empty_ai();
    ai.inline_assist_provider = Some("ollama".to_string());
    ai.ollama = Some(OllamaDocument {
        model: None,
        api_address: Some("http://localhost:11434/api/generate".to_string()),
    });
    let mut doc = empty_document();
    doc.ai = Some(ai);
    let config = doc.resolve().unwrap();
    assert_eq!(config.ai.inline_assist_provider, PicklsAIProvider::Ollama);
    assert_eq!(
        config.ai.ollama,
        Some(OllamaConfig {
            model: String::new(),
            api_address: "http://localhost:11434/api/generate".to_string(),
        })
    );
    assert_eq!(config.ai.active_backend(), Err(BackendError::MissingModel));
    assert_eq!(config.ai.local_backend(), Err(BackendError::MissingModel));
    assert_eq!(config.ai.hosted_backend(), Err(BackendError::NotSelected));
    assert_ne!(BackendError::MissingModel, BackendError::NotSelected);
}

#[test]
fn local_family_without_block_decodes_and_fails_at_use() {
    let mut ai = empty_ai();
    ai.inline_assist_provider = Some("ollama".to_string());
    let config = ai.resolve().unwrap();
    assert_eq!(config.ollama, None);
    assert_eq!(config.active_backend(), Err(BackendError::MissingBlock));
}

#[test]
fn local_family_with_model_is_active() {
    let mut ai = empty_ai();
    ai.inline_assist_provider = Some("ollama".to_string());
    ai.ollama = Some(OllamaDocument { model: Some("llama3.2".to_string()), api_address: None });
    ai.openai = Some(OpenAIDocument { model: None, api_key_cmd: None });
    let config = ai.resolve().unwrap();
    assert_eq!(
        config.active_backend(),
        Ok(ActiveBackend::Local(OllamaConfig {
            model: "llama3.2".to_string(),
            api_address: String::new(),
        }))
    );
}

#[test]
fn repeated_language_is_rejected() {
    let mut doc = empty_document();
    doc.languages = Some(vec![
        ("python".to_string(), empty_language()),
        ("rust".to_string(), empty_language()),
        ("go".to_string(), empty_language()),
        ("rust".to_string(), empty_language()),
        ("python".to_string(), empty_language()),
    ]);
    assert_eq!(doc.resolve(), Err(DecodeError::DuplicateLanguage { index: 3 }));
}

#[test]
fn repeated_language_is_reported_before_unknown_words() {
    let mut ai = empty_ai();
    ai.inline_assist_provider = Some("nobody".to_string());
    let doc = ConfigDocument {
        languages: Some(vec![
            ("c".to_string(), empty_language()),
            ("c".to_string(), empty_language()),
        ]),
        symbols: Some(SymbolsDocument { source: "nothing".to_string(), ctags_timeout_ms: None }),
        ai: Some(ai.clone()),
    };
    assert_eq!(doc.resolve(), Err(DecodeError::DuplicateLanguage { index: 1 }));
    let doc = ConfigDocument {
        languages: None,
        symbols: Some(SymbolsDocument { source: "nothing".to_string(), ctags_timeout_ms: None }),
        ai: Some(ai),
    };
    assert_eq!(doc.resolve(), Err(DecodeError::UnknownSymbolsSource));
}

#[test]
fn languages_keep_their_lists_in_order() {
    let mut second = flake8();
    second.program = "pylint".to_string();
    let mut isort = black();
    isort.program = "isort".to_string();
    let python = LanguageDocument {
        root_markers: Some(vec!["pyproject.toml".to_string(), "setup.py".to_string()]),
        linters: Some(vec![flake8(), second]),
        formatters: Some(vec![isort, black()]),
    };
    let mut doc = empty_document();
    doc.languages = Some(vec![("python".to_string(), python)]);
    let config = doc.resolve().unwrap();
    let language = config.language("python").unwrap();
    assert_eq!(language.root_markers, vec!["pyproject.toml", "setup.py"]);
    assert_eq!(language.linters[0].program, "flake8");
    assert_eq!(language.linters[1].program, "pylint");
    assert_eq!(language.formatters[0].program, "isort");
    assert_eq!(language.formatters[1].program, "black");
}

#[test]
fn round_trip_gives_the_same_configuration() {
    let mut ai = empty_ai();
    ai.inline_assist_provider = Some("ollama".to_string());
    ai.ollama = Some(OllamaDocument { model: None, api_address: None });
    ai.openai = Some(OpenAIDocument { model: None, api_key_cmd: None });
    let python = LanguageDocument {
        root_markers: None,
        linters: Some(vec![flake8()]),
        formatters: Some(vec![black()]),
    };
    let doc = ConfigDocument {
        languages: Some(vec![
            ("python".to_string(), python),
            ("rust".to_string(), empty_language()),
        ]),
        symbols: Some(SymbolsDocument { source: "universal-ctags".to_string(), ctags_timeout_ms: None }),
        ai: Some(ai),
    };
    let config = doc.resolve().unwrap();
    let spelled_out = config.to_document();
    assert_ne!(spelled_out, doc);
    let again = spelled_out.resolve().unwrap();
    assert_eq!(again, config);
    assert_eq!(again.to_document(), spelled_out);
}

#[test]
fn round_trip_of_the_default_configuration() {
    let config = PicklsConfig::default();
    assert_eq!(config.to_document().resolve(), Ok(config));
}

#[test]
fn spelled_out_document_names_every_setting() {
    let doc = flake8().resolve().to_document();
    assert_eq!(doc.args, Some(Vec::new()));
    assert_eq!(doc.use_stderr, Some(false));
    assert_eq!(doc.description_match, Some(-1));
    let doc = black().resolve().to_document();
    assert_eq!(doc.use_stdin, Some(true));
    assert_eq!(doc.stderr_indicates_error, Some(false));
    let doc = PicklsSymbolsConfig { source: PicklsSymbolsSource::UniversalCtags, ctags_timeout_ms: 500 }
        .to_document();
    assert_eq!(doc.source, "universal-ctags");
    assert_eq!(doc.ctags_timeout_ms, Some(500));
    let doc = PicklsConfig::default().to_document();
    assert_eq!(doc.ai.unwrap().inline_assist_provider, Some("openai".to_string()));
}

#[test]
fn errors_name_the_offending_field() {
    assert_eq!(DecodeError::UnknownSymbolsSource.offending_field(), "symbols.source");
    assert_eq!(DecodeError::UnknownProvider.offending_field(), "ai.inline_assist_provider");
    assert_eq!(DecodeError::DuplicateLanguage { index: 2 }.offending_field(), "languages");
}
