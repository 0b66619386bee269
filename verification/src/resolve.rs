//! From a document to a configuration: each setting that the document
//! leaves out takes its default, each choice is read from its word, and a
//! document that names an unknown choice or lists a language twice gives
//! no configuration at all.

use vstd::prelude::*;
use crate::config::{
    default_ai_view, language_ids_of, languages_view, AIView, ConfigView, FormatterView,
    LanguageView, LinterView, OllamaConfig, OllamaView, OpenAIConfig, OpenAIView, PicklsAIConfig,
    PicklsAIProvider, PicklsConfig, PicklsFormatterConfig, PicklsLanguageConfig, PicklsLinterConfig,
    PicklsSymbolsConfig, PicklsSymbolsSource,
};
use crate::defaults::{
    default_ctags_timeout_ms, default_false, default_inline_assist_prompt_template,
    default_inline_assist_prompt_template_spec, default_inline_assist_system_prompt,
    default_inline_assist_system_prompt_spec, default_openai_api_key_cmd,
    default_openai_api_key_cmd_spec, default_openai_model, default_openai_model_spec, default_true,
    strings_view, DEFAULT_CTAGS_TIMEOUT_MS,
};
use crate::document::{
    AIDocument, AIDocumentView, ConfigDocument, ConfigDocumentView, FormatterDocument,
    FormatterDocumentView, LanguageDocument, LanguageDocumentView, LinterDocument,
    LinterDocumentView, OllamaDocument, OllamaDocumentView, OpenAIDocument, OpenAIDocumentView,
    SymbolsDocument, SymbolsDocumentView,
};
use crate::distinct::{entry_ids, first_repeat, first_repeated_id, lemma_no_repeat};
use crate::tags::{provider_of_tag, symbols_source_of_tag};
use crate::text::copy_strings;

verus! {

broadcast use vstd::string::to_string_from_display_ensures_for_str;

/// Why a document gives no configuration.
#[derive(Clone, Copy, Debug, PartialEq, Eq, Structural)]
pub enum DecodeError {
    /// The word under `symbols.source` names no tagging tool.
    UnknownSymbolsSource,
    /// The word under `ai.inline_assist_provider` names no backend family.
    UnknownProvider,
    /// The entry at `index` of the languages repeats the identifier of an
    /// earlier entry, and is the first that does.
    DuplicateLanguage { index: usize },
}

/// The setting of a document at which an error was found.
pub open spec fn offending_field_spec(error: DecodeError) -> Seq<char> {
    match error {
        DecodeError::UnknownSymbolsSource => "symbols.source"@,
        DecodeError::UnknownProvider => "ai.inline_assist_provider"@,
        DecodeError::DuplicateLanguage { index } => "languages"@,
    }
}

impl DecodeError {
    /// The setting of the document at which this error was found.
    pub fn offending_field(&self) -> (field: String)
        ensures
            field@ == offending_field_spec(*self),
    {
        match self {
            DecodeError::UnknownSymbolsSource => "symbols.source".to_string(),
            DecodeError::UnknownProvider => "ai.inline_assist_provider".to_string(),
            DecodeError::DuplicateLanguage { index } => "languages".to_string(),
        }
    }
}

/// The linter that a document describes: no arguments and the output
/// stream where it names neither.
pub open spec fn resolve_linter_spec(doc: LinterDocumentView) -> LinterView {
    LinterView {
        program: doc.program,
        args: match doc.args {
            Some(args) => args,
            None => Seq::empty(),
        },
        use_stdin: doc.use_stdin,
        pattern: doc.pattern,
        filename_match: doc.filename_match,
        line_match: doc.line_match,
        start_col_match: doc.start_col_match,
        end_col_match: doc.end_col_match,
        severity_match: doc.severity_match,
        description_match: doc.description_match,
        use_stderr: match doc.use_stderr {
            Some(use_stderr) => use_stderr,
            None => false,
        },
    }
}

/// The formatter that a document describes: it reads its input stream and
/// its error stream fails nothing, where the document says neither.
pub open spec fn resolve_formatter_spec(doc: FormatterDocumentView) -> FormatterView {
    FormatterView {
        program: doc.program,
        args: doc.args,
        use_stdin: match doc.use_stdin {
            Some(use_stdin) => use_stdin,
            None => true,
        },
        stderr_indicates_error: match doc.stderr_indicates_error {
            Some(flag) => flag,
            None => false,
        },
    }
}

/// The language that a document describes: a list that it leaves out is
/// empty, and the lists it gives keep their order.
pub open spec fn resolve_language_spec(doc: LanguageDocumentView) -> LanguageView {
    LanguageView {
        root_markers: match doc.root_markers {
            Some(markers) => markers,
            None => Seq::empty(),
        },
        linters: match doc.linters {
            Some(linters) => linters.map_values(|l: LinterDocumentView| resolve_linter_spec(l)),
            None => Seq::empty(),
        },
        formatters: match doc.formatters {
            Some(formatters) => formatters.map_values(
                |f: FormatterDocumentView| resolve_formatter_spec(f),
            ),
            None => Seq::empty(),
        },
    }
}

impl LinterDocument {
    /// The linter that this document describes.
    pub fn resolve(&self) -> (linter: PicklsLinterConfig)
        ensures
            linter@ == resolve_linter_spec(self@),
            self.use_stderr is None ==> !linter.use_stderr,
            self.args is None ==> linter.args@.len() == 0,
            linter.description_match == self.description_match,
    {
        let args = match &self.args {
            Some(args) => copy_strings(args),
            None => Vec::new(),
        };
        let use_stderr = match self.use_stderr {
            Some(use_stderr) => use_stderr,
            None => default_false(),
        };
        let linter = PicklsLinterConfig {
            program: self.program.clone(),
            args,
            use_stdin: self.use_stdin,
            pattern: self.pattern.clone(),
            filename_match: self.filename_match,
            line_match: self.line_match,
            start_col_match: self.start_col_match,
            end_col_match: self.end_col_match,
            severity_match: self.severity_match,
            description_match: self.description_match,
            use_stderr,
        };
        assert(linter@.args =~= resolve_linter_spec(self@).args);
        linter
    }
}

impl FormatterDocument {
    /// The formatter that this document describes.
    pub fn resolve(&self) -> (formatter: PicklsFormatterConfig)
        ensures
            formatter@ == resolve_formatter_spec(self@),
            self.use_stdin is None ==> formatter.use_stdin,
            self.stderr_indicates_error is None ==> !formatter.stderr_indicates_error,
    {
        let use_stdin = match self.use_stdin {
            Some(use_stdin) => use_stdin,
            None => default_true(),
        };
        let stderr_indicates_error = match self.stderr_indicates_error {
            Some(flag) => flag,
            None => default_false(),
        };
        PicklsFormatterConfig {
            program: self.program.clone(),
            args: copy_strings(&self.args),
            use_stdin,
            stderr_indicates_error,
        }
    }
}

impl LanguageDocument {
    /// The language that this document describes.
    pub fn resolve(&self) -> (language: PicklsLanguageConfig)
        ensures
            language@ == resolve_language_spec(self@),
            self.root_markers is None ==> language.root_markers@.len() == 0,
            self.linters is None ==> language.linters@.len() == 0,
            self.formatters is None ==> language.formatters@.len() == 0,
    {
        let root_markers = match &self.root_markers {
            Some(markers) => copy_strings(markers),
            None => Vec::new(),
        };
        let mut linters: Vec<PicklsLinterConfig> = Vec::new();
        if let Some(documents) = &self.linters {
            let mut i: usize = 0;
            while i < documents.len()
                invariant
                    i <= documents.len(),
                    linters.len() == i,
                    forall|k: int|
                        0 <= k < i ==> (#[trigger] linters[k])@ == resolve_linter_spec(
                            documents[k]@,
                        ),
                decreases documents.len() - i,
            {
                linters.push(documents[i].resolve());
                i += 1;
            }
        }
        let mut formatters: Vec<PicklsFormatterConfig> = Vec::new();
        if let Some(documents) = &self.formatters {
            let mut i: usize = 0;
            while i < documents.len()
                invariant
                    i <= documents.len(),
                    formatters.len() == i,
                    forall|k: int|
                        0 <= k < i ==> (#[trigger] formatters[k])@ == resolve_formatter_spec(
                            documents[k]@,
                        ),
                decreases documents.len() - i,
            {
                formatters.push(documents[i].resolve());
                i += 1;
            }
        }
        let language = PicklsLanguageConfig { root_markers, linters, formatters };
        assert(language@.root_markers =~= resolve_language_spec(self@).root_markers);
        assert(language@.linters =~= resolve_language_spec(self@).linters);
        assert(language@.formatters =~= resolve_language_spec(self@).formatters);
        language
    }
}

/// The symbols section that a document describes, or the error where its
/// word names no tagging tool. The time limit is 500 where it gives none.
pub open spec fn resolve_symbols_spec(doc: SymbolsDocumentView) -> Result<
    PicklsSymbolsConfig,
    DecodeError,
> {
    match symbols_source_of_tag(doc.source) {
        Some(source) => Ok(
            PicklsSymbolsConfig {
                source,
                ctags_timeout_ms: match doc.ctags_timeout_ms {
                    Some(ms) => ms,
                    None => DEFAULT_CTAGS_TIMEOUT_MS,
                },
            },
        ),
        None => Err(DecodeError::UnknownSymbolsSource),
    }
}

/// The hosted backend that a document describes.
pub open spec fn resolve_openai_spec(doc: OpenAIDocumentView) -> OpenAIView {
    OpenAIView {
        model: match doc.model {
            Some(model) => model,
            None => default_openai_model_spec(),
        },
        api_key_cmd: match doc.api_key_cmd {
            Some(cmd) => cmd,
            None => default_openai_api_key_cmd_spec(),
        },
    }
}

/// The local backend that a document describes. Neither field has a
/// default: one that the document leaves out is empty.
pub open spec fn resolve_ollama_spec(doc: OllamaDocumentView) -> OllamaView {
    OllamaView {
        model: match doc.model {
            Some(model) => model,
            None => Seq::empty(),
        },
        api_address: match doc.api_address {
            Some(address) => address,
            None => Seq::empty(),
        },
    }
}

/// The backend family that a document selects: the hosted one where it
/// names none, and none where its word is unknown.
pub open spec fn resolve_provider_spec(tag: Option<Seq<char>>) -> Option<PicklsAIProvider> {
    match tag {
        Some(tag) => provider_of_tag(tag),
        None => Some(PicklsAIProvider::OpenAI),
    }
}

/// The assistant's section that a document describes, or the error where
/// its word names no backend family. A backend block is resolved whether or
/// not its family is the one selected, and one that is left out stays out.
pub open spec fn resolve_ai_spec(doc: AIDocumentView) -> Result<AIView, DecodeError> {
    match resolve_provider_spec(doc.inline_assist_provider) {
        Some(provider) => Ok(
            AIView {
                system_prompt: match doc.system_prompt {
                    Some(prompt) => prompt,
                    None => default_inline_assist_system_prompt_spec(),
                },
                inline_assist_provider: provider,
                inline_assist_prompt_template: match doc.inline_assist_prompt_template {
                    Some(template) => template,
                    None => default_inline_assist_prompt_template_spec(),
                },
                openai: match doc.openai {
                    Some(openai) => Some(resolve_openai_spec(openai)),
                    None => None,
                },
                ollama: match doc.ollama {
                    Some(ollama) => Some(resolve_ollama_spec(ollama)),
                    None => None,
                },
            },
        ),
        None => Err(DecodeError::UnknownProvider),
    }
}

impl SymbolsDocument {
    /// The symbols section that this document describes. It fails exactly
    /// where the word for the tagging tool is unknown.
    pub fn resolve(&self) -> (symbols: Result<PicklsSymbolsConfig, DecodeError>)
        ensures
            symbols == resolve_symbols_spec(self@),
            symbols is Ok <==> symbols_source_of_tag(self.source@) is Some,
            symbols matches Ok(s) ==> (self.ctags_timeout_ms is None ==> s.ctags_timeout_ms == 500),
    {
        match PicklsSymbolsSource::from_tag(self.source.as_str()) {
            Some(source) => {
                let ctags_timeout_ms = match self.ctags_timeout_ms {
                    Some(ms) => ms,
                    None => default_ctags_timeout_ms(),
                };
                Ok(PicklsSymbolsConfig { source, ctags_timeout_ms })
            },
            None => Err(DecodeError::UnknownSymbolsSource),
        }
    }
}

impl OpenAIDocument {
    /// The hosted backend that this document describes.
    pub fn resolve(&self) -> (openai: OpenAIConfig)
        ensures
            openai@ == resolve_openai_spec(self@),
            self.model is None ==> openai.model@ == "gpt-4o"@,
            self.api_key_cmd is None ==> strings_view(openai.api_key_cmd@)
                == default_openai_api_key_cmd_spec(),
    {
        let model = match &self.model {
            Some(model) => model.clone(),
            None => default_openai_model(),
        };
        let api_key_cmd = match &self.api_key_cmd {
            Some(cmd) => copy_strings(cmd),
            None => default_openai_api_key_cmd(),
        };
        OpenAIConfig { model, api_key_cmd }
    }
}

impl OllamaDocument {
    /// The local backend that this document describes. A document that
    /// names no model is accepted here: the gap shows when the backend is
    /// selected for use.
    pub fn resolve(&self) -> (ollama: OllamaConfig)
        ensures
            ollama@ == resolve_ollama_spec(self@),
    {
        let model = match &self.model {
            Some(model) => model.clone(),
            None => String::new(),
        };
        let api_address = match &self.api_address {
            Some(address) => address.clone(),
            None => String::new(),
        };
        OllamaConfig { model, api_address }
    }
}

impl AIDocument {
    /// The assistant's section that this document describes. It fails
    /// exactly where a word for the backend family is given and is unknown.
    pub fn resolve(&self) -> (ai: Result<PicklsAIConfig, DecodeError>)
        ensures
            match ai {
                Ok(ai) => resolve_ai_spec(self@) == Ok::<AIView, DecodeError>(ai@),
                Err(error) => resolve_ai_spec(self@) == Err::<AIView, DecodeError>(error),
            },
            ai is Ok <==> resolve_provider_spec(self@.inline_assist_provider) is Some,
            ai matches Ok(a) ==> (self.inline_assist_provider is None ==> a.inline_assist_provider
                == PicklsAIProvider::OpenAI),
            ai matches Ok(a) ==> (self.openai is None <==> a.openai is None),
            ai matches Ok(a) ==> (self.ollama is None <==> a.ollama is None),
    {
        let provider = match &self.inline_assist_provider {
            Some(tag) => match PicklsAIProvider::from_tag(tag.as_str()) {
                Some(provider) => provider,
                None => {
                    return Err(DecodeError::UnknownProvider);
                },
            },
            None => PicklsAIProvider::default(),
        };
        let system_prompt = match &self.system_prompt {
            Some(prompt) => prompt.clone(),
            None => default_inline_assist_system_prompt(),
        };
        let inline_assist_prompt_template = match &self.inline_assist_prompt_template {
            Some(template) => template.clone(),
            None => default_inline_assist_prompt_template(),
        };
        let openai = match &self.openai {
            Some(openai) => Some(openai.resolve()),
            None => None,
        };
        let ollama = match &self.ollama {
            Some(ollama) => Some(ollama.resolve()),
            None => None,
        };
        Ok(
            PicklsAIConfig {
                system_prompt,
                inline_assist_provider: provider,
                inline_assist_prompt_template,
                openai,
                ollama,
            },
        )
    }
}

/// The identifiers of a document's languages, in the document's order.
pub open spec fn language_ids(entries: Seq<(Seq<char>, LanguageDocumentView)>) -> Seq<Seq<char>> {
    entries.map_values(|entry: (Seq<char>, LanguageDocumentView)| entry.0)
}

/// The languages that a document lists, each resolved, in the document's
/// order.
pub open spec fn resolve_languages_spec(entries: Seq<(Seq<char>, LanguageDocumentView)>) -> Seq<
    (Seq<char>, LanguageView),
> {
    entries.map_values(
        |entry: (Seq<char>, LanguageDocumentView)| (entry.0, resolve_language_spec(entry.1)),
    )
}

/// The symbols setting of a document: absent where the section is.
pub open spec fn resolve_optional_symbols_spec(doc: Option<SymbolsDocumentView>) -> Result<
    Option<PicklsSymbolsConfig>,
    DecodeError,
> {
    match doc {
        Some(doc) => match resolve_symbols_spec(doc) {
            Ok(symbols) => Ok(Some(symbols)),
            Err(error) => Err(error),
        },
        None => Ok(None),
    }
}

/// The assistant of a document: all defaults where the section is absent.
pub open spec fn resolve_optional_ai_spec(doc: Option<AIDocumentView>) -> Result<
    AIView,
    DecodeError,
> {
    match doc {
        Some(doc) => resolve_ai_spec(doc),
        None => Ok(default_ai_view()),
    }
}

/// The languages of a document: none where the section is absent.
pub open spec fn listed_languages(doc: ConfigDocumentView) -> Seq<
    (Seq<char>, LanguageDocumentView),
> {
    match doc.languages {
        Some(entries) => entries,
        None => Seq::empty(),
    }
}

/// The configuration that a document describes, or the reason why it
/// describes none. A repeated language is reported before an unknown
/// tagging tool, and that before an unknown backend family.
pub open spec fn resolve_config_spec(doc: ConfigDocumentView) -> Result<ConfigView, DecodeError> {
    match first_repeat(language_ids(listed_languages(doc))) {
        Some(index) => Err(DecodeError::DuplicateLanguage { index: index as usize }),
        None => match resolve_optional_symbols_spec(doc.symbols) {
            Err(error) => Err(error),
            Ok(symbols) => match resolve_optional_ai_spec(doc.ai) {
                Err(error) => Err(error),
                Ok(ai) => Ok(
                    ConfigView {
                        languages: resolve_languages_spec(listed_languages(doc)),
                        symbols,
                        ai,
                    },
                ),
            },
        },
    }
}

/// Every setting with a default has that default in what is read from a
/// document that leaves the setting out.
pub proof fn lemma_left_out_settings_take_defaults(
    config: ConfigDocumentView,
    language: LanguageDocumentView,
    linter: LinterDocumentView,
    formatter: FormatterDocumentView,
    symbols: SymbolsDocumentView,
    ai: AIDocumentView,
    openai: OpenAIDocumentView,
)
    ensures
        linter.args is None ==> resolve_linter_spec(linter).args == Seq::<Seq<char>>::empty(),
        linter.use_stderr is None ==> !resolve_linter_spec(linter).use_stderr,
        formatter.use_stdin is None ==> resolve_formatter_spec(formatter).use_stdin,
        formatter.stderr_indicates_error is None ==> !resolve_formatter_spec(
            formatter,
        ).stderr_indicates_error,
        language.root_markers is None ==> resolve_language_spec(language).root_markers.len() == 0,
        language.linters is None ==> resolve_language_spec(language).linters.len() == 0,
        language.formatters is None ==> resolve_language_spec(language).formatters.len() == 0,
        symbols.ctags_timeout_ms is None ==> (resolve_symbols_spec(symbols) matches Ok(resolved)
            ==> resolved.ctags_timeout_ms == 500),
        openai.model is None ==> resolve_openai_spec(openai).model == "gpt-4o"@,
        openai.api_key_cmd is None ==> resolve_openai_spec(openai).api_key_cmd
            == seq!["sh"@, "-c"@, "echo $OPENAI_API_KEY"@],
        ai.inline_assist_provider is None ==> (resolve_ai_spec(ai) matches Ok(resolved)
            && resolved.inline_assist_provider == PicklsAIProvider::OpenAI),
        ai.system_prompt is None ==> (resolve_ai_spec(ai) matches Ok(resolved)
            ==> resolved.system_prompt == default_inline_assist_system_prompt_spec()),
        ai.inline_assist_prompt_template is None ==> (resolve_ai_spec(ai) matches Ok(resolved)
            ==> resolved.inline_assist_prompt_template
            == default_inline_assist_prompt_template_spec()),
        config.languages is None ==> (resolve_config_spec(config) matches Ok(resolved)
            ==> resolved.languages.len() == 0),
        config.symbols is None ==> (resolve_config_spec(config) matches Ok(resolved)
            ==> resolved.symbols is None),
        config.ai is None ==> (resolve_config_spec(config) matches Ok(resolved) ==> resolved.ai
            == default_ai_view()),
{
}

/// A document with a word that names no tagging tool, or no backend
/// family, gives no configuration: the word is not replaced by a default.
pub proof fn lemma_unknown_words_are_rejected(
    config: ConfigDocumentView,
    symbols: SymbolsDocumentView,
    ai: AIDocumentView,
)
    ensures
        symbols_source_of_tag(symbols.source) is None ==> resolve_symbols_spec(symbols) == Err::<
            PicklsSymbolsConfig,
            DecodeError,
        >(DecodeError::UnknownSymbolsSource),
        symbols_source_of_tag(symbols.source) is None && config.symbols == Some(symbols)
            ==> resolve_config_spec(config) is Err,
        ai.inline_assist_provider is Some && provider_of_tag(ai.inline_assist_provider->0) is None
            ==> resolve_ai_spec(ai) == Err::<AIView, DecodeError>(DecodeError::UnknownProvider),
        ai.inline_assist_provider is Some && provider_of_tag(ai.inline_assist_provider->0) is None
            && config.ai == Some(ai) ==> resolve_config_spec(config) is Err,
{
}

impl ConfigDocument {
    /// The configuration that this document describes: every setting it
    /// leaves out has its default. It fails, and gives nothing, exactly
    /// where a language is listed twice or a word names no known choice.
    pub fn resolve(&self) -> (config: Result<PicklsConfig, DecodeError>)
        ensures
            match config {
                Ok(config) => resolve_config_spec(self@) == Ok::<ConfigView, DecodeError>(config@)
                    && config.well_formed(),
                Err(error) => resolve_config_spec(self@) == Err::<ConfigView, DecodeError>(error),
            },
            config matches Ok(c) ==> (self.languages is None ==> c.languages@.len() == 0),
            config matches Ok(c) ==> (self.symbols is None <==> c.symbols is None),
            config matches Ok(c) ==> (self.ai is None ==> c.ai@ == default_ai_view()),
    {
        let mut languages: Vec<(String, PicklsLanguageConfig)> = Vec::new();
        if let Some(entries) = &self.languages {
            assert(entry_ids(entries@) =~= language_ids(listed_languages(self@)));
            match first_repeated_id(entries) {
                Some(index) => {
                    return Err(DecodeError::DuplicateLanguage { index });
                },
                None => {},
            }
            let mut i: usize = 0;
            while i < entries.len()
                invariant
                    i <= entries.len(),
                    languages.len() == i,
                    forall|k: int|
                        0 <= k < i ==> (#[trigger] languages[k]).0@ == entries[k].0@
                            && languages[k].1@ == resolve_language_spec(entries[k].1@),
                decreases entries.len() - i,
            {
                languages.push((entries[i].0.clone(), entries[i].1.resolve()));
                i += 1;
            }
            proof {
                assert(languages_view(languages@) =~= resolve_languages_spec(
                    listed_languages(self@),
                ));
                assert(language_ids_of(languages_view(languages@)) =~= entry_ids(entries@));
            }
        } else {
            proof {
                let ids = language_ids(listed_languages(self@));
                assert(ids.len() == 0);
                lemma_no_repeat(ids);
                assert(languages_view(languages@) =~= resolve_languages_spec(
                    listed_languages(self@),
                ));
            }
        }
        let symbols = match &self.symbols {
            Some(symbols) => match symbols.resolve() {
                Ok(symbols) => Some(symbols),
                Err(error) => {
                    return Err(error);
                },
            },
            None => None,
        };
        let ai = match &self.ai {
            Some(ai) => match ai.resolve() {
                Ok(ai) => ai,
                Err(error) => {
                    return Err(error);
                },
            },
            None => PicklsAIConfig::default(),
        };
        Ok(PicklsConfig { languages, symbols, ai })
    }
}

} // verus!
