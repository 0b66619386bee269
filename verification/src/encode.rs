//! From a configuration back to a document that spells out every setting,
//! and the law that reading such a document gives the configuration again.

use vstd::prelude::*;
use crate::config::{
    distinct_ids, language_ids_of, AIView, ConfigView, FormatterView, LanguageView, LinterView,
    OllamaConfig, OllamaView, OpenAIConfig, OpenAIView, PicklsAIConfig, PicklsConfig,
    PicklsFormatterConfig, PicklsLanguageConfig, PicklsLinterConfig, PicklsSymbolsConfig,
};
use crate::document::{
    AIDocument, AIDocumentView, ConfigDocument, ConfigDocumentView, FormatterDocument,
    FormatterDocumentView, LanguageDocument, LanguageDocumentView, LinterDocument,
    LinterDocumentView, OllamaDocument, OllamaDocumentView, OpenAIDocument, OpenAIDocumentView,
    SymbolsDocument, SymbolsDocumentView,
};
use crate::distinct::lemma_distinct_iff_no_repeat;
use crate::resolve::{
    language_ids, listed_languages, resolve_ai_spec, resolve_config_spec, resolve_language_spec,
    resolve_languages_spec, DecodeError,
};
use crate::tags::{lemma_provider_tags_differ, tag_of_provider, tag_of_symbols_source};
use crate::text::copy_strings;

verus! {

/// A linter with every setting spelled out.
pub open spec fn encode_linter_spec(linter: LinterView) -> LinterDocumentView {
    LinterDocumentView {
        program: linter.program,
        args: Some(linter.args),
        use_stdin: linter.use_stdin,
        pattern: linter.pattern,
        filename_match: linter.filename_match,
        line_match: linter.line_match,
        start_col_match: linter.start_col_match,
        end_col_match: linter.end_col_match,
        severity_match: linter.severity_match,
        description_match: linter.description_match,
        use_stderr: Some(linter.use_stderr),
    }
}

/// A formatter with every setting spelled out.
pub open spec fn encode_formatter_spec(formatter: FormatterView) -> FormatterDocumentView {
    FormatterDocumentView {
        program: formatter.program,
        args: formatter.args,
        use_stdin: Some(formatter.use_stdin),
        stderr_indicates_error: Some(formatter.stderr_indicates_error),
    }
}

/// A language with every list spelled out.
pub open spec fn encode_language_spec(language: LanguageView) -> LanguageDocumentView {
    LanguageDocumentView {
        root_markers: Some(language.root_markers),
        linters: Some(language.linters.map_values(|l: LinterView| encode_linter_spec(l))),
        formatters: Some(
            language.formatters.map_values(|f: FormatterView| encode_formatter_spec(f)),
        ),
    }
}

/// The symbols section with the tool's word and the time limit.
pub open spec fn encode_symbols_spec(symbols: PicklsSymbolsConfig) -> SymbolsDocumentView {
    SymbolsDocumentView {
        source: tag_of_symbols_source(symbols.source),
        ctags_timeout_ms: Some(symbols.ctags_timeout_ms),
    }
}

/// The hosted backend's block with both settings spelled out.
pub open spec fn encode_openai_spec(openai: OpenAIView) -> OpenAIDocumentView {
    OpenAIDocumentView { model: Some(openai.model), api_key_cmd: Some(openai.api_key_cmd) }
}

/// The local backend's block with both settings spelled out.
pub open spec fn encode_ollama_spec(ollama: OllamaView) -> OllamaDocumentView {
    OllamaDocumentView { model: Some(ollama.model), api_address: Some(ollama.api_address) }
}

/// The assistant's section with every setting spelled out. A backend block
/// that the configuration lacks is left out.
pub open spec fn encode_ai_spec(ai: AIView) -> AIDocumentView {
    AIDocumentView {
        system_prompt: Some(ai.system_prompt),
        inline_assist_provider: Some(tag_of_provider(ai.inline_assist_provider)),
        inline_assist_prompt_template: Some(ai.inline_assist_prompt_template),
        openai: match ai.openai {
            Some(openai) => Some(encode_openai_spec(openai)),
            None => None,
        },
        ollama: match ai.ollama {
            Some(ollama) => Some(encode_ollama_spec(ollama)),
            None => None,
        },
    }
}

/// The document that spells out a whole configuration, its languages in
/// the order of the entries.
pub open spec fn encode_config_spec(config: ConfigView) -> ConfigDocumentView {
    ConfigDocumentView {
        languages: Some(
            config.languages.map_values(
                |entry: (Seq<char>, LanguageView)| (entry.0, encode_language_spec(entry.1)),
            ),
        ),
        symbols: match config.symbols {
            Some(symbols) => Some(encode_symbols_spec(symbols)),
            None => None,
        },
        ai: Some(encode_ai_spec(config.ai)),
    }
}

/// Reading the document that spells out a language gives the language.
pub proof fn lemma_language_round_trip(language: LanguageView)
    ensures
        resolve_language_spec(encode_language_spec(language)) == language,
{
    let back = resolve_language_spec(encode_language_spec(language));
    assert(back.root_markers =~= language.root_markers);
    assert(back.linters =~= language.linters);
    assert(back.formatters =~= language.formatters);
}

/// Reading the document that spells out the assistant's section gives the
/// section.
pub proof fn lemma_ai_round_trip(ai: AIView)
    ensures
        resolve_ai_spec(encode_ai_spec(ai)) == Ok::<AIView, DecodeError>(ai),
{
    lemma_provider_tags_differ();
}

/// Encoding a configuration and reading the document again gives the same
/// configuration: defaults that were applied once change nothing when they
/// are applied again.
pub proof fn lemma_round_trip(config: ConfigView)
    requires
        distinct_ids(config.languages),
    ensures
        resolve_config_spec(encode_config_spec(config)) == Ok::<ConfigView, DecodeError>(config),
{
    let doc = encode_config_spec(config);
    let entries = listed_languages(doc);
    let ids = language_ids(entries);
    assert(ids =~= language_ids_of(config.languages));
    lemma_distinct_iff_no_repeat(ids);
    assert forall|k: int| 0 <= k < entries.len() implies #[trigger] resolve_languages_spec(
        entries,
    )[k] == config.languages[k] by {
        lemma_language_round_trip(config.languages[k].1);
    }
    assert(resolve_languages_spec(entries) =~= config.languages);
    lemma_ai_round_trip(config.ai);
}

/// What reading a document gives has no language twice.
pub proof fn lemma_resolved_is_well_formed(doc: ConfigDocumentView, config: ConfigView)
    requires
        resolve_config_spec(doc) == Ok::<ConfigView, DecodeError>(config),
    ensures
        distinct_ids(config.languages),
{
    let ids = language_ids(listed_languages(doc));
    assert(ids =~= language_ids_of(config.languages));
    lemma_distinct_iff_no_repeat(ids);
}

/// Reading a document, spelling out what was read and reading that again
/// gives what the first reading gave.
pub proof fn lemma_resolve_is_idempotent(doc: ConfigDocumentView, config: ConfigView)
    requires
        resolve_config_spec(doc) == Ok::<ConfigView, DecodeError>(config),
    ensures
        resolve_config_spec(encode_config_spec(config)) == Ok::<ConfigView, DecodeError>(config),
{
    lemma_resolved_is_well_formed(doc, config);
    lemma_round_trip(config);
}

impl PicklsLinterConfig {
    /// The document that spells out this linter.
    pub fn to_document(&self) -> (doc: LinterDocument)
        ensures
            doc@ == encode_linter_spec(self@),
    {
        LinterDocument {
            program: self.program.clone(),
            args: Some(copy_strings(&self.args)),
            use_stdin: self.use_stdin,
            pattern: self.pattern.clone(),
            filename_match: self.filename_match,
            line_match: self.line_match,
            start_col_match: self.start_col_match,
            end_col_match: self.end_col_match,
            severity_match: self.severity_match,
            description_match: self.description_match,
            use_stderr: Some(self.use_stderr),
        }
    }
}

impl PicklsFormatterConfig {
    /// The document that spells out this formatter.
    pub fn to_document(&self) -> (doc: FormatterDocument)
        ensures
            doc@ == encode_formatter_spec(self@),
    {
        FormatterDocument {
            program: self.program.clone(),
            args: copy_strings(&self.args),
            use_stdin: Some(self.use_stdin),
            stderr_indicates_error: Some(self.stderr_indicates_error),
        }
    }
}

impl PicklsLanguageConfig {
    /// The document that spells out this language.
    pub fn to_document(&self) -> (doc: LanguageDocument)
        ensures
            doc@ == encode_language_spec(self@),
    {
        let mut linters: Vec<LinterDocument> = Vec::new();
        let mut i: usize = 0;
        while i < self.linters.len()
            invariant
                i <= self.linters.len(),
                linters.len() == i,
                forall|k: int|
                    0 <= k < i ==> (#[trigger] linters[k])@ == encode_linter_spec(
                        self.linters[k]@,
                    ),
            decreases self.linters.len() - i,
        {
            linters.push(self.linters[i].to_document());
            i += 1;
        }
        let mut formatters: Vec<FormatterDocument> = Vec::new();
        let mut j: usize = 0;
        while j < self.formatters.len()
            invariant
                j <= self.formatters.len(),
                formatters.len() == j,
                forall|k: int|
                    0 <= k < j ==> (#[trigger] formatters[k])@ == encode_formatter_spec(
                        self.formatters[k]@,
                    ),
            decreases self.formatters.len() - j,
        {
            formatters.push(self.formatters[j].to_document());
            j += 1;
        }
        let doc = LanguageDocument {
            root_markers: Some(copy_strings(&self.root_markers)),
            linters: Some(linters),
            formatters: Some(formatters),
        };
        assert(doc@.linters->0 =~= encode_language_spec(self@).linters->0);
        assert(doc@.formatters->0 =~= encode_language_spec(self@).formatters->0);
        doc
    }
}

impl PicklsSymbolsConfig {
    /// The document that spells out this symbols section.
    pub fn to_document(&self) -> (doc: SymbolsDocument)
        ensures
            doc@ == encode_symbols_spec(*self),
    {
        SymbolsDocument {
            source: self.source.tag(),
            ctags_timeout_ms: Some(self.ctags_timeout_ms),
        }
    }
}

impl OpenAIConfig {
    /// The document that spells out this backend.
    pub fn to_document(&self) -> (doc: OpenAIDocument)
        ensures
            doc@ == encode_openai_spec(self@),
    {
        OpenAIDocument {
            model: Some(self.model.clone()),
            api_key_cmd: Some(copy_strings(&self.api_key_cmd)),
        }
    }
}

impl OllamaConfig {
    /// The document that spells out this backend.
    pub fn to_document(&self) -> (doc: OllamaDocument)
        ensures
            doc@ == encode_ollama_spec(self@),
    {
        OllamaDocument {
            model: Some(self.model.clone()),
            api_address: Some(self.api_address.clone()),
        }
    }
}

impl PicklsAIConfig {
    /// The document that spells out this assistant's section.
    pub fn to_document(&self) -> (doc: AIDocument)
        ensures
            doc@ == encode_ai_spec(self@),
    {
        let openai = match &self.openai {
            Some(openai) => Some(openai.to_document()),
            None => None,
        };
        let ollama = match &self.ollama {
            Some(ollama) => Some(ollama.to_document()),
            None => None,
        };
        AIDocument {
            system_prompt: Some(self.system_prompt.clone()),
            inline_assist_provider: Some(self.inline_assist_provider.tag()),
            inline_assist_prompt_template: Some(self.inline_assist_prompt_template.clone()),
            openai,
            ollama,
        }
    }
}

impl PicklsConfig {
    /// The document that spells out this configuration. Reading it gives a
    /// configuration with the same contents, where this one is well formed.
    pub fn to_document(&self) -> (doc: ConfigDocument)
        ensures
            doc@ == encode_config_spec(self@),
            self.well_formed() ==> resolve_config_spec(doc@) == Ok::<ConfigView, DecodeError>(
                self@,
            ),
    {
        let mut languages: Vec<(String, LanguageDocument)> = Vec::new();
        let mut i: usize = 0;
        while i < self.languages.len()
            invariant
                i <= self.languages.len(),
                languages.len() == i,
                forall|k: int|
                    0 <= k < i ==> (#[trigger] languages[k]).0@ == self.languages[k].0@
                        && languages[k].1@ == encode_language_spec(self.languages[k].1@),
            decreases self.languages.len() - i,
        {
            languages.push((self.languages[i].0.clone(), self.languages[i].1.to_document()));
            i += 1;
        }
        let symbols = match &self.symbols {
            Some(symbols) => Some(symbols.to_document()),
            None => None,
        };
        let doc = ConfigDocument {
            languages: Some(languages),
            symbols,
            ai: Some(self.ai.to_document()),
        };
        proof {
            assert(doc@.languages->0 =~= encode_config_spec(self@).languages->0);
            if self.well_formed() {
                lemma_round_trip(self@);
            }
        }
        doc
    }
}

} // verus!
