//! The resolved configuration: every setting has its value, and nothing in
//! it changes after it was built.

use vstd::prelude::*;
use crate::distinct::all_distinct;
use crate::defaults::{
    default_inline_assist_prompt_template, default_inline_assist_prompt_template_spec,
    default_inline_assist_system_prompt, default_inline_assist_system_prompt_spec,
    default_openai_api_key_cmd, default_openai_api_key_cmd_spec, default_openai_model,
    default_openai_model_spec, strings_view,
};

verus! {

/// The tool that lists the symbols of a file.
#[derive(Clone, Copy, Debug, PartialEq, Eq, Structural)]
pub enum PicklsSymbolsSource {
    /// Universal Ctags, written `universal-ctags` in a document.
    UniversalCtags,
}

/// How symbols are resolved.
#[derive(Clone, Copy, Debug, PartialEq, Eq, Structural)]
pub struct PicklsSymbolsConfig {
    pub source: PicklsSymbolsSource,
    /// Milliseconds the tagging tool may run before it counts as timed out.
    pub ctags_timeout_ms: u64,
}

/// The family of backends that answers inline-assist requests.
#[derive(Clone, Copy, Debug, PartialEq, Eq, Structural)]
pub enum PicklsAIProvider {
    /// The hosted API, written `openai` in a document.
    OpenAI,
    /// The locally run model server, written `ollama` in a document.
    Ollama,
}

/// An external program together with the rule that turns the lines it
/// prints into diagnostics.
#[derive(Clone, Debug, PartialEq, Eq)]
pub struct PicklsLinterConfig {
    /// An absolute path, or a name that is looked up on the search path.
    pub program: String,
    /// May hold the markers `$filename` and `$tmpfilename`.
    pub args: Vec<String>,
    /// Whether the file's contents go to the program's input stream.
    pub use_stdin: bool,
    /// A regular expression that is tried on every line of the chosen stream.
    pub pattern: String,
    /// Capture group (counted from 1) that holds the file name.
    pub filename_match: Option<usize>,
    /// Capture group (counted from 1) that holds the line number.
    pub line_match: usize,
    /// Capture group (counted from 1) that holds the first column.
    pub start_col_match: Option<usize>,
    /// Capture group (counted from 1) that holds the last column.
    pub end_col_match: Option<usize>,
    /// Capture group (counted from 1) that holds the severity. A text that
    /// names no known severity stands for a warning.
    pub severity_match: Option<usize>,
    /// Capture group (counted from 1) that holds the description, or -1
    /// where the description is the line printed just before the match.
    pub description_match: Option<isize>,
    /// Whether the error stream is read in place of the output stream.
    pub use_stderr: bool,
}

/// An external program that rewrites a file's contents.
#[derive(Clone, Debug, PartialEq, Eq)]
pub struct PicklsFormatterConfig {
    /// An absolute path, or a name that is looked up on the search path.
    pub program: String,
    /// May hold the marker `$abspath`.
    pub args: Vec<String>,
    /// Whether the contents arrive over the program's input stream.
    pub use_stdin: bool,
    /// Whether anything on the error stream fails the whole format run.
    pub stderr_indicates_error: bool,
}

/// What is run for the files of one language.
#[derive(Clone, Debug, PartialEq, Eq)]
pub struct PicklsLanguageConfig {
    /// File names that mark a project's root, the most important first.
    pub root_markers: Vec<String>,
    /// Each linter runs by itself; the order is that of the diagnostics.
    pub linters: Vec<PicklsLinterConfig>,
    /// The formatters run in this order, each on the output of the last.
    pub formatters: Vec<PicklsFormatterConfig>,
}

/// The hosted backend.
#[derive(Clone, Debug, PartialEq, Eq)]
pub struct OpenAIConfig {
    pub model: String,
    /// The command whose trimmed output is the API credential.
    pub api_key_cmd: Vec<String>,
}

/// The locally run backend.
#[derive(Clone, Debug, PartialEq, Eq)]
pub struct OllamaConfig {
    /// Empty where the document named no model.
    pub model: String,
    /// The address of the completion endpoint, such as
    /// `http://localhost:11434/api/generate`. Empty where the document
    /// named none.
    pub api_address: String,
}

/// The inline assistant.
#[derive(Clone, Debug, PartialEq, Eq)]
pub struct PicklsAIConfig {
    pub system_prompt: String,
    pub inline_assist_provider: PicklsAIProvider,
    /// Holds the markers `{{language_id}}` and `{{text}}`.
    pub inline_assist_prompt_template: String,
    /// Read only where the provider is the hosted family.
    pub openai: Option<OpenAIConfig>,
    /// Read only where the provider is the local family.
    pub ollama: Option<OllamaConfig>,
}

/// The whole configuration.
#[derive(Clone, Debug, PartialEq, Eq)]
pub struct PicklsConfig {
    /// One entry for each language, by its identifier. No identifier occurs
    /// twice, and the order of the entries means nothing.
    pub languages: Vec<(String, PicklsLanguageConfig)>,
    /// Absent where symbols are not resolved.
    pub symbols: Option<PicklsSymbolsConfig>,
    pub ai: PicklsAIConfig,
}

/// A linter as plain values.
pub struct LinterView {
    pub program: Seq<char>,
    pub args: Seq<Seq<char>>,
    pub use_stdin: bool,
    pub pattern: Seq<char>,
    pub filename_match: Option<usize>,
    pub line_match: usize,
    pub start_col_match: Option<usize>,
    pub end_col_match: Option<usize>,
    pub severity_match: Option<usize>,
    pub description_match: Option<isize>,
    pub use_stderr: bool,
}

/// A formatter as plain values.
pub struct FormatterView {
    pub program: Seq<char>,
    pub args: Seq<Seq<char>>,
    pub use_stdin: bool,
    pub stderr_indicates_error: bool,
}

/// A language's settings as plain values.
pub struct LanguageView {
    pub root_markers: Seq<Seq<char>>,
    pub linters: Seq<LinterView>,
    pub formatters: Seq<FormatterView>,
}

/// The hosted backend as plain values.
pub struct OpenAIView {
    pub model: Seq<char>,
    pub api_key_cmd: Seq<Seq<char>>,
}

/// The local backend as plain values.
pub struct OllamaView {
    pub model: Seq<char>,
    pub api_address: Seq<char>,
}

/// The assistant's settings as plain values.
pub struct AIView {
    pub system_prompt: Seq<char>,
    pub inline_assist_provider: PicklsAIProvider,
    pub inline_assist_prompt_template: Seq<char>,
    pub openai: Option<OpenAIView>,
    pub ollama: Option<OllamaView>,
}

/// The whole configuration as plain values.
pub struct ConfigView {
    pub languages: Seq<(Seq<char>, LanguageView)>,
    pub symbols: Option<PicklsSymbolsConfig>,
    pub ai: AIView,
}

impl View for PicklsLinterConfig {
    type V = LinterView;

    open spec fn view(&self) -> LinterView {
        LinterView {
            program: self.program@,
            args: strings_view(self.args@),
            use_stdin: self.use_stdin,
            pattern: self.pattern@,
            filename_match: self.filename_match,
            line_match: self.line_match,
            start_col_match: self.start_col_match,
            end_col_match: self.end_col_match,
            severity_match: self.severity_match,
            description_match: self.description_match,
            use_stderr: self.use_stderr,
        }
    }
}

impl View for PicklsFormatterConfig {
    type V = FormatterView;

    open spec fn view(&self) -> FormatterView {
        FormatterView {
            program: self.program@,
            args: strings_view(self.args@),
            use_stdin: self.use_stdin,
            stderr_indicates_error: self.stderr_indicates_error,
        }
    }
}

/// What a list of linters holds.
pub open spec fn linters_view(linters: Seq<PicklsLinterConfig>) -> Seq<LinterView> {
    linters.map_values(|l: PicklsLinterConfig| l@)
}

/// What a list of formatters holds.
pub open spec fn formatters_view(formatters: Seq<PicklsFormatterConfig>) -> Seq<FormatterView> {
    formatters.map_values(|f: PicklsFormatterConfig| f@)
}

impl View for PicklsLanguageConfig {
    type V = LanguageView;

    open spec fn view(&self) -> LanguageView {
        LanguageView {
            root_markers: strings_view(self.root_markers@),
            linters: linters_view(self.linters@),
            formatters: formatters_view(self.formatters@),
        }
    }
}

impl View for OpenAIConfig {
    type V = OpenAIView;

    open spec fn view(&self) -> OpenAIView {
        OpenAIView { model: self.model@, api_key_cmd: strings_view(self.api_key_cmd@) }
    }
}

impl View for OllamaConfig {
    type V = OllamaView;

    open spec fn view(&self) -> OllamaView {
        OllamaView { model: self.model@, api_address: self.api_address@ }
    }
}

impl View for PicklsAIConfig {
    type V = AIView;

    open spec fn view(&self) -> AIView {
        AIView {
            system_prompt: self.system_prompt@,
            inline_assist_provider: self.inline_assist_provider,
            inline_assist_prompt_template: self.inline_assist_prompt_template@,
            openai: match self.openai {
                Some(openai) => Some(openai@),
                None => None,
            },
            ollama: match self.ollama {
                Some(ollama) => Some(ollama@),
                None => None,
            },
        }
    }
}

/// What a list of language entries holds.
pub open spec fn languages_view(languages: Seq<(String, PicklsLanguageConfig)>) -> Seq<
    (Seq<char>, LanguageView),
> {
    languages.map_values(|entry: (String, PicklsLanguageConfig)| (entry.0@, entry.1@))
}

impl View for PicklsConfig {
    type V = ConfigView;

    open spec fn view(&self) -> ConfigView {
        ConfigView {
            languages: languages_view(self.languages@),
            symbols: self.symbols,
            ai: self.ai@,
        }
    }
}

/// The hosted backend where the document says nothing of it.
pub open spec fn default_openai_view() -> OpenAIView {
    OpenAIView {
        model: default_openai_model_spec(),
        api_key_cmd: default_openai_api_key_cmd_spec(),
    }
}

/// The local backend where the document says nothing of it: no field of it
/// has a default, so both are empty.
pub open spec fn default_ollama_view() -> OllamaView {
    OllamaView { model: Seq::empty(), api_address: Seq::empty() }
}

/// A language for which the document lists nothing.
pub open spec fn default_language_view() -> LanguageView {
    LanguageView { root_markers: Seq::empty(), linters: Seq::empty(), formatters: Seq::empty() }
}

/// The assistant where the document says nothing of it: the hosted family,
/// the two default texts, and no backend block.
pub open spec fn default_ai_view() -> AIView {
    AIView {
        system_prompt: default_inline_assist_system_prompt_spec(),
        inline_assist_provider: PicklsAIProvider::OpenAI,
        inline_assist_prompt_template: default_inline_assist_prompt_template_spec(),
        openai: None,
        ollama: None,
    }
}

/// The configuration of an empty document.
pub open spec fn default_config_view() -> ConfigView {
    ConfigView { languages: Seq::empty(), symbols: None, ai: default_ai_view() }
}

impl Default for PicklsAIProvider {
    fn default() -> (provider: Self)
        ensures
            provider == PicklsAIProvider::OpenAI,
    {
        PicklsAIProvider::OpenAI
    }
}

impl Default for OpenAIConfig {
    fn default() -> (openai: Self)
        ensures
            openai@ == default_openai_view(),
    {
        OpenAIConfig { model: default_openai_model(), api_key_cmd: default_openai_api_key_cmd() }
    }
}

impl Default for OllamaConfig {
    fn default() -> (ollama: Self)
        ensures
            ollama@ == default_ollama_view(),
    {
        OllamaConfig { model: String::new(), api_address: String::new() }
    }
}

impl Default for PicklsLanguageConfig {
    fn default() -> (language: Self)
        ensures
            language@ == default_language_view(),
    {
        let language = PicklsLanguageConfig {
            root_markers: Vec::new(),
            linters: Vec::new(),
            formatters: Vec::new(),
        };
        assert(language@.root_markers =~= Seq::empty());
        assert(language@.linters =~= Seq::empty());
        assert(language@.formatters =~= Seq::empty());
        language
    }
}

impl Default for PicklsAIConfig {
    fn default() -> (ai: Self)
        ensures
            ai@ == default_ai_view(),
    {
        PicklsAIConfig {
            system_prompt: default_inline_assist_system_prompt(),
            inline_assist_provider: PicklsAIProvider::OpenAI,
            inline_assist_prompt_template: default_inline_assist_prompt_template(),
            openai: None,
            ollama: None,
        }
    }
}

impl Default for PicklsConfig {
    fn default() -> (config: Self)
        ensures
            config@ == default_config_view(),
            config.well_formed(),
    {
        let config = PicklsConfig {
            languages: Vec::new(),
            symbols: None,
            ai: PicklsAIConfig::default(),
        };
        assert(config@.languages =~= Seq::empty());
        config
    }
}

/// The identifiers of the languages, in the order of the entries.
pub open spec fn language_ids_of(languages: Seq<(Seq<char>, LanguageView)>) -> Seq<Seq<char>> {
    languages.map_values(|entry: (Seq<char>, LanguageView)| entry.0)
}

/// Whether no language identifier occurs twice among the entries.
pub open spec fn distinct_ids(languages: Seq<(Seq<char>, LanguageView)>) -> bool {
    all_distinct(language_ids_of(languages))
}

impl PicklsConfig {
    /// A configuration is well formed where no language has two entries.
    pub open spec fn well_formed(&self) -> bool {
        distinct_ids(self@.languages)
    }
}

} // verus!
