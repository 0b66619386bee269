//! A settings document as its author wrote it: a setting that may be left
//! out is an `Option`, and a choice is still the word that names it.

use vstd::prelude::*;
use crate::defaults::strings_view;

verus! {

/// The symbols section of a document.
#[derive(Clone, Debug, PartialEq, Eq)]
pub struct SymbolsDocument {
    /// The word that names the tagging tool.
    pub source: String,
    pub ctags_timeout_ms: Option<u64>,
}

/// One linter of a document.
#[derive(Clone, Debug, PartialEq, Eq)]
pub struct LinterDocument {
    pub program: String,
    pub args: Option<Vec<String>>,
    pub use_stdin: bool,
    pub pattern: String,
    pub filename_match: Option<usize>,
    pub line_match: usize,
    pub start_col_match: Option<usize>,
    pub end_col_match: Option<usize>,
    pub severity_match: Option<usize>,
    pub description_match: Option<isize>,
    pub use_stderr: Option<bool>,
}

/// One formatter of a document.
#[derive(Clone, Debug, PartialEq, Eq)]
pub struct FormatterDocument {
    pub program: String,
    pub args: Vec<String>,
    pub use_stdin: Option<bool>,
    pub stderr_indicates_error: Option<bool>,
}

/// One language of a document.
#[derive(Clone, Debug, PartialEq, Eq)]
pub struct LanguageDocument {
    pub root_markers: Option<Vec<String>>,
    pub linters: Option<Vec<LinterDocument>>,
    pub formatters: Option<Vec<FormatterDocument>>,
}

/// The hosted backend's block of a document.
#[derive(Clone, Debug, PartialEq, Eq)]
pub struct OpenAIDocument {
    pub model: Option<String>,
    pub api_key_cmd: Option<Vec<String>>,
}

/// The local backend's block of a document.
#[derive(Clone, Debug, PartialEq, Eq)]
pub struct OllamaDocument {
    pub model: Option<String>,
    pub api_address: Option<String>,
}

/// The assistant's section of a document.
#[derive(Clone, Debug, PartialEq, Eq)]
pub struct AIDocument {
    pub system_prompt: Option<String>,
    /// The word that names the backend family.
    pub inline_assist_provider: Option<String>,
    pub inline_assist_prompt_template: Option<String>,
    pub openai: Option<OpenAIDocument>,
    pub ollama: Option<OllamaDocument>,
}

/// A whole document. Keys that it does not know were dropped by whatever
/// read the file.
#[derive(Clone, Debug, PartialEq, Eq)]
pub struct ConfigDocument {
    /// The languages in the order in which the document lists them.
    pub languages: Option<Vec<(String, LanguageDocument)>>,
    pub symbols: Option<SymbolsDocument>,
    pub ai: Option<AIDocument>,
}

/// The symbols section as plain values.
pub struct SymbolsDocumentView {
    pub source: Seq<char>,
    pub ctags_timeout_ms: Option<u64>,
}

/// A linter of a document as plain values.
pub struct LinterDocumentView {
    pub program: Seq<char>,
    pub args: Option<Seq<Seq<char>>>,
    pub use_stdin: bool,
    pub pattern: Seq<char>,
    pub filename_match: Option<usize>,
    pub line_match: usize,
    pub start_col_match: Option<usize>,
    pub end_col_match: Option<usize>,
    pub severity_match: Option<usize>,
    pub description_match: Option<isize>,
    pub use_stderr: Option<bool>,
}

/// A formatter of a document as plain values.
pub struct FormatterDocumentView {
    pub program: Seq<char>,
    pub args: Seq<Seq<char>>,
    pub use_stdin: Option<bool>,
    pub stderr_indicates_error: Option<bool>,
}

/// A language of a document as plain values.
pub struct LanguageDocumentView {
    pub root_markers: Option<Seq<Seq<char>>>,
    pub linters: Option<Seq<LinterDocumentView>>,
    pub formatters: Option<Seq<FormatterDocumentView>>,
}

/// The hosted backend's block as plain values.
pub struct OpenAIDocumentView {
    pub model: Option<Seq<char>>,
    pub api_key_cmd: Option<Seq<Seq<char>>>,
}

/// The local backend's block as plain values.
pub struct OllamaDocumentView {
    pub model: Option<Seq<char>>,
    pub api_address: Option<Seq<char>>,
}

/// The assistant's section as plain values.
pub struct AIDocumentView {
    pub system_prompt: Option<Seq<char>>,
    pub inline_assist_provider: Option<Seq<char>>,
    pub inline_assist_prompt_template: Option<Seq<char>>,
    pub openai: Option<OpenAIDocumentView>,
    pub ollama: Option<OllamaDocumentView>,
}

/// A whole document as plain values.
pub struct ConfigDocumentView {
    pub languages: Option<Seq<(Seq<char>, LanguageDocumentView)>>,
    pub symbols: Option<SymbolsDocumentView>,
    pub ai: Option<AIDocumentView>,
}

/// The characters of a text that may be left out.
pub open spec fn optional_text_view(text: Option<String>) -> Option<Seq<char>> {
    match text {
        Some(text) => Some(text@),
        None => None,
    }
}

/// The strings of a list that may be left out.
pub open spec fn optional_strings_view(strings: Option<Vec<String>>) -> Option<Seq<Seq<char>>> {
    match strings {
        Some(strings) => Some(strings_view(strings@)),
        None => None,
    }
}

impl View for SymbolsDocument {
    type V = SymbolsDocumentView;

    open spec fn view(&self) -> SymbolsDocumentView {
        SymbolsDocumentView { source: self.source@, ctags_timeout_ms: self.ctags_timeout_ms }
    }
}

impl View for LinterDocument {
    type V = LinterDocumentView;

    open spec fn view(&self) -> LinterDocumentView {
        LinterDocumentView {
            program: self.program@,
            args: optional_strings_view(self.args),
            use_stdin: self.use_stdin,
            pattern: self.pattern@,
            filename_match: self.filename_match,
            line_match: self.line_match,
            start_col_match: self.start_col_match,
            end_col_match: self.end_col_match,
            severity_match: self.severity_match,
            description_match: self.description_match,
            use_stderr: self.use_stderr,
        }
    }
}

impl View for FormatterDocument {
    type V = FormatterDocumentView;

    open spec fn view(&self) -> FormatterDocumentView {
        FormatterDocumentView {
            program: self.program@,
            args: strings_view(self.args@),
            use_stdin: self.use_stdin,
            stderr_indicates_error: self.stderr_indicates_error,
        }
    }
}

/// What a list of a document's linters holds.
pub open spec fn linter_documents_view(linters: Seq<LinterDocument>) -> Seq<LinterDocumentView> {
    linters.map_values(|l: LinterDocument| l@)
}

/// What a list of a document's formatters holds.
pub open spec fn formatter_documents_view(formatters: Seq<FormatterDocument>) -> Seq<
    FormatterDocumentView,
> {
    formatters.map_values(|f: FormatterDocument| f@)
}

impl View for LanguageDocument {
    type V = LanguageDocumentView;

    open spec fn view(&self) -> LanguageDocumentView {
        LanguageDocumentView {
            root_markers: optional_strings_view(self.root_markers),
            linters: match self.linters {
                Some(linters) => Some(linter_documents_view(linters@)),
                None => None,
            },
            formatters: match self.formatters {
                Some(formatters) => Some(formatter_documents_view(formatters@)),
                None => None,
            },
        }
    }
}

impl View for OpenAIDocument {
    type V = OpenAIDocumentView;

    open spec fn view(&self) -> OpenAIDocumentView {
        OpenAIDocumentView {
            model: optional_text_view(self.model),
            api_key_cmd: optional_strings_view(self.api_key_cmd),
        }
    }
}

impl View for OllamaDocument {
    type V = OllamaDocumentView;

    open spec fn view(&self) -> OllamaDocumentView {
        OllamaDocumentView {
            model: optional_text_view(self.model),
            api_address: optional_text_view(self.api_address),
        }
    }
}

impl View for AIDocument {
    type V = AIDocumentView;

    open spec fn view(&self) -> AIDocumentView {
        AIDocumentView {
            system_prompt: optional_text_view(self.system_prompt),
            inline_assist_provider: optional_text_view(self.inline_assist_provider),
            inline_assist_prompt_template: optional_text_view(self.inline_assist_prompt_template),
            openai: match self.openai {
                Some(openai) => Some(openai@),
                None => None,
            },
            ollama: match self.ollama {
                Some(ollama) => Some(ollama@),
                None => None,
            },
        }
    }
}

/// What a list of a document's languages holds.
pub open spec fn language_documents_view(languages: Seq<(String, LanguageDocument)>) -> Seq<
    (Seq<char>, LanguageDocumentView),
> {
    languages.map_values(|entry: (String, LanguageDocument)| (entry.0@, entry.1@))
}

impl View for ConfigDocument {
    type V = ConfigDocumentView;

    open spec fn view(&self) -> ConfigDocumentView {
        ConfigDocumentView {
            languages: match self.languages {
                Some(languages) => Some(language_documents_view(languages@)),
                None => None,
            },
            symbols: match self.symbols {
                Some(symbols) => Some(symbols@),
                None => None,
            },
            ai: match self.ai {
                Some(ai) => Some(ai@),
                None => None,
            },
        }
    }
}

} // verus!
