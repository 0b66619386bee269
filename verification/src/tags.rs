//! The words by which a document names a choice.

use vstd::prelude::*;
use crate::config::{PicklsAIProvider, PicklsSymbolsSource};
use crate::text::same_text;

verus! {

broadcast use vstd::string::to_string_from_display_ensures_for_str;

/// The tagging tool that a word names, if it names one. The only word is
/// `universal-ctags`, in exactly this spelling.
pub open spec fn symbols_source_of_tag(tag: Seq<char>) -> Option<PicklsSymbolsSource> {
    if tag == "universal-ctags"@ {
        Some(PicklsSymbolsSource::UniversalCtags)
    } else {
        None
    }
}

/// The word that names a tagging tool.
pub open spec fn tag_of_symbols_source(source: PicklsSymbolsSource) -> Seq<char> {
    match source {
        PicklsSymbolsSource::UniversalCtags => "universal-ctags"@,
    }
}

/// The backend family that a word names, if it names one. The words are
/// `openai` and `ollama`, in exactly this spelling.
pub open spec fn provider_of_tag(tag: Seq<char>) -> Option<PicklsAIProvider> {
    if tag == "openai"@ {
        Some(PicklsAIProvider::OpenAI)
    } else if tag == "ollama"@ {
        Some(PicklsAIProvider::Ollama)
    } else {
        None
    }
}

/// The word that names a backend family.
pub open spec fn tag_of_provider(provider: PicklsAIProvider) -> Seq<char> {
    match provider {
        PicklsAIProvider::OpenAI => "openai"@,
        PicklsAIProvider::Ollama => "ollama"@,
    }
}

impl PicklsSymbolsSource {
    /// Reads the word that names a tagging tool. Any other word names none.
    pub fn from_tag(tag: &str) -> (source: Option<PicklsSymbolsSource>)
        ensures
            source == symbols_source_of_tag(tag@),
    {
        if same_text(tag, "universal-ctags") {
            Some(PicklsSymbolsSource::UniversalCtags)
        } else {
            None
        }
    }

    /// The word that names this tagging tool in a document.
    pub fn tag(&self) -> (tag: String)
        ensures
            tag@ == tag_of_symbols_source(*self),
            symbols_source_of_tag(tag@) == Some(*self),
    {
        match self {
            PicklsSymbolsSource::UniversalCtags => "universal-ctags".to_string(),
        }
    }
}

impl PicklsAIProvider {
    /// Reads the word that names a backend family. Any other word names none.
    pub fn from_tag(tag: &str) -> (provider: Option<PicklsAIProvider>)
        ensures
            provider == provider_of_tag(tag@),
    {
        if same_text(tag, "openai") {
            Some(PicklsAIProvider::OpenAI)
        } else if same_text(tag, "ollama") {
            Some(PicklsAIProvider::Ollama)
        } else {
            None
        }
    }

    /// The word that names this backend family in a document.
    pub fn tag(&self) -> (tag: String)
        ensures
            tag@ == tag_of_provider(*self),
            provider_of_tag(tag@) == Some(*self),
    {
        proof {
            lemma_provider_tags_differ();
        }
        match self {
            PicklsAIProvider::OpenAI => "openai".to_string(),
            PicklsAIProvider::Ollama => "ollama".to_string(),
        }
    }
}

/// The two words that name a backend family are different words.
pub proof fn lemma_provider_tags_differ()
    ensures
        "openai"@ != "ollama"@,
{
    reveal_strlit("openai");
    reveal_strlit("ollama");
    assert("openai"@[1] == 'p');
    assert("ollama"@[1] == 'l');
}

/// Each choice is read back from the word that names it.
pub proof fn lemma_tags_read_back(source: PicklsSymbolsSource, provider: PicklsAIProvider)
    ensures
        symbols_source_of_tag(tag_of_symbols_source(source)) == Some(source),
        provider_of_tag(tag_of_provider(provider)) == Some(provider),
{
    lemma_provider_tags_differ();
}

} // verus!
