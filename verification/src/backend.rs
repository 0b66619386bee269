//! Which backend answers: the provider alone selects it, and the block of
//! the other family is never read.

use vstd::prelude::*;
use crate::config::{
    default_openai_view, AIView, OllamaConfig, OllamaView, OpenAIConfig, OpenAIView,
    PicklsAIConfig, PicklsAIProvider,
};
use crate::text::{copy_strings, same_text};

verus! {

/// The backend that is in use, with its settings.
#[derive(Clone, Debug, PartialEq, Eq)]
pub enum ActiveBackend {
    /// The hosted family.
    Hosted(OpenAIConfig),
    /// The local family.
    Local(OllamaConfig),
}

/// The backend in use as plain values.
pub enum ActiveBackendView {
    Hosted(OpenAIView),
    Local(OllamaView),
}

impl View for ActiveBackend {
    type V = ActiveBackendView;

    open spec fn view(&self) -> ActiveBackendView {
        match self {
            ActiveBackend::Hosted(openai) => ActiveBackendView::Hosted(openai@),
            ActiveBackend::Local(ollama) => ActiveBackendView::Local(ollama@),
        }
    }
}

/// Why a backend cannot be used.
#[derive(Clone, Copy, Debug, PartialEq, Eq, Structural)]
pub enum BackendError {
    /// The provider selects the other family.
    NotSelected,
    /// The family is selected and the configuration has no block for it.
    MissingBlock,
    /// The family is selected and its block names no model.
    MissingModel,
}

/// The hosted backend, if the provider selects it: the block where there is
/// one, else the default model and credential command.
pub open spec fn hosted_backend_spec(ai: AIView) -> Result<OpenAIView, BackendError> {
    match ai.inline_assist_provider {
        PicklsAIProvider::OpenAI => Ok(
            match ai.openai {
                Some(openai) => openai,
                None => default_openai_view(),
            },
        ),
        PicklsAIProvider::Ollama => Err(BackendError::NotSelected),
    }
}

/// The local backend, if the provider selects it and its block names a
/// model. Nothing of it has a default.
pub open spec fn local_backend_spec(ai: AIView) -> Result<OllamaView, BackendError> {
    match ai.inline_assist_provider {
        PicklsAIProvider::OpenAI => Err(BackendError::NotSelected),
        PicklsAIProvider::Ollama => match ai.ollama {
            None => Err(BackendError::MissingBlock),
            Some(ollama) => if ollama.model.len() == 0 {
                Err(BackendError::MissingModel)
            } else {
                Ok(ollama)
            },
        },
    }
}

/// The backend that the provider selects, or what it lacks.
pub open spec fn active_backend_spec(ai: AIView) -> Result<ActiveBackendView, BackendError> {
    match ai.inline_assist_provider {
        PicklsAIProvider::OpenAI => match hosted_backend_spec(ai) {
            Ok(openai) => Ok(ActiveBackendView::Hosted(openai)),
            Err(error) => Err(error),
        },
        PicklsAIProvider::Ollama => match local_backend_spec(ai) {
            Ok(ollama) => Ok(ActiveBackendView::Local(ollama)),
            Err(error) => Err(error),
        },
    }
}

/// The block of the family that the provider selects.
pub open spec fn selected_block(ai: AIView) -> Option<ActiveBackendView> {
    match ai.inline_assist_provider {
        PicklsAIProvider::OpenAI => match ai.openai {
            Some(openai) => Some(ActiveBackendView::Hosted(openai)),
            None => None,
        },
        PicklsAIProvider::Ollama => match ai.ollama {
            Some(ollama) => Some(ActiveBackendView::Local(ollama)),
            None => None,
        },
    }
}

/// Two configurations with the same provider and the same block for it
/// select the same backend, whatever the other block holds in either.
pub proof fn lemma_unselected_block_is_immaterial(left: AIView, right: AIView)
    requires
        left.inline_assist_provider == right.inline_assist_provider,
        selected_block(left) == selected_block(right),
    ensures
        active_backend_spec(left) == active_backend_spec(right),
{
}

/// Selecting a backend never reports that no family is selected; the hosted
/// family always has a backend; and each of the two single-family questions
/// is answered with `NotSelected` exactly where the provider names the
/// other family.
pub proof fn lemma_exactly_one_family(ai: AIView)
    ensures
        active_backend_spec(ai) != Err::<ActiveBackendView, BackendError>(
            BackendError::NotSelected,
        ),
        ai.inline_assist_provider == PicklsAIProvider::OpenAI ==> active_backend_spec(ai) is Ok,
        (hosted_backend_spec(ai) == Err::<OpenAIView, BackendError>(BackendError::NotSelected))
            <==> ai.inline_assist_provider == PicklsAIProvider::Ollama,
        (local_backend_spec(ai) == Err::<OllamaView, BackendError>(BackendError::NotSelected))
            <==> ai.inline_assist_provider == PicklsAIProvider::OpenAI,
        (hosted_backend_spec(ai) == Err::<OpenAIView, BackendError>(BackendError::NotSelected))
            != (local_backend_spec(ai) == Err::<OllamaView, BackendError>(
            BackendError::NotSelected,
        )),
{
}

impl OpenAIConfig {
    /// A copy of these settings.
    pub fn copy(&self) -> (copy: OpenAIConfig)
        ensures
            copy@ == self@,
    {
        OpenAIConfig { model: self.model.clone(), api_key_cmd: copy_strings(&self.api_key_cmd) }
    }
}

impl OllamaConfig {
    /// A copy of these settings.
    pub fn copy(&self) -> (copy: OllamaConfig)
        ensures
            copy@ == self@,
    {
        OllamaConfig { model: self.model.clone(), api_address: self.api_address.clone() }
    }

    /// Whether a model is named.
    pub fn has_model(&self) -> (named: bool)
        ensures
            named == (self@.model.len() > 0),
    {
        proof {
            reveal_strlit("");
            if self.model@.len() == 0 {
                assert(self.model@ =~= ""@);
            }
        }
        !same_text(self.model.as_str(), "")
    }
}

impl PicklsAIConfig {
    /// The hosted backend's settings, where the provider selects that
    /// family; the defaults stand in for a missing block.
    pub fn hosted_backend(&self) -> (backend: Result<OpenAIConfig, BackendError>)
        ensures
            match backend {
                Ok(openai) => hosted_backend_spec(self@) == Ok::<OpenAIView, BackendError>(
                    openai@,
                ),
                Err(error) => hosted_backend_spec(self@) == Err::<OpenAIView, BackendError>(
                    error,
                ),
            },
            backend is Ok <==> self.inline_assist_provider == PicklsAIProvider::OpenAI,
    {
        match self.inline_assist_provider {
            PicklsAIProvider::OpenAI => match &self.openai {
                Some(openai) => Ok(openai.copy()),
                None => Ok(OpenAIConfig::default()),
            },
            PicklsAIProvider::Ollama => Err(BackendError::NotSelected),
        }
    }

    /// The local backend's settings, where the provider selects that family
    /// and the block names a model.
    pub fn local_backend(&self) -> (backend: Result<OllamaConfig, BackendError>)
        ensures
            match backend {
                Ok(ollama) => local_backend_spec(self@) == Ok::<OllamaView, BackendError>(
                    ollama@,
                ),
                Err(error) => local_backend_spec(self@) == Err::<OllamaView, BackendError>(
                    error,
                ),
            },
            backend is Ok <==> self.inline_assist_provider == PicklsAIProvider::Ollama
                && self@.ollama is Some && self@.ollama->0.model.len() > 0,
    {
        match self.inline_assist_provider {
            PicklsAIProvider::OpenAI => Err(BackendError::NotSelected),
            PicklsAIProvider::Ollama => match &self.ollama {
                None => Err(BackendError::MissingBlock),
                Some(ollama) => {
                    if ollama.has_model() {
                        Ok(ollama.copy())
                    } else {
                        Err(BackendError::MissingModel)
                    }
                },
            },
        }
    }

    /// The backend that the provider selects. The block of the other family
    /// is not read. It fails only for the local family: with `MissingBlock`
    /// where there is no block, with `MissingModel` where it names no model.
    pub fn active_backend(&self) -> (backend: Result<ActiveBackend, BackendError>)
        ensures
            match backend {
                Ok(active) => active_backend_spec(self@) == Ok::<
                    ActiveBackendView,
                    BackendError,
                >(active@),
                Err(error) => active_backend_spec(self@) == Err::<
                    ActiveBackendView,
                    BackendError,
                >(error),
            },
            self.inline_assist_provider == PicklsAIProvider::OpenAI ==> backend is Ok,
            backend != Err::<ActiveBackend, BackendError>(BackendError::NotSelected),
    {
        match self.inline_assist_provider {
            PicklsAIProvider::OpenAI => match self.hosted_backend() {
                Ok(openai) => Ok(ActiveBackend::Hosted(openai)),
                Err(error) => Err(error),
            },
            PicklsAIProvider::Ollama => match self.local_backend() {
                Ok(ollama) => Ok(ActiveBackend::Local(ollama)),
                Err(error) => Err(error),
            },
        }
    }
}

} // verus!
