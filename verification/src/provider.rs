//! Provider selection: the configuration record this core consumes, and the
//! choice of a remote or local provider from it, made once per call.

use vstd::prelude::*;
use crate::error::GenerationError;
use crate::local::LocalLLMProvider;
use crate::message::Temperature;
use crate::remote::OpenAIProvider;

verus! {

/// Which backend the configuration selects.
#[derive(Clone, Copy, Debug, PartialEq, Eq, Structural)]
pub enum LlmProviderType {
    OpenAI,
    LMStudio,
    Ollama,
    CustomAPI,
    BuiltIn,
}

impl Default for LlmProviderType {
    /// The provider kind used when the configuration names none.
    fn default() -> (t: Self)
        ensures
            t == LlmProviderType::OpenAI,
    {
        LlmProviderType::OpenAI
    }
}

/// The model identifier used for the standard remote endpoint when the
/// configuration names none.
pub fn default_openai_model() -> (s: String)
    ensures
        s@ == "gpt-4"@,
{
    "gpt-4".to_owned()
}

/// The caller's provider configuration, as this core consumes it.
#[derive(Debug, Clone)]
pub struct Config {
    pub llm_provider: LlmProviderType,
    pub openai_api_key: Option<String>,
    pub openai_model: String,
    pub custom_api_url: Option<String>,
    pub custom_api_key: Option<String>,
    pub custom_model: Option<String>,
    pub builtin_model_path: Option<String>,
    pub temperature: Temperature,
    pub tts_enabled: bool,
    pub tts_voice: Option<String>,
}

impl Default for Config {
    /// The configuration used when none is stored.
    fn default() -> (c: Self)
        ensures
            c.llm_provider == LlmProviderType::OpenAI,
            c.openai_api_key is None,
            c.openai_model@ == "gpt-4"@,
            c.custom_api_url is None,
            c.custom_api_key is None,
            c.custom_model is None,
            c.builtin_model_path is None,
            c.temperature.milli == 900,
            !c.tts_enabled,
            c.tts_voice is None,
    {
        Config {
            llm_provider: LlmProviderType::OpenAI,
            openai_api_key: None,
            openai_model: default_openai_model(),
            custom_api_url: None,
            custom_api_key: None,
            custom_model: None,
            builtin_model_path: None,
            temperature: crate::message::default_temperature(),
            tts_enabled: false,
            tts_voice: None,
        }
    }
}

/// The provider chosen for one call: one operation, two implementors,
/// selected once at call start and never mixed mid-call.
#[derive(Debug, Clone)]
pub enum ProviderHandle {
    Remote(OpenAIProvider),
    Local(LocalLLMProvider),
}

/// Builds the provider the configuration selects. A missing credential,
/// endpoint or model path is a configuration error, reported before any
/// network or model work; a built-in model path with nothing behind it on
/// disk is a model-load error. Every other configuration yields a provider
/// whose endpoint, credential and model are stated exactly, defaults
/// included.
pub fn build_provider(config: &Config) -> (r: Result<ProviderHandle, GenerationError>)
    ensures
        ({
            match config.llm_provider {
                LlmProviderType::OpenAI => match config.openai_api_key {
                    Some(key) => r matches Ok(ProviderHandle::Remote(p)) && p.api_key == key
                        && p.model == config.openai_model && p.base_url@
                        == "https://api.openai.com/v1"@,
                    None => r matches Err(e) && e matches GenerationError::ConfigError { message }
                        && message@ == "OpenAI API key not set. Please configure it in settings."@,
                },
                LlmProviderType::LMStudio => r matches Ok(ProviderHandle::Remote(p)) && p.api_key@
                    == (match config.custom_api_key {
                    Some(k) => k@,
                    None => "lm-studio"@,
                }) && p.model@ == (match config.custom_model {
                    Some(m) => m@,
                    None => "default"@,
                }) && p.base_url@ == (match config.custom_api_url {
                    Some(u) => u@,
                    None => "http://localhost:1234/v1"@,
                }),
                LlmProviderType::Ollama => r matches Ok(ProviderHandle::Remote(p)) && p.api_key@
                    == "ollama"@ && p.model@ == (match config.custom_model {
                    Some(m) => m@,
                    None => "llama3.2"@,
                }) && p.base_url@ == (match config.custom_api_url {
                    Some(u) => u@,
                    None => "http://localhost:11434/v1"@,
                }),
                LlmProviderType::CustomAPI => match config.custom_api_url {
                    Some(url) => r matches Ok(ProviderHandle::Remote(p)) && p.api_key@ == (
                    match config.custom_api_key {
                        Some(k) => k@,
                        None => ""@,
                    }) && p.model@ == (match config.custom_model {
                        Some(m) => m@,
                        None => "default"@,
                    }) && p.base_url == url,
                    None => r matches Err(e) && e matches GenerationError::ConfigError { message }
                        && message@ == "Custom API URL is required."@,
                },
                LlmProviderType::BuiltIn => match config.builtin_model_path {
                    Some(path) => (r matches Ok(h) ==> h matches ProviderHandle::Local(p)
                        && p.model_path@ == path@) && (r matches Err(e) ==> e
                        matches GenerationError::ModelLoadError { message } && message@
                        == crate::local::spec_missing_model_message(path@)),
                    None => r matches Err(e) && e matches GenerationError::ConfigError { message }
                        && message@
                        == "No local model path configured. Please download or select a model in settings."@,
                },
            }
        }),
{
    match config.llm_provider {
        LlmProviderType::OpenAI => match &config.openai_api_key {
            Some(key) => Ok(
                ProviderHandle::Remote(OpenAIProvider::new(key.clone(), config.openai_model.clone())),
            ),
            None => Err(
                GenerationError::ConfigError {
                    message: "OpenAI API key not set. Please configure it in settings.".to_owned(),
                },
            ),
        },
        LlmProviderType::LMStudio => {
            let url = match &config.custom_api_url {
                Some(u) => u.clone(),
                None => "http://localhost:1234/v1".to_owned(),
            };
            let model = match &config.custom_model {
                Some(m) => m.clone(),
                None => "default".to_owned(),
            };
            let key = match &config.custom_api_key {
                Some(k) => k.clone(),
                None => "lm-studio".to_owned(),
            };
            Ok(ProviderHandle::Remote(OpenAIProvider::new(key, model).with_base_url(url)))
        },
        LlmProviderType::Ollama => {
            let url = match &config.custom_api_url {
                Some(u) => u.clone(),
                None => "http://localhost:11434/v1".to_owned(),
            };
            let model = match &config.custom_model {
                Some(m) => m.clone(),
                None => "llama3.2".to_owned(),
            };
            Ok(
                ProviderHandle::Remote(
                    OpenAIProvider::new("ollama".to_owned(), model).with_base_url(url),
                ),
            )
        },
        LlmProviderType::CustomAPI => match &config.custom_api_url {
            Some(url) => {
                let model = match &config.custom_model {
                    Some(m) => m.clone(),
                    None => "default".to_owned(),
                };
                let key = match &config.custom_api_key {
                    Some(k) => k.clone(),
                    None => "".to_owned(),
                };
                Ok(ProviderHandle::Remote(OpenAIProvider::new(key, model).with_base_url(url.clone())))
            },
            None => Err(
                GenerationError::ConfigError { message: "Custom API URL is required.".to_owned() },
            ),
        },
        LlmProviderType::BuiltIn => match &config.builtin_model_path {
            Some(path) => match LocalLLMProvider::new(path.as_str()) {
                Ok(p) => Ok(ProviderHandle::Local(p)),
                Err(e) => Err(e),
            },
            None => Err(
                GenerationError::ConfigError {
                    message:
                        "No local model path configured. Please download or select a model in settings.".to_owned(),
                },
            ),
        },
    }
}

} // verus!
