use chat_stream_core::error::GenerationError;
use chat_stream_core::message::{default_temperature, Temperature};
use chat_stream_core::provider::{
    build_provider, default_openai_model, Config, LlmProviderType, ProviderHandle,
};

fn base_config() -> Config {
    Config::default()
}

#[test]
fn default_config_values() {
    let c = Config::default();
    assert_eq!(c.llm_provider, LlmProviderType::OpenAI);
    assert!(c.openai_api_key.is_none());
    assert_eq!(c.openai_model, "gpt-4");
    assert!(c.custom_api_url.is_none());
    assert!(c.custom_api_key.is_none());
    assert!(c.custom_model.is_none());
    assert!(c.builtin_model_path.is_none());
    assert_eq!(c.temperature.milli, 900);
    assert!(!c.tts_enabled);
    assert!(c.tts_voice.is_none());
}

#[test]
fn default_model_and_temperature() {
    assert_eq!(default_openai_model(), "gpt-4");
    assert_eq!(default_temperature().milli, 900);
    assert_eq!(LlmProviderType::default(), LlmProviderType::OpenAI);
}

#[test]
fn temperature_clamping() {
    assert_eq!(Temperature::from_milli_clamped(1500).milli, 1500);
    assert_eq!(Temperature::from_milli_clamped(2000).milli, 2000);
    assert_eq!(Temperature::from_milli_clamped(2001).milli, 2000);
    assert!(Temperature::from_milli(0).is_deterministic());
    assert!(!Temperature::from_milli(10).is_deterministic());
}

#[test]
fn openai_without_key_is_config_error() {
    let c = base_config();
    match build_provider(&c) {
        Err(GenerationError::ConfigError { message }) => {
            assert_eq!(message, "OpenAI API key not set. Please configure it in settings.");
        }
        other => panic!("expected a config error, got {:?}", other),
    }
}

#[test]
fn openai_with_key_uses_standard_endpoint() {
    let mut c = base_config();
    c.openai_api_key = Some("sk-1".to_string());
    match build_provider(&c) {
        Ok(ProviderHandle::Remote(p)) => {
            assert_eq!(p.api_key, "sk-1");
            assert_eq!(p.model, "gpt-4");
            assert_eq!(p.base_url, "https://api.openai.com/v1");
        }
        other => panic!("expected a remote provider, got {:?}", other),
    }
}

#[test]
fn lmstudio_defaults() {
    let mut c = base_config();
    c.llm_provider = LlmProviderType::LMStudio;
    match build_provider(&c) {
        Ok(ProviderHandle::Remote(p)) => {
            assert_eq!(p.api_key, "lm-studio");
            assert_eq!(p.model, "default");
            assert_eq!(p.base_url, "http://localhost:1234/v1");
        }
        other => panic!("expected a remote provider, got {:?}", other),
    }
}

#[test]
fn lmstudio_honours_overrides() {
    let mut c = base_config();
    c.llm_provider = LlmProviderType::LMStudio;
    c.custom_api_url = Some("http://box:9999/v1".to_string());
    c.custom_model = Some("mistral".to_string());
    c.custom_api_key = Some("secret".to_string());
    match build_provider(&c) {
        Ok(ProviderHandle::Remote(p)) => {
            assert_eq!(p.api_key, "secret");
            assert_eq!(p.model, "mistral");
            assert_eq!(p.base_url, "http://box:9999/v1");
        }
        other => panic!("expected a remote provider, got {:?}", other),
    }
}

#[test]
fn ollama_defaults() {
    let mut c = base_config();
    c.llm_provider = LlmProviderType::Ollama;
    match build_provider(&c) {
        Ok(ProviderHandle::Remote(p)) => {
            assert_eq!(p.api_key, "ollama");
            assert_eq!(p.model, "llama3.2");
            assert_eq!(p.base_url, "http://localhost:11434/v1");
        }
        other => panic!("expected a remote provider, got {:?}", other),
    }
}

#[test]
fn custom_api_requires_url() {
    let mut c = base_config();
    c.llm_provider = LlmProviderType::CustomAPI;
    match build_provider(&c) {
        Err(GenerationError::ConfigError { message }) => {
            assert_eq!(message, "Custom API URL is required.");
        }
        other => panic!("expected a config error, got {:?}", other),
    }
}

#[test]
fn custom_api_with_url_defaults_rest() {
    let mut c = base_config();
    c.llm_provider = LlmProviderType::CustomAPI;
    c.custom_api_url = Some("https://api.example/v1".to_string());
    match build_provider(&c) {
        Ok(ProviderHandle::Remote(p)) => {
            assert_eq!(p.api_key, "");
            assert_eq!(p.model, "default");
            assert_eq!(p.base_url, "https://api.example/v1");
        }
        other => panic!("expected a remote provider, got {:?}", other),
    }
}

#[test]
fn builtin_without_path_is_config_error() {
    let mut c = base_config();
    c.llm_provider = LlmProviderType::BuiltIn;
    match build_provider(&c) {
        Err(GenerationError::ConfigError { message }) => {
            assert_eq!(
                message,
                "No local model path configured. Please download or select a model in settings."
            );
        }
        other => panic!("expected a config error, got {:?}", other),
    }
}

#[test]
fn builtin_with_missing_file_is_model_load_error() {
    let mut c = base_config();
    c.llm_provider = LlmProviderType::BuiltIn;
    c.builtin_model_path = Some("/no/such/model.gguf".to_string());
    match build_provider(&c) {
        Err(GenerationError::ModelLoadError { message }) => {
            assert_eq!(message, "Model file not found: /no/such/model.gguf");
        }
        other => panic!("expected a model-load error, got {:?}", other),
    }
}

#[test]
fn builtin_with_present_file_is_local_provider() {
    let mut c = base_config();
    c.llm_provider = LlmProviderType::BuiltIn;
    c.builtin_model_path = Some("/".to_string());
    match build_provider(&c) {
        Ok(ProviderHandle::Local(p)) => assert_eq!(p.model_path, "/"),
        other => panic!("expected a local provider, got {:?}", other),
    }
}
