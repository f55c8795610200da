use chat_stream_core::error::GenerationError;
use chat_stream_core::local::{
    contains_text, format_chat_prompt, has_stop_tag, prompt_fits, sampler_mode, GenerationSession,
    LocalLLMProvider, SamplerMode, StepOutcome, CONTEXT_WINDOW_TOKENS, MAX_GENERATION_TOKENS,
};
use chat_stream_core::message::{Message, Role, Temperature};

#[test]
fn prompt_renders_each_role_in_template() {
    let ms = vec![
        Message::new(Role::System, "rule".to_string()),
        Message::new(Role::User, "question".to_string()),
        Message::new(Role::Assistant, "answer".to_string()),
    ];
    let p = format_chat_prompt(&ms);
    let expected = "<start_of_turn>user\nSystem instruction: rule<end_of_turn>\n\
                    <start_of_turn>user\nquestion<end_of_turn>\n\
                    <start_of_turn>model\nanswer<end_of_turn>\n\
                    <start_of_turn>model\n";
    assert_eq!(p, expected);
}

#[test]
fn prompt_of_no_messages_is_open_model_turn() {
    let p = format_chat_prompt(&Vec::new());
    assert_eq!(p, "<start_of_turn>model\n");
}

#[test]
fn prompt_is_deterministic() {
    let ms = vec![Message::new(Role::User, "same".to_string())];
    assert_eq!(format_chat_prompt(&ms), format_chat_prompt(&ms));
}

#[test]
fn missing_model_file_fails_fast() {
    let r = LocalLLMProvider::new("/no/such/dir/model.gguf");
    match r {
        Err(GenerationError::ModelLoadError { message }) => {
            assert_eq!(message, "Model file not found: /no/such/dir/model.gguf");
        }
        other => panic!("expected a model-load error, got {:?}", other),
    }
}

#[test]
fn present_model_path_is_accepted() {
    // The probe tests presence only, as the engine does before loading; the
    // filesystem root is present on every machine.
    let p = LocalLLMProvider::new("/").unwrap();
    assert_eq!(p.model_path, "/");
}

#[test]
fn sampler_mode_follows_epsilon_rule() {
    assert_eq!(sampler_mode(Temperature::from_milli(0)), SamplerMode::Greedy);
    assert_eq!(sampler_mode(Temperature::from_milli(9)), SamplerMode::Greedy);
    assert_eq!(sampler_mode(Temperature::from_milli(10)), SamplerMode::TemperatureSampling);
    assert_eq!(sampler_mode(Temperature::from_milli(900)), SamplerMode::TemperatureSampling);
}

#[test]
fn session_emits_text_and_stops_on_end_marker() {
    let mut s = GenerationSession::new();
    assert!(s.live());
    match s.step(false, "Hel".to_string()) {
        StepOutcome::Emit(t) => assert_eq!(t, "Hel"),
        other => panic!("expected an emit, got {:?}", other),
    }
    match s.step(false, "lo".to_string()) {
        StepOutcome::Emit(t) => assert_eq!(t, "lo"),
        other => panic!("expected an emit, got {:?}", other),
    }
    assert!(matches!(s.step(true, String::new()), StepOutcome::Finished));
    assert!(!s.live());
}

#[test]
fn session_swallows_end_tags() {
    let mut s = GenerationSession::new();
    assert!(matches!(
        s.step(false, "<end_of_turn>".to_string()),
        StepOutcome::Finished
    ));
    assert!(!s.live());

    let mut s = GenerationSession::new();
    assert!(matches!(s.step(false, "tail<eos>".to_string()), StepOutcome::Finished));
    assert!(!s.live());
}

#[test]
fn session_advances_silently_on_empty_text() {
    let mut s = GenerationSession::new();
    assert!(matches!(s.step(false, String::new()), StepOutcome::Advance));
    assert!(s.live());
}

#[test]
fn session_never_exceeds_max_tokens() {
    let mut s = GenerationSession::new();
    let mut emitted: u32 = 0;
    let mut rounds: u32 = 0;
    while s.live() {
        if let StepOutcome::Emit(_) = s.step(false, "x".to_string()) {
            emitted += 1;
        }
        rounds += 1;
        assert!(rounds <= MAX_GENERATION_TOKENS);
    }
    assert_eq!(rounds, MAX_GENERATION_TOKENS);
    assert_eq!(emitted, MAX_GENERATION_TOKENS);
    assert!(!s.live());
}

#[test]
fn cancelled_session_is_terminal() {
    let mut s = GenerationSession::new();
    s.step(false, "one".to_string());
    s.cancel();
    assert!(!s.live());
}

#[test]
fn stop_tag_detection() {
    assert!(has_stop_tag("<end_of_turn>"));
    assert!(has_stop_tag("text<end_of_turn>more"));
    assert!(has_stop_tag("abc<eos>"));
    assert!(!has_stop_tag("plain text"));
    assert!(!has_stop_tag("<end_of_tur"));
    assert!(!has_stop_tag(""));
}

#[test]
fn substring_search_matches_std() {
    let hay = "abcabcd";
    for needle in ["a", "abcd", "cab", "", "abcabcda", "xyz", "d"] {
        assert_eq!(contains_text(hay, needle), hay.contains(needle), "needle {:?}", needle);
    }
}

#[test]
fn prompt_capacity_bound() {
    assert!(prompt_fits(0));
    assert!(prompt_fits(CONTEXT_WINDOW_TOKENS));
    assert!(!prompt_fits(CONTEXT_WINDOW_TOKENS + 1));
}
