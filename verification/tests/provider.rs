use snippet::generation::{
    generation_outcome, prepare_generation, provider_status, GenerationOutcome, GenerationRelay,
    GenerationState,
    ProviderStatus,
};
use snippet::prompt::{ChatRole, PromptIntent, QuickAction};
use snippet::provider::ollama::{
    chunk_outcome, connection_error, decimal_text, endpoint, failure_error, line_outcome,
    ollama_base_url, text_contains, ChunkOutcome, LineOutcome, OllamaAssistantMessage,
    OllamaChatChunk,
};
use snippet::provider::{ModelInfo, ProviderError};
use snippet::settings::{snapshot_for, AppConfig};

#[test]
fn describes_provider_errors() {
    assert_eq!(
        ProviderError::Unavailable("refused".into()).user_message(),
        "Ollama is not available. Start Ollama, then try again."
    );
    assert_eq!(
        ProviderError::RequestFailed("boom".into()).user_message(),
        "boom"
    );
    assert_eq!(ProviderError::Cancelled.user_message(), "Generation cancelled.");
    assert_eq!(ProviderError::Cancelled.describe(), "Generation cancelled");
    assert_eq!(
        ProviderError::InvalidResponse("bad json".into()).describe(),
        "bad json"
    );
}

#[test]
fn normalizes_the_ollama_address() {
    assert_eq!(
        ollama_base_url(" http://localhost:11434/ ").unwrap(),
        "http://localhost:11434"
    );
    assert_eq!(
        ollama_base_url("ftp://localhost"),
        Err(ProviderError::RequestFailed("Invalid Ollama address.".into()))
    );
    match ollama_base_url("not-a-url") {
        Err(ProviderError::RequestFailed(message)) => {
            assert!(message.starts_with("Invalid Ollama address: "), "{message}")
        }
        other => panic!("unexpected {other:?}"),
    }
    assert_eq!(
        endpoint("http://localhost:11434", "tags"),
        "http://localhost:11434/api/tags"
    );
}

#[test]
fn explains_failed_replies() {
    assert_eq!(
        failure_error(404, "{\"error\":\"Model 'x' not found\"}".into()),
        ProviderError::RequestFailed("The selected Ollama model is not installed.".into())
    );
    assert_eq!(
        failure_error(404, "page missing".into()),
        ProviderError::RequestFailed("Ollama returned 404 Not Found.".into())
    );
    assert_eq!(
        failure_error(500, String::new()),
        ProviderError::RequestFailed("Ollama returned 500 Internal Server Error.".into())
    );
    assert_eq!(
        failure_error(599, String::new()),
        ProviderError::RequestFailed("Ollama returned 599 <unknown status code>.".into())
    );
    assert_eq!(decimal_text(0), "0");
    assert_eq!(decimal_text(65535), "65535");
    assert!(text_contains("abcabd", "abd"));
    assert!(!text_contains("ab", "abc"));
    assert!(text_contains("x", ""));
}

#[test]
fn classifies_connection_errors() {
    assert_eq!(
        connection_error(true, "refused".into()),
        ProviderError::Unavailable("refused".into())
    );
    assert_eq!(
        connection_error(false, "tls".into()),
        ProviderError::RequestFailed("tls".into())
    );
}

#[test]
fn reads_stream_lines_and_chunks() {
    assert_eq!(line_outcome(Some("  ")), LineOutcome::Skip);
    assert_eq!(line_outcome(Some("{}")), LineOutcome::Decode);
    assert_eq!(
        line_outcome(None),
        LineOutcome::Fail(ProviderError::InvalidResponse(
            "Ollama ended the response before marking it complete.".into()
        ))
    );

    let chunk = OllamaChatChunk {
        message: Some(OllamaAssistantMessage { content: Some("Hello".into()) }),
        done: false,
        error: None,
    };
    assert_eq!(
        chunk_outcome(chunk),
        ChunkOutcome::Continue { delta: Some("Hello".into()), done: false }
    );
    let finished = OllamaChatChunk { message: None, done: true, error: None };
    assert_eq!(
        chunk_outcome(finished),
        ChunkOutcome::Continue { delta: None, done: true }
    );
    let empty = OllamaChatChunk {
        message: Some(OllamaAssistantMessage { content: Some(String::new()) }),
        done: false,
        error: None,
    };
    assert_eq!(
        chunk_outcome(empty),
        ChunkOutcome::Continue { delta: None, done: false }
    );
    let failed = OllamaChatChunk {
        message: Some(OllamaAssistantMessage { content: Some("x".into()) }),
        done: true,
        error: Some("model crashed".into()),
    };
    assert_eq!(
        chunk_outcome(failed),
        ChunkOutcome::Fail(ProviderError::RequestFailed("model crashed".into()))
    );
}

#[test]
fn tracks_the_current_generation() {
    let mut state = GenerationState::new();
    let (first, first_token, none) = state.begin();
    assert_eq!(first, 1);
    assert!(none.is_none());
    assert!(!first_token.token().is_cancelled());
    assert!(state.is_active(first));
    let (second, second_token, previous) = state.begin();
    assert_eq!(second, 2);
    assert!(first_token.token().is_cancelled());
    assert!(previous.unwrap().token().is_cancelled());
    assert!(!second_token.token().is_cancelled());
    assert!(!state.is_active(first));
    assert!(!state.finish(first));
    assert!(state.is_active(second));
    state.cancel();
    assert!(second_token.token().is_cancelled());
    assert!(state.is_active(second));
    assert!(state.finish(second));
    assert!(!state.is_active(second));
    assert!(!state.finish(second));
}

#[test]
fn reports_only_current_generations() {
    assert_eq!(generation_outcome(false, Ok(())), None);
    assert_eq!(
        generation_outcome(true, Ok(())),
        Some(GenerationOutcome::Finished)
    );
    assert_eq!(
        generation_outcome(true, Err(ProviderError::Cancelled)),
        Some(GenerationOutcome::Cancelled)
    );
    assert_eq!(
        generation_outcome(true, Err(ProviderError::Unavailable("x".into()))),
        Some(GenerationOutcome::Failed {
            message: "Ollama is not available. Start Ollama, then try again.".into()
        })
    );
}

fn models(names: &[&str]) -> Vec<ModelInfo> {
    names.iter().map(|name| ModelInfo { name: name.to_string() }).collect()
}

#[test]
fn shows_the_provider_status() {
    assert_eq!(
        provider_status(Ok(models(&["a", "b"])), Some("b".into())),
        ProviderStatus::Ready { models: models(&["a", "b"]) }
    );
    assert_eq!(
        provider_status(Ok(models(&["a"])), Some("c".into())),
        ProviderStatus::ModelMissing { model: "c".into(), models: models(&["a"]) }
    );
    assert_eq!(
        provider_status(Ok(vec![]), None),
        ProviderStatus::ModelNotConfigured { models: vec![] }
    );
    assert_eq!(
        provider_status(Err(ProviderError::Unavailable("down".into())), Some("a".into())),
        ProviderStatus::Unavailable {
            message: "Ollama is not available. Start Ollama, then try again.".into()
        }
    );
}

#[test]
fn prepares_a_generation_in_order() {
    let explain = PromptIntent::QuickAction { action: QuickAction::Explain };
    let no_model = snapshot_for(AppConfig::default(), None);
    assert_eq!(
        prepare_generation(no_model, "text".into(), explain.clone()).err().unwrap(),
        "Choose an Ollama model in Settings before generating."
    );

    let with_model = snapshot_for(AppConfig::default(), Some("llama3".into()));
    assert_eq!(
        prepare_generation(with_model.clone(), "  ".into(), explain.clone()).err().unwrap(),
        "Select text or capture a screen before asking Snippet."
    );

    let prepared = prepare_generation(with_model, " text ".into(), explain.clone()).unwrap();
    assert_eq!(prepared.base_url, "http://localhost:11434");
    assert_eq!(prepared.request.model, "llama3");
    assert!(!prepared.request.thinking);
    assert_eq!(prepared.request.messages.len(), 2);
    assert_eq!(prepared.request.messages[0].role, ChatRole::System);
    assert!(prepared.request.messages[1].content.ends_with("<selected_text>\ntext\n</selected_text>"));

    let bad_address = snapshot_for(
        AppConfig { ollama_base_url: "ftp://x".into(), ..AppConfig::default() },
        Some("llama3".into()),
    );
    assert_eq!(
        prepare_generation(bad_address, "text".into(), explain).err().unwrap(),
        "Invalid Ollama address."
    );
}

#[test]
fn relays_only_the_current_generation() {
    let mut state = GenerationState::new();
    let (first, _, _) = state.begin();
    let mut relay = GenerationRelay::new(first);
    assert_eq!(relay.relay_delta(&state, "a".into()), Some("a".to_owned()));
    let (second, _, _) = state.begin();
    assert_eq!(relay.relay_delta(&state, "b".into()), None);
    assert_eq!(relay.conclude(&mut state, Ok(())), None);
    assert!(state.is_active(second));

    let mut relay = GenerationRelay::new(second);
    assert_eq!(relay.relay_delta(&state, "c".into()), Some("c".to_owned()));
    assert_eq!(
        relay.conclude(&mut state, Err(ProviderError::Cancelled)),
        Some(GenerationOutcome::Cancelled)
    );
    assert!(!state.is_active(second));
}
