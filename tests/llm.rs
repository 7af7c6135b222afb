use shell_assistant::llm::{
    command_from_response, ChainStep, LLMError, LLMProvider, LlmRsProvider, OllamaProvider,
    OpenAIProvider, ProviderChain, MAX_HOSTED_CALLS,
};

#[test]
fn fallback_result_is_the_secondary_result() {
    let chain = ProviderChain::new(LLMProvider::default());
    assert_eq!(chain.len(), 2);
    let first = chain.after_attempt(0, Err(LLMError::NetworkError("refused".to_string())));
    assert_eq!(first, ChainStep::Call(1));
    let second = chain.after_attempt(1, Ok("ls".to_string()));
    assert_eq!(second, ChainStep::Done(Ok("ls".to_string())));
    let failed = chain.after_attempt(1, Err(LLMError::LocalModelError("missing".to_string())));
    assert_eq!(
        failed,
        ChainStep::Done(Err(LLMError::LocalModelError("missing".to_string())))
    );
}

#[test]
fn primary_success_ends_the_chain() {
    let chain = ProviderChain::new(LLMProvider::default());
    assert_eq!(chain.after_attempt(0, Ok("pwd".to_string())), ChainStep::Done(Ok("pwd".to_string())));
    assert!(matches!(chain.provider(0), Some(LLMProvider::Ollama(_))));
    assert!(matches!(chain.provider(1), Some(LLMProvider::LlmRs(_))));
    assert!(chain.provider(2).is_none());
}

#[test]
fn chain_without_fallback_returns_primary_error() {
    let chain = ProviderChain::new(LLMProvider::LlmRs(LlmRsProvider::new("m.gguf")));
    assert_eq!(chain.len(), 1);
    assert_eq!(
        chain.after_attempt(0, Err(LLMError::RateLimitExceeded)),
        ChainStep::Done(Err(LLMError::RateLimitExceeded))
    );
}

#[test]
fn local_provider_is_disabled() {
    let provider = LlmRsProvider::new("models/tinyllama.gguf");
    assert!(matches!(provider.generate("list files"), Err(LLMError::LocalModelError(_))));
    assert_eq!(provider.model_path(), "models/tinyllama.gguf");
}

#[test]
fn hosted_key_is_checked() {
    assert_eq!(
        OpenAIProvider::new(None).err(),
        Some(LLMError::ApiKeyError(
            "OPENAI_API_KEY environment variable not set. Please set your OpenAI API key."
                .to_string()
        ))
    );
    assert_eq!(
        OpenAIProvider::new(Some("abc".to_string())).err(),
        Some(LLMError::ApiKeyError(
            "Invalid OpenAI API key format. API keys should start with 'sk-'".to_string()
        ))
    );
    let mut provider = OpenAIProvider::new(Some("sk-test".to_string())).ok().unwrap();
    assert_eq!(provider.get_model(), "gpt-3.5-turbo");
    provider.set_model("gpt-4".to_string());
    assert_eq!(provider.get_model(), "gpt-4");
    assert!(provider.is_online());
}

#[test]
fn hosted_calls_stop_at_the_budget() {
    let mut provider = OpenAIProvider::new_with_model(Some("sk-test".to_string()), "gpt-4")
        .ok()
        .unwrap();
    for _ in 0..MAX_HOSTED_CALLS {
        assert_eq!(provider.begin_call(), Ok(()));
    }
    assert_eq!(provider.begin_call(), Err(LLMError::RateLimitExceeded));
    assert_eq!(provider.begin_call(), Err(LLMError::RateLimitExceeded));
}

#[test]
fn http_status_errors() {
    assert_eq!(
        OpenAIProvider::error_for_status(401, "401 Unauthorized", "no"),
        LLMError::ApiKeyError(
            "Invalid OpenAI API key. Please check your OPENAI_API_KEY environment variable."
                .to_string()
        )
    );
    assert_eq!(
        OpenAIProvider::error_for_status(429, "429 Too Many Requests", ""),
        LLMError::RateLimitExceeded
    );
    assert_eq!(
        OpenAIProvider::error_for_status(500, "500 Internal Server Error", "boom"),
        LLMError::ParsingError("OpenAI API error (500 Internal Server Error): boom".to_string())
    );
}

#[test]
fn first_choice_is_the_answer() {
    assert_eq!(
        OpenAIProvider::first_choice(vec!["a".to_string(), "b".to_string()]),
        Ok("a".to_string())
    );
    assert_eq!(
        OpenAIProvider::first_choice(Vec::new()),
        Err(LLMError::ParsingError("No choices in OpenAI response".to_string()))
    );
}

#[test]
fn error_messages() {
    assert_eq!(LLMError::RateLimitExceeded.message(), "Rate limit exceeded");
    assert_eq!(LLMError::NetworkError("down".to_string()).message(), "Network error: down");
    assert_eq!(LLMError::ApiKeyError("none".to_string()).message(), "API key not found: none");
}

#[test]
fn daemon_model_decides_online() {
    assert!(OllamaProvider::new("wizardcoder").is_online());
    assert!(!OllamaProvider::new("codellama").is_online());
    assert!(!LLMProvider::default().is_online());
    assert_eq!(LLMProvider::default().name(), "Ollama");
    assert_eq!(OllamaProvider::new("codellama").api_url(), "http://localhost:11434/api/generate");
}

#[test]
fn response_becomes_command() {
    assert_eq!(
        command_from_response(Ok("Command: ls\nExplanation: lists files".to_string())),
        Ok(("ls".to_string(), "lists files".to_string()))
    );
    assert_eq!(
        command_from_response(Err(LLMError::Unknown("x".to_string()))),
        Err(LLMError::Unknown("x".to_string()))
    );
    assert_eq!(
        command_from_response(Ok(String::new())),
        Err(LLMError::ParsingError("Failed to parse LLM response. Raw response: ".to_string()))
    );
}
